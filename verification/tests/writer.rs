use arrow::array::{Array, UInt16Array, UInt64Array};
use timetag_parquet::config::WriterConfig;
use timetag_parquet::error::{StorageFault, WriteError};
use timetag_parquet::model::Phase;
use timetag_parquet::schema::time_tag_schema;
use timetag_parquet::writer::{Action, TimeTagWriter};
use timetag_parquet::{write_time_tags, NormalizedTimeTag};

fn tag(channel_id: u16, time_tag_ps: u64) -> NormalizedTimeTag {
    NormalizedTimeTag { channel_id, time_tag_ps }
}

/// The records `(0, 1), (1, 2), (0, 3), ...`: channels alternate, time tags count up from one.
fn records(count: u64) -> Vec<NormalizedTimeTag> {
    (1..=count).map(|number| tag(((number - 1) % 2) as u16, number)).collect()
}

/// Each action in words: `open NAME`, `write (channel, time tag) ...`, `close`.
fn describe(actions: Vec<Action>) -> Vec<String> {
    let mut described = Vec::new();
    for action in actions {
        match action {
            Action::OpenFile { name } => described.push(format!("open {name}")),
            Action::CloseFile => described.push("close".to_string()),
            Action::WriteRowGroup { group } => {
                let batch = group.batch;
                assert_eq!(batch.schema(), time_tag_schema());
                let channels = batch.column(0).as_any().downcast_ref::<UInt16Array>().unwrap();
                let time_tags = batch.column(1).as_any().downcast_ref::<UInt64Array>().unwrap();
                assert_eq!(channels.len(), time_tags.len());
                assert_eq!(channels.null_count(), 0);
                assert_eq!(time_tags.null_count(), 0);
                let mut text = "write".to_string();
                for row in 0..batch.num_rows() {
                    text.push_str(&format!(" ({}, {})", channels.value(row), time_tags.value(row)));
                }
                described.push(text);
            }
        }
    }
    described
}

fn writer(max_chunk_rows: usize, max_file_rows: usize) -> TimeTagWriter {
    TimeTagWriter::new(WriterConfig::new(max_chunk_rows, max_file_rows).unwrap(), "T", "run")
}

#[test]
fn new_writer_is_idle_at_file_one() {
    let writer = writer(2, 4);
    assert_eq!(writer.phase(), Phase::Idle);
    assert_eq!(writer.sequence_number(), 1);
    assert_eq!(writer.chunk_count(), 0);
    assert_eq!(writer.buffered_rows(), 0);
    assert_eq!(writer.current_file_name(), "T_run_0001.parquet");
}

#[test]
fn writer_holds_the_schema_of_the_library() {
    let writer = writer(2, 4);
    assert_eq!(writer.schema(), &time_tag_schema());
}

#[test]
fn begin_opens_the_first_file() {
    let mut writer = writer(2, 4);
    let actions = writer.begin(true).unwrap();
    assert_eq!(describe(actions), vec!["open T_run_0001.parquet"]);
    assert_eq!(writer.phase(), Phase::Open);
    assert_eq!(writer.sequence_number(), 1);
}

#[test]
fn missing_output_directory_is_a_configuration_error_and_no_file_is_made() {
    let mut writer = writer(2, 4);
    assert!(matches!(writer.begin(false), Err(WriteError::NotADirectory)));
    assert_eq!(writer.phase(), Phase::Closed);
    assert!(matches!(writer.push(tag(0, 1)), Err(WriteError::NotOpen)));
    assert!(matches!(writer.finish(), Err(WriteError::NotOpen)));
    assert!(matches!(writer.begin(true), Err(WriteError::NotIdle)));
}

#[test]
fn begin_is_accepted_once() {
    let mut writer = writer(2, 4);
    assert!(writer.begin(true).is_ok());
    assert!(matches!(writer.begin(true), Err(WriteError::NotIdle)));
    assert!(matches!(writer.begin(false), Err(WriteError::NotIdle)));
    assert_eq!(writer.phase(), Phase::Open);
}

#[test]
fn records_are_refused_before_the_writer_has_begun() {
    let mut writer = writer(2, 4);
    assert!(matches!(writer.push(tag(0, 1)), Err(WriteError::NotOpen)));
    assert!(matches!(writer.finish(), Err(WriteError::NotOpen)));
    assert_eq!(writer.phase(), Phase::Idle);
    assert_eq!(writer.buffered_rows(), 0);
}

#[test]
fn nothing_is_accepted_after_the_end() {
    let mut writer = writer(2, 4);
    writer.begin(true).unwrap();
    writer.push(tag(0, 1)).unwrap();
    assert_eq!(describe(writer.finish().unwrap()), vec!["write (0, 1)", "close"]);
    assert_eq!(writer.phase(), Phase::Closed);
    assert!(matches!(writer.push(tag(0, 2)), Err(WriteError::NotOpen)));
    assert!(matches!(writer.finish(), Err(WriteError::NotOpen)));
    assert!(matches!(writer.begin(true), Err(WriteError::NotIdle)));
    assert_eq!(writer.buffered_rows(), 0);
}

#[test]
fn record_that_fills_the_buffer_flushes_it() {
    let mut writer = writer(3, 100);
    writer.begin(true).unwrap();
    assert_eq!(describe(writer.push(tag(0, 100)).unwrap()), Vec::<String>::new());
    assert_eq!(writer.buffered_rows(), 1);
    assert_eq!(describe(writer.push(tag(1, 200)).unwrap()), Vec::<String>::new());
    assert_eq!(writer.buffered_rows(), 2);
    assert_eq!(
        describe(writer.push(tag(0, 181)).unwrap()),
        vec!["write (0, 100) (1, 200) (0, 181)"]
    );
    assert_eq!(writer.buffered_rows(), 0);
    assert_eq!(writer.chunk_count(), 1);
    assert_eq!(writer.sequence_number(), 1);
}

#[test]
fn rotation_fires_only_after_the_chunk_count_exceeds_the_limit() {
    let mut writer = writer(2, 4);
    let mut log = describe(writer.begin(true).unwrap());
    for record in records(10) {
        log.extend(describe(writer.push(record).unwrap()));
    }
    log.extend(describe(writer.finish().unwrap()));
    assert_eq!(
        log,
        vec![
            "open T_run_0001.parquet",
            "write (0, 1) (1, 2)",
            "write (0, 3) (1, 4)",
            "write (0, 5) (1, 6)",
            "close",
            "open T_run_0002.parquet",
            "write (0, 7) (1, 8)",
            "write (0, 9) (1, 10)",
            "close",
        ]
    );
    assert_eq!(writer.sequence_number(), 2);
    assert_eq!(writer.chunk_count(), 2);
}

#[test]
fn rotation_at_the_last_record_leaves_an_empty_last_file() {
    let mut writer = writer(2, 4);
    let log = describe(writer.write_all(true, &records(6)).unwrap());
    assert_eq!(
        log,
        vec![
            "open T_run_0001.parquet",
            "write (0, 1) (1, 2)",
            "write (0, 3) (1, 4)",
            "write (0, 5) (1, 6)",
            "close",
            "open T_run_0002.parquet",
            "close",
        ]
    );
}

#[test]
fn last_flush_rotates_nothing() {
    let mut writer = writer(2, 4);
    let log = describe(writer.write_all(true, &records(13)).unwrap());
    assert_eq!(
        log,
        vec![
            "open T_run_0001.parquet",
            "write (0, 1) (1, 2)",
            "write (0, 3) (1, 4)",
            "write (0, 5) (1, 6)",
            "close",
            "open T_run_0002.parquet",
            "write (0, 7) (1, 8)",
            "write (0, 9) (1, 10)",
            "write (0, 11) (1, 12)",
            "close",
            "open T_run_0003.parquet",
            "write (0, 13)",
            "close",
        ]
    );
    assert_eq!(writer.phase(), Phase::Closed);
    assert_eq!(writer.sequence_number(), 3);
}

#[test]
fn file_threshold_below_chunk_threshold_puts_one_row_group_in_each_file() {
    let mut writer = writer(2, 1);
    let log = describe(writer.write_all(true, &records(5)).unwrap());
    assert_eq!(
        log,
        vec![
            "open T_run_0001.parquet",
            "write (0, 1) (1, 2)",
            "close",
            "open T_run_0002.parquet",
            "write (0, 3) (1, 4)",
            "close",
            "open T_run_0003.parquet",
            "write (0, 5)",
            "close",
        ]
    );
}

#[test]
fn chunk_of_one_row_flushes_every_record() {
    let mut writer = writer(1, 2);
    let log = describe(writer.write_all(true, &records(4)).unwrap());
    assert_eq!(
        log,
        vec![
            "open T_run_0001.parquet",
            "write (0, 1)",
            "write (1, 2)",
            "write (0, 3)",
            "close",
            "open T_run_0002.parquet",
            "write (1, 4)",
            "close",
        ]
    );
}

#[test]
fn empty_input_gives_one_file_without_row_groups() {
    let mut writer = writer(2, 4);
    let log = describe(writer.write_all(true, &Vec::new()).unwrap());
    assert_eq!(log, vec!["open T_run_0001.parquet", "close"]);
    assert_eq!(writer.phase(), Phase::Closed);
}

#[test]
fn five_records_in_chunks_of_two_stay_in_one_file() {
    let input = vec![tag(0, 100), tag(1, 200), tag(0, 181), tag(1, 201), tag(0, 210)];
    let mut writer = writer(2, 100);
    let log = describe(writer.write_all(true, &input).unwrap());
    assert_eq!(
        log,
        vec![
            "open T_run_0001.parquet",
            "write (0, 100) (1, 200)",
            "write (0, 181) (1, 201)",
            "write (0, 210)",
            "close",
        ]
    );
}

#[test]
fn every_record_is_written_once_and_in_order() {
    for count in 0..40u64 {
        for max_chunk_rows in 1..6usize {
            let input = records(count);
            let mut writer = writer(max_chunk_rows, 7);
            let mut written = String::new();
            for line in describe(writer.write_all(true, &input).unwrap()) {
                if let Some(rows) = line.strip_prefix("write") {
                    written.push_str(rows);
                }
            }
            let mut expected = String::new();
            for record in &input {
                expected.push_str(&format!(" ({}, {})", record.channel_id, record.time_tag_ps));
            }
            assert_eq!(written, expected);
        }
    }
}

#[test]
fn buffer_never_holds_more_than_a_chunk() {
    let mut writer = writer(4, 8);
    writer.begin(true).unwrap();
    for record in records(50) {
        assert!(writer.buffered_rows() < 4);
        for line in describe(writer.push(record).unwrap()) {
            if let Some(rows) = line.strip_prefix("write") {
                assert_eq!(rows.matches('(').count(), 4);
            }
        }
        assert!(writer.buffered_rows() < 4);
    }
}

#[test]
fn files_are_numbered_from_one_without_a_gap_and_no_name_comes_twice() {
    let mut writer = writer(1, 0);
    let mut names = Vec::new();
    for line in describe(writer.write_all(true, &records(25)).unwrap()) {
        if let Some(name) = line.strip_prefix("open ") {
            names.push(name.to_string());
        }
    }
    assert_eq!(names.len(), 26);
    for (index, name) in names.iter().enumerate() {
        assert_eq!(name, &format!("T_run_{:0>4}.parquet", index + 1));
    }
    for first in 0..names.len() {
        for second in (first + 1)..names.len() {
            assert_ne!(names[first], names[second]);
        }
    }
}

#[test]
fn one_file_is_open_at_a_time() {
    let mut writer = writer(2, 4);
    let mut open = false;
    for line in describe(writer.write_all(true, &records(31)).unwrap()) {
        if line.starts_with("open ") {
            assert!(!open);
            open = true;
        } else if line == "close" {
            assert!(open);
            open = false;
        } else {
            assert!(open);
        }
    }
    assert!(!open);
}

#[test]
fn write_all_is_refused_after_the_writer_has_begun() {
    let mut writer = writer(2, 4);
    writer.begin(true).unwrap();
    assert!(matches!(writer.write_all(true, &records(3)), Err(WriteError::NotIdle)));
    assert_eq!(writer.phase(), Phase::Open);
    assert_eq!(writer.buffered_rows(), 0);
}

#[test]
fn write_all_without_a_directory_does_nothing() {
    let mut writer = writer(2, 4);
    assert!(matches!(writer.write_all(false, &records(3)), Err(WriteError::NotADirectory)));
    assert_eq!(writer.phase(), Phase::Closed);
}

#[test]
fn timestamp_of_the_clock_is_compact_and_in_utc() {
    let writer = TimeTagWriter::with_current_time(WriterConfig::new(2, 4).unwrap(), "run");
    let name = writer.current_file_name();
    let timestamp = name.strip_suffix("_run_0001.parquet").unwrap();
    assert_eq!(timestamp.len(), 16);
    for (index, character) in timestamp.chars().enumerate() {
        match index {
            8 => assert_eq!(character, 'T'),
            15 => assert_eq!(character, 'Z'),
            _ => assert!(character.is_ascii_digit()),
        }
    }
    assert!(timestamp >= "20240101T000000Z");
}

#[test]
fn timestamp_is_taken_once_for_all_files_of_a_run() {
    let mut writer = TimeTagWriter::with_current_time(WriterConfig::new(1, 0).unwrap(), "run");
    let first = writer.current_file_name();
    let stamp = first.strip_suffix("_run_0001.parquet").unwrap().to_string();
    let mut names = Vec::new();
    for action in writer.write_all(true, &records(3)).unwrap() {
        if let Action::OpenFile { name } = action {
            names.push(name);
        }
    }
    assert_eq!(
        names,
        vec![
            format!("{stamp}_run_0001.parquet"),
            format!("{stamp}_run_0002.parquet"),
            format!("{stamp}_run_0003.parquet"),
            format!("{stamp}_run_0004.parquet"),
        ]
    );
}

#[test]
fn write_time_tags_plans_a_small_write_as_one_file() {
    let input = vec![tag(0, 100), tag(1, 200), tag(0, 181), tag(1, 201), tag(0, 210)];
    let log = describe(write_time_tags(input, true, "simulation-1").unwrap());
    assert_eq!(log.len(), 3);
    assert!(log[0].starts_with("open "));
    assert!(log[0].ends_with("Z_simulation-1_0001.parquet"));
    assert_eq!(log[1], "write (0, 100) (1, 200) (0, 181) (1, 201) (0, 210)");
    assert_eq!(log[2], "close");
}

#[test]
fn write_time_tags_of_nothing_plans_one_empty_file() {
    let log = describe(write_time_tags(Vec::new(), true, "empty").unwrap());
    assert_eq!(log.len(), 2);
    assert!(log[0].starts_with("open "));
    assert!(log[0].ends_with("Z_empty_0001.parquet"));
    assert_eq!(log[1], "close");
}

#[test]
fn write_time_tags_without_a_directory_is_a_configuration_error() {
    assert!(matches!(
        write_time_tags(vec![tag(0, 100)], false, "simulation-1"),
        Err(WriteError::NotADirectory)
    ));
}

#[test]
fn existing_file_ends_the_write_as_a_name_collision() {
    let mut writer = writer(2, 4);
    writer.begin(true).unwrap();
    assert!(matches!(writer.fail(StorageFault::FileExists), WriteError::NameCollision));
    assert_eq!(writer.phase(), Phase::Closed);
    assert!(matches!(writer.push(tag(0, 1)), Err(WriteError::NotOpen)));
    assert!(matches!(writer.finish(), Err(WriteError::NotOpen)));
}

#[test]
fn failing_storage_ends_the_write_as_an_io_error_and_gives_the_buffer_up() {
    let mut writer = writer(3, 6);
    writer.begin(true).unwrap();
    writer.push(tag(0, 1)).unwrap();
    writer.push(tag(1, 2)).unwrap();
    assert_eq!(writer.buffered_rows(), 2);
    assert!(matches!(writer.fail(StorageFault::Other), WriteError::Io));
    assert_eq!(writer.phase(), Phase::Closed);
    assert_eq!(writer.buffered_rows(), 0);
    assert!(matches!(writer.push(tag(0, 3)), Err(WriteError::NotOpen)));
    assert!(matches!(writer.begin(true), Err(WriteError::NotIdle)));
}

#[test]
fn failure_before_the_first_step_ends_the_write_too() {
    let mut writer = writer(3, 6);
    assert!(matches!(writer.fail(StorageFault::Other), WriteError::Io));
    assert_eq!(writer.phase(), Phase::Closed);
    assert_eq!(writer.sequence_number(), 1);
    assert!(matches!(writer.begin(true), Err(WriteError::NotIdle)));
}
