use timetag_parquet::naming::{file_name, FILE_EXTENSION, SEPARATOR, SEQUENCE_WIDTH};

#[test]
fn first_file_of_a_run() {
    assert_eq!(
        file_name("20240102T030405Z", "simulation-1", 1),
        "20240102T030405Z_simulation-1_0001.parquet"
    );
}

#[test]
fn sequence_number_is_padded_to_four_digits() {
    assert_eq!(file_name("T", "x", 0), "T_x_0000.parquet");
    assert_eq!(file_name("T", "x", 7), "T_x_0007.parquet");
    assert_eq!(file_name("T", "x", 12), "T_x_0012.parquet");
    assert_eq!(file_name("T", "x", 345), "T_x_0345.parquet");
    assert_eq!(file_name("T", "x", 9999), "T_x_9999.parquet");
}

#[test]
fn sequence_number_beyond_four_digits_is_written_in_full() {
    assert_eq!(file_name("T", "x", 10_000), "T_x_10000.parquet");
    assert_eq!(file_name("T", "x", u64::MAX), "T_x_18446744073709551615.parquet");
}

#[test]
fn every_digit_is_written() {
    assert_eq!(file_name("", "", 1_234_567_890), "__1234567890.parquet");
}

#[test]
fn file_name_agrees_with_the_standard_formatting() {
    for number in [1u64, 9, 10, 99, 100, 999, 1000, 9999, 10_000, 123_456] {
        assert_eq!(file_name("ts", "label", number), format!("ts_label_{number:0>4}.parquet"));
    }
}

#[test]
fn empty_timestamp_and_label_keep_the_separators() {
    assert_eq!(file_name("", "", 1), "__0001.parquet");
}

#[test]
fn label_is_taken_as_it_is() {
    assert_eq!(file_name("T", "a_b c.d", 2), "T_a_b c.d_0002.parquet");
    assert_eq!(file_name("T", "d\u{e9}tecteur", 2), "T_d\u{e9}tecteur_0002.parquet");
}

#[test]
fn different_sequence_numbers_give_different_names() {
    let mut names: Vec<String> = Vec::new();
    for number in 1..=200u64 {
        names.push(file_name("20240102T030405Z", "run", number));
    }
    for first in 0..names.len() {
        for second in (first + 1)..names.len() {
            assert_ne!(names[first], names[second]);
        }
    }
}

#[test]
fn padded_and_unpadded_numbers_do_not_collide() {
    assert_ne!(file_name("T", "x", 1), file_name("T", "x", 1000));
    assert_ne!(file_name("T", "x", 10), file_name("T", "x", 100));
}

#[test]
fn parts_of_a_file_name() {
    assert_eq!(SEPARATOR, "_");
    assert_eq!(FILE_EXTENSION, ".parquet");
    assert_eq!(SEQUENCE_WIDTH, 4);
}
