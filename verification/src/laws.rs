//! What holds of every write, proved of the model that the writer is held to.

use crate::model::{Effect, Phase, WriterModel};
use crate::naming::{file_name_spec, lemma_file_names_differ};
use crate::time_tag::NormalizedTimeTag;
use crate::trace::{
    chunks_full, chunks_within, closes_at, file_open_after, numbered_files, one_file_at_a_time,
    opened_files, row_groups_in_open_file, written_rows,
};
use vstd::prelude::*;

verus! {

/// Taking in one record more is taking in the records before it, then that one.
pub proof fn lemma_push_all_step(
    model: WriterModel,
    records: Seq<NormalizedTimeTag>,
    tag: NormalizedTimeTag,
)
    ensures
        model.push_all(records.push(tag)) == model.push_all(records).push(tag),
        model.push_all_effects(records.push(tag)) == model.push_all_effects(records)
            + model.push_all(records).push_effects(tag),
{
    assert(records.push(tag).drop_last() =~= records);
}

/// The buffer bound. Between any two records the buffer holds fewer rows than
/// `max_chunk_rows`, so it never holds more than `max_chunk_rows` rows. The thresholds and the
/// parts of the file name stay as they are, the file stays open, and sequence numbers only grow.
pub proof fn lemma_push_all_wf(model: WriterModel, records: Seq<NormalizedTimeTag>)
    requires
        model.wf(),
        model.phase == Phase::Open,
    ensures
        model.push_all(records).wf(),
        model.push_all(records).phase == Phase::Open,
        model.push_all(records).max_chunk_rows == model.max_chunk_rows,
        model.push_all(records).max_chunks_per_file == model.max_chunks_per_file,
        model.push_all(records).timestamp == model.timestamp,
        model.push_all(records).label == model.label,
        model.push_all(records).sequence_number >= model.sequence_number,
    decreases records.len(),
{
    if records.len() > 0 {
        lemma_push_all_wf(model, records.drop_last());
    }
}

/// Sequence numbers only grow along the input: after a part of the records the number is no
/// greater than after all of them.
pub proof fn lemma_sequence_grows(model: WriterModel, records: Seq<NormalizedTimeTag>, part: int)
    requires
        model.wf(),
        model.phase == Phase::Open,
        0 <= part <= records.len(),
    ensures
        model.push_all(records.take(part)).sequence_number <= model.push_all(
            records,
        ).sequence_number,
    decreases records.len(),
{
    if part == records.len() {
        assert(records.take(part) =~= records);
    } else {
        assert(records.drop_last().take(part) =~= records.take(part));
        lemma_sequence_grows(model, records.drop_last(), part);
        lemma_push_all_wf(model, records.drop_last());
    }
}

/// Every rotation takes a full chunk: the files opened along the input, times
/// `max_chunk_rows`, are no more than the rows that went into row groups.
pub proof fn lemma_rotations_bounded(model: WriterModel, records: Seq<NormalizedTimeTag>)
    requires
        model.wf(),
        model.phase == Phase::Open,
    ensures
        (model.push_all(records).sequence_number - model.sequence_number) * model.max_chunk_rows
            + model.push_all(records).buffered.len() <= model.buffered.len() + records.len(),
    decreases records.len(),
{
    let rows = model.max_chunk_rows as int;
    let after = model.push_all(records);
    let opened = after.sequence_number - model.sequence_number;
    if records.len() == 0 {
        assert(opened * rows == 0) by (nonlinear_arith)
            requires
                opened == 0,
        ;
    } else {
        let before = model.push_all(records.drop_last());
        let opened_before = before.sequence_number - model.sequence_number;
        lemma_rotations_bounded(model, records.drop_last());
        lemma_push_all_wf(model, records.drop_last());
        assert(opened * rows == opened_before * rows + (opened - opened_before) * rows)
            by (nonlinear_arith);
        assert((opened - opened_before) * rows == if opened == opened_before {
            0
        } else {
            rows
        }) by (nonlinear_arith)
            requires
                opened == opened_before || opened == opened_before + 1,
        ;
    }
}

/// The rows written by two lists of effects, one after the other, are the rows of the first
/// followed by the rows of the second.
pub proof fn lemma_written_rows_concat(first: Seq<Effect>, second: Seq<Effect>)
    ensures
        written_rows(first + second) == written_rows(first) + written_rows(second),
    decreases second.len(),
{
    if second.len() > 0 {
        assert((first + second).drop_last() =~= first + second.drop_last());
        lemma_written_rows_concat(first, second.drop_last());
    }
}

/// The files opened by two lists of effects, one after the other, are those of the first
/// followed by those of the second.
pub proof fn lemma_opened_files_concat(first: Seq<Effect>, second: Seq<Effect>)
    ensures
        opened_files(first + second) == opened_files(first) + opened_files(second),
    decreases second.len(),
{
    if second.len() > 0 {
        assert((first + second).drop_last() =~= first + second.drop_last());
        lemma_opened_files_concat(first, second.drop_last());
    }
}

/// What the effects of one record write: the buffer and the record where the buffer is
/// flushed, and nothing where it is not.
pub proof fn lemma_push_writes(model: WriterModel, tag: NormalizedTimeTag)
    ensures
        written_rows(model.push_effects(tag)) == if model.fills_chunk() {
            model.buffered.push(tag)
        } else {
            Seq::empty()
        },
{
    reveal_with_fuel(written_rows, 4);
}

/// What the effects of one record open: the next file where the record rotates, and nothing
/// where it does not.
pub proof fn lemma_push_opens(model: WriterModel, tag: NormalizedTimeTag)
    ensures
        opened_files(model.push_effects(tag)) == if model.rotates() {
            seq![model.push(tag).file_name()]
        } else {
            Seq::empty()
        },
{
    reveal_with_fuel(opened_files, 4);
}

/// Along the input nothing is lost: the rows written so far, followed by the rows still
/// buffered, are the rows buffered at the start followed by the records taken in.
pub proof fn lemma_rows_kept(model: WriterModel, records: Seq<NormalizedTimeTag>)
    requires
        model.wf(),
        model.phase == Phase::Open,
    ensures
        written_rows(model.push_all_effects(records)) + model.push_all(records).buffered
            == model.buffered + records,
    decreases records.len(),
{
    if records.len() > 0 {
        let earlier = records.drop_last();
        let before = model.push_all(earlier);
        lemma_rows_kept(model, earlier);
        lemma_written_rows_concat(
            model.push_all_effects(earlier),
            before.push_effects(records.last()),
        );
        lemma_push_writes(before, records.last());
        assert(written_rows(model.push_all_effects(records)) + model.push_all(records).buffered
            =~= (written_rows(model.push_all_effects(earlier)) + before.buffered).push(
            records.last(),
        ));
    }
}

/// Row conservation and order. The rows of all row groups of all files of a write, in the
/// order in which they are written, are the records of the input in their order: none is
/// dropped, none is written twice, and none changes its place.
pub proof fn lemma_rows_conserved(model: WriterModel, records: Seq<NormalizedTimeTag>)
    requires
        model.wf(),
        model.phase == Phase::Idle,
    ensures
        written_rows(model.write_effects(records)) == records,
        written_rows(model.write_effects(records)).len() == records.len(),
{
    reveal_with_fuel(written_rows, 3);
    let begun = model.begin();
    let end = begun.push_all(records);
    lemma_rows_kept(begun, records);
    lemma_written_rows_concat(model.begin_effects(), begun.push_all_effects(records));
    lemma_written_rows_concat(
        model.begin_effects() + begun.push_all_effects(records),
        end.finish_effects(),
    );
    assert(written_rows(model.begin_effects()) =~= Seq::<NormalizedTimeTag>::empty());
    assert(written_rows(end.finish_effects()) =~= end.buffered);
}

/// Every chunk that a record flushes is full: the row groups written along the input have
/// exactly `max_chunk_rows` rows each.
pub proof fn lemma_flushed_chunks_full(model: WriterModel, records: Seq<NormalizedTimeTag>)
    requires
        model.wf(),
        model.phase == Phase::Open,
    ensures
        chunks_full(model.push_all_effects(records), model.max_chunk_rows),
    decreases records.len(),
{
    if records.len() > 0 {
        lemma_flushed_chunks_full(model, records.drop_last());
        lemma_push_all_wf(model, records.drop_last());
    }
}

/// The chunk bound. No row group of a write is empty, and none has more rows than
/// `max_chunk_rows`: what is in memory at any time is at most one chunk.
pub proof fn lemma_chunks_bounded(model: WriterModel, records: Seq<NormalizedTimeTag>)
    requires
        model.wf(),
        model.phase == Phase::Idle,
    ensures
        chunks_within(model.write_effects(records), model.max_chunk_rows),
{
    lemma_flushed_chunks_full(model.begin(), records);
    lemma_push_all_wf(model.begin(), records);
}

/// The files opened along the input carry the sequence numbers that follow the one of the
/// file that was open at the start, each once and in order.
pub proof fn lemma_files_numbered_along(model: WriterModel, records: Seq<NormalizedTimeTag>)
    requires
        model.wf(),
        model.phase == Phase::Open,
    ensures
        opened_files(model.push_all_effects(records)) == numbered_files(
            model.timestamp,
            model.label,
            model.sequence_number + 1,
            (model.push_all(records).sequence_number - model.sequence_number) as nat,
        ),
    decreases records.len(),
{
    if records.len() > 0 {
        let earlier = records.drop_last();
        let before = model.push_all(earlier);
        lemma_files_numbered_along(model, earlier);
        lemma_push_all_wf(model, earlier);
        lemma_opened_files_concat(
            model.push_all_effects(earlier),
            before.push_effects(records.last()),
        );
        lemma_push_opens(before, records.last());
    }
}

/// File numbering. The files that a write opens are numbered from one, without a gap, in the
/// order in which they are opened, up to the number of the file that is open at the end.
pub proof fn lemma_files_numbered(model: WriterModel, records: Seq<NormalizedTimeTag>)
    requires
        model.wf(),
        model.phase == Phase::Idle,
    ensures
        opened_files(model.write_effects(records)) == numbered_files(
            model.timestamp,
            model.label,
            1,
            model.write(records).sequence_number,
        ),
{
    reveal_with_fuel(opened_files, 3);
    let begun = model.begin();
    let end = begun.push_all(records);
    lemma_files_numbered_along(begun, records);
    lemma_opened_files_concat(model.begin_effects(), begun.push_all_effects(records));
    lemma_opened_files_concat(
        model.begin_effects() + begun.push_all_effects(records),
        end.finish_effects(),
    );
    assert(opened_files(model.begin_effects()) =~= seq![model.file_name()]);
    assert(opened_files(end.finish_effects()) =~= Seq::<Seq<char>>::empty());
    lemma_push_all_wf(begun, records);
    let along = numbered_files(
        model.timestamp,
        model.label,
        2,
        (end.sequence_number - 1) as nat,
    );
    let all = numbered_files(model.timestamp, model.label, 1, end.sequence_number);
    assert(seq![model.file_name()] + along =~= all);
}

/// Naming uniqueness. No two files that a write opens have the same name.
pub proof fn lemma_file_names_unique(
    model: WriterModel,
    records: Seq<NormalizedTimeTag>,
    first: int,
    second: int,
)
    requires
        model.wf(),
        model.phase == Phase::Idle,
        0 <= first < second < opened_files(model.write_effects(records)).len(),
    ensures
        opened_files(model.write_effects(records))[first] != opened_files(
            model.write_effects(records),
        )[second],
{
    lemma_files_numbered(model, records);
    lemma_file_names_differ(
        model.timestamp,
        model.label,
        (1 + first) as nat,
        (1 + second) as nat,
    );
}

/// Empty input. A write of no record opens the first file and closes it: one file, with no
/// row group in it.
pub proof fn lemma_empty_input(model: WriterModel)
    requires
        model.wf(),
        model.phase == Phase::Idle,
    ensures
        model.write_effects(Seq::empty()) == seq![
            Effect::OpenFile {
                name: file_name_spec(model.timestamp, model.label, 1),
            },
            Effect::CloseFile,
        ],
{
}

/// Along the input the session is kept: one file at a time, the file open after every record,
/// the chunk count equal to the row groups that the open file holds, and every file that was
/// closed holding one row group more than `max_chunks_per_file`.
pub proof fn lemma_session_kept(
    head: Seq<Effect>,
    model: WriterModel,
    records: Seq<NormalizedTimeTag>,
)
    requires
        model.wf(),
        model.phase == Phase::Open,
        one_file_at_a_time(head, false),
        file_open_after(head, false),
        row_groups_in_open_file(head) == model.chunk_count,
        closes_at(head, model.max_chunks_per_file + 1),
    ensures
        one_file_at_a_time(head + model.push_all_effects(records), false),
        file_open_after(head + model.push_all_effects(records), false),
        row_groups_in_open_file(head + model.push_all_effects(records)) == model.push_all(
            records,
        ).chunk_count,
        closes_at(head + model.push_all_effects(records), model.max_chunks_per_file + 1),
    decreases records.len(),
{
    if records.len() > 0 {
        let earlier = records.drop_last();
        let tag = records.last();
        let before = model.push_all(earlier);
        let so_far = head + model.push_all_effects(earlier);
        lemma_session_kept(head, model, earlier);
        lemma_push_all_wf(model, earlier);
        let rows = before.buffered.push(tag);
        let wrote = so_far.push(Effect::WriteRowGroup { rows });
        let closed = wrote.push(Effect::CloseFile);
        let opened = closed.push(Effect::OpenFile { name: before.push(tag).file_name() });
        let groups = model.max_chunks_per_file + 1;
        assert(wrote.drop_last() =~= so_far);
        assert(closed.drop_last() =~= wrote);
        assert(opened.drop_last() =~= closed);
        assert(one_file_at_a_time(wrote, false) && file_open_after(wrote, false));
        assert(closes_at(wrote, groups));
        if before.rotates() {
            assert(one_file_at_a_time(closed, false) && !file_open_after(closed, false));
            assert(closes_at(closed, groups));
            assert(head + model.push_all_effects(records) =~= opened);
        } else if before.fills_chunk() {
            assert(head + model.push_all_effects(records) =~= wrote);
        }
    }
}

/// One file at a time. The effects of a write keep to the life of a file handle: every file
/// is opened while no other is open, every row group goes into a file that is open, and at
/// the end no file is left open.
pub proof fn lemma_one_file_open(model: WriterModel, records: Seq<NormalizedTimeTag>)
    requires
        model.wf(),
        model.phase == Phase::Idle,
    ensures
        one_file_at_a_time(model.write_effects(records), false),
        !file_open_after(model.write_effects(records), false),
{
    lemma_write_session(model, records);
}

/// The rotation boundary. A file is closed before the end of the input exactly when it holds
/// one row group more than `max_chunks_per_file`; the file that is open at the end of the
/// input holds at most that many when it is closed.
pub proof fn lemma_rotation_boundary(model: WriterModel, records: Seq<NormalizedTimeTag>)
    requires
        model.wf(),
        model.phase == Phase::Idle,
    ensures
        closes_at(
            model.begin_effects() + model.begin().push_all_effects(records),
            model.max_chunks_per_file + 1,
        ),
        row_groups_in_open_file(model.write_effects(records)) <= model.max_chunks_per_file + 1,
{
    lemma_write_session(model, records);
}

/// The session of a whole write: what `lemma_session_kept` keeps along the input, from the
/// first file to the last.
proof fn lemma_write_session(model: WriterModel, records: Seq<NormalizedTimeTag>)
    requires
        model.wf(),
        model.phase == Phase::Idle,
    ensures
        one_file_at_a_time(model.write_effects(records), false),
        !file_open_after(model.write_effects(records), false),
        closes_at(
            model.begin_effects() + model.begin().push_all_effects(records),
            model.max_chunks_per_file + 1,
        ),
        row_groups_in_open_file(model.write_effects(records)) <= model.max_chunks_per_file + 1,
{
    let begun = model.begin();
    let end = begun.push_all(records);
    let head = model.begin_effects();
    assert(one_file_at_a_time(head.drop_last(), false));
    assert(closes_at(head.drop_last(), model.max_chunks_per_file + 1));
    lemma_session_kept(head, begun, records);
    lemma_push_all_wf(begun, records);
    let so_far = head + begun.push_all_effects(records);
    let wrote = so_far.push(Effect::WriteRowGroup { rows: end.buffered });
    assert(wrote.drop_last() =~= so_far);
    assert(one_file_at_a_time(wrote, false) && file_open_after(wrote, false));
    assert(row_groups_in_open_file(wrote) == end.chunk_count + 1);
    if end.buffered.len() > 0 {
        let closed = wrote.push(Effect::CloseFile);
        assert(closed.drop_last() =~= wrote);
        assert(model.write_effects(records) =~= closed);
    } else {
        let closed = so_far.push(Effect::CloseFile);
        assert(closed.drop_last() =~= so_far);
        assert(model.write_effects(records) =~= closed);
    }
}

} // verus!
