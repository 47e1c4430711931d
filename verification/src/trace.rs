//! What can be read off a list of effects: the rows it writes, the files it opens, and how it
//! keeps to the life of a file.

use crate::model::Effect;
use crate::naming::file_name_spec;
use crate::time_tag::NormalizedTimeTag;
use vstd::prelude::*;

verus! {

/// The rows of all row groups of a list of effects, in the order in which they are written.
pub open spec fn written_rows(effects: Seq<Effect>) -> Seq<NormalizedTimeTag>
    decreases effects.len(),
{
    if effects.len() == 0 {
        Seq::empty()
    } else {
        written_rows(effects.drop_last()) + match effects.last() {
            Effect::WriteRowGroup { rows } => rows,
            _ => Seq::empty(),
        }
    }
}

/// The names of the files that a list of effects opens, in order.
pub open spec fn opened_files(effects: Seq<Effect>) -> Seq<Seq<char>>
    decreases effects.len(),
{
    if effects.len() == 0 {
        Seq::empty()
    } else {
        opened_files(effects.drop_last()) + match effects.last() {
            Effect::OpenFile { name } => seq![name],
            _ => Seq::empty(),
        }
    }
}

/// Whether a file is open after a list of effects, where `open_before` says whether one was
/// open before it.
pub open spec fn file_open_after(effects: Seq<Effect>, open_before: bool) -> bool
    decreases effects.len(),
{
    if effects.len() == 0 {
        open_before
    } else {
        match effects.last() {
            Effect::OpenFile { .. } => true,
            Effect::CloseFile => false,
            Effect::WriteRowGroup { .. } => file_open_after(effects.drop_last(), open_before),
        }
    }
}

/// A list of effects keeps to one file at a time: a file is opened only while none is open,
/// and a row group is written, or the file closed, only while one is open.
pub open spec fn one_file_at_a_time(effects: Seq<Effect>, open_before: bool) -> bool
    decreases effects.len(),
{
    if effects.len() == 0 {
        true
    } else {
        &&& one_file_at_a_time(effects.drop_last(), open_before)
        &&& match effects.last() {
            Effect::OpenFile { .. } => !file_open_after(effects.drop_last(), open_before),
            _ => file_open_after(effects.drop_last(), open_before),
        }
    }
}

/// Every row group of a list of effects has at least one row and at most `max_chunk_rows`.
pub open spec fn chunks_within(effects: Seq<Effect>, max_chunk_rows: nat) -> bool {
    forall|i: int|
        0 <= i < effects.len() ==> match #[trigger] effects[i] {
            Effect::WriteRowGroup { rows } => 0 < rows.len() <= max_chunk_rows,
            _ => true,
        }
}

/// Every row group of a list of effects has exactly `max_chunk_rows` rows.
pub open spec fn chunks_full(effects: Seq<Effect>, max_chunk_rows: nat) -> bool {
    forall|i: int|
        0 <= i < effects.len() ==> match #[trigger] effects[i] {
            Effect::WriteRowGroup { rows } => rows.len() == max_chunk_rows,
            _ => true,
        }
}

/// The number of row groups that a list of effects has written since it last opened a file.
pub open spec fn row_groups_in_open_file(effects: Seq<Effect>) -> nat
    decreases effects.len(),
{
    if effects.len() == 0 {
        0
    } else {
        match effects.last() {
            Effect::OpenFile { .. } => 0,
            Effect::WriteRowGroup { .. } => row_groups_in_open_file(effects.drop_last()) + 1,
            Effect::CloseFile => row_groups_in_open_file(effects.drop_last()),
        }
    }
}

/// Every file that a list of effects closes holds exactly `groups` row groups when it is
/// closed.
pub open spec fn closes_at(effects: Seq<Effect>, groups: nat) -> bool
    decreases effects.len(),
{
    if effects.len() == 0 {
        true
    } else {
        &&& closes_at(effects.drop_last(), groups)
        &&& effects.last() is CloseFile ==> row_groups_in_open_file(effects.drop_last()) == groups
    }
}

/// The files of a run, numbered from `first` on: `count` names.
pub open spec fn numbered_files(
    timestamp: Seq<char>,
    label: Seq<char>,
    first: nat,
    count: nat,
) -> Seq<Seq<char>> {
    Seq::new(count, |i: int| file_name_spec(timestamp, label, (first + i) as nat))
}

} // verus!
