//! The writer as a state machine over plain values: what each step does to the state and what
//! it asks of storage. The executable writer is held to this model; the laws of the library
//! are proved of it.

use crate::naming::file_name_spec;
use crate::rotation::rotation_due_spec;
use crate::time_tag::NormalizedTimeTag;
use vstd::prelude::*;

verus! {

/// Where a writer stands in its life. At most one file is open at any time: none before the
/// writer has begun and none after it has finished.
#[derive(Clone, Copy, Debug, PartialEq, Eq, Structural)]
pub enum Phase {
    /// Nothing has been done yet.
    Idle,
    /// A file is open and records are taken in.
    Open,
    /// The end: nothing more is accepted.
    Closed,
}

/// What a step asks of storage.
pub enum Effect {
    /// Create the file of this name, which must not exist yet, and open it for writing.
    OpenFile { name: Seq<char> },
    /// Append these rows, as one row group, to the file that is open.
    WriteRowGroup { rows: Seq<NormalizedTimeTag> },
    /// Finish the file that is open, so that it can be read by itself.
    CloseFile,
}

/// The state of a writer.
pub struct WriterModel {
    /// Rows buffered before a flush.
    pub max_chunk_rows: nat,
    /// Chunks aimed at for each file.
    pub max_chunks_per_file: nat,
    /// The timestamp of the run.
    pub timestamp: Seq<char>,
    /// The caller's label.
    pub label: Seq<char>,
    pub phase: Phase,
    /// The rows in the buffer, oldest first.
    pub buffered: Seq<NormalizedTimeTag>,
    /// The row groups flushed into the open file so far.
    pub chunk_count: nat,
    /// The number of the open file in the run, counted from one.
    pub sequence_number: nat,
}

impl WriterModel {
    /// A writer before its first step.
    pub open spec fn initial(
        max_chunk_rows: nat,
        max_chunks_per_file: nat,
        timestamp: Seq<char>,
        label: Seq<char>,
    ) -> WriterModel {
        WriterModel {
            max_chunk_rows,
            max_chunks_per_file,
            timestamp,
            label,
            phase: Phase::Idle,
            buffered: Seq::empty(),
            chunk_count: 0,
            sequence_number: 1,
        }
    }

    /// What holds of a writer between any two steps. The buffer is never full when a step
    /// begins, so it never holds more than `max_chunk_rows` rows within one.
    pub open spec fn wf(self) -> bool {
        &&& 0 < self.max_chunk_rows
        &&& self.buffered.len() < self.max_chunk_rows
        &&& self.chunk_count <= self.max_chunks_per_file
        &&& 1 <= self.sequence_number
        &&& self.phase != Phase::Open ==> self.buffered.len() == 0
        &&& self.phase == Phase::Idle ==> self.chunk_count == 0 && self.sequence_number == 1
    }

    /// The name of the file with the writer's current sequence number.
    pub open spec fn file_name(self) -> Seq<char> {
        file_name_spec(self.timestamp, self.label, self.sequence_number)
    }

    /// The writer after it has begun: the first file is open.
    pub open spec fn begin(self) -> WriterModel {
        WriterModel { phase: Phase::Open, ..self }
    }

    /// What beginning asks of storage: to open the first file.
    pub open spec fn begin_effects(self) -> Seq<Effect> {
        seq![Effect::OpenFile { name: self.file_name() }]
    }

    /// The writer after its output directory was found missing: at its end, with no file made.
    pub open spec fn refuse(self) -> WriterModel {
        WriterModel { phase: Phase::Closed, ..self }
    }

    /// The writer after storage has failed: at its end, with the buffer given up. Nothing more
    /// is asked of storage, so a file that was open is left as it is, unfinished.
    pub open spec fn abort(self) -> WriterModel {
        WriterModel { phase: Phase::Closed, buffered: Seq::empty(), ..self }
    }

    /// Whether one more record fills the buffer, so that it is flushed.
    pub open spec fn fills_chunk(self) -> bool {
        self.buffered.len() + 1 >= self.max_chunk_rows
    }

    /// Whether the rotation policy has the open file replaced after its next flush.
    pub open spec fn rotation_due(self) -> bool {
        rotation_due_spec(self.chunk_count, self.max_chunks_per_file)
    }

    /// Whether one more record ends the open file.
    pub open spec fn rotates(self) -> bool {
        self.fills_chunk() && self.rotation_due()
    }

    /// The writer after one more record.
    pub open spec fn push(self, tag: NormalizedTimeTag) -> WriterModel {
        if !self.fills_chunk() {
            WriterModel { buffered: self.buffered.push(tag), ..self }
        } else if !self.rotation_due() {
            WriterModel { buffered: Seq::empty(), chunk_count: self.chunk_count + 1, ..self }
        } else {
            WriterModel {
                buffered: Seq::empty(),
                chunk_count: 0,
                sequence_number: self.sequence_number + 1,
                ..self
            }
        }
    }

    /// What one more record asks of storage: nothing while the buffer fills; a row group when
    /// it is full; and, where the rotation policy says so, the open file closed and the next
    /// one opened.
    pub open spec fn push_effects(self, tag: NormalizedTimeTag) -> Seq<Effect> {
        if !self.fills_chunk() {
            Seq::empty()
        } else if !self.rotation_due() {
            seq![Effect::WriteRowGroup { rows: self.buffered.push(tag) }]
        } else {
            seq![
                Effect::WriteRowGroup { rows: self.buffered.push(tag) },
                Effect::CloseFile,
                Effect::OpenFile { name: self.push(tag).file_name() },
            ]
        }
    }

    /// The writer after the end of its input.
    pub open spec fn finish(self) -> WriterModel {
        WriterModel { phase: Phase::Closed, buffered: Seq::empty(), ..self }
    }

    /// What the end of the input asks of storage: the rows still buffered, if there are any, as
    /// a last row group, which rotates nothing; then the open file closed.
    pub open spec fn finish_effects(self) -> Seq<Effect> {
        if self.buffered.len() > 0 {
            seq![Effect::WriteRowGroup { rows: self.buffered }, Effect::CloseFile]
        } else {
            seq![Effect::CloseFile]
        }
    }

    /// The writer after the records of `records`, in their order.
    pub open spec fn push_all(self, records: Seq<NormalizedTimeTag>) -> WriterModel
        decreases records.len(),
    {
        if records.len() == 0 {
            self
        } else {
            self.push_all(records.drop_last()).push(records.last())
        }
    }

    /// What the records of `records` ask of storage, in order.
    pub open spec fn push_all_effects(self, records: Seq<NormalizedTimeTag>) -> Seq<Effect>
        decreases records.len(),
    {
        if records.len() == 0 {
            Seq::empty()
        } else {
            self.push_all_effects(records.drop_last()) + self.push_all(
                records.drop_last(),
            ).push_effects(records.last())
        }
    }

    /// The writer after a whole write of `records`.
    pub open spec fn write(self, records: Seq<NormalizedTimeTag>) -> WriterModel {
        self.begin().push_all(records).finish()
    }

    /// Everything that a whole write of `records` asks of storage, in order: beginning, the
    /// records one by one, and the end.
    pub open spec fn write_effects(self, records: Seq<NormalizedTimeTag>) -> Seq<Effect> {
        self.begin_effects() + self.begin().push_all_effects(records) + self.begin().push_all(
            records,
        ).finish_effects()
    }
}

} // verus!
