//! The writer: it takes records in one by one and says, after each, what is to be done to
//! storage. It touches no file itself. Whoever drives it carries the actions out, in order,
//! and stops at the first that fails.

use crate::clock::{current_timestamp, is_timestamp};
use crate::config::WriterConfig;
use crate::error::{StorageFault, WriteError};
use crate::model::{Effect, Phase, WriterModel};
use crate::naming::file_name;
use crate::rotation::rotation_due;
use crate::row_buffer::RowBuffer;
use crate::row_group::{row_group, RowGroup};
use crate::schema::{schema_columns, time_tag_columns, time_tag_schema};
use crate::time_tag::NormalizedTimeTag;
use arrow::datatypes::Schema;
use std::sync::Arc;
use vstd::prelude::*;
use vstd::string::StringExecFns;

verus! {

/// One thing to be done to storage.
pub enum Action {
    /// Create the file of this name in the output directory, failing if it exists, and open it
    /// for writing.
    OpenFile { name: String },
    /// Append this row group to the file that is open, as one row group of the file.
    WriteRowGroup { group: RowGroup },
    /// Finish the file that is open, footer and all.
    CloseFile,
}

impl View for Action {
    type V = Effect;

    open spec fn view(&self) -> Effect {
        match self {
            Action::OpenFile { name } => Effect::OpenFile { name: name@ },
            Action::WriteRowGroup { group } => Effect::WriteRowGroup { rows: group@ },
            Action::CloseFile => Effect::CloseFile,
        }
    }
}

impl Action {
    /// A row group to be written is one of this library: made with its schema, and with no
    /// null in it.
    pub open spec fn wf(&self) -> bool {
        match self {
            Action::WriteRowGroup { group } => group.wf(),
            _ => true,
        }
    }
}

/// What a list of actions asks of storage.
pub open spec fn effects_of(actions: Seq<Action>) -> Seq<Effect> {
    actions.map_values(|action: Action| action@)
}

/// Every action of a list is well-formed.
pub open spec fn all_wf(actions: Seq<Action>) -> bool {
    forall|i: int| 0 <= i < actions.len() ==> (#[trigger] actions[i]).wf()
}

/// The writer's state: the schema, the thresholds, the two parts of every file name, the row
/// buffer, and the session of the file that is open.
pub struct TimeTagWriter {
    schema: Arc<Schema>,
    max_chunk_rows: usize,
    max_chunks_per_file: usize,
    timestamp: String,
    label: String,
    phase: Phase,
    buffer: RowBuffer,
    chunk_count: usize,
    sequence_number: u64,
}

impl View for TimeTagWriter {
    type V = WriterModel;

    closed spec fn view(&self) -> WriterModel {
        WriterModel {
            max_chunk_rows: self.max_chunk_rows as nat,
            max_chunks_per_file: self.max_chunks_per_file as nat,
            timestamp: self.timestamp@,
            label: self.label@,
            phase: self.phase,
            buffered: self.buffer@,
            chunk_count: self.chunk_count as nat,
            sequence_number: self.sequence_number as nat,
        }
    }
}

impl TimeTagWriter {
    /// The schema is the one of this library, the row buffer is well-formed, and its limit is
    /// the chunk threshold.
    pub closed spec fn parts_wf(&self) -> bool {
        &&& schema_columns(*self.schema) == time_tag_columns()
        &&& self.buffer.wf()
        &&& self.buffer.max_rows() == self.max_chunk_rows
    }

    /// The writer is in a state that its own steps lead to.
    pub open spec fn wf(&self) -> bool {
        &&& self.parts_wf()
        &&& self@.wf()
        &&& self@.sequence_number <= u64::MAX
    }

    /// The buffer bound. Between any two steps the buffer holds fewer rows than
    /// `max_chunk_rows`; within a step it takes one row more, so it never holds more than
    /// `max_chunk_rows`.
    pub proof fn lemma_buffer_bounded(&self)
        requires
            self.wf(),
        ensures
            self@.buffered.len() < self@.max_chunk_rows,
    {
    }

    /// The schema of the run: one value, made when the writer is, under which every row group
    /// is made and every file is to be opened.
    pub fn schema(&self) -> (schema: &Arc<Schema>)
        requires
            self.wf(),
        ensures
            schema_columns(**schema) == time_tag_columns(),
    {
        &self.schema
    }

    /// A writer for the run that began at `timestamp`, under `label`, before its first step.
    pub fn new(config: WriterConfig, timestamp: &str, label: &str) -> (writer: TimeTagWriter)
        requires
            config.wf(),
        ensures
            writer.wf(),
            writer@ == WriterModel::initial(
                config.chunk_rows(),
                config.chunks_per_file(),
                timestamp@,
                label@,
            ),
    {
        TimeTagWriter {
            schema: time_tag_schema(),
            max_chunk_rows: config.max_chunk_rows(),
            max_chunks_per_file: config.max_chunks_per_file(),
            timestamp: String::from_str(timestamp),
            label: String::from_str(label),
            phase: Phase::Idle,
            buffer: RowBuffer::new(config.max_chunk_rows()),
            chunk_count: 0,
            sequence_number: 1,
        }
    }

    /// A writer for a run that begins now: the timestamp is read from the clock, once, and
    /// serves every file name of the run. It is in UTC, compact and sortable, to the second.
    pub fn with_current_time(config: WriterConfig, label: &str) -> (writer: TimeTagWriter)
        requires
            config.wf(),
        ensures
            writer.wf(),
            is_timestamp(writer@.timestamp),
            writer@ == WriterModel::initial(
                config.chunk_rows(),
                config.chunks_per_file(),
                writer@.timestamp,
                label@,
            ),
    {
        let timestamp = current_timestamp();
        TimeTagWriter::new(config, timestamp.as_str(), label)
    }

    /// Where the writer stands in its life.
    pub fn phase(&self) -> (phase: Phase)
        ensures
            phase == self@.phase,
    {
        self.phase
    }

    /// The number, counted from one, of the file that is open, or that is opened first.
    pub fn sequence_number(&self) -> (number: u64)
        ensures
            number == self@.sequence_number,
    {
        self.sequence_number
    }

    /// The row groups flushed into the open file so far.
    pub fn chunk_count(&self) -> (chunks: usize)
        ensures
            chunks == self@.chunk_count,
    {
        self.chunk_count
    }

    /// The number of rows in the buffer.
    pub fn buffered_rows(&self) -> (rows: usize)
        requires
            self.wf(),
        ensures
            rows == self@.buffered.len(),
    {
        self.buffer.len()
    }

    /// The name of the file with the writer's current sequence number.
    pub fn current_file_name(&self) -> (name: String)
        ensures
            name@ == self@.file_name(),
    {
        file_name(self.timestamp.as_str(), self.label.as_str(), self.sequence_number)
    }

    /// The first step. `output_dir_is_directory` says whether the output path was found to be
    /// an existing directory. Where it was, the first file is to be opened; where it was not,
    /// the writer is at its end and nothing is to be done to storage.
    pub fn begin(&mut self, output_dir_is_directory: bool) -> (result: Result<
        Vec<Action>,
        WriteError,
    >)
        requires
            old(self).wf(),
        ensures
            final(self).wf(),
            result is Ok <==> old(self)@.phase == Phase::Idle && output_dir_is_directory,
            match result {
                Ok(actions) => {
                    &&& final(self)@ == old(self)@.begin()
                    &&& all_wf(actions@)
                    &&& effects_of(actions@) == old(self)@.begin_effects()
                },
                Err(error) => if old(self)@.phase == Phase::Idle {
                    error == WriteError::NotADirectory && final(self)@ == old(self)@.refuse()
                } else {
                    error == WriteError::NotIdle && final(self)@ == old(self)@
                },
            },
    {
        match self.phase {
            Phase::Idle => {},
            _ => {
                return Err(WriteError::NotIdle);
            },
        }
        if !output_dir_is_directory {
            self.phase = Phase::Closed;
            return Err(WriteError::NotADirectory);
        }
        self.phase = Phase::Open;
        let mut actions: Vec<Action> = Vec::new();
        actions.push(
            Action::OpenFile {
                name: file_name(self.timestamp.as_str(), self.label.as_str(), self.sequence_number),
            },
        );
        Ok(actions)
    }

    /// Takes one record in. While the buffer fills, nothing is to be done. The record that
    /// fills it has the buffer flushed as one row group; and where the open file then holds
    /// more row groups than `max_chunks_per_file`, the file is to be closed and the next one
    /// opened. A record is refused, and the writer left as it was, while no file is open, and
    /// where a rotation is due but every sequence number has been used.
    pub fn push(&mut self, tag: NormalizedTimeTag) -> (result: Result<Vec<Action>, WriteError>)
        requires
            old(self).wf(),
        ensures
            final(self).wf(),
            result is Ok <==> old(self)@.phase == Phase::Open && !(old(self)@.rotates() && old(
                self,
            )@.sequence_number >= u64::MAX),
            match result {
                Ok(actions) => {
                    &&& final(self)@ == old(self)@.push(tag)
                    &&& all_wf(actions@)
                    &&& effects_of(actions@) == old(self)@.push_effects(tag)
                },
                Err(error) => {
                    &&& final(self)@ == old(self)@
                    &&& error == if old(self)@.phase == Phase::Open {
                        WriteError::SequenceExhausted
                    } else {
                        WriteError::NotOpen
                    }
                },
            },
    {
        match self.phase {
            Phase::Open => {},
            _ => {
                return Err(WriteError::NotOpen);
            },
        }
        let fills = self.buffer.len() + 1 >= self.max_chunk_rows;
        let rotate = fills && rotation_due(self.chunk_count, self.max_chunks_per_file);
        if rotate && self.sequence_number == u64::MAX {
            return Err(WriteError::SequenceExhausted);
        }
        let mut actions: Vec<Action> = Vec::new();
        self.buffer.append(tag);
        if !self.buffer.is_full() {
            return Ok(actions);
        }
        let group = match row_group(&self.schema, self.buffer.drain()) {
            Ok(group) => group,
            // Under the writer's own schema every chunk becomes a row group.
            Err(error) => {
                return Err(error);
            },
        };
        actions.push(Action::WriteRowGroup { group });
        if rotate {
            self.chunk_count = 0;
            self.sequence_number = self.sequence_number + 1;
            actions.push(Action::CloseFile);
            actions.push(
                Action::OpenFile {
                    name: file_name(
                        self.timestamp.as_str(),
                        self.label.as_str(),
                        self.sequence_number,
                    ),
                },
            );
        } else {
            self.chunk_count = self.chunk_count + 1;
        }
        Ok(actions)
    }

    /// The step on a failure of storage: the write is over. The rows in the buffer are given
    /// up, the writer accepts nothing more, and the error to report says whether the name of
    /// a new file was taken or storage failed otherwise.
    pub fn fail(&mut self, fault: StorageFault) -> (error: WriteError)
        requires
            old(self).wf(),
        ensures
            final(self).wf(),
            final(self)@ == old(self)@.abort(),
            error == match fault {
                StorageFault::FileExists => WriteError::NameCollision,
                StorageFault::Other => WriteError::Io,
            },
    {
        let _ = self.buffer.drain();
        self.phase = Phase::Closed;
        match fault {
            StorageFault::FileExists => WriteError::NameCollision,
            StorageFault::Other => WriteError::Io,
        }
    }

    /// The last step, at the end of the input. The rows still buffered, if there are any, are
    /// flushed as a last row group, which rotates nothing, and the open file is to be closed.
    /// After it the writer accepts nothing more.
    pub fn finish(&mut self) -> (result: Result<Vec<Action>, WriteError>)
        requires
            old(self).wf(),
        ensures
            final(self).wf(),
            result is Ok <==> old(self)@.phase == Phase::Open,
            match result {
                Ok(actions) => {
                    &&& final(self)@ == old(self)@.finish()
                    &&& all_wf(actions@)
                    &&& effects_of(actions@) == old(self)@.finish_effects()
                },
                Err(error) => error == WriteError::NotOpen && final(self)@ == old(self)@,
            },
    {
        match self.phase {
            Phase::Open => {},
            _ => {
                return Err(WriteError::NotOpen);
            },
        }
        let mut actions: Vec<Action> = Vec::new();
        if !self.buffer.is_empty() {
            let group = match row_group(&self.schema, self.buffer.drain()) {
                Ok(group) => group,
                // Under the writer's own schema every chunk becomes a row group.
                Err(error) => {
                    return Err(error);
                },
            };
            actions.push(Action::WriteRowGroup { group });
        }
        actions.push(Action::CloseFile);
        self.phase = Phase::Closed;
        assert(self.buffer@ =~= Seq::<NormalizedTimeTag>::empty());
        Ok(actions)
    }
}

} // verus!
