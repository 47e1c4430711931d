//! The writer driven over a whole input: every record taken in, in order, and everything
//! that is to be done to storage gathered into one list.

use crate::clock::is_timestamp;
use crate::config::{WriterConfig, DEFAULT_MAX_CHUNK_ROWS, DEFAULT_MAX_FILE_ROWS};
use crate::error::WriteError;
use crate::laws::{
    lemma_push_all_step, lemma_push_all_wf, lemma_rotations_bounded, lemma_rows_conserved,
    lemma_sequence_grows,
};
use crate::model::{Phase, WriterModel};
use crate::time_tag::NormalizedTimeTag;
use crate::trace::written_rows;
use crate::writer::{all_wf, effects_of, Action, TimeTagWriter};
use vstd::prelude::*;

verus! {

/// A writer with the default thresholds, before its first step.
pub open spec fn default_writer(timestamp: Seq<char>, label: Seq<char>) -> WriterModel {
    WriterModel::initial(
        DEFAULT_MAX_CHUNK_ROWS as nat,
        DEFAULT_MAX_FILE_ROWS as nat / DEFAULT_MAX_CHUNK_ROWS as nat,
        timestamp,
        label,
    )
}

impl TimeTagWriter {
    /// A whole write: the writer begins, takes in every record of `time_tags` in order, and
    /// finishes. The actions of all steps come back as one list, to be carried out in order.
    /// Nothing comes back where the writer had begun before, where the output path is no
    /// directory, or where the input asks for more files than there are sequence numbers.
    pub fn write_all(
        &mut self,
        output_dir_is_directory: bool,
        time_tags: &Vec<NormalizedTimeTag>,
    ) -> (result: Result<Vec<Action>, WriteError>)
        requires
            old(self).wf(),
        ensures
            final(self).wf(),
            result is Ok <==> {
                &&& old(self)@.phase == Phase::Idle
                &&& output_dir_is_directory
                &&& old(self)@.write(time_tags@).sequence_number <= u64::MAX
            },
            match result {
                Ok(actions) => {
                    &&& final(self)@ == old(self)@.write(time_tags@)
                    &&& all_wf(actions@)
                    &&& effects_of(actions@) == old(self)@.write_effects(time_tags@)
                    &&& written_rows(effects_of(actions@)) == time_tags@
                },
                Err(error) => if old(self)@.phase != Phase::Idle {
                    error == WriteError::NotIdle && final(self)@ == old(self)@
                } else if !output_dir_is_directory {
                    error == WriteError::NotADirectory && final(self)@ == old(self)@.refuse()
                } else {
                    error == WriteError::SequenceExhausted
                },
            },
    {
        let ghost start = self@.begin();
        let ghost head = self@.begin_effects();
        proof {
            if self@.phase == Phase::Idle {
                lemma_rows_conserved(self@, time_tags@);
            }
        }
        let mut actions = match self.begin(output_dir_is_directory) {
            Ok(actions) => actions,
            Err(error) => {
                return Err(error);
            },
        };
        let mut taken: usize = 0;
        while taken < time_tags.len()
            invariant
                taken <= time_tags.len(),
                self.wf(),
                old(self)@.phase == Phase::Idle,
                output_dir_is_directory,
                start == old(self)@.begin(),
                start.wf(),
                start.phase == Phase::Open,
                self@ == start.push_all(time_tags@.take(taken as int)),
                all_wf(actions@),
                effects_of(actions@) == head + start.push_all_effects(
                    time_tags@.take(taken as int),
                ),
            decreases time_tags.len() - taken,
        {
            let tag = time_tags[taken];
            proof {
                assert(time_tags@.take(taken + 1) =~= time_tags@.take(taken as int).push(tag));
                lemma_push_all_step(start, time_tags@.take(taken as int), tag);
                lemma_push_all_wf(start, time_tags@.take(taken as int));
            }
            match self.push(tag) {
                Ok(mut step) => {
                    let ghost before = actions@;
                    let ghost added = step@;
                    actions.append(&mut step);
                    assert(effects_of(before + added) =~= effects_of(before) + effects_of(added));
                    assert(head + start.push_all_effects(time_tags@.take(taken + 1)) =~= (head
                        + start.push_all_effects(time_tags@.take(taken as int))) + effects_of(
                        added,
                    ));
                },
                Err(error) => {
                    proof {
                        lemma_sequence_grows(start, time_tags@, taken + 1);
                    }
                    return Err(error);
                },
            }
            taken = taken + 1;
        }
        assert(time_tags@.take(taken as int) =~= time_tags@);
        proof {
            lemma_push_all_wf(start, time_tags@);
        }
        match self.finish() {
            Ok(mut last) => {
                let ghost before = actions@;
                let ghost added = last@;
                actions.append(&mut last);
                assert(effects_of(before + added) =~= effects_of(before) + effects_of(added));
                Ok(actions)
            },
            Err(error) => Err(error),
        }
    }
}

/// Plans the write of `time_tags` into files named after the current time and `name`, with
/// the default thresholds. `output_dir_is_directory` says whether the output path was found
/// to be an existing directory; where it was not, that is the error, and nothing is to be
/// done. Otherwise what comes back is everything that is to be done to storage, in order.
pub fn write_time_tags(
    time_tags: Vec<NormalizedTimeTag>,
    output_dir_is_directory: bool,
    name: &str,
) -> (result: Result<Vec<Action>, WriteError>)
    ensures
        result is Ok <==> output_dir_is_directory,
        match result {
            Ok(actions) => {
                &&& all_wf(actions@)
                &&& exists|timestamp: Seq<char>|
                    is_timestamp(timestamp) && effects_of(actions@) == #[trigger] default_writer(
                        timestamp,
                        name@,
                    ).write_effects(time_tags@)
                &&& written_rows(effects_of(actions@)) == time_tags@
            },
            Err(error) => error == WriteError::NotADirectory,
        },
{
    let mut writer = TimeTagWriter::with_current_time(WriterConfig::default(), name);
    let count = time_tags.len();
    proof {
        let model = writer@;
        assert(model == default_writer(model.timestamp, name@));
        let begun = model.begin();
        let end = begun.push_all(time_tags@);
        lemma_rotations_bounded(begun, time_tags@);
        lemma_push_all_wf(begun, time_tags@);
        let opened = end.sequence_number - begun.sequence_number;
        let rows = begun.max_chunk_rows;
        assert(opened < u64::MAX) by (nonlinear_arith)
            requires
                opened * rows <= count,
                count <= u64::MAX,
                rows == 20_000_000,
                0 <= opened,
        ;
    }
    writer.write_all(output_dir_is_directory, &time_tags)
}

} // verus!
