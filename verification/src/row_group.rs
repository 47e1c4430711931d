//! The row-group flusher's first half: one chunk of columns made into one Arrow record batch,
//! which the caller then appends to the open file.

use crate::columns::{channel_array_slots, time_tag_array_slots, ChannelArray, TimeTagArray};
use crate::error::WriteError;
use crate::row_buffer::ColumnChunk;
use crate::schema::{schema_columns, time_tag_columns, ColumnDescriptor, ColumnKind};
use crate::time_tag::NormalizedTimeTag;
use arrow::array::ArrayRef;
use arrow::datatypes::Schema;
use arrow::error::ArrowError;
use arrow::record_batch::RecordBatch;
use std::sync::Arc;
use vstd::prelude::*;

verus! {

/// One row group, ready to be appended to a file: an Arrow `RecordBatch` of a channel column
/// followed by a time-tag column. `RecordBatch` is indexed through a trait object, which the
/// verifier does not take, so it is held in this struct, whose inside the verifier does not
/// look at; the batch is there for the code that writes it.
#[verifier::external_body]
pub struct RowGroup {
    pub batch: RecordBatch,
}

/// What the schema of a row group's batch says of its columns, column by column.
pub uninterp spec fn row_group_columns(group: RowGroup) -> Seq<ColumnDescriptor>;

/// The rows of a row group: row `i` holds slot `i` of the channel column and slot `i` of the
/// time-tag column.
pub uninterp spec fn row_group_slots(group: RowGroup) -> Seq<(Option<u16>, Option<u64>)>;

/// The rows of a row group in which no slot is null.
pub open spec fn valid_slots(rows: Seq<NormalizedTimeTag>) -> Seq<(Option<u16>, Option<u64>)> {
    rows.map_values(|row: NormalizedTimeTag| (Some(row.channel_id), Some(row.time_tag_ps)))
}

impl View for RowGroup {
    type V = Seq<NormalizedTimeTag>;

    /// The rows of the row group, in order.
    open spec fn view(&self) -> Seq<NormalizedTimeTag> {
        Seq::new(
            row_group_slots(*self).len(),
            |i: int|
                NormalizedTimeTag {
                    channel_id: row_group_slots(*self)[i].0.unwrap(),
                    time_tag_ps: row_group_slots(*self)[i].1.unwrap(),
                },
        )
    }
}

impl RowGroup {
    /// The row group is one of this library: made with its schema, and with no null in it.
    pub open spec fn wf(&self) -> bool {
        &&& row_group_columns(*self) == time_tag_columns()
        &&& row_group_slots(*self) == valid_slots(self@)
    }
}

/// What `RecordBatch::try_new` asks of the columns of a schema and of two arrays, the first of
/// unsigned 16-bit and the second of unsigned 64-bit integers: the schema has two columns, of
/// these types and in this order; the arrays are equally long; and an array whose column is not
/// nullable holds no null.
pub open spec fn columns_accepted(
    columns: Seq<ColumnDescriptor>,
    channels: Seq<Option<u16>>,
    time_tags: Seq<Option<u64>>,
) -> bool {
    &&& columns.len() == 2
    &&& columns[0].kind == ColumnKind::Unsigned16
    &&& columns[1].kind == ColumnKind::Unsigned64
    &&& channels.len() == time_tags.len()
    &&& !columns[0].nullable ==> forall|i: int| 0 <= i < channels.len() ==> channels[i] is Some
    &&& !columns[1].nullable ==> forall|i: int| 0 <= i < time_tags.len() ==> time_tags[i] is Some
}

/// Calls `RecordBatch::try_new` with the two arrays as the columns, channels first. It accepts
/// them where the schema and the arrays agree as `columns_accepted` says, and nowhere else.
/// Where it accepts them, the batch has the given schema, and the batch's rows are the arrays'
/// slots side by side.
#[verifier::external_body]
fn try_new_row_group(
    schema: &Arc<Schema>,
    channels: ChannelArray,
    time_tags: TimeTagArray,
) -> (built: Result<RowGroup, ArrowError>)
    ensures
        built is Ok <==> columns_accepted(
            schema_columns(**schema),
            channel_array_slots(channels),
            time_tag_array_slots(time_tags),
        ),
        built matches Ok(group) ==> {
            &&& row_group_columns(group) == schema_columns(**schema)
            &&& row_group_slots(group).len() == channel_array_slots(channels).len()
            &&& forall|i: int|
                0 <= i < row_group_slots(group).len() ==> #[trigger] row_group_slots(group)[i]
                    == (channel_array_slots(channels)[i], time_tag_array_slots(time_tags)[i])
        },
{
    let columns: Vec<ArrayRef> = vec![Arc::new(channels.inner), Arc::new(time_tags.inner)];
    RecordBatch::try_new(schema.clone(), columns).map(|batch| RowGroup { batch })
}

/// What a flush makes of Arrow's answer: the row group as it is, or Arrow's error as this
/// library's own.
pub fn row_group_outcome(built: Result<RowGroup, ArrowError>) -> (outcome: Result<
    RowGroup,
    WriteError,
>)
    ensures
        match built {
            Ok(group) => outcome == Ok::<RowGroup, WriteError>(group),
            Err(error) => outcome == Err::<RowGroup, WriteError>(WriteError::RowGroup(error)),
        },
{
    match built {
        Ok(group) => Ok(group),
        Err(error) => Err(WriteError::RowGroup(error)),
    }
}

/// Makes one row group of the two columns of `chunk`, under `schema`. Nothing is written here:
/// the caller appends the batch to the file that is open. Arrow accepts the chunk under every
/// schema of an unsigned 16-bit column followed by an unsigned 64-bit column, as the schema of
/// this library is, and under no other; its refusal comes back as `WriteError::RowGroup`. The
/// row group holds the chunk's rows, in their order.
pub fn row_group(schema: &Arc<Schema>, chunk: ColumnChunk) -> (outcome: Result<
    RowGroup,
    WriteError,
>)
    requires
        chunk.wf(),
    ensures
        outcome is Ok <==> {
            &&& schema_columns(**schema).len() == 2
            &&& schema_columns(**schema)[0].kind == ColumnKind::Unsigned16
            &&& schema_columns(**schema)[1].kind == ColumnKind::Unsigned64
        },
        match outcome {
            Ok(group) => {
                &&& row_group_columns(group) == schema_columns(**schema)
                &&& row_group_slots(group) == valid_slots(chunk@)
                &&& group@ == chunk@
            },
            Err(error) => error is RowGroup,
        },
{
    let ColumnChunk { channels, time_tags } = chunk;
    proof {
        chunk.lemma_aligned();
    }
    let built = try_new_row_group(schema, channels, time_tags);
    row_group_outcome(built)
}

} // verus!
