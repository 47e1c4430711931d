//! The two Arrow columns of a row group: unsigned 16-bit channels and unsigned 64-bit time
//! tags.
//!
//! Arrow's primitive builders and arrays are generic over a trait of Arrow's own, so each is
//! held here in a struct whose inside the verifier does not look at. What a builder or an array
//! holds is named by a spec function, one slot per appended item, `Some` for a value and `None`
//! for a null. Everything in this module is a statement about Arrow that is believed, not
//! proved.

use arrow::array::{UInt16Array, UInt16Builder, UInt64Array, UInt64Builder};
use vstd::prelude::*;

verus! {

/// Whether a column of `rows` items stays within what one allocation can hold, with room for
/// the doubling by which a growing column reserves space, at eight bytes an item.
pub open spec fn column_fits(rows: nat) -> bool {
    rows * 16 <= isize::MAX
}

/// Arrow's `UInt16Builder`, a growable column of channel numbers.
#[verifier::external_body]
pub struct ChannelBuilder {
    inner: UInt16Builder,
}

/// Arrow's `UInt64Builder`, a growable column of time tags.
#[verifier::external_body]
pub struct TimeTagBuilder {
    inner: UInt64Builder,
}

/// Arrow's `UInt16Array`, a finished column of channel numbers.
#[verifier::external_body]
pub struct ChannelArray {
    pub(crate) inner: UInt16Array,
}

/// Arrow's `UInt64Array`, a finished column of time tags.
#[verifier::external_body]
pub struct TimeTagArray {
    pub(crate) inner: UInt64Array,
}

/// The slots that a channel builder holds, in the order in which they were appended.
pub uninterp spec fn channel_builder_slots(builder: ChannelBuilder) -> Seq<Option<u16>>;

/// The slots that a time-tag builder holds, in the order in which they were appended.
pub uninterp spec fn time_tag_builder_slots(builder: TimeTagBuilder) -> Seq<Option<u64>>;

/// The slots of a finished channel column, first to last.
pub uninterp spec fn channel_array_slots(array: ChannelArray) -> Seq<Option<u16>>;

/// The slots of a finished time-tag column, first to last.
pub uninterp spec fn time_tag_array_slots(array: TimeTagArray) -> Seq<Option<u64>>;

/// Calls `UInt16Array::builder`, which is `PrimitiveBuilder::with_capacity`: the builder it
/// returns holds no slot. The capacity is kept to what `Vec::with_capacity` accepts.
#[verifier::external_body]
pub(crate) fn new_channel_builder(capacity: usize) -> (builder: ChannelBuilder)
    requires
        column_fits(capacity as nat),
    ensures
        channel_builder_slots(builder) == Seq::<Option<u16>>::empty(),
{
    ChannelBuilder { inner: UInt16Array::builder(capacity) }
}

/// Calls `UInt64Array::builder`, which is `PrimitiveBuilder::with_capacity`: the builder it
/// returns holds no slot. The capacity is kept to what `Vec::with_capacity` accepts.
#[verifier::external_body]
pub(crate) fn new_time_tag_builder(capacity: usize) -> (builder: TimeTagBuilder)
    requires
        column_fits(capacity as nat),
    ensures
        time_tag_builder_slots(builder) == Seq::<Option<u64>>::empty(),
{
    TimeTagBuilder { inner: UInt64Array::builder(capacity) }
}

/// Calls `PrimitiveBuilder::append_value`: one valid slot with `value` is added behind the
/// slots already held. The builder is kept small enough for its storage to grow.
#[verifier::external_body]
pub(crate) fn append_channel(builder: &mut ChannelBuilder, value: u16)
    requires
        column_fits(channel_builder_slots(*old(builder)).len() + 1),
    ensures
        channel_builder_slots(*final(builder)) == channel_builder_slots(*old(builder)).push(
            Some(value),
        ),
{
    builder.inner.append_value(value)
}

/// Calls `PrimitiveBuilder::append_value`: one valid slot with `value` is added behind the
/// slots already held. The builder is kept small enough for its storage to grow.
#[verifier::external_body]
pub(crate) fn append_time_tag(builder: &mut TimeTagBuilder, value: u64)
    requires
        column_fits(time_tag_builder_slots(*old(builder)).len() + 1),
    ensures
        time_tag_builder_slots(*final(builder)) == time_tag_builder_slots(*old(builder)).push(
            Some(value),
        ),
{
    builder.inner.append_value(value)
}

/// Calls `PrimitiveBuilder::finish`: the array holds the builder's slots, and the builder is
/// left empty, ready to be filled again.
#[verifier::external_body]
pub(crate) fn finish_channels(builder: &mut ChannelBuilder) -> (array: ChannelArray)
    ensures
        channel_array_slots(array) == channel_builder_slots(*old(builder)),
        channel_builder_slots(*final(builder)) == Seq::<Option<u16>>::empty(),
{
    ChannelArray { inner: builder.inner.finish() }
}

/// Calls `PrimitiveBuilder::finish`: the array holds the builder's slots, and the builder is
/// left empty, ready to be filled again.
#[verifier::external_body]
pub(crate) fn finish_time_tags(builder: &mut TimeTagBuilder) -> (array: TimeTagArray)
    ensures
        time_tag_array_slots(array) == time_tag_builder_slots(*old(builder)),
        time_tag_builder_slots(*final(builder)) == Seq::<Option<u64>>::empty(),
{
    TimeTagArray { inner: builder.inner.finish() }
}

} // verus!
