//! The row buffer: incoming records gathered into two parallel columns, up to a row limit.

use crate::columns::{
    append_channel, append_time_tag, channel_array_slots, channel_builder_slots, column_fits,
    finish_channels, finish_time_tags, new_channel_builder, new_time_tag_builder,
    time_tag_array_slots, time_tag_builder_slots, ChannelArray, ChannelBuilder, TimeTagArray,
    TimeTagBuilder,
};
use crate::time_tag::NormalizedTimeTag;
use vstd::prelude::*;

verus! {

/// The channel column of `rows`: one valid slot for each row, in order.
pub open spec fn channel_slots(rows: Seq<NormalizedTimeTag>) -> Seq<Option<u16>> {
    rows.map_values(|row: NormalizedTimeTag| Some(row.channel_id))
}

/// The time-tag column of `rows`: one valid slot for each row, in order.
pub open spec fn time_tag_slots(rows: Seq<NormalizedTimeTag>) -> Seq<Option<u64>> {
    rows.map_values(|row: NormalizedTimeTag| Some(row.time_tag_ps))
}

/// The rows read across two columns: row `i` is made of slot `i` of each.
pub open spec fn rows_across(
    channels: Seq<Option<u16>>,
    time_tags: Seq<Option<u64>>,
) -> Seq<NormalizedTimeTag> {
    Seq::new(
        channels.len(),
        |i: int|
            NormalizedTimeTag {
                channel_id: channels[i].unwrap(),
                time_tag_ps: time_tags[i].unwrap(),
            },
    )
}

/// The two finished columns of one chunk, as they leave the row buffer.
pub struct ColumnChunk {
    pub channels: ChannelArray,
    pub time_tags: TimeTagArray,
}

impl View for ColumnChunk {
    type V = Seq<NormalizedTimeTag>;

    /// The rows of the chunk, in order.
    open spec fn view(&self) -> Seq<NormalizedTimeTag> {
        rows_across(channel_array_slots(self.channels), time_tag_array_slots(self.time_tags))
    }
}

impl ColumnChunk {
    /// Both columns hold exactly the chunk's rows.
    pub open spec fn wf(&self) -> bool {
        &&& channel_array_slots(self.channels) == channel_slots(self@)
        &&& time_tag_array_slots(self.time_tags) == time_tag_slots(self@)
    }

    /// Column alignment. The two columns of a well-formed chunk are equally long, no slot of
    /// either is null, and slot `i` of each holds the field of row `i`.
    pub proof fn lemma_aligned(&self)
        requires
            self.wf(),
        ensures
            channel_array_slots(self.channels).len() == self@.len(),
            time_tag_array_slots(self.time_tags).len() == self@.len(),
            forall|i: int|
                0 <= i < self@.len() ==> #[trigger] channel_array_slots(self.channels)[i] == Some(
                    self@[i].channel_id,
                ),
            forall|i: int|
                0 <= i < self@.len() ==> #[trigger] time_tag_array_slots(self.time_tags)[i]
                    == Some(self@[i].time_tag_ps),
    {
    }
}

/// Two parallel growable columns and a row counter.
pub struct RowBuffer {
    channels: ChannelBuilder,
    time_tags: TimeTagBuilder,
    rows: usize,
    max_rows: usize,
}

impl View for RowBuffer {
    type V = Seq<NormalizedTimeTag>;

    /// The buffered rows, oldest first.
    closed spec fn view(&self) -> Seq<NormalizedTimeTag> {
        rows_across(channel_builder_slots(self.channels), time_tag_builder_slots(self.time_tags))
    }
}

impl RowBuffer {
    /// The number of rows at which the buffer is full.
    pub closed spec fn max_rows(&self) -> nat {
        self.max_rows as nat
    }

    /// Both columns hold exactly the buffered rows, the counter is their number, and that number
    /// is within the limit.
    pub closed spec fn wf(&self) -> bool {
        &&& column_fits(self.max_rows as nat)
        &&& channel_builder_slots(self.channels) == channel_slots(self@)
        &&& time_tag_builder_slots(self.time_tags) == time_tag_slots(self@)
        &&& self.rows == self@.len()
        &&& self.rows <= self.max_rows
    }

    /// A well-formed buffer never holds more rows than its limit.
    pub proof fn lemma_bounded(&self)
        requires
            self.wf(),
        ensures
            self@.len() <= self.max_rows(),
    {
    }

    /// An empty buffer that is full at `max_rows` rows, with room reserved for that many.
    pub fn new(max_rows: usize) -> (buffer: RowBuffer)
        requires
            column_fits(max_rows as nat),
        ensures
            buffer.wf(),
            buffer@ == Seq::<NormalizedTimeTag>::empty(),
            buffer.max_rows() == max_rows,
    {
        let buffer = RowBuffer {
            channels: new_channel_builder(max_rows),
            time_tags: new_time_tag_builder(max_rows),
            rows: 0,
            max_rows,
        };
        assert(channel_slots(buffer@) =~= Seq::<Option<u16>>::empty());
        assert(time_tag_slots(buffer@) =~= Seq::<Option<u64>>::empty());
        buffer
    }

    /// The number of buffered rows.
    pub fn len(&self) -> (rows: usize)
        requires
            self.wf(),
        ensures
            rows == self@.len(),
    {
        self.rows
    }

    /// Whether no row is buffered.
    pub fn is_empty(&self) -> (empty: bool)
        requires
            self.wf(),
        ensures
            empty == (self@.len() == 0),
    {
        self.rows == 0
    }

    /// Whether the buffer has reached its row limit.
    pub fn is_full(&self) -> (full: bool)
        requires
            self.wf(),
        ensures
            full == (self@.len() >= self.max_rows()),
    {
        self.rows >= self.max_rows
    }

    /// Copies the two fields of `tag` to the tail of their columns.
    pub fn append(&mut self, tag: NormalizedTimeTag)
        requires
            old(self).wf(),
            old(self)@.len() < old(self).max_rows(),
        ensures
            final(self).wf(),
            final(self)@ == old(self)@.push(tag),
            final(self).max_rows() == old(self).max_rows(),
    {
        append_channel(&mut self.channels, tag.channel_id);
        append_time_tag(&mut self.time_tags, tag.time_tag_ps);
        self.rows = self.rows + 1;
        assert(channel_slots(self@) =~= channel_slots(old(self)@).push(Some(tag.channel_id)));
        assert(time_tag_slots(self@) =~= time_tag_slots(old(self)@).push(Some(tag.time_tag_ps)));
    }

    /// Hands out the buffered rows as two finished columns and leaves the buffer empty. With no
    /// row buffered the chunk is empty.
    pub fn drain(&mut self) -> (chunk: ColumnChunk)
        requires
            old(self).wf(),
        ensures
            final(self).wf(),
            final(self)@ == Seq::<NormalizedTimeTag>::empty(),
            final(self).max_rows() == old(self).max_rows(),
            chunk.wf(),
            chunk@ == old(self)@,
    {
        let channels = finish_channels(&mut self.channels);
        let time_tags = finish_time_tags(&mut self.time_tags);
        self.rows = 0;
        assert(channel_slots(self@) =~= Seq::<Option<u16>>::empty());
        assert(time_tag_slots(self@) =~= Seq::<Option<u64>>::empty());
        ColumnChunk { channels, time_tags }
    }
}

} // verus!
