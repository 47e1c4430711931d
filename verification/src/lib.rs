//! Writes a stream of time tags into a series of Parquet files, a bounded chunk of rows at a
//! time.
//!
//! A time tag is a channel number and a time in picoseconds. The [`writer::TimeTagWriter`]
//! takes time tags in one by one. It gathers them in a [`row_buffer::RowBuffer`] of two Arrow
//! columns; when the buffer holds `max_chunk_rows` rows it is flushed as one row group; and
//! when the open file holds more row groups than `max_file_rows / max_chunk_rows`, the file
//! is closed and the next one begun. Files are named after the time at which the run began,
//! a label, and their number in the run.
//!
//! The writer does not touch the disk. Every step hands back the [`writer::Action`]s that
//! the caller is to carry out: open a file, append a row group, close the file. What the
//! steps do is laid down in [`model`], a state machine over plain values, and [`laws`] proves
//! of it that no row is lost or moved, that no row group is larger than a chunk, that files
//! are numbered without a gap and named apart, and that one file is open at a time.
//!
//! What comes from Arrow and chrono is used through small functions whose contracts say what
//! the crates' sources show; those contracts are believed, all else is proved.

pub mod clock;
pub mod columns;
pub mod config;
pub mod driver;
pub mod error;
pub mod laws;
pub mod model;
pub mod naming;
pub mod rotation;
pub mod row_buffer;
pub mod row_group;
pub mod schema;
pub mod time_tag;
pub mod trace;
pub mod units;
pub mod writer;

pub use driver::write_time_tags;
pub use time_tag::NormalizedTimeTag;
pub use units::{pico_fiber_centimeters, pico_minutes, pico_seconds};
