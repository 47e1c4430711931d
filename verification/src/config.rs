//! The two thresholds of a writer: rows to a chunk, and rows to a file.

use crate::columns::column_fits;
use vstd::prelude::*;

verus! {

/// Rows buffered before a flush, where the caller names no other number.
pub const DEFAULT_MAX_CHUNK_ROWS: usize = 20_000_000;

/// Rows aimed at for each file, where the caller names no other number.
pub const DEFAULT_MAX_FILE_ROWS: usize = 200_000_000;

/// Whether `max_chunk_rows` can serve as a chunk size: it is not zero, and a column of that
/// many rows can be held in memory.
pub open spec fn chunk_rows_accepted(max_chunk_rows: nat) -> bool {
    0 < max_chunk_rows && column_fits(max_chunk_rows)
}

/// The thresholds of a writer.
#[derive(Clone, Copy, Debug)]
pub struct WriterConfig {
    max_chunk_rows: usize,
    max_file_rows: usize,
}

impl WriterConfig {
    /// Rows buffered before a flush.
    pub closed spec fn chunk_rows(&self) -> nat {
        self.max_chunk_rows as nat
    }

    /// Rows aimed at for each file.
    pub closed spec fn file_rows(&self) -> nat {
        self.max_file_rows as nat
    }

    /// Chunks aimed at for each file: the file threshold divided by the chunk threshold,
    /// rounded down.
    pub open spec fn chunks_per_file(&self) -> nat {
        self.file_rows() / self.chunk_rows()
    }

    /// The chunk threshold can serve as a chunk size.
    pub open spec fn wf(&self) -> bool {
        chunk_rows_accepted(self.chunk_rows())
    }

    /// The configuration with the given thresholds, where the chunk threshold can serve as a
    /// chunk size, and nothing where it cannot.
    pub fn new(max_chunk_rows: usize, max_file_rows: usize) -> (config: Option<WriterConfig>)
        ensures
            config is Some <==> chunk_rows_accepted(max_chunk_rows as nat),
            config matches Some(made) ==> {
                &&& made.wf()
                &&& made.chunk_rows() == max_chunk_rows
                &&& made.file_rows() == max_file_rows
            },
    {
        if 0 < max_chunk_rows && max_chunk_rows <= (isize::MAX as usize) / 16 {
            Some(WriterConfig { max_chunk_rows, max_file_rows })
        } else {
            None
        }
    }

    /// Rows buffered before a flush.
    pub fn max_chunk_rows(&self) -> (rows: usize)
        ensures
            rows == self.chunk_rows(),
    {
        self.max_chunk_rows
    }

    /// Rows aimed at for each file.
    pub fn max_file_rows(&self) -> (rows: usize)
        ensures
            rows == self.file_rows(),
    {
        self.max_file_rows
    }

    /// Chunks aimed at for each file.
    pub fn max_chunks_per_file(&self) -> (chunks: usize)
        requires
            self.wf(),
        ensures
            chunks == self.chunks_per_file(),
    {
        self.max_file_rows / self.max_chunk_rows
    }
}

impl Default for WriterConfig {
    /// Twenty million rows to a chunk and two hundred million to a file: ten chunks to a file.
    fn default() -> (config: WriterConfig)
        ensures
            config.wf(),
            config.chunk_rows() == DEFAULT_MAX_CHUNK_ROWS,
            config.file_rows() == DEFAULT_MAX_FILE_ROWS,
    {
        WriterConfig {
            max_chunk_rows: DEFAULT_MAX_CHUNK_ROWS,
            max_file_rows: DEFAULT_MAX_FILE_ROWS,
        }
    }
}

} // verus!
