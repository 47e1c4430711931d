//! The file rotation policy: when the open file is closed and the next one begun.

use vstd::prelude::*;

verus! {

/// Whether a file that held `chunk_count` row groups before a flush is to be replaced after
/// it. The count is compared after the flush is counted in, and must then be greater than
/// `max_chunks_per_file`, not merely equal to it: a file takes `max_chunks_per_file + 1` row
/// groups, and up to `(max_chunks_per_file + 1) * max_chunk_rows` rows, before it is
/// replaced. Chunks are counted, not rows, so the question is settled in constant time.
pub open spec fn rotation_due_spec(chunk_count: nat, max_chunks_per_file: nat) -> bool {
    chunk_count + 1 > max_chunks_per_file
}

/// The rotation policy, asked once for each flush, with the chunk count of the open file
/// before that flush.
pub fn rotation_due(chunk_count: usize, max_chunks_per_file: usize) -> (due: bool)
    ensures
        due == rotation_due_spec(chunk_count as nat, max_chunks_per_file as nat),
{
    chunk_count >= max_chunks_per_file
}

} // verus!
