//! What can end a write before its time.

use arrow::error::ArrowError;
use vstd::prelude::*;

verus! {

/// The error type of Arrow.
#[verifier::external_type_specification]
#[verifier::external_body]
pub struct ExArrowError(ArrowError);

/// What storage said of an action that it could not carry out.
#[derive(Clone, Copy, Debug, PartialEq, Eq, Structural)]
pub enum StorageFault {
    /// The file to be created exists already.
    FileExists,
    /// Anything else: the disk is full, permission is denied, the device failed.
    Other,
}

/// Every error is fatal to the write in which it comes up: nothing is retried, and nothing is
/// downgraded to a warning.
#[derive(Debug)]
pub enum WriteError {
    /// The output path is missing or is no directory. Found before any file is made.
    NotADirectory,
    /// A file of the name that was due exists already. It is not overwritten.
    NameCollision,
    /// Storage failed while a file was created, written or closed.
    Io,
    /// The writer was asked to begin after it had begun.
    NotIdle,
    /// The writer was given a record, or asked to finish, while no file was open.
    NotOpen,
    /// A rotation was due and no sequence number was left for the next file.
    SequenceExhausted,
    /// Arrow did not accept the columns of a chunk as a row group.
    RowGroup(ArrowError),
}

} // verus!
