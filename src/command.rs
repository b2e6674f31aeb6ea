//! How each command proceeds from what the data directory shows, and how
//! each filesystem outcome becomes the command's reply.
//!
//! The caller performs the filesystem work: it asks whether the target
//! exists, reads, writes or removes it, and hands each outcome back here,
//! with the error detail as text.
use crate::directory::read_reply;
use crate::error::StoreError;
use vstd::prelude::*;
use vstd::string::*;

verus! {

/// The next step of a read once it is known whether the target exists.
pub enum ReadStep {
    /// Nothing to read: reply with this text.
    Reply(String),
    /// Read the whole file as text and pass the outcome to `finish_read`.
    ReadText,
}

/// The next step of a delete once it is known whether the target exists.
pub enum DeleteStep {
    /// Nothing to remove: the delete has succeeded.
    Done,
    /// Remove the file and pass the outcome to `finish_delete`.
    RemoveFile,
}

/// The text that a read of a missing file replies with.
pub fn empty_document_text() -> (r: String)
    ensures
        r@ == read_reply(None),
{
    proof {
        reveal_strlit("[]");
    }
    String::from_str("[]")
}

/// Starts a read: a missing file reads as the empty document, an existing one is read.
pub fn begin_read(exists: bool) -> (r: ReadStep)
    ensures
        exists <==> r is ReadText,
        !exists ==> r->Reply_0@ == read_reply(None),
{
    if exists {
        ReadStep::ReadText
    } else {
        ReadStep::Reply(empty_document_text())
    }
}

/// Ends a read of an existing file: its text is the reply, a failure becomes a read failure.
pub fn finish_read(outcome: Result<String, String>) -> (r: Result<String, StoreError>)
    ensures
        outcome is Ok ==> r is Ok && r->Ok_0@ == read_reply(Some(outcome->Ok_0@)),
        outcome is Err ==> r == Err::<String, StoreError>(StoreError::ReadFailure(outcome->Err_0)),
{
    match outcome {
        Ok(contents) => Ok(contents),
        Err(detail) => Err(StoreError::ReadFailure(detail)),
    }
}

/// Ends a write: success stays success, a failure becomes a write failure.
pub fn finish_write(outcome: Result<(), String>) -> (r: Result<(), StoreError>)
    ensures
        outcome is Ok <==> r is Ok,
        outcome is Err ==> r == Err::<(), StoreError>(StoreError::WriteFailure(outcome->Err_0)),
{
    match outcome {
        Ok(()) => Ok(()),
        Err(detail) => Err(StoreError::WriteFailure(detail)),
    }
}

/// Starts a delete: a missing file needs no removal, an existing one is removed.
pub fn begin_delete(exists: bool) -> (r: DeleteStep)
    ensures
        exists <==> r is RemoveFile,
{
    if exists {
        DeleteStep::RemoveFile
    } else {
        DeleteStep::Done
    }
}

/// Ends a delete that removed a file: success stays success, a failure becomes a delete failure.
pub fn finish_delete(outcome: Result<(), String>) -> (r: Result<(), StoreError>)
    ensures
        outcome is Ok <==> r is Ok,
        outcome is Err ==> r == Err::<(), StoreError>(StoreError::DeleteFailure(outcome->Err_0)),
{
    match outcome {
        Ok(()) => Ok(()),
        Err(detail) => Err(StoreError::DeleteFailure(detail)),
    }
}

} // verus!
