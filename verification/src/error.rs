//! The failures the retrieval engine reports: storage, inference and build
//! errors, each with the text shown to the user.

use crate::text::{decimal, push_decimal};
use vstd::prelude::*;
use vstd::string::*;

verus! {

/// A failure of the embedding store.
#[derive(Clone, Copy, PartialEq, Eq, Structural, Debug)]
pub enum StorageError {
    /// The backing file could not be read or written.
    Io,
    /// Another writer held the store for longer than the busy-wait timeout.
    LockContention,
    /// A stored embedding's byte length is not a multiple of four.
    CorruptEmbedding,
    /// A row does not have the columns of the fixed schema.
    SchemaMismatch,
}

impl StorageError {
    /// The text of this error.
    pub open spec fn spec_message(self) -> Seq<char> {
        match self {
            StorageError::Io => "storage I/O failure"@,
            StorageError::LockContention => "storage is locked by another writer"@,
            StorageError::CorruptEmbedding => "stored embedding is corrupt"@,
            StorageError::SchemaMismatch => "stored row does not match the schema"@,
        }
    }

    pub fn message(&self) -> (s: String)
        ensures
            s@ == self.spec_message(),
    {
        match self {
            StorageError::Io => String::from_str("storage I/O failure"),
            StorageError::LockContention => String::from_str("storage is locked by another writer"),
            StorageError::CorruptEmbedding => String::from_str("stored embedding is corrupt"),
            StorageError::SchemaMismatch => String::from_str(
                "stored row does not match the schema",
            ),
        }
    }
}

/// A failure of a call to the inference server.
#[derive(Clone, Copy, PartialEq, Eq, Structural, Debug)]
pub enum InferenceError {
    /// The request did not reach the server or no response came back.
    Transport,
    /// The server answered with a status that is neither a success nor worth
    /// retrying.
    Status(u16),
    /// The server answered with success but the body could not be read.
    MalformedResponse,
    /// Every allowed attempt failed. `last_status` is the status of the last
    /// response, or `None` when the last attempt failed in transport.
    ExhaustedRetries { last_status: Option<u16> },
}

impl InferenceError {
    /// The text of this error. A status code appears in it as a decimal number.
    pub open spec fn spec_message(self) -> Seq<char> {
        match self {
            InferenceError::Transport => "inference request failed: network error"@,
            InferenceError::Status(code) => "inference request failed: "@ + decimal(code as nat),
            InferenceError::MalformedResponse => "inference response could not be read"@,
            InferenceError::ExhaustedRetries { last_status: None } => "exhausted retries"@,
            InferenceError::ExhaustedRetries { last_status: Some(code) } => "exhausted retries: "@
                + decimal(code as nat),
        }
    }

    pub fn message(&self) -> (s: String)
        ensures
            s@ == self.spec_message(),
    {
        match self {
            InferenceError::Transport => String::from_str(
                "inference request failed: network error",
            ),
            InferenceError::Status(code) => {
                let mut s = String::from_str("inference request failed: ");
                push_decimal(&mut s, *code as u64);
                s
            },
            InferenceError::MalformedResponse => String::from_str(
                "inference response could not be read",
            ),
            InferenceError::ExhaustedRetries { last_status: None } => String::from_str(
                "exhausted retries",
            ),
            InferenceError::ExhaustedRetries { last_status: Some(code) } => {
                let mut s = String::from_str("exhausted retries: ");
                push_decimal(&mut s, *code as u64);
                s
            },
        }
    }
}

/// What went wrong during a knowledge-base build.
#[derive(Clone, Copy, PartialEq, Eq, Structural, Debug)]
pub enum BuildCause {
    Storage(StorageError),
    Inference(InferenceError),
}

/// A build failure, with the position of the document it belongs to when it
/// belongs to one.
#[derive(Clone, Copy, PartialEq, Eq, Structural, Debug)]
pub struct BuildError {
    pub cause: BuildCause,
    pub document: Option<usize>,
}

impl BuildError {
    /// The text of this error: the text of its cause.
    pub open spec fn spec_message(self) -> Seq<char> {
        match self.cause {
            BuildCause::Storage(e) => e.spec_message(),
            BuildCause::Inference(e) => e.spec_message(),
        }
    }

    pub fn message(&self) -> (s: String)
        ensures
            s@ == self.spec_message(),
    {
        match self.cause {
            BuildCause::Storage(e) => e.message(),
            BuildCause::Inference(e) => e.message(),
        }
    }
}

/// What went wrong while answering a query.
#[derive(Clone, Copy, PartialEq, Eq, Structural, Debug)]
pub enum QueryError {
    Storage(StorageError),
    Inference(InferenceError),
}

impl QueryError {
    /// The text of this error: the text of its cause.
    pub open spec fn spec_message(self) -> Seq<char> {
        match self {
            QueryError::Storage(e) => e.spec_message(),
            QueryError::Inference(e) => e.spec_message(),
        }
    }

    pub fn message(&self) -> (s: String)
        ensures
            s@ == self.spec_message(),
    {
        match self {
            QueryError::Storage(e) => e.message(),
            QueryError::Inference(e) => e.message(),
        }
    }
}

} // verus!
