//! The two error kinds that the site shows to a client, and how storage
//! failures collapse into them.

use vstd::prelude::*;
use crate::store::StoreError;

verus! {

/// An error as the HTTP surface reports it: a missing page or record, or any
/// internal failure. No detail of the underlying cause leaks to the client.
#[derive(Clone, Copy, Debug, PartialEq, Eq, Structural)]
pub enum HistoryError {
    NotFound,
    InternalError,
}

impl HistoryError {
    /// The HTTP status code this error is reported with.
    pub fn status(&self) -> (s: u16)
        ensures
            s == self.spec_status(),
    {
        match self {
            HistoryError::NotFound => 404,
            HistoryError::InternalError => 500,
        }
    }

    pub open spec fn spec_status(self) -> u16 {
        match self {
            HistoryError::NotFound => 404,
            HistoryError::InternalError => 500,
        }
    }

    /// The plain-text body this error is reported with.
    pub fn message(&self) -> (m: String)
        ensures
            m@ == self.spec_message(),
    {
        match self {
            HistoryError::NotFound => "Nothing to see here".to_owned(),
            HistoryError::InternalError => "Internal Error".to_owned(),
        }
    }

    pub open spec fn spec_message(self) -> Seq<char> {
        match self {
            HistoryError::NotFound => "Nothing to see here"@,
            HistoryError::InternalError => "Internal Error"@,
        }
    }

    /// How a failure of `fetch` surfaces: a missing id is a missing page.
    pub fn from_fetch(e: StoreError) -> (r: HistoryError)
        ensures
            r == spec_from_fetch(e),
    {
        match e {
            StoreError::NotFound => HistoryError::NotFound,
            StoreError::Failure => HistoryError::InternalError,
        }
    }

    /// How a failure of `create`, `update` or `delete` surfaces: every storage
    /// error, a missing id included, collapses into an internal error.
    pub fn from_mutation(e: StoreError) -> (r: HistoryError)
        ensures
            r == HistoryError::InternalError,
    {
        match e {
            StoreError::NotFound => HistoryError::InternalError,
            StoreError::Failure => HistoryError::InternalError,
        }
    }
}

pub open spec fn spec_from_fetch(e: StoreError) -> HistoryError {
    match e {
        StoreError::NotFound => HistoryError::NotFound,
        StoreError::Failure => HistoryError::InternalError,
    }
}

} // verus!
