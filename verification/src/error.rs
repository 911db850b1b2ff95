//! The closed set of failures that store operations report.

use vstd::prelude::*;

verus! {

/// A failure of a store operation, tagged by kind and carrying the
/// diagnostic text of the underlying engine or filesystem.
#[derive(Debug)]
pub enum StoreError {
    /// The store file could not be opened or created.
    ConnectionFailed(String),
    /// The schema could not be applied to an opened connection.
    SchemaInitFailed(String),
    /// An insert did not complete or returned an unexpected row count.
    WriteFailed(String),
    /// The backing file could not be removed.
    DestroyFailed(String),
}

impl StoreError {
    /// The diagnostic text the error carries.
    pub open spec fn spec_diagnostic(self) -> Seq<char> {
        match self {
            StoreError::ConnectionFailed(m) => m@,
            StoreError::SchemaInitFailed(m) => m@,
            StoreError::WriteFailed(m) => m@,
            StoreError::DestroyFailed(m) => m@,
        }
    }

    /// Returns the diagnostic text the error carries.
    pub fn diagnostic(&self) -> (m: &String)
        ensures
            m@ == self.spec_diagnostic(),
    {
        match self {
            StoreError::ConnectionFailed(m) => m,
            StoreError::SchemaInitFailed(m) => m,
            StoreError::WriteFailed(m) => m,
            StoreError::DestroyFailed(m) => m,
        }
    }
}

} // verus!
