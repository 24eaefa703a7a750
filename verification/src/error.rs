//! The failures that the storage and query layer reports.

use vstd::prelude::*;

verus! {

/// Why an operation on the catalog did not produce its result.
#[derive(Clone, Copy, Debug, PartialEq, Eq, Structural)]
pub enum StoreError {
    /// The requested id has no matching row.
    NotFound,
    /// The caller handed in something that can never be asked of the store,
    /// such as a vector of the wrong dimension.
    InvalidArgument,
    /// What is stored does not have the shape it must have.
    DataCorruption,
    /// The store could not be reached or failed while answering.
    StorageUnavailable,
    /// The store could not be made ready before serving began.
    StartupFatal,
}

impl StoreError {
    /// Whether this failure means that the requested item does not exist.
    pub fn is_not_found(&self) -> (absent: bool)
        ensures
            absent == (*self == StoreError::NotFound),
    {
        match self {
            StoreError::NotFound => true,
            _ => false,
        }
    }
}

} // verus!
