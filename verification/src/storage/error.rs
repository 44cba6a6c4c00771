//! Errors of storage and file-format operations.

use vstd::prelude::*;
use vstd::string::*;

use crate::text::joined;

verus! {

/// Errors produced by storage and file-format operations. An error of an outer layer is kept
/// as the text that the layer gives.
#[derive(Debug)]
pub enum StorageError {
    /// I/O error.
    Io(String),
    /// Arrow error.
    Arrow(String),
    /// Parquet error.
    Parquet(String),
    /// Lance error.
    Lance(String),
    /// Vortex error.
    Vortex(String),
    /// Feature not yet implemented.
    NotYetImplemented(String),
    /// Unsupported operation.
    Unsupported(String),
}

/// Convenient result alias for storage operations.
pub type Result<T> = std::result::Result<T, StorageError>;

/// A storage error, with its text as a sequence of characters.
#[verifier::ext_equal]
pub enum StorageErrorView {
    /// I/O error.
    Io(Seq<char>),
    /// Arrow error.
    Arrow(Seq<char>),
    /// Parquet error.
    Parquet(Seq<char>),
    /// Lance error.
    Lance(Seq<char>),
    /// Vortex error.
    Vortex(Seq<char>),
    /// Feature not yet implemented.
    NotYetImplemented(Seq<char>),
    /// Unsupported operation.
    Unsupported(Seq<char>),
}

impl View for StorageError {
    type V = StorageErrorView;

    open spec fn view(&self) -> StorageErrorView {
        match self {
            StorageError::Io(s) => StorageErrorView::Io(s@),
            StorageError::Arrow(s) => StorageErrorView::Arrow(s@),
            StorageError::Parquet(s) => StorageErrorView::Parquet(s@),
            StorageError::Lance(s) => StorageErrorView::Lance(s@),
            StorageError::Vortex(s) => StorageErrorView::Vortex(s@),
            StorageError::NotYetImplemented(s) => StorageErrorView::NotYetImplemented(s@),
            StorageError::Unsupported(s) => StorageErrorView::Unsupported(s@),
        }
    }
}

/// What an error tells its reader.
pub open spec fn storage_error_text(e: StorageErrorView) -> Seq<char> {
    match e {
        StorageErrorView::Io(s) => "IO error: "@ + s,
        StorageErrorView::Arrow(s) => "Arrow error: "@ + s,
        StorageErrorView::Parquet(s) => "Parquet error: "@ + s,
        StorageErrorView::Lance(s) => "Lance error: "@ + s,
        StorageErrorView::Vortex(s) => "Vortex error: "@ + s,
        StorageErrorView::NotYetImplemented(s) => "Feature not yet implemented: "@ + s,
        StorageErrorView::Unsupported(s) => "Unsupported operation: "@ + s,
    }
}

impl StorageError {
    /// What the error tells its reader.
    pub fn to_string(&self) -> (r: String)
        ensures
            r@ == storage_error_text(self@),
    {
        match self {
            StorageError::Io(s) => joined("IO error: ", s.as_str()),
            StorageError::Arrow(s) => joined("Arrow error: ", s.as_str()),
            StorageError::Parquet(s) => joined("Parquet error: ", s.as_str()),
            StorageError::Lance(s) => joined("Lance error: ", s.as_str()),
            StorageError::Vortex(s) => joined("Vortex error: ", s.as_str()),
            StorageError::NotYetImplemented(s) => joined(
                "Feature not yet implemented: ",
                s.as_str(),
            ),
            StorageError::Unsupported(s) => joined("Unsupported operation: ", s.as_str()),
        }
    }
}

} // verus!
