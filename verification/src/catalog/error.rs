//! Errors of catalog operations.

use vstd::prelude::*;
use vstd::string::*;

use super::data_type::{type_debug_text, TypeModel};
use crate::text::{joined, signed_decimal, signed_text};

verus! {

/// Errors returned by catalog operations.
#[derive(Debug)]
pub enum CatalogError {
    /// Table not found.
    NotFound(String),
    /// Operation conflict.
    Conflict(String),
    /// Resource limit exceeded.
    LimitExceeded(String),
    /// Invalid argument provided.
    InvalidArgument(String),
    /// Client protocol is incompatible with table requirements.
    ProtocolVersionIncompatible {
        /// Operation being attempted (for example, read or write).
        operation: &'static str,
        /// Table identifier rendered as `namespace.name`.
        table: String,
        /// Client protocol version used by this catalog instance.
        client_version: i32,
        /// Minimum protocol version required by the table.
        required_min_version: i32,
    },
    /// Feature not yet implemented.
    NotYetImplemented(String),
    /// Storage or database error, as the text that the database gives.
    Storage(String),
    /// Arrow error, as the text that Arrow gives.
    Arrow(String),
}

/// Convenient result alias for catalog operations.
pub type Result<T> = std::result::Result<T, CatalogError>;

/// A catalog error, with its texts as sequences of characters.
#[verifier::ext_equal]
pub enum ErrorView {
    /// Table not found.
    NotFound(Seq<char>),
    /// Operation conflict.
    Conflict(Seq<char>),
    /// Resource limit exceeded.
    LimitExceeded(Seq<char>),
    /// Invalid argument provided.
    InvalidArgument(Seq<char>),
    /// Client protocol is incompatible with table requirements.
    ProtocolVersionIncompatible {
        /// Operation being attempted.
        operation: Seq<char>,
        /// Table identifier rendered as `namespace.name`.
        table: Seq<char>,
        /// Client protocol version.
        client_version: i32,
        /// Minimum protocol version required by the table.
        required_min_version: i32,
    },
    /// Feature not yet implemented.
    NotYetImplemented(Seq<char>),
    /// Storage or database error.
    Storage(Seq<char>),
    /// Arrow error.
    Arrow(Seq<char>),
}

impl View for CatalogError {
    type V = ErrorView;

    open spec fn view(&self) -> ErrorView {
        match self {
            CatalogError::NotFound(s) => ErrorView::NotFound(s@),
            CatalogError::Conflict(s) => ErrorView::Conflict(s@),
            CatalogError::LimitExceeded(s) => ErrorView::LimitExceeded(s@),
            CatalogError::InvalidArgument(s) => ErrorView::InvalidArgument(s@),
            CatalogError::ProtocolVersionIncompatible {
                operation,
                table,
                client_version,
                required_min_version,
            } => ErrorView::ProtocolVersionIncompatible {
                operation: operation@,
                table: table@,
                client_version: *client_version,
                required_min_version: *required_min_version,
            },
            CatalogError::NotYetImplemented(s) => ErrorView::NotYetImplemented(s@),
            CatalogError::Storage(s) => ErrorView::Storage(s@),
            CatalogError::Arrow(s) => ErrorView::Arrow(s@),
        }
    }
}

/// What an error tells its reader.
pub open spec fn error_text(e: ErrorView) -> Seq<char> {
    match e {
        ErrorView::NotFound(s) => "table not found: "@ + s,
        ErrorView::Conflict(s) => "conflict on table: "@ + s,
        ErrorView::LimitExceeded(s) => "limit exceeded: "@ + s,
        ErrorView::InvalidArgument(s) => "invalid argument: "@ + s,
        ErrorView::ProtocolVersionIncompatible {
            operation,
            table,
            client_version,
            required_min_version,
        } => "incompatible "@ + operation + " protocol for table "@ + table + ": client="@
            + signed_text(client_version as int) + ", required_min="@ + signed_text(
            required_min_version as int,
        ),
        ErrorView::NotYetImplemented(s) => "feature not yet implemented: "@ + s,
        ErrorView::Storage(s) => "storage error: "@ + s,
        ErrorView::Arrow(s) => "arrow error: "@ + s,
    }
}

/// Why an operation is refused.
#[verifier::ext_equal]
pub enum Refusal {
    /// With this error.
    Exact(ErrorView),
    /// A column cannot change from one type to another.
    CannotEvolve {
        /// Column name.
        column: Seq<char>,
        /// The type that it has.
        from: TypeModel,
        /// The type that it should have.
        to: TypeModel,
    },
}

/// The text that a refused change of type begins with.
pub open spec fn cannot_evolve_text(column: Seq<char>) -> Seq<char> {
    "invalid schema evolution for column '"@ + column + "': cannot evolve "@
}

/// A text that stands for a type in an error: its debug text, as far as that is known.
pub open spec fn stands_for(text: Seq<char>, m: TypeModel) -> bool {
    m is Scalar || m is Timestamp ==> text == type_debug_text(m)
}

/// The error that tells of a refusal. How Arrow writes a type with fields is left open.
pub open spec fn tells(e: CatalogError, why: Refusal) -> bool {
    match why {
        Refusal::Exact(view) => e@ == view,
        Refusal::CannotEvolve { column, from, to } => e is InvalidArgument && exists|
            f: Seq<char>,
            t: Seq<char>,
        |
            #![trigger stands_for(f, from), stands_for(t, to)]
            stands_for(f, from) && stands_for(t, to) && e->InvalidArgument_0@
                == cannot_evolve_text(column) + f + " to "@ + t,
    }
}

impl CatalogError {
    /// What the error tells its reader.
    pub fn to_string(&self) -> (r: String)
        ensures
            r@ == error_text(self@),
    {
        match self {
            CatalogError::NotFound(s) => joined("table not found: ", s.as_str()),
            CatalogError::Conflict(s) => joined("conflict on table: ", s.as_str()),
            CatalogError::LimitExceeded(s) => joined("limit exceeded: ", s.as_str()),
            CatalogError::InvalidArgument(s) => joined("invalid argument: ", s.as_str()),
            CatalogError::ProtocolVersionIncompatible {
                operation,
                table,
                client_version,
                required_min_version,
            } => {
                let mut s = joined("incompatible ", operation);
                s.append(" protocol for table ");
                s.append(table.as_str());
                s.append(": client=");
                s.append(signed_decimal(*client_version as i64).as_str());
                s.append(", required_min=");
                s.append(signed_decimal(*required_min_version as i64).as_str());
                s
            },
            CatalogError::NotYetImplemented(s) => joined(
                "feature not yet implemented: ",
                s.as_str(),
            ),
            CatalogError::Storage(s) => joined("storage error: ", s.as_str()),
            CatalogError::Arrow(s) => joined("arrow error: ", s.as_str()),
        }
    }
}

} // verus!
