//! Database backends of the catalog.

use vstd::prelude::*;

use crate::text::starts_with;

verus! {

/// Supported catalog database backends.
#[derive(Clone, Copy, Debug, Eq, PartialEq, Structural)]
pub enum DbKind {
    /// SQLite backend.
    Sqlite,
    /// PostgreSQL backend.
    Postgres,
}

/// The backend that a connection string names: PostgreSQL by its two schemes, SQLite otherwise.
pub open spec fn backend_of(connection_string: Seq<char>) -> DbKind {
    if "postgres://"@.is_prefix_of(connection_string) || "postgresql://"@.is_prefix_of(
        connection_string,
    ) {
        DbKind::Postgres
    } else {
        DbKind::Sqlite
    }
}

impl DbKind {
    /// The backend that a connection string names.
    pub fn of_connection_string(connection_string: &str) -> (r: DbKind)
        ensures
            r == backend_of(connection_string@),
    {
        if starts_with(connection_string, "postgres://") || starts_with(
            connection_string,
            "postgresql://",
        ) {
            DbKind::Postgres
        } else {
            DbKind::Sqlite
        }
    }
}

/// A connection string is for PostgreSQL exactly if it has one of the two schemes, whatever comes
/// after it. All else is for SQLite.
pub proof fn schemes_name_their_backend(rest: Seq<char>, s: Seq<char>)
    ensures
        backend_of("postgres://"@ + rest) is Postgres,
        backend_of("postgresql://"@ + rest) is Postgres,
        backend_of(s) is Postgres ==> s == "postgres://"@ + s.skip(11) || s == "postgresql://"@
            + s.skip(13),
{
    reveal_strlit("postgres://");
    reveal_strlit("postgresql://");
    assert("postgres://"@.is_prefix_of("postgres://"@ + rest));
    assert("postgresql://"@.is_prefix_of("postgresql://"@ + rest));
    if "postgres://"@.is_prefix_of(s) {
        assert(s =~= "postgres://"@ + s.skip(11));
    }
    if "postgresql://"@.is_prefix_of(s) {
        assert(s =~= "postgresql://"@ + s.skip(13));
    }
}

} // verus!
