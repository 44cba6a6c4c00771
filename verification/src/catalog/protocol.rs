//! Protocol versions: which clients may read and write a table.

use vstd::prelude::*;
use vstd::string::*;

use super::error::{CatalogError, ErrorView, Result};
use super::models::{ident_text, TableIdent};

verus! {

/// Client protocol versions used for compatibility checks.
#[derive(Clone, Copy, Debug, PartialEq, Eq, Structural)]
pub struct ProtocolVersions {
    /// Client reader protocol version.
    pub reader: i32,
    /// Client writer protocol version.
    pub writer: i32,
}

impl Default for ProtocolVersions {
    fn default() -> (r: Self)
        ensures
            r.reader == 1,
            r.writer == 1,
    {
        ProtocolVersions { reader: 1, writer: 1 }
    }
}

/// The refusal of a client whose version is below what the table requires.
pub open spec fn protocol_flaw(
    operation: Seq<char>,
    ident: TableIdent,
    client_version: i32,
    required_min_version: i32,
) -> Option<ErrorView> {
    if client_version < required_min_version {
        Some(
            ErrorView::ProtocolVersionIncompatible {
                operation,
                table: ident_text(ident),
                client_version,
                required_min_version,
            },
        )
    } else {
        None
    }
}

impl ProtocolVersions {
    /// Checks that the client may read a table.
    pub fn ensure_reader_protocol_compatible(
        &self,
        ident: &TableIdent,
        required_min_version: i32,
    ) -> (r: Result<()>)
        ensures
            match r {
                Ok(_) => protocol_flaw("read"@, *ident, self.reader, required_min_version) is None,
                Err(e) => protocol_flaw("read"@, *ident, self.reader, required_min_version)
                    == Some(e@),
            },
    {
        if self.reader < required_min_version {
            return Err(
                CatalogError::ProtocolVersionIncompatible {
                    operation: "read",
                    table: ident.to_string(),
                    client_version: self.reader,
                    required_min_version,
                },
            );
        }
        Ok(())
    }

    /// Checks that the client may write a table.
    pub fn ensure_writer_protocol_compatible(
        &self,
        ident: &TableIdent,
        required_min_version: i32,
    ) -> (r: Result<()>)
        ensures
            match r {
                Ok(_) => protocol_flaw("write"@, *ident, self.writer, required_min_version) is None,
                Err(e) => protocol_flaw("write"@, *ident, self.writer, required_min_version)
                    == Some(e@),
            },
    {
        if self.writer < required_min_version {
            return Err(
                CatalogError::ProtocolVersionIncompatible {
                    operation: "write",
                    table: ident.to_string(),
                    client_version: self.writer,
                    required_min_version,
                },
            );
        }
        Ok(())
    }
}

} // verus!
