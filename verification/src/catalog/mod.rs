//! Catalog of table metadata and transactions.
//!
//! A table has a history of transactions. Each adds and removes files, gives the table a schema
//! or changes its properties, and is made on the transaction that was current before it. The
//! catalog database keeps what every transaction did, so that the table can be read as it was at
//! any of them.
//!
//! - [`create`], [`commit`]: plan the statements that create a table or carry out a mutation.
//! - [`read`], [`events`], [`delta`]: turn rows into snapshots, event logs and differences.
//! - [`statements`], [`queries`]: the SQL texts and their parameters.
//! - [`relations`]: what the database holds and what statements do to it. [`history`],
//!   [`recall`] and [`changes`] prove from it what the catalog promises.

pub mod asking;
pub mod changes;
pub mod commit;
pub mod conflicts;
pub mod create;
pub mod data_type;
pub mod database;
pub mod delta;
pub mod error;
pub mod events;
pub mod evolution;
pub mod helpers;
pub mod history;
pub mod ipc;
pub mod lifecycle;
pub mod limits;
pub mod models;
pub mod mutation;
pub mod operations;
pub mod protocol;
pub mod queries;
pub mod read;
pub mod recall;
pub mod refusals;
pub mod relations;
pub mod room;
pub mod rows;
pub mod rules;
pub mod schema;
pub mod showing;
pub mod sql;
pub mod statements;
pub mod values;
pub mod writing;

pub use data_type::{can_evolve_to, decode_data_type, encode_data_type};
pub use error::{CatalogError, Result};
pub use models::{
    ColumnSpec, CommitResult, PropertyKey, SchemaSpec, TableDelta, TableIdent, TableProperties,
    TableView, TxnEvent, TxnFileChange, TxnFileChangeKind, TxnId, TxnRangeCursor, TxnSchemaChange,
};
pub use mutation::{FileSpec, Mutation, MutationBuilder, MutationOp, TableHandle};
pub use protocol::ProtocolVersions;
