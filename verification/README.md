# Planar

A catalog of table metadata that records transactions instead of snapshots, with pluggable file
formats (Parquet, Lance and Vortex).

- A **table** points to its current schema and its current transaction.
- A **transaction** says what changed: files added and removed, a new schema, new properties. Each
  has its parent, which came before it, so that the transactions of a table form a chain, and
  keeps the properties that it left the table with.
- A **schema** is valid from the transaction that gave it to the one that replaced it.
- A **file** is there from the transaction that added it to the one that removed it.

A snapshot is not stored. It is computed from the transaction at which it is asked for.

## Layout

- `src/` is the library. It decides and computes: it plans the SQL statements that an operation
  runs, decodes the rows that come back, judges requests and options, and describes records to
  other languages. Its contracts are proved with Verus, and so is what the catalog promises as a
  whole: see `history.rs`, `operations.rs`, `conflicts.rs`, `recall.rs`, `changes.rs` and
  `lifecycle.rs` in `src/catalog/`.
- `app/` runs the statements on SQLite and PostgreSQL, reads and writes files, and holds the
  Python bindings.
- `extras/db/migrations/` holds the tables of the catalog database.
- `tests/` runs the library, with an in-memory stand-in for the database.
