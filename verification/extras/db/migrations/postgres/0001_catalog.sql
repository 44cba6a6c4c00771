-- Catalog of tables, their transactions, schemas and files.

CREATE TABLE tables (
    table_uuid BYTEA PRIMARY KEY NOT NULL,
    table_name TEXT NOT NULL,
    namespace TEXT NOT NULL,
    location TEXT NOT NULL,
    current_schema_uuid BYTEA,
    current_transaction_id BYTEA,
    created_at TIMESTAMPTZ NOT NULL,
    properties TEXT,
    min_reader_version INTEGER NOT NULL DEFAULT 1,
    min_writer_version INTEGER NOT NULL DEFAULT 1,
    UNIQUE (namespace, table_name)
);

CREATE TABLE transactions (
    transaction_id BYTEA PRIMARY KEY NOT NULL,
    table_uuid BYTEA NOT NULL REFERENCES tables (table_uuid) ON DELETE CASCADE,
    transaction_timestamp TIMESTAMPTZ NOT NULL,
    parent_transaction_id BYTEA
);

CREATE INDEX idx_transactions_table ON transactions (table_uuid, transaction_id);

-- The properties that each transaction left its table with.
CREATE TABLE table_properties (
    transaction_id BYTEA PRIMARY KEY NOT NULL,
    table_uuid BYTEA NOT NULL REFERENCES tables (table_uuid) ON DELETE CASCADE,
    properties TEXT NOT NULL
);

CREATE INDEX idx_table_properties_table ON table_properties (table_uuid, transaction_id);

CREATE TABLE schemas (
    schema_uuid BYTEA PRIMARY KEY NOT NULL,
    table_uuid BYTEA NOT NULL REFERENCES tables (table_uuid) ON DELETE CASCADE,
    schema_version INTEGER NOT NULL,
    valid_from_transaction_id BYTEA NOT NULL,
    valid_to_transaction_id BYTEA,
    created_at TIMESTAMPTZ NOT NULL
);

CREATE INDEX idx_schemas_table ON schemas (table_uuid);

CREATE INDEX idx_schemas_valid_range
    ON schemas (table_uuid, valid_from_transaction_id, valid_to_transaction_id);

CREATE TABLE columns (
    column_uuid BYTEA PRIMARY KEY NOT NULL,
    schema_uuid BYTEA NOT NULL REFERENCES schemas (schema_uuid) ON DELETE CASCADE,
    column_name TEXT NOT NULL,
    column_type BYTEA NOT NULL,
    ordinal_position INTEGER NOT NULL,
    is_nullable BOOLEAN NOT NULL
);

CREATE INDEX idx_columns_schema ON columns (schema_uuid, ordinal_position);

CREATE TABLE files (
    file_uuid BYTEA PRIMARY KEY NOT NULL,
    table_uuid BYTEA NOT NULL REFERENCES tables (table_uuid) ON DELETE CASCADE,
    file_format TEXT NOT NULL,
    file_path TEXT NOT NULL,
    record_count BIGINT NOT NULL,
    file_size_bytes BIGINT NOT NULL,
    added_in_transaction_id BYTEA NOT NULL,
    removed_in_transaction_id BYTEA,
    partition_values TEXT,
    format_options TEXT
);

CREATE INDEX idx_files_table ON files (table_uuid);

CREATE INDEX idx_files_active
    ON files (table_uuid, added_in_transaction_id, removed_in_transaction_id);

CREATE TABLE table_stats (
    table_uuid BYTEA NOT NULL REFERENCES tables (table_uuid) ON DELETE CASCADE,
    transaction_id BYTEA NOT NULL,
    record_count BIGINT NOT NULL,
    file_size_bytes BIGINT NOT NULL,
    file_count INTEGER NOT NULL,
    last_updated TIMESTAMPTZ NOT NULL,
    PRIMARY KEY (table_uuid, transaction_id)
);

CREATE INDEX idx_table_stats_transaction ON table_stats (transaction_id);

CREATE TABLE file_column_stats (
    file_uuid BYTEA NOT NULL REFERENCES files (file_uuid) ON DELETE CASCADE,
    column_name TEXT NOT NULL,
    null_count BIGINT NOT NULL,
    nan_count BIGINT NOT NULL,
    min_value BYTEA,
    max_value BYTEA,
    distinct_count BIGINT,
    PRIMARY KEY (file_uuid, column_name)
);
