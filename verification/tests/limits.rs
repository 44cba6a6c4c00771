use planar::catalog::database::DbKind;
use planar::catalog::limits::{
    batch_insert_columns_chunk, column_insert_bind_count, db_bind_limit, delete_files_bind_count,
    file_insert_bind_count, MAX_FILES_PER_APPEND, MAX_FILES_PER_DELETE, MAX_FILES_PER_QUERY,
    MAX_JSON_SIZE_BYTES, MAX_OPERATIONS_PER_MUTATION,
};

#[test]
fn limits_are_reasonable() {
    assert!(
        MAX_FILES_PER_APPEND <= MAX_FILES_PER_QUERY,
        "append limit must not exceed query limit"
    );
    assert!(
        MAX_FILES_PER_DELETE <= MAX_FILES_PER_QUERY,
        "delete limit must not exceed query limit"
    );
    assert!(
        MAX_OPERATIONS_PER_MUTATION >= MAX_FILES_PER_APPEND,
        "mutation ops limit must allow at least one full append"
    );
    assert!(
        MAX_JSON_SIZE_BYTES <= 10_485_760,
        "JSON size limit must not exceed 10 MB"
    );
}

#[test]
fn batch_insert_columns_chunk_is_db_specific_and_clamped() {
    assert_eq!(batch_insert_columns_chunk(DbKind::Sqlite), 1_000);
    assert_eq!(batch_insert_columns_chunk(DbKind::Postgres), 1_000);
}

#[test]
fn column_insert_shape_is_locked_to_six_binds() {
    assert_eq!(
        column_insert_bind_count(1),
        6,
        "If INSERT INTO columns adds/removes fields, update bind math and tests explicitly."
    );
}

#[test]
fn file_insert_shape_is_locked_to_nine_binds() {
    assert_eq!(
        file_insert_bind_count(1),
        9,
        "If INSERT INTO files adds/removes fields, update bind math and tests explicitly."
    );
}

#[test]
fn delete_files_shape_is_locked_to_two_fixed_params() {
    assert_eq!(
        delete_files_bind_count(0),
        2,
        "If DELETE files query fixed params change, update bind math and tests explicitly."
    );
}

#[test]
fn bind_limits_of_the_backends() {
    assert_eq!(db_bind_limit(DbKind::Sqlite), 32_766);
    assert_eq!(db_bind_limit(DbKind::Postgres), 65_535);
}

#[test]
fn backends_of_connection_strings() {
    assert_eq!(DbKind::of_connection_string("postgres://localhost/planar"), DbKind::Postgres);
    assert_eq!(DbKind::of_connection_string("postgresql://localhost/planar"), DbKind::Postgres);
    assert_eq!(DbKind::of_connection_string("sqlite://catalog.db"), DbKind::Sqlite);
    assert_eq!(DbKind::of_connection_string("Postgres://localhost"), DbKind::Sqlite);
    assert_eq!(DbKind::of_connection_string(""), DbKind::Sqlite);
}
