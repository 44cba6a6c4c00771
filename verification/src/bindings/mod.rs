//! What bindings to other languages take and give: data types and records as plain values.

pub mod arguments;
pub mod data_type;
pub mod records;
pub mod telling;
pub mod value;
