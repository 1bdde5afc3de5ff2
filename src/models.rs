//! The records that the library hands to its callers.
use vstd::prelude::*;

verus! {

/// A table or view, with its on-disk size and its column names in declaration order.
pub struct PgTable {
    pub schema: String,
    pub name: String,
    pub table_type: String,
    /// Size of the relation's main fork, in bytes.
    pub size_bytes: i64,
    pub column_names: Vec<String>,
}

/// One column of a table, as shown to the user.
pub struct PgColumn {
    pub column_name: String,
    pub data_type: String,
    /// Length, or precision and scale, in parentheses, such as `(255)` or `(10,2)`.
    pub data_type_params: Option<String>,
    pub is_nullable: String,
    pub column_default: Option<String>,
    pub is_primary_key: String,
    pub foreign_table_schema: Option<String>,
    pub foreign_table_name: Option<String>,
    pub foreign_column_name: Option<String>,
    /// The labels of an enum type, in declaration order.
    pub enum_values: Option<Vec<String>>,
}

/// A table with all its columns, for schema diagrams.
pub struct PgTableForGraph {
    pub schema: String,
    pub name: String,
    pub table_type: String,
    pub columns: Vec<PgColumn>,
}

/// One page of a table's rows, and the table's full row count.
pub struct PgTableData {
    pub rows: Vec<serde_json::Value>,
    pub count: i64,
}

} // verus!
