//! Data-access core of a PostgreSQL browsing tool: identifier quoting,
//! transport selection, SQL composition for paginated table reads, catalog
//! column modelling, schema-graph grouping and result materialisation.

pub mod columns;
pub mod connection;
pub mod error;
pub mod graph;
pub mod ident;
pub mod json;
pub mod models;
pub mod query;
pub mod raw;
pub mod tables;
pub mod text;

pub use columns::{
    needs_enum_lookup, resolve_column, type_params, CatalogColumn, COLUMNS_SQL, ENUM_CATEGORY,
    ENUM_LABELS_SQL,
};
pub use connection::{transport_for, Transport};
pub use error::{DbErrorParts, PgError};
pub use graph::{group_graph_rows, GraphRow, GRAPH_SQL};
pub use ident::quote_ident;
pub use models::{PgColumn, PgTable, PgTableData, PgTableForGraph};
pub use query::{
    count_rows_sql, is_view, select_rows_sql, table_data_from_rows, FetchRequest, DEFAULT_LIMIT,
    TABLE_TYPE_SQL,
};
pub use raw::{raw_rows, QueryMessage, RowObject, TextField};
pub use tables::{table_from_catalog, TABLES_SQL};
pub use text::{chars_of, contains_text, push_decimal, push_signed, same_text};
