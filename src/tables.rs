//! The table listing.
use vstd::prelude::*;
use crate::json::{json_string_list_of, parse_json_string_list};
use crate::models::PgTable;

verus! {

/// The catalog query for every table and view outside the system schemas,
/// ordered by schema then name, with its size in bytes and its column names
/// as a JSON array in declaration order.
pub const TABLES_SQL: &'static str = r#"
    SELECT
        t.table_schema AS schema,
        t.table_name AS name,
        t.table_type AS type,
        COALESCE(pg_relation_size(quote_ident(t.table_schema) || '.' || quote_ident(t.table_name)), 0)::int8 AS size_bytes,
        COALESCE(
            (SELECT json_agg(column_name ORDER BY ordinal_position)::text
            FROM information_schema.columns c
            WHERE c.table_schema = t.table_schema
            AND c.table_name = t.table_name),
            '[]'
        ) AS columns
    FROM information_schema.tables t
    WHERE t.table_schema NOT IN ('pg_catalog', 'information_schema')
    ORDER BY t.table_schema, t.table_name;
"#;

/// The column names that a listing's JSON text gives: the array's strings, or
/// none when the text is not an array of strings.
pub open spec fn listed_column_names(columns_json: Seq<char>) -> Seq<Seq<char>> {
    match json_string_list_of(columns_json) {
        Some(names) => names,
        None => Seq::empty(),
    }
}

/// Builds a table's listing entry from its catalog row.
pub fn table_from_catalog(
    schema: String,
    name: String,
    table_type: String,
    size_bytes: i64,
    columns_json: &str,
) -> (r: PgTable)
    ensures
        r.schema == schema,
        r.name == name,
        r.table_type == table_type,
        r.size_bytes == size_bytes,
        r.column_names@.map_values(|s: String| s@) == listed_column_names(columns_json@),
{
    let column_names = match parse_json_string_list(columns_json) {
        Some(names) => names,
        None => Vec::new(),
    };
    proof {
        if json_string_list_of(columns_json@) is None {
            assert(column_names@.map_values(|s: String| s@) =~= Seq::<Seq<char>>::empty());
        }
    }
    PgTable { schema, name, table_type, size_bytes, column_names }
}

} // verus!
