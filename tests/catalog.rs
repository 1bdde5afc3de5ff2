use pg_explorer::{
    group_graph_rows, needs_enum_lookup, resolve_column, table_from_catalog, type_params,
    CatalogColumn, GraphRow, PgColumn, PgError, ENUM_CATEGORY,
};

fn catalog_column(name: &str, base_type: &str, modifier: i32, category: u8, pk: &str) -> CatalogColumn {
    CatalogColumn {
        column_name: name.to_string(),
        base_type: base_type.to_string(),
        type_modifier: modifier,
        type_category: category as i8,
        is_nullable: "YES".to_string(),
        column_default: None,
        is_primary_key: pk.to_string(),
        foreign_table_schema: None,
        foreign_table_name: None,
        foreign_column_name: None,
    }
}

fn labels(v: &[&str]) -> Vec<String> {
    v.iter().map(|s| s.to_string()).collect()
}

fn plain_column(name: &str) -> PgColumn {
    resolve_column(catalog_column(name, "int4", -1, b'b', "NO"), None)
}

fn graph_row(schema: &str, table: &str, column: Option<&str>) -> GraphRow {
    GraphRow {
        table_schema: schema.to_string(),
        table_name: table.to_string(),
        table_type: "BASE TABLE".to_string(),
        column: column.map(plain_column),
    }
}

#[test]
fn varchar_and_bpchar_lengths() {
    assert_eq!(type_params("varchar", 259), Some("(255)".to_string()));
    assert_eq!(type_params("bpchar", 14), Some("(10)".to_string()));
    assert_eq!(type_params("varchar", 2), Some("(-2)".to_string()));
}

#[test]
fn numeric_precision_and_scale() {
    assert_eq!(type_params("numeric", (10 << 16) + 2 + 4), Some("(10,2)".to_string()));
    assert_eq!(type_params("numeric", (5 << 16) + 4), Some("(5,0)".to_string()));
    assert_eq!(type_params("numeric", (1000 << 16) + 999 + 4), Some("(1000,999)".to_string()));
}

#[test]
fn no_params_without_a_positive_modifier() {
    assert_eq!(type_params("varchar", -1), None);
    assert_eq!(type_params("numeric", 0), None);
    assert_eq!(type_params("int4", -1), None);
    assert_eq!(type_params("text", 20), None);
}

#[test]
fn enum_category_is_e() {
    assert_eq!(ENUM_CATEGORY, b'e' as i8);
    assert!(needs_enum_lookup(b'e' as i8));
    assert!(!needs_enum_lookup(b'b' as i8));
    assert!(!needs_enum_lookup(b'c' as i8));
}

#[test]
fn enum_column_keeps_declared_order() {
    let row = catalog_column("status", "user_status", -1, b'e', "NO");
    let col = resolve_column(row, Some(Ok(labels(&["active", "disabled"]))));
    assert_eq!(col.enum_values, Some(labels(&["active", "disabled"])));
    let row = catalog_column("mood", "mood", -1, b'e', "NO");
    let col = resolve_column(row, Some(Ok(labels(&["sad", "ok", "happy"]))));
    assert_eq!(col.enum_values, Some(labels(&["sad", "ok", "happy"])));
}

#[test]
fn failed_enum_lookup_gives_no_values() {
    let row = catalog_column("status", "user_status", -1, b'e', "NO");
    let col = resolve_column(row, Some(Err(PgError::from_message("gone".to_string()))));
    assert_eq!(col.enum_values, None);
    let row = catalog_column("status", "user_status", -1, b'e', "NO");
    assert_eq!(resolve_column(row, None).enum_values, None);
}

#[test]
fn non_enum_column_has_no_enum_values() {
    let row = catalog_column("id", "int4", -1, b'b', "YES");
    let col = resolve_column(row, Some(Ok(labels(&["x"]))));
    assert_eq!(col.enum_values, None);
}

#[test]
fn resolved_column_carries_catalog_fields() {
    let mut row = catalog_column("owner_id", "varchar", 68, b'b', "NO");
    row.is_nullable = "NO".to_string();
    row.column_default = Some("'x'::character varying".to_string());
    row.foreign_table_schema = Some("public".to_string());
    row.foreign_table_name = Some("owners".to_string());
    row.foreign_column_name = Some("id".to_string());
    let col = resolve_column(row, None);
    assert_eq!(col.column_name, "owner_id");
    assert_eq!(col.data_type, "varchar");
    assert_eq!(col.data_type_params, Some("(64)".to_string()));
    assert_eq!(col.is_nullable, "NO");
    assert_eq!(col.column_default, Some("'x'::character varying".to_string()));
    assert_eq!(col.is_primary_key, "NO");
    assert_eq!(col.foreign_table_schema, Some("public".to_string()));
    assert_eq!(col.foreign_table_name, Some("owners".to_string()));
    assert_eq!(col.foreign_column_name, Some("id".to_string()));
}

#[test]
fn users_table_columns_scenario() {
    let id = resolve_column(catalog_column("id", "int4", -1, b'b', "YES"), None);
    let status = resolve_column(
        catalog_column("status", "user_status", -1, b'e', "NO"),
        Some(Ok(labels(&["active", "disabled"]))),
    );
    assert_eq!(id.is_primary_key, "YES");
    assert_eq!(id.enum_values, None);
    assert_eq!(status.is_primary_key, "NO");
    assert_eq!(status.enum_values, Some(labels(&["active", "disabled"])));
}

#[test]
fn graph_keeps_table_without_columns() {
    let rows = vec![
        graph_row("public", "empty", None),
        graph_row("public", "users", Some("id")),
        graph_row("public", "users", Some("name")),
    ];
    let tables = group_graph_rows(rows);
    assert_eq!(tables.len(), 2);
    assert_eq!(tables[0].schema, "public");
    assert_eq!(tables[0].name, "empty");
    assert_eq!(tables[0].table_type, "BASE TABLE");
    assert!(tables[0].columns.is_empty());
    assert_eq!(tables[1].name, "users");
    let names: Vec<&str> = tables[1].columns.iter().map(|c| c.column_name.as_str()).collect();
    assert_eq!(names, vec!["id", "name"]);
}

#[test]
fn graph_groups_by_schema_and_name() {
    let rows = vec![
        graph_row("a", "t", Some("x")),
        graph_row("b", "t", Some("y")),
        graph_row("a", "t", Some("z")),
        graph_row("a", "u", None),
    ];
    let tables = group_graph_rows(rows);
    assert_eq!(tables.len(), 3);
    assert_eq!((tables[0].schema.as_str(), tables[0].name.as_str()), ("a", "t"));
    assert_eq!((tables[1].schema.as_str(), tables[1].name.as_str()), ("b", "t"));
    assert_eq!((tables[2].schema.as_str(), tables[2].name.as_str()), ("a", "u"));
    let a_t: Vec<&str> = tables[0].columns.iter().map(|c| c.column_name.as_str()).collect();
    assert_eq!(a_t, vec!["x", "z"]);
    assert_eq!(tables[1].columns.len(), 1);
    assert!(tables[2].columns.is_empty());
}

#[test]
fn graph_of_nothing_is_empty() {
    assert!(group_graph_rows(Vec::new()).is_empty());
}

#[test]
fn table_listing_reads_column_names() {
    let t = table_from_catalog(
        "public".to_string(),
        "users".to_string(),
        "BASE TABLE".to_string(),
        8192,
        "[\"id\", \"status\"]",
    );
    assert_eq!(t.schema, "public");
    assert_eq!(t.name, "users");
    assert_eq!(t.table_type, "BASE TABLE");
    assert_eq!(t.size_bytes, 8192);
    assert_eq!(t.column_names, labels(&["id", "status"]));
}

#[test]
fn table_listing_without_readable_names() {
    let t = table_from_catalog("s".to_string(), "v".to_string(), "VIEW".to_string(), 0, "[]");
    assert!(t.column_names.is_empty());
    let t = table_from_catalog("s".to_string(), "v".to_string(), "VIEW".to_string(), 0, "not json");
    assert!(t.column_names.is_empty());
    let t = table_from_catalog("s".to_string(), "v".to_string(), "VIEW".to_string(), 0, "[1, 2]");
    assert!(t.column_names.is_empty());
}
