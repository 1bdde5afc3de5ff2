use pg_explorer::{
    count_rows_sql, is_view, quote_ident, select_rows_sql, transport_for, FetchRequest, Transport,
    DEFAULT_LIMIT,
};

fn request(
    columns: Option<&str>,
    offset: Option<i64>,
    limit: Option<i64>,
    where_clause: Option<&str>,
    order_by: Option<&str>,
) -> FetchRequest {
    FetchRequest::new(
        "public".to_string(),
        "users".to_string(),
        columns.map(|c| c.to_string()),
        offset,
        limit,
        where_clause.map(|w| w.to_string()),
        order_by.map(|o| o.to_string()),
    )
}

#[test]
fn quote_plain_identifier() {
    assert_eq!(quote_ident("users"), "\"users\"");
}

#[test]
fn quote_doubles_embedded_quotes() {
    assert_eq!(quote_ident("a\"b"), "\"a\"\"b\"");
    assert_eq!(quote_ident("\"\""), "\"\"\"\"\"\"");
    assert_eq!(quote_ident("x\"; DROP TABLE t; --"), "\"x\"\"; DROP TABLE t; --\"");
}

#[test]
fn quote_empty_and_unicode_identifiers() {
    assert_eq!(quote_ident(""), "\"\"");
    assert_eq!(quote_ident("café\"ü"), "\"café\"\"ü\"");
}

#[test]
fn tls_for_each_tls_mode() {
    assert_eq!(transport_for("host=db sslmode=require"), Transport::Tls);
    assert_eq!(transport_for("postgres://u@h/db?sslmode=verify-ca"), Transport::Tls);
    assert_eq!(transport_for("sslmode=verify-full host=db"), Transport::Tls);
}

#[test]
fn no_tls_without_a_tls_mode() {
    assert_eq!(transport_for("host=localhost user=me"), Transport::NoTls);
    assert_eq!(transport_for("host=db sslmode=disable"), Transport::NoTls);
    assert_eq!(transport_for("host=db sslmode=prefer"), Transport::NoTls);
    assert_eq!(transport_for(""), Transport::NoTls);
    assert_eq!(transport_for("sslmode = require"), Transport::NoTls);
}

#[test]
fn tls_mode_inside_an_unrelated_token_still_selects_tls() {
    assert_eq!(transport_for("application_name=xsslmode=requirex"), Transport::Tls);
    assert_eq!(transport_for("password=sslmode=verify-full"), Transport::Tls);
}

#[test]
fn view_detection() {
    assert!(is_view("VIEW"));
    assert!(is_view("MATERIALIZED VIEW"));
    assert!(!is_view("BASE TABLE"));
    assert!(!is_view("view"));
    assert!(!is_view(""));
}

#[test]
fn fetch_request_defaults() {
    let r = request(None, None, None, None, None);
    assert_eq!(r.schema, "public");
    assert_eq!(r.table, "users");
    assert_eq!(r.columns, "*");
    assert_eq!(r.offset, 0);
    assert_eq!(r.limit, 100);
    assert_eq!(r.limit, DEFAULT_LIMIT);
    assert_eq!(r.where_clause, "");
    assert_eq!(r.order_by, "");
}

#[test]
fn fetch_request_keeps_given_values() {
    let r = request(Some("id, name"), Some(7), Some(3), Some("WHERE id > 2"), Some("ORDER BY id"));
    assert_eq!(r.columns, "id, name");
    assert_eq!(r.offset, 7);
    assert_eq!(r.limit, 3);
    assert_eq!(r.where_clause, "WHERE id > 2");
    assert_eq!(r.order_by, "ORDER BY id");
}

#[test]
fn select_for_table_includes_row_identifier() {
    let r = request(None, None, None, None, None);
    assert_eq!(
        select_rows_sql(&r, false),
        "SELECT row_to_json(t)::text as json_text FROM (SELECT *, ctid::text as ctid FROM \"public\".\"users\"   OFFSET 0 LIMIT 100) t"
    );
}

#[test]
fn select_for_view_has_no_row_identifier() {
    let r = request(None, None, None, None, None);
    assert_eq!(
        select_rows_sql(&r, true),
        "SELECT row_to_json(t)::text as json_text FROM (SELECT * FROM \"public\".\"users\"   OFFSET 0 LIMIT 100) t"
    );
}

#[test]
fn select_inserts_filter_order_and_page() {
    let r = request(
        Some("id, status"),
        Some(200),
        Some(50),
        Some("WHERE status = 'active'"),
        Some("ORDER BY id DESC"),
    );
    assert_eq!(
        select_rows_sql(&r, false),
        "SELECT row_to_json(t)::text as json_text FROM (SELECT id, status, ctid::text as ctid FROM \"public\".\"users\" WHERE status = 'active' ORDER BY id DESC OFFSET 200 LIMIT 50) t"
    );
}

#[test]
fn select_writes_negative_and_extreme_numbers() {
    let r = request(None, Some(-5), Some(i64::MAX), None, None);
    assert_eq!(
        select_rows_sql(&r, true),
        "SELECT row_to_json(t)::text as json_text FROM (SELECT * FROM \"public\".\"users\"   OFFSET -5 LIMIT 9223372036854775807) t"
    );
    let r = request(None, Some(i64::MIN), Some(0), None, None);
    assert!(select_rows_sql(&r, true).ends_with("OFFSET -9223372036854775808 LIMIT 0) t"));
}

#[test]
fn select_quotes_hostile_names() {
    let r = FetchRequest::new(
        "my\"schema".to_string(),
        "t".to_string(),
        None,
        None,
        None,
        None,
        None,
    );
    assert!(select_rows_sql(&r, true).contains("FROM \"my\"\"schema\".\"t\" "));
}

#[test]
fn count_ignores_filter_and_page() {
    assert_eq!(
        count_rows_sql("public", "users"),
        "SELECT count(*) as count FROM \"public\".\"users\""
    );
    assert_eq!(
        count_rows_sql("a\"b", "c"),
        "SELECT count(*) as count FROM \"a\"\"b\".\"c\""
    );
}
