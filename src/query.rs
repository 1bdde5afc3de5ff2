//! Paginated reads of one table or view.
use vstd::prelude::*;
use crate::error::PgError;
use crate::ident::{quote_ident, quoted};
use crate::json::{json_value_of, parse_json_value};
use crate::models::PgTableData;
use crate::text::{contains_text, has_infix, push_signed, signed_decimal};

verus! {

/// The catalog query that gives the kind (`BASE TABLE`, `VIEW`, ...) of the
/// relation named by the parameters `$1` (schema) and `$2` (name).
pub const TABLE_TYPE_SQL: &'static str = "SELECT table_type FROM information_schema.tables WHERE table_schema = $1 AND table_name = $2";

/// Rows returned when the caller gives no limit.
pub const DEFAULT_LIMIT: i64 = 100;

/// A request for one page of a relation's rows.
pub struct FetchRequest {
    pub schema: String,
    pub table: String,
    /// The projection, as SQL text.
    pub columns: String,
    pub offset: i64,
    pub limit: i64,
    /// A `WHERE ...` fragment, inserted as it stands.
    pub where_clause: String,
    /// An `ORDER BY ...` fragment, inserted as it stands.
    pub order_by: String,
}

impl FetchRequest {
    /// A request with the defaults for what the caller left out: all columns,
    /// offset 0, limit 100, no filter and no ordering.
    pub fn new(
        schema: String,
        table: String,
        columns: Option<String>,
        offset: Option<i64>,
        limit: Option<i64>,
        where_clause: Option<String>,
        order_by: Option<String>,
    ) -> (r: FetchRequest)
        ensures
            r.schema == schema,
            r.table == table,
            r.columns@ == (match columns {
                Some(c) => c@,
                None => "*"@,
            }),
            r.offset == (match offset {
                Some(o) => o,
                None => 0,
            }),
            r.limit == (match limit {
                Some(l) => l,
                None => DEFAULT_LIMIT,
            }),
            r.where_clause@ == (match where_clause {
                Some(w) => w@,
                None => Seq::<char>::empty(),
            }),
            r.order_by@ == (match order_by {
                Some(o) => o@,
                None => Seq::<char>::empty(),
            }),
    {
        let columns = match columns {
            Some(c) => c,
            None => String::from_str("*"),
        };
        let offset = match offset {
            Some(o) => o,
            None => 0,
        };
        let limit = match limit {
            Some(l) => l,
            None => DEFAULT_LIMIT,
        };
        let where_clause = match where_clause {
            Some(w) => w,
            None => String::new(),
        };
        let order_by = match order_by {
            Some(o) => o,
            None => String::new(),
        };
        FetchRequest { schema, table, columns, offset, limit, where_clause, order_by }
    }
}

/// A relation kind names a view (`VIEW`, or a variant such as `MATERIALIZED VIEW`).
pub open spec fn names_view(table_type: Seq<char>) -> bool {
    has_infix(table_type, "VIEW"@)
}

/// Whether a relation of this kind is a view, which has no physical row identifier.
pub fn is_view(table_type: &str) -> (r: bool)
    ensures
        r == names_view(table_type@),
{
    contains_text(table_type, "VIEW")
}

/// `schema.table`, each name quoted.
pub open spec fn qualified_name(schema: Seq<char>, table: Seq<char>) -> Seq<char> {
    quoted(schema) + "."@ + quoted(table)
}

/// The query for one page: each row comes back as the JSON text of the row;
/// a table's rows carry their physical row identifier as `ctid`, a view's do not.
pub open spec fn select_rows_text(
    schema: Seq<char>,
    table: Seq<char>,
    columns: Seq<char>,
    view: bool,
    where_clause: Seq<char>,
    order_by: Seq<char>,
    offset: int,
    limit: int,
) -> Seq<char> {
    "SELECT row_to_json(t)::text as json_text FROM (SELECT "@ + columns + (if view {
        Seq::empty()
    } else {
        ", ctid::text as ctid"@
    }) + " FROM "@ + qualified_name(schema, table) + " "@ + where_clause + " "@ + order_by
        + " OFFSET "@ + signed_decimal(offset) + " LIMIT "@ + signed_decimal(limit) + ") t"@
}

/// The query that counts all rows of the relation, with no filter and no page.
pub open spec fn count_rows_text(schema: Seq<char>, table: Seq<char>) -> Seq<char> {
    "SELECT count(*) as count FROM "@ + qualified_name(schema, table)
}

fn push_qualified_name(out: &mut String, schema: &str, table: &str)
    ensures
        final(out)@ == old(out)@ + qualified_name(schema@, table@),
{
    let s = quote_ident(schema);
    let t = quote_ident(table);
    out.append(s.as_str());
    out.append(".");
    out.append(t.as_str());
    assert(out@ =~= old(out)@ + qualified_name(schema@, table@));
}

/// Composes the page query for `req`; `view` tells whether the relation is a view.
pub fn select_rows_sql(req: &FetchRequest, view: bool) -> (r: String)
    ensures
        r@ == select_rows_text(
            req.schema@,
            req.table@,
            req.columns@,
            view,
            req.where_clause@,
            req.order_by@,
            req.offset as int,
            req.limit as int,
        ),
{
    let mut sql = String::from_str("SELECT row_to_json(t)::text as json_text FROM (SELECT ");
    sql.append(req.columns.as_str());
    let ghost before_id = sql@;
    if !view {
        sql.append(", ctid::text as ctid");
    }
    assert(sql@ =~= before_id + (if view {
        Seq::empty()
    } else {
        ", ctid::text as ctid"@
    }));
    sql.append(" FROM ");
    push_qualified_name(&mut sql, req.schema.as_str(), req.table.as_str());
    sql.append(" ");
    sql.append(req.where_clause.as_str());
    sql.append(" ");
    sql.append(req.order_by.as_str());
    sql.append(" OFFSET ");
    push_signed(&mut sql, req.offset);
    sql.append(" LIMIT ");
    push_signed(&mut sql, req.limit);
    sql.append(") t");
    sql
}

/// Composes the query that counts every row of the relation.
pub fn count_rows_sql(schema: &str, table: &str) -> (r: String)
    ensures
        r@ == count_rows_text(schema@, table@),
{
    let mut sql = String::from_str("SELECT count(*) as count FROM ");
    push_qualified_name(&mut sql, schema, table);
    sql
}

/// Every text in the sequence is one JSON value.
pub open spec fn all_json(texts: Seq<String>) -> bool {
    forall|i: int| 0 <= i < texts.len() ==> (#[trigger] json_value_of(texts[i]@)) is Some
}

/// Decodes the page's rows, one JSON text per row, and pairs them with the
/// relation's row count. Fails, with a decode error, exactly when some text is
/// not a JSON value.
pub fn table_data_from_rows(texts: Vec<String>, count: i64) -> (r: Result<PgTableData, PgError>)
    ensures
        r is Ok <==> all_json(texts@),
        r matches Ok(data) ==> {
            &&& data.count == count
            &&& data.rows.len() == texts.len()
            &&& forall|i: int|
                0 <= i < texts.len() ==> json_value_of(texts@[i]@) == Some(#[trigger] data.rows@[i])
        },
        r matches Err(e) ==> e.is_plain() && "JSON error: "@.is_prefix_of(e.message_view()),
{
    let mut rows: Vec<serde_json::Value> = Vec::with_capacity(texts.len());
    let mut i: usize = 0;
    while i < texts.len()
        invariant
            i <= texts.len(),
            rows.len() == i,
            forall|j: int| 0 <= j < i ==> json_value_of(texts@[j]@) == Some(#[trigger] rows@[j]),
        decreases texts.len() - i,
    {
        match parse_json_value(texts[i].as_str()) {
            Ok(v) => rows.push(v),
            Err(reason) => {
                assert(json_value_of(texts@[i as int]@) is None);
                let e = PgError::json(reason.as_str());
                assert("JSON error: "@.is_prefix_of(e.message_view()));
                return Err(e);
            },
        }
        i = i + 1;
    }
    assert forall|j: int| 0 <= j < texts.len() implies (#[trigger] json_value_of(
        texts@[j]@,
    )) is Some by {
        assert(json_value_of(texts@[j]@) == Some(rows@[j]));
    }
    Ok(PgTableData { rows, count })
}

} // verus!
