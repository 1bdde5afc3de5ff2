//! Grouping of the schema-wide column listing into one entry per table.
use vstd::prelude::*;
use crate::models::{PgColumn, PgTableForGraph};

verus! {

/// The catalog query for every table and view outside the system schemas with
/// each of its columns, one row per column, ordered by schema, name and column
/// position; a relation without columns still gives one row, whose column
/// fields are null.
pub const GRAPH_SQL: &'static str = r#"
    SELECT
        t.table_schema,
        t.table_name,
        t.table_type,
        c.column_name,
        pt.typname AS base_type,
        a.atttypmod AS type_modifier,
        pt.typtype AS type_category,
        c.is_nullable,
        c.column_default,
        CASE WHEN pk.column_name IS NOT NULL THEN 'YES' ELSE 'NO' END AS is_primary_key,
        fk.foreign_table_schema,
        fk.foreign_table_name,
        fk.foreign_column_name,
        c.ordinal_position
    FROM information_schema.tables t
    LEFT JOIN information_schema.columns c
        ON c.table_schema = t.table_schema
        AND c.table_name = t.table_name
    LEFT JOIN pg_namespace n
        ON n.nspname = c.table_schema
    LEFT JOIN pg_class cls
        ON cls.relname = c.table_name
        AND cls.relnamespace = n.oid
    LEFT JOIN pg_attribute a
        ON a.attrelid = cls.oid
        AND a.attname = c.column_name
    LEFT JOIN pg_type pt
        ON pt.oid = a.atttypid
    LEFT JOIN (
        SELECT kcu.table_schema, kcu.table_name, kcu.column_name
        FROM information_schema.key_column_usage kcu
        JOIN information_schema.table_constraints tc
            ON tc.constraint_name = kcu.constraint_name
            AND tc.table_schema = kcu.table_schema
            AND tc.constraint_type = 'PRIMARY KEY'
    ) pk
        ON pk.table_schema = c.table_schema
        AND pk.table_name = c.table_name
        AND pk.column_name = c.column_name
    LEFT JOIN (
        SELECT
            kcu.table_schema,
            kcu.table_name,
            kcu.column_name,
            ccu.table_schema AS foreign_table_schema,
            ccu.table_name AS foreign_table_name,
            ccu.column_name AS foreign_column_name
        FROM information_schema.key_column_usage kcu
        JOIN information_schema.table_constraints tc
            ON tc.constraint_name = kcu.constraint_name
            AND tc.table_schema = kcu.table_schema
            AND tc.constraint_type = 'FOREIGN KEY'
        JOIN information_schema.constraint_column_usage ccu
            ON ccu.constraint_name = tc.constraint_name
            AND ccu.constraint_schema = tc.constraint_schema
    ) fk
        ON fk.table_schema = c.table_schema
        AND fk.table_name = c.table_name
        AND fk.column_name = c.column_name
    WHERE t.table_schema NOT IN ('pg_catalog', 'information_schema')
    ORDER BY t.table_schema, t.table_name, c.ordinal_position;
"#;

/// One row of the schema-wide listing: a table, and one of its columns when it has any.
pub struct GraphRow {
    pub table_schema: String,
    pub table_name: String,
    pub table_type: String,
    pub column: Option<PgColumn>,
}

/// A table entry as the grouping sees it: schema, name, kind and columns.
pub type TableGroup = (Seq<char>, Seq<char>, Seq<char>, Seq<PgColumn>);

pub open spec fn group_view(t: PgTableForGraph) -> TableGroup {
    (t.schema@, t.name@, t.table_type@, t.columns@)
}

pub open spec fn groups_view(ts: Seq<PgTableForGraph>) -> Seq<TableGroup> {
    ts.map_values(|t: PgTableForGraph| group_view(t))
}

/// `j` is the first entry of `gs` for the table `schema.name`.
pub open spec fn is_first_group(gs: Seq<TableGroup>, schema: Seq<char>, name: Seq<char>, j: int) -> bool {
    &&& 0 <= j < gs.len()
    &&& gs[j].0 == schema && gs[j].1 == name
    &&& forall|i: int| 0 <= i < j ==> !(gs[i].0 == schema && gs[i].1 == name)
}

pub open spec fn columns_of(row: GraphRow) -> Seq<PgColumn> {
    match row.column {
        Some(c) => seq![c],
        None => Seq::empty(),
    }
}

/// The entries after one more row: its column joins its table's entry, and a
/// table seen for the first time gets an entry of its own, with or without a column.
pub open spec fn add_row(gs: Seq<TableGroup>, row: GraphRow) -> Seq<TableGroup> {
    let schema = row.table_schema@;
    let name = row.table_name@;
    if exists|j: int| is_first_group(gs, schema, name, j) {
        let j = choose|j: int| is_first_group(gs, schema, name, j);
        gs.update(j, (gs[j].0, gs[j].1, gs[j].2, gs[j].3 + columns_of(row)))
    } else {
        gs.push((schema, name, row.table_type@, columns_of(row)))
    }
}

/// The entries for a listing, one per table, in the order in which tables first appear.
pub open spec fn graph_of(rows: Seq<GraphRow>) -> Seq<TableGroup>
    decreases rows.len(),
{
    if rows.len() == 0 {
        Seq::empty()
    } else {
        add_row(graph_of(rows.drop_last()), rows.last())
    }
}

/// The columns that the rows of `rows` carry for the table `schema.name`, in order.
pub open spec fn columns_for(rows: Seq<GraphRow>, schema: Seq<char>, name: Seq<char>) -> Seq<PgColumn>
    decreases rows.len(),
{
    if rows.len() == 0 {
        Seq::empty()
    } else {
        columns_for(rows.drop_last(), schema, name) + (if rows.last().table_schema@ == schema
            && rows.last().table_name@ == name {
            columns_of(rows.last())
        } else {
            Seq::empty()
        })
    }
}

proof fn lemma_columns_for_absent(rows: Seq<GraphRow>, schema: Seq<char>, name: Seq<char>)
    requires
        forall|i: int|
            0 <= i < rows.len() ==> !(rows[i].table_schema@ == schema && rows[i].table_name@ == name),
    ensures
        columns_for(rows, schema, name) == Seq::<PgColumn>::empty(),
    decreases rows.len(),
{
    if rows.len() > 0 {
        lemma_columns_for_absent(rows.drop_last(), schema, name);
        assert(columns_for(rows, schema, name) =~= Seq::<PgColumn>::empty());
    }
}

/// The grouping omits no table and repeats none: every table that a row names
/// has exactly one entry, and that entry holds exactly the columns that the
/// table's rows carry, in order, so a table whose rows carry no column has an
/// entry with an empty column list.
pub proof fn lemma_graph_keeps_every_table(rows: Seq<GraphRow>)
    ensures
        forall|i: int|
            0 <= i < rows.len() ==> exists|j: int|
                0 <= j < graph_of(rows).len() && #[trigger] graph_of(rows)[j].0
                    == (#[trigger] rows[i]).table_schema@ && graph_of(rows)[j].1
                    == rows[i].table_name@,
        forall|j: int, k: int|
            0 <= j < k < graph_of(rows).len() ==> !(graph_of(rows)[j].0 == graph_of(rows)[k].0
                && graph_of(rows)[j].1 == graph_of(rows)[k].1),
        forall|j: int|
            0 <= j < graph_of(rows).len() ==> #[trigger] graph_of(rows)[j].3 == columns_for(
                rows,
                graph_of(rows)[j].0,
                graph_of(rows)[j].1,
            ),
    decreases rows.len(),
{
    if rows.len() > 0 {
        let prev = rows.drop_last();
        let r = rows.last();
        lemma_graph_keeps_every_table(prev);
        let gs = graph_of(prev);
        let gs2 = graph_of(rows);
        let schema = r.table_schema@;
        let name = r.table_name@;
        assert(gs2 == add_row(gs, r));
        if exists|j: int| is_first_group(gs, schema, name, j) {
            let j = choose|j: int| is_first_group(gs, schema, name, j);
            assert(gs2.len() == gs.len());
            assert forall|m: int| 0 <= m < gs2.len() implies #[trigger] gs2[m].0 == gs[m].0
                && gs2[m].1 == gs[m].1 by {}
            assert forall|k: int| 0 <= k < gs2.len() implies #[trigger] gs2[k].3 == columns_for(
                rows,
                gs2[k].0,
                gs2[k].1,
            ) by {
                if k != j {
                    assert(gs2[k] == gs[k]);
                    assert(!(gs[k].0 == schema && gs[k].1 == name));
                    assert(columns_for(rows, gs2[k].0, gs2[k].1) =~= columns_for(
                        prev,
                        gs2[k].0,
                        gs2[k].1,
                    ));
                }
            }
            assert forall|i: int| 0 <= i < rows.len() implies exists|m: int|
                0 <= m < gs2.len() && #[trigger] gs2[m].0 == (#[trigger] rows[i]).table_schema@
                    && gs2[m].1 == rows[i].table_name@ by {
                if i < prev.len() {
                    assert(prev[i] == rows[i]);
                    let m = choose|m: int|
                        0 <= m < gs.len() && #[trigger] gs[m].0 == prev[i].table_schema@ && gs[m].1
                            == prev[i].table_name@;
                    assert(gs2[m].0 == gs[m].0 && gs2[m].1 == gs[m].1);
                } else {
                    assert(gs2[j].0 == schema && gs2[j].1 == name);
                }
            }
        } else {
            assert(gs2 == gs.push((schema, name, r.table_type@, columns_of(r))));
            assert forall|i: int| 0 <= i < prev.len() implies !(prev[i].table_schema@ == schema
                && prev[i].table_name@ == name) by {
                let m = choose|m: int|
                    0 <= m < gs.len() && #[trigger] gs[m].0 == prev[i].table_schema@ && gs[m].1
                        == prev[i].table_name@;
                if prev[i].table_schema@ == schema && prev[i].table_name@ == name {
                    let f = choose|f: int|
                        0 <= f <= m && gs[f].0 == schema && gs[f].1 == name && forall|q: int|
                            0 <= q < f ==> !(gs[q].0 == schema && gs[q].1 == name);
                    assert(is_first_group(gs, schema, name, f));
                }
            }
            lemma_columns_for_absent(prev, schema, name);
            assert forall|k: int| 0 <= k < gs.len() implies !(#[trigger] gs[k].0 == schema
                && gs[k].1 == name) by {
                if gs[k].0 == schema && gs[k].1 == name {
                    let f = choose|f: int|
                        0 <= f <= k && gs[f].0 == schema && gs[f].1 == name && forall|q: int|
                            0 <= q < f ==> !(gs[q].0 == schema && gs[q].1 == name);
                    assert(is_first_group(gs, schema, name, f));
                }
            }
            assert forall|a: int, b: int| 0 <= a < b < gs2.len() implies !(gs2[a].0 == gs2[b].0
                && gs2[a].1 == gs2[b].1) by {
                if b < gs.len() {
                    assert(gs2[a] == gs[a] && gs2[b] == gs[b]);
                } else {
                    assert(gs2[a] == gs[a]);
                }
            }
            assert forall|k: int| 0 <= k < gs2.len() implies #[trigger] gs2[k].3 == columns_for(
                rows,
                gs2[k].0,
                gs2[k].1,
            ) by {
                if k < gs.len() {
                    assert(gs2[k] == gs[k]);
                    assert(!(gs[k].0 == schema && gs[k].1 == name)) by {
                        if gs[k].0 == schema && gs[k].1 == name {
                            let f = choose|f: int|
                                0 <= f <= k && gs[f].0 == schema && gs[f].1 == name && forall|q: int|
                                    0 <= q < f ==> !(gs[q].0 == schema && gs[q].1 == name);
                            assert(is_first_group(gs, schema, name, f));
                        }
                    }
                    assert(columns_for(rows, gs2[k].0, gs2[k].1) =~= columns_for(
                        prev,
                        gs2[k].0,
                        gs2[k].1,
                    ));
                } else {
                    assert(columns_for(rows, schema, name) =~= columns_of(r));
                }
            }
            assert forall|i: int| 0 <= i < rows.len() implies exists|m: int|
                0 <= m < gs2.len() && #[trigger] gs2[m].0 == (#[trigger] rows[i]).table_schema@
                    && gs2[m].1 == rows[i].table_name@ by {
                if i < prev.len() {
                    assert(prev[i] == rows[i]);
                    let m = choose|m: int|
                        0 <= m < gs.len() && #[trigger] gs[m].0 == prev[i].table_schema@ && gs[m].1
                            == prev[i].table_name@;
                    assert(gs2[m] == gs[m]);
                } else {
                    assert(gs2[gs.len() as int].0 == schema);
                }
            }
        }
    }
}

fn find_table(tables: &Vec<PgTableForGraph>, schema: &String, name: &String) -> (r: Option<usize>)
    ensures
        match r {
            Some(j) => is_first_group(groups_view(tables@), schema@, name@, j as int),
            None => forall|j: int|
                0 <= j < tables.len() ==> !(tables@[j].schema@ == schema@ && tables@[j].name@
                    == name@),
        },
{
    let mut i: usize = 0;
    while i < tables.len()
        invariant
            i <= tables.len(),
            forall|j: int|
                0 <= j < i ==> !(tables@[j].schema@ == schema@ && tables@[j].name@ == name@),
        decreases tables.len() - i,
    {
        if tables[i].schema == *schema && tables[i].name == *name {
            return Some(i);
        }
        i = i + 1;
    }
    None
}

proof fn lemma_first_group_unique(gs: Seq<TableGroup>, schema: Seq<char>, name: Seq<char>, j: int, k: int)
    requires
        is_first_group(gs, schema, name, j),
        is_first_group(gs, schema, name, k),
    ensures
        j == k,
{
}

/// Groups the listing into one entry per table, keyed by schema and name, in
/// order of first appearance. Each row's column, when it has one, is appended to
/// its table's entry; a table whose rows carry no column still gets its entry,
/// with no columns.
pub fn group_graph_rows(rows: Vec<GraphRow>) -> (r: Vec<PgTableForGraph>)
    ensures
        groups_view(r@) == graph_of(rows@),
{
    let ghost all = rows@;
    let mut tables: Vec<PgTableForGraph> = Vec::new();
    for row in it: rows
        invariant
            it.seq() == all,
            groups_view(tables@) == graph_of(all.take(it.index() as int)),
    {
        let ghost n = it.index() as int;
        let ghost before = groups_view(tables@);
        let ghost old_tables = tables@;
        let ghost r0 = row;
        proof {
            assert(all.take(n + 1).drop_last() =~= all.take(n));
            assert(all.take(n + 1).last() == r0);
        }
        let found = find_table(&tables, &row.table_schema, &row.table_name);
        match found {
            Some(j) => {
                proof {
                    assert(is_first_group(before, r0.table_schema@, r0.table_name@, j as int));
                    let c = choose|k: int| is_first_group(before, row.table_schema@, row.table_name@, k);
                    lemma_first_group_unique(before, row.table_schema@, row.table_name@, j as int, c);
                }
                match row.column {
                    Some(col) => {
                        tables[j].columns.push(col);
                    },
                    None => {},
                }
                proof {
                    assert(tables@.len() == old_tables.len());
                    assert forall|k: int| 0 <= k < tables@.len() implies #[trigger] group_view(tables@[k])
                        == add_row(before, r0)[k] by {
                        if k == j as int {
                            assert(tables@[k].columns@ =~= old_tables[k].columns@ + columns_of(r0));
                        }
                    }
                    assert(groups_view(tables@) =~= add_row(before, r0));
                }
            },
            None => {
                let columns = match row.column {
                    Some(col) => vec![col],
                    None => Vec::new(),
                };
                tables.push(
                    PgTableForGraph {
                        schema: row.table_schema,
                        name: row.table_name,
                        table_type: row.table_type,
                        columns,
                    },
                );
                proof {
                    assert(!exists|k: int| is_first_group(before, r0.table_schema@, r0.table_name@, k));
                    assert(columns@ =~= columns_of(r0));
                    assert(groups_view(tables@) =~= add_row(before, r0));
                }
            },
        }
    }
    proof {
        assert(all.take(all.len() as int) =~= all);
    }
    tables
}

} // verus!
