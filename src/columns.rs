//! The column model: catalog metadata turned into what a user sees.
use vstd::prelude::*;
use crate::error::{opt_view, PgError};
use crate::models::PgColumn;
use crate::text::{push_signed, same_text, signed_decimal};

verus! {

/// The catalog query for the columns of the table named by `$1` (schema) and
/// `$2` (name), in declaration order, with key membership and type metadata.
pub const COLUMNS_SQL: &'static str = r#"
    SELECT
        c.column_name,
        t.typname AS base_type,
        a.atttypmod AS type_modifier,
        t.typtype AS type_category,
        c.is_nullable,
        c.column_default,
        CASE WHEN pk.column_name IS NOT NULL THEN 'YES' ELSE 'NO' END AS is_primary_key,
        fk.foreign_table_schema,
        fk.foreign_table_name,
        fk.foreign_column_name
    FROM information_schema.columns AS c
    INNER JOIN pg_catalog.pg_namespace AS n
        ON n.nspname = c.table_schema
    INNER JOIN pg_catalog.pg_class AS cls
        ON cls.relnamespace = n.oid
        AND cls.relname = c.table_name
    INNER JOIN pg_catalog.pg_attribute AS a
        ON a.attrelid = cls.oid
        AND a.attname = c.column_name
    INNER JOIN pg_catalog.pg_type AS t
        ON a.atttypid = t.oid
    LEFT JOIN (
        SELECT kcu.table_schema, kcu.table_name, kcu.column_name
        FROM information_schema.key_column_usage AS kcu
        INNER JOIN information_schema.table_constraints AS tc
            ON kcu.constraint_name = tc.constraint_name
            AND kcu.table_schema = tc.table_schema
            AND tc.constraint_type = 'PRIMARY KEY'
    ) AS pk
        ON c.table_schema = pk.table_schema
        AND c.table_name = pk.table_name
        AND c.column_name = pk.column_name
    LEFT JOIN (
        SELECT
            kcu.table_schema,
            kcu.table_name,
            kcu.column_name,
            ccu.table_schema AS foreign_table_schema,
            ccu.table_name AS foreign_table_name,
            ccu.column_name AS foreign_column_name
        FROM information_schema.key_column_usage AS kcu
        INNER JOIN information_schema.table_constraints AS tc
            ON kcu.constraint_name = tc.constraint_name
            AND kcu.table_schema = tc.table_schema
            AND tc.constraint_type = 'FOREIGN KEY'
        INNER JOIN information_schema.constraint_column_usage AS ccu
            ON kcu.constraint_name = ccu.constraint_name
            AND kcu.table_schema = ccu.constraint_schema
    ) AS fk
        ON c.table_schema = fk.table_schema
        AND c.table_name = fk.table_name
        AND c.column_name = fk.column_name
    WHERE c.table_schema = $1
        AND c.table_name = $2
    ORDER BY c.ordinal_position;
"#;

/// The catalog query for the labels of the enum type named `$1`, in the
/// server's stored sort order, which is the order of declaration.
pub const ENUM_LABELS_SQL: &'static str = r#"
    SELECT e.enumlabel
    FROM pg_catalog.pg_type t
    JOIN pg_catalog.pg_enum e ON t.oid = e.enumtypid
    WHERE t.typname = $1
    ORDER BY e.enumsortorder;
"#;

/// One column as the catalog describes it.
pub struct CatalogColumn {
    pub column_name: String,
    /// The type's internal name (`varchar`, `numeric`, `int4`, an enum's name, ...).
    pub base_type: String,
    /// The type modifier; `-1` when the type has none.
    pub type_modifier: i32,
    /// The type's category flag (`b` base, `e` enum, `c` composite, ...).
    pub type_category: i8,
    pub is_nullable: String,
    pub column_default: Option<String>,
    pub is_primary_key: String,
    pub foreign_table_schema: Option<String>,
    pub foreign_table_name: Option<String>,
    pub foreign_column_name: Option<String>,
}

/// The category flag of enum types, the character `e`.
pub const ENUM_CATEGORY: i8 = 101;

/// The type-parameter text that a type modifier encodes: for `varchar` and
/// `bpchar` the length, `modifier - 4`; for `numeric` the precision and the
/// scale, the high and low 16 bits of `modifier - 4`. A modifier that is not
/// positive encodes nothing.
pub open spec fn type_params_text(base_type: Seq<char>, modifier: int) -> Option<Seq<char>> {
    if modifier > 0 && (base_type == "varchar"@ || base_type == "bpchar"@) {
        Some("("@ + signed_decimal(modifier - 4) + ")"@)
    } else if modifier > 0 && base_type == "numeric"@ {
        Some(
            "("@ + signed_decimal((modifier - 4) / 65536) + ","@ + signed_decimal(
                (modifier - 4) % 65536,
            ) + ")"@,
        )
    } else {
        None
    }
}

/// Decodes a type modifier into its parameter text, such as `(255)` or `(10,2)`.
pub fn type_params(base_type: &str, modifier: i32) -> (r: Option<String>)
    ensures
        opt_view(r) == type_params_text(base_type@, modifier as int),
{
    if modifier <= 0 {
        return None;
    }
    let m: i64 = modifier as i64 - 4;
    if same_text(base_type, "varchar") || same_text(base_type, "bpchar") {
        let mut text = String::from_str("(");
        push_signed(&mut text, m);
        text.append(")");
        Some(text)
    } else if same_text(base_type, "numeric") {
        let (precision, scale): (i64, i64) = if m >= 0 {
            (m / 65536, m % 65536)
        } else {
            (-1, m + 65536)
        };
        assert(precision == m / 65536 && scale == m % 65536) by (nonlinear_arith)
            requires
                m >= -3,
                m >= 0 ==> precision == m / 65536 && scale == m % 65536,
                m < 0 ==> precision == -1 && scale == m + 65536,
        ;
        let mut text = String::from_str("(");
        push_signed(&mut text, precision);
        text.append(",");
        push_signed(&mut text, scale);
        text.append(")");
        Some(text)
    } else {
        None
    }
}

/// Whether a column of this type category holds enum labels that are to be looked up.
pub fn needs_enum_lookup(type_category: i8) -> (r: bool)
    ensures
        r == (type_category == ENUM_CATEGORY),
{
    type_category == ENUM_CATEGORY
}

/// The labels a column shows: for an enum column, those that the label lookup
/// found, in the order found; a lookup that failed or was not made shows none,
/// so that one unresolvable type does not keep the rest of the schema from view.
/// A column of any other type shows none.
pub open spec fn shown_enum_values(
    type_category: i8,
    lookup: Option<Result<Vec<String>, PgError>>,
) -> Option<Vec<String>> {
    if type_category == ENUM_CATEGORY {
        match lookup {
            Some(Ok(labels)) => Some(labels),
            _ => None,
        }
    } else {
        None
    }
}

/// Builds the column a user sees from the catalog's description and, for an
/// enum column, the outcome of looking up its labels.
pub fn resolve_column(row: CatalogColumn, enum_lookup: Option<Result<Vec<String>, PgError>>) -> (r:
    PgColumn)
    ensures
        r.column_name == row.column_name,
        r.data_type == row.base_type,
        opt_view(r.data_type_params) == type_params_text(row.base_type@, row.type_modifier as int),
        r.is_nullable == row.is_nullable,
        r.column_default == row.column_default,
        r.is_primary_key == row.is_primary_key,
        r.foreign_table_schema == row.foreign_table_schema,
        r.foreign_table_name == row.foreign_table_name,
        r.foreign_column_name == row.foreign_column_name,
        r.enum_values == shown_enum_values(row.type_category, enum_lookup),
{
    let data_type_params = type_params(row.base_type.as_str(), row.type_modifier);
    let enum_values = if needs_enum_lookup(row.type_category) {
        match enum_lookup {
            Some(Ok(labels)) => Some(labels),
            _ => None,
        }
    } else {
        None
    };
    PgColumn {
        column_name: row.column_name,
        data_type: row.base_type,
        data_type_params,
        is_nullable: row.is_nullable,
        column_default: row.column_default,
        is_primary_key: row.is_primary_key,
        foreign_table_schema: row.foreign_table_schema,
        foreign_table_name: row.foreign_table_name,
        foreign_column_name: row.foreign_column_name,
        enum_values,
    }
}

} // verus!
