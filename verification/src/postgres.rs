//! PostgreSQL dialect: quoting, statement text, DDL reconstruction and
//! catalog drop planning.
use vstd::prelude::*;

use crate::catalog::{
    CatalogCapabilities, CatalogEntry, CatalogId, CatalogKind, CatalogMetadata, ColumnMetadataCapabilities, NamespaceModel,
    ObjectGroup,
};
use crate::catalog_drop::{
    drop_issue_matches, drop_plan_outcome, unsupported, CatalogDropError, CatalogDropPlan,
    CatalogDropRequest, DropSqlIssue,
};
use crate::cursor::{find_char, index_of};
use crate::text::{
    ascii_lower, chars_of, decimal, is_empty_str, join, join_strings, owned, push_decimal,
    push_str, replace_char, replace_char_str, str_eq, string_from_chars, sub_chars,
    to_ascii_lower, trim, trim_str, views,
};
use crate::ddl::{assemble_ddl, ddl_script, sections_view, DdlSection};
use crate::mutation::{
    DeleteRowMutation, InputValue, InsertRowMutation, MetadataFingerprint, RelationMutation,
    UpdateCellMutation,
};
use crate::row_edit::{
    plan_view, step_view, BoundStatement, MutationPlan, MutationPlanView, StatementView,
};
use crate::value::{cells_view, CellValue, CellView};
use crate::error::{internal_error, internal_outcome, is_internal_error, DatabaseError};
use crate::sort::{sort_by_name, sorted_by_name};
use crate::text::{debug_str, lemma_unwrap_escaped, str_debug, unwrap_escaped};
use crate::transaction::{transaction_error, tx_view, TransactionError};

verus! {

/// Whether a server of this `server_version_num` is supported (12 or newer).
pub fn supports_server_version(server_version_num: i32) -> (r: bool)
    ensures
        r == (server_version_num >= 120000),
{
    server_version_num >= 120_000
}

/// `value` between double quotes, each double quote doubled.
pub open spec fn pg_identifier(value: Seq<char>) -> Seq<char> {
    seq!['"'] + replace_char(value, '"', seq!['"', '"']) + seq!['"']
}

/// `value` between single quotes, each single quote doubled.
pub open spec fn pg_literal(value: Seq<char>) -> Seq<char> {
    seq!['\''] + replace_char(value, '\'', seq!['\'', '\'']) + seq!['\'']
}

fn wrap_escaped(value: &str, quote: char) -> (r: String)
    ensures
        r@ == seq![quote] + replace_char(value@, quote, seq![quote, quote]) + seq![quote],
{
    let mut doubled: Vec<char> = Vec::new();
    doubled.push(quote);
    doubled.push(quote);
    let rep = string_from_chars(doubled.as_slice());
    assert(rep@ =~= seq![quote, quote]);
    let body = replace_char_str(value, quote, rep.as_str());
    let mut open: Vec<char> = Vec::new();
    open.push(quote);
    let mut out = string_from_chars(open.as_slice());
    assert(out@ =~= seq![quote]);
    push_str(&mut out, body.as_str());
    let close = string_from_chars(open.as_slice());
    push_str(&mut out, close.as_str());
    out
}

/// A PostgreSQL identifier: double-quoted with embedded quotes doubled.
pub fn quote_identifier(value: &str) -> (r: String)
    ensures
        r@ == pg_identifier(value@),
{
    wrap_escaped(value, '"')
}

/// A PostgreSQL string literal: single-quoted with embedded quotes doubled.
pub fn quote_literal(value: &str) -> (r: String)
    ensures
        r@ == pg_literal(value@),
{
    wrap_escaped(value, '\'')
}

/// Quoting can be undone: the text between the quotes, with doubled quotes
/// read as one, is the value; so two different names (or literals) never
/// quote alike.
pub proof fn lemma_quoting_roundtrip(a: Seq<char>, b: Seq<char>)
    ensures
        unwrap_escaped(pg_identifier(a), 1, '"') == a,
        pg_identifier(a) == pg_identifier(b) <==> a == b,
        unwrap_escaped(pg_literal(a), 1, '\'') == a,
        pg_literal(a) == pg_literal(b) <==> a == b,
{
    lemma_unwrap_escaped(seq!['"'], '"', '"', a, b);
    lemma_unwrap_escaped(seq!['\''], '\'', '\'', a, b);
}

// ---------------------------------------------------------------------------
// Parameter placeholders
// ---------------------------------------------------------------------------

/// The cast for a normalized type name that PostgreSQL cannot infer from a
/// text parameter.
pub open spec fn pg_exact_cast(n: Seq<char>) -> Option<Seq<char>> {
    if n == "bool"@ || n == "boolean"@ {
        Some("boolean"@)
    } else if n == "int2"@ || n == "smallint"@ {
        Some("smallint"@)
    } else if n == "int4"@ || n == "integer"@ || n == "serial"@ {
        Some("integer"@)
    } else if n == "int8"@ || n == "bigint"@ || n == "bigserial"@ {
        Some("bigint"@)
    } else if n == "float4"@ || n == "real"@ {
        Some("real"@)
    } else if n == "float8"@ || n == "double precision"@ {
        Some("double precision"@)
    } else if n == "numeric"@ || n == "decimal"@ {
        Some("numeric"@)
    } else if n == "text"@ {
        Some("text"@)
    } else if n == "varchar"@ || n == "character varying"@ {
        Some("varchar"@)
    } else if n == "char"@ || n == "character"@ {
        Some("char"@)
    } else if n == "date"@ {
        Some("date"@)
    } else if n == "time"@ || n == "time without time zone"@ {
        Some("time"@)
    } else if n == "timetz"@ || n == "time with time zone"@ {
        Some("timetz"@)
    } else if n == "timestamp"@ || n == "timestamp without time zone"@ {
        Some("timestamp"@)
    } else if n == "timestamptz"@ || n == "timestamp with time zone"@ {
        Some("timestamptz"@)
    } else if n == "uuid"@ {
        Some("uuid"@)
    } else if n == "json"@ {
        Some("json"@)
    } else if n == "jsonb"@ {
        Some("jsonb"@)
    } else if n == "bytea"@ {
        Some("bytea"@)
    } else {
        None
    }
}

/// The cast for a type with a length modifier, by its base name.
pub open spec fn pg_base_cast(base: Seq<char>) -> Option<Seq<char>> {
    if base == "varchar"@ || base == "character varying"@ {
        Some("varchar"@)
    } else if base == "char"@ || base == "character"@ {
        Some("char"@)
    } else {
        None
    }
}

/// The type name before its first `(`, trimmed.
pub open spec fn pg_base_type(n: Seq<char>) -> Seq<char> {
    let i = index_of(n, '(');
    if i < 0 {
        n
    } else {
        trim(n.subrange(0, i))
    }
}

/// The cast a parameter of type `column_type` needs, if any.
pub open spec fn pg_cast(column_type: Seq<char>) -> Option<Seq<char>> {
    let n = ascii_lower(trim(column_type));
    match pg_exact_cast(n) {
        Some(c) => Some(c),
        None => pg_base_cast(pg_base_type(n)),
    }
}

/// `$index`, with `::cast` where the column type needs one.
pub open spec fn pg_placeholder(index: nat, column_type: Seq<char>) -> Seq<char> {
    "$"@ + decimal(index) + match pg_cast(column_type) {
        Some(c) => "::"@ + c,
        None => Seq::empty(),
    }
}

fn exact_cast(n: &str) -> (r: Option<&'static str>)
    ensures
        match r {
            Some(c) => pg_exact_cast(n@) == Some(c@),
            None => pg_exact_cast(n@) is None,
        },
{
    if str_eq(n, "bool") || str_eq(n, "boolean") {
        Some("boolean")
    } else if str_eq(n, "int2") || str_eq(n, "smallint") {
        Some("smallint")
    } else if str_eq(n, "int4") || str_eq(n, "integer") || str_eq(n, "serial") {
        Some("integer")
    } else if str_eq(n, "int8") || str_eq(n, "bigint") || str_eq(n, "bigserial") {
        Some("bigint")
    } else if str_eq(n, "float4") || str_eq(n, "real") {
        Some("real")
    } else if str_eq(n, "float8") || str_eq(n, "double precision") {
        Some("double precision")
    } else if str_eq(n, "numeric") || str_eq(n, "decimal") {
        Some("numeric")
    } else if str_eq(n, "text") {
        Some("text")
    } else if str_eq(n, "varchar") || str_eq(n, "character varying") {
        Some("varchar")
    } else if str_eq(n, "char") || str_eq(n, "character") {
        Some("char")
    } else if str_eq(n, "date") {
        Some("date")
    } else if str_eq(n, "time") || str_eq(n, "time without time zone") {
        Some("time")
    } else if str_eq(n, "timetz") || str_eq(n, "time with time zone") {
        Some("timetz")
    } else if str_eq(n, "timestamp") || str_eq(n, "timestamp without time zone") {
        Some("timestamp")
    } else if str_eq(n, "timestamptz") || str_eq(n, "timestamp with time zone") {
        Some("timestamptz")
    } else if str_eq(n, "uuid") {
        Some("uuid")
    } else if str_eq(n, "json") {
        Some("json")
    } else if str_eq(n, "jsonb") {
        Some("jsonb")
    } else if str_eq(n, "bytea") {
        Some("bytea")
    } else {
        None
    }
}

fn base_cast(base: &str) -> (r: Option<&'static str>)
    ensures
        match r {
            Some(c) => pg_base_cast(base@) == Some(c@),
            None => pg_base_cast(base@) is None,
        },
{
    if str_eq(base, "varchar") || str_eq(base, "character varying") {
        Some("varchar")
    } else if str_eq(base, "char") || str_eq(base, "character") {
        Some("char")
    } else {
        None
    }
}

/// A numbered parameter, cast to the column's type where PostgreSQL would
/// not infer it.
pub fn postgres_placeholder(index: usize, column_type: &str) -> (r: String)
    ensures
        r@ == pg_placeholder(index as nat, column_type@),
{
    let trimmed = trim_str(column_type);
    let normalized = to_ascii_lower(trimmed.as_str());
    let cast = match exact_cast(normalized.as_str()) {
        Some(c) => Some(c),
        None => {
            let cs = chars_of(normalized.as_str());
            let base = match find_char(&cs, '(') {
                Some(i) => {
                    let head = sub_chars(&cs, 0, i);
                    let head_text = string_from_chars(head.as_slice());
                    trim_str(head_text.as_str())
                },
                None => owned(normalized.as_str()),
            };
            assert(base@ == pg_base_type(normalized@));
            base_cast(base.as_str())
        },
    };
    let mut out = owned("$");
    push_decimal(&mut out, index as u64);
    match cast {
        Some(c) => {
            push_str(&mut out, "::");
            push_str(&mut out, c);
        },
        None => {},
    }
    assert(out@ =~= pg_placeholder(index as nat, column_type@));
    out
}

// ---------------------------------------------------------------------------
// Row deletion
// ---------------------------------------------------------------------------

/// One null-safe equality test of a column against a numbered parameter.
pub open spec fn pg_predicate(column: (Seq<char>, Seq<char>), index: nat) -> Seq<char> {
    pg_identifier(column.0) + " IS NOT DISTINCT FROM "@ + pg_placeholder(index, column.1)
}

pub open spec fn column_pair(c: (String, String, bool)) -> (Seq<char>, Seq<char>) {
    (c.0@, c.1@)
}

/// The predicates of a delete: the locator columns against parameters
/// `1..`, then every column against the parameters after them.
pub open spec fn pg_delete_predicates(columns: Seq<(String, String, bool)>, locator: Seq<usize>) -> Seq<
    Seq<char>,
> {
    Seq::new(
        locator.len(),
        |p: int| pg_predicate(column_pair(columns[locator[p] as int]), (p + 1) as nat),
    ) + Seq::new(
        columns.len(),
        |p: int| pg_predicate(column_pair(columns[p]), (locator.len() + p + 1) as nat),
    )
}

/// The delete statement for one row: it must match the locator and every
/// original value, so a row changed since it was read is not deleted.
pub open spec fn pg_delete_sql(
    quoted_table: Seq<char>,
    columns: Seq<(String, String, bool)>,
    locator: Seq<usize>,
) -> Result<Seq<char>, Seq<char>> {
    if columns.len() == 0 {
        Err("PostgreSQL delete mutation has no relation columns"@)
    } else if locator.len() == 0 {
        Err("PostgreSQL delete mutation has no row locator"@)
    } else if exists|p: int| 0 <= p < locator.len() && #[trigger] locator[p] >= columns.len() {
        Err("PostgreSQL row locator column is out of range"@)
    } else {
        Ok(
            "DELETE FROM "@ + quoted_table + " WHERE "@ + join(
                pg_delete_predicates(columns, locator),
                " AND "@,
            ),
        )
    }
}

fn predicate(name: &str, column_type: &str, index: usize) -> (r: String)
    ensures
        r@ == pg_predicate((name@, column_type@), index as nat),
{
    let mut s = quote_identifier(name);
    push_str(&mut s, " IS NOT DISTINCT FROM ");
    let p = postgres_placeholder(index, column_type);
    push_str(&mut s, p.as_str());
    s
}

/// The statement that deletes one located row, or why it cannot be built.
pub fn postgres_delete_sql(
    quoted_table: &str,
    columns: &[(String, String, bool)],
    locator_columns: &[usize],
) -> (r: Result<String, TransactionError>)
    requires
        locator_columns@.len() + columns@.len() < usize::MAX,
    ensures
        tx_view(r) == pg_delete_sql(quoted_table@, columns@, locator_columns@),
{
    if columns.len() == 0 {
        return Err(transaction_error("PostgreSQL delete mutation has no relation columns"));
    }
    if locator_columns.len() == 0 {
        return Err(transaction_error("PostgreSQL delete mutation has no row locator"));
    }
    let ghost expected = pg_delete_predicates(columns@, locator_columns@);
    let mut predicates: Vec<String> = Vec::new();
    let mut p: usize = 0;
    while p < locator_columns.len()
        invariant
            p <= locator_columns@.len(),
            forall|q: int| 0 <= q < p ==> #[trigger] locator_columns@[q] < columns@.len(),
            views(predicates@) == expected.subrange(0, p as int),
        decreases locator_columns@.len() - p,
    {
        let index = locator_columns[p];
        if index >= columns.len() {
            return Err(transaction_error("PostgreSQL row locator column is out of range"));
        }
        let ghost before = views(predicates@);
        predicates.push(predicate(columns[index].0.as_str(), columns[index].1.as_str(), p + 1));
        assert(views(predicates@) =~= expected.subrange(0, p + 1));
        p = p + 1;
    }
    let offset = locator_columns.len();
    let mut c: usize = 0;
    while c < columns.len()
        invariant
            locator_columns@.len() + columns@.len() < usize::MAX,
            offset == locator_columns@.len(),
            c <= columns@.len(),
            views(predicates@) == expected.subrange(0, offset + c),
        decreases columns@.len() - c,
    {
        predicates.push(predicate(columns[c].0.as_str(), columns[c].1.as_str(), offset + c + 1));
        assert(views(predicates@) =~= expected.subrange(0, offset + c + 1));
        c = c + 1;
    }
    assert(expected.subrange(0, offset + c) =~= expected);
    let mut sql = owned("DELETE FROM ");
    push_str(&mut sql, quoted_table);
    push_str(&mut sql, " WHERE ");
    let body = join_strings(&predicates, " AND ");
    push_str(&mut sql, body.as_str());
    Ok(sql)
}


// ---------------------------------------------------------------------------
// Relation DDL
// ---------------------------------------------------------------------------

/// The error code of PostgreSQL catalog invariants.
pub open spec fn pg_code() -> Seq<char> {
    "postgres_catalog_invariant"@
}

fn catalog_internal(message: &str) -> (r: DatabaseError)
    ensures
        is_internal_error(r, pg_code(), message@),
{
    internal_error("postgres_catalog_invariant", message)
}

/// A column as the catalog describes it for DDL.
#[derive(Clone, Debug, PartialEq, Eq)]
pub struct PgDdlColumn {
    pub name: String,
    pub native_type: String,
    pub default_expression: Option<String>,
    pub not_null: bool,
    pub identity_kind: String,
    pub generated_kind: String,
}

/// A relation as the catalog describes it for DDL.
#[derive(Clone, Debug, PartialEq, Eq)]
pub struct PgDdlRelation {
    pub schema: String,
    pub name: String,
    pub relation_kind: String,
    pub persistence: String,
    pub view_definition: Option<String>,
    pub materialized_populated: bool,
    pub partition_key: Option<String>,
    pub partition_parent: Option<(String, String)>,
    pub partition_bound: Option<String>,
    pub columns: Vec<PgDdlColumn>,
    pub constraints: Vec<(String, String)>,
    pub relation_comment: Option<String>,
    pub column_comments: Vec<(String, String)>,
    pub indexes: Vec<(String, String)>,
    pub triggers: Vec<(String, String)>,
}

/// The column's clause in `CREATE TABLE`: its quoted name and type, then
/// exactly one identity, generation or default clause where it has one,
/// then `NOT NULL`.
pub open spec fn pg_column_definition(c: PgDdlColumn) -> Result<Seq<char>, Seq<char>> {
    let head = pg_identifier(c.name@) + " "@ + c.native_type@;
    let tail = if c.not_null { " NOT NULL"@ } else { Seq::empty() };
    let identity = c.identity_kind@;
    let generated = c.generated_kind@;
    if identity == "a"@ && generated.len() == 0 {
        Ok(head + " GENERATED ALWAYS AS IDENTITY"@ + tail)
    } else if identity == "d"@ && generated.len() == 0 {
        Ok(head + " GENERATED BY DEFAULT AS IDENTITY"@ + tail)
    } else if identity.len() == 0 && generated == "s"@ {
        match c.default_expression {
            Some(e) => Ok(head + " GENERATED ALWAYS AS ("@ + e@ + ") STORED"@ + tail),
            None => Err("PostgreSQL generated column "@ + c.name@ + " has no expression"@),
        }
    } else if identity.len() == 0 && generated.len() == 0 {
        match c.default_expression {
            Some(e) => Ok(head + " DEFAULT "@ + e@ + tail),
            None => Ok(head + tail),
        }
    } else {
        Err(
            "unsupported PostgreSQL identity/generated combination "@ + str_debug(identity) + "/"@
                + str_debug(generated) + " for column "@ + c.name@,
        )
    }
}

/// The column clause of `column`, or why it cannot be written.
pub fn column_definition(column: &PgDdlColumn) -> (r: Result<String, DatabaseError>)
    ensures
        internal_outcome(r, pg_code(), pg_column_definition(*column)),
{
    let mut definition = quote_identifier(column.name.as_str());
    push_str(&mut definition, " ");
    push_str(&mut definition, column.native_type.as_str());
    let identity = column.identity_kind.as_str();
    let generated = column.generated_kind.as_str();
    if str_eq(identity, "a") && is_empty_str(generated) {
        push_str(&mut definition, " GENERATED ALWAYS AS IDENTITY");
    } else if str_eq(identity, "d") && is_empty_str(generated) {
        push_str(&mut definition, " GENERATED BY DEFAULT AS IDENTITY");
    } else if is_empty_str(identity) && str_eq(generated, "s") {
        match &column.default_expression {
            Some(expression) => {
                push_str(&mut definition, " GENERATED ALWAYS AS (");
                push_str(&mut definition, expression.as_str());
                push_str(&mut definition, ") STORED");
            },
            None => {
                let mut message = owned("PostgreSQL generated column ");
                push_str(&mut message, column.name.as_str());
                push_str(&mut message, " has no expression");
                return Err(catalog_internal(message.as_str()));
            },
        }
    } else if is_empty_str(identity) && is_empty_str(generated) {
        match &column.default_expression {
            Some(expression) => {
                push_str(&mut definition, " DEFAULT ");
                push_str(&mut definition, expression.as_str());
            },
            None => {},
        }
    } else {
        let mut message = owned("unsupported PostgreSQL identity/generated combination ");
        let identity_text = debug_str(identity);
        push_str(&mut message, identity_text.as_str());
        push_str(&mut message, "/");
        let generated_text = debug_str(generated);
        push_str(&mut message, generated_text.as_str());
        push_str(&mut message, " for column ");
        push_str(&mut message, column.name.as_str());
        return Err(catalog_internal(message.as_str()));
    }
    if column.not_null {
        push_str(&mut definition, " NOT NULL");
    }
    Ok(definition)
}

/// The clauses of the columns, or the first column's error.
pub open spec fn pg_column_definitions(cols: Seq<PgDdlColumn>) -> Result<Seq<Seq<char>>, Seq<char>>
    decreases cols.len(),
{
    if cols.len() == 0 {
        Ok(Seq::empty())
    } else {
        match pg_column_definitions(cols.drop_last()) {
            Err(e) => Err(e),
            Ok(defs) => match pg_column_definition(cols.last()) {
                Err(e) => Err(e),
                Ok(d) => Ok(defs.push(d)),
            },
        }
    }
}

pub open spec fn pg_constraint_clause(c: (String, String)) -> Seq<char> {
    "CONSTRAINT "@ + pg_identifier(c.0@) + " "@ + c.1@
}

pub open spec fn indented(defs: Seq<Seq<char>>) -> Seq<Seq<char>> {
    defs.map_values(|d: Seq<char>| "  "@ + d)
}

pub open spec fn pg_persistence(p: Seq<char>) -> Option<Seq<char>> {
    if p == "p"@ {
        Some(Seq::empty())
    } else if p == "u"@ {
        Some("UNLOGGED "@)
    } else if p == "t"@ {
        Some("TEMPORARY "@)
    } else {
        None
    }
}

/// The label, statement and comment kind of the relation's main section.
pub open spec fn pg_main_statement(r: PgDdlRelation, qualified: Seq<char>) -> Result<
    (Seq<char>, Seq<char>, Seq<char>),
    Seq<char>,
> {
    let kind = r.relation_kind@;
    let constraints = sorted_by_name(r.constraints@);
    if kind == "r"@ && r.partition_parent is Some {
        let parent = r.partition_parent->0;
        match r.partition_bound {
            None => Err(
                "PostgreSQL partition "@ + r.schema@ + "."@ + r.name@ + " has no partition bound"@,
            ),
            Some(bound) => Ok(
                (
                    "Table"@,
                    "CREATE TABLE "@ + qualified + " PARTITION OF "@ + pg_identifier(parent.0@)
                        + "."@ + pg_identifier(parent.1@) + " "@ + bound@,
                    "TABLE"@,
                ),
            ),
        }
    } else if kind == "r"@ || kind == "p"@ {
        match pg_column_definitions(r.columns@) {
            Err(e) => Err(e),
            Ok(defs) => {
                let all = defs + constraints.map_values(|c: (String, String)| pg_constraint_clause(c));
                match pg_persistence(r.persistence@) {
                    None => Err("unexpected PostgreSQL relation persistence "@ + r.persistence@),
                    Some(persistence) => {
                        let statement = "CREATE "@ + persistence + "TABLE "@ + qualified + " (\n"@
                            + join(indented(all), ",\n"@) + "\n)"@;
                        if kind == "p"@ {
                            match r.partition_key {
                                None => Err(
                                    "PostgreSQL partitioned table "@ + r.schema@ + "."@ + r.name@
                                        + " has no partition key"@,
                                ),
                                Some(key) => Ok(
                                    ("Table"@, statement + " PARTITION BY "@ + key@, "TABLE"@),
                                ),
                            }
                        } else {
                            Ok(("Table"@, statement, "TABLE"@))
                        }
                    },
                }
            },
        }
    } else if kind == "v"@ || kind == "m"@ {
        let definition = match r.view_definition {
            Some(d) => trim(d@),
            None => Seq::empty(),
        };
        if definition.len() == 0 {
            Err(
                "PostgreSQL relation "@ + r.schema@ + "."@ + r.name@
                    + " has no main view definition"@,
            )
        } else if kind == "v"@ {
            Ok(("View"@, "CREATE VIEW "@ + qualified + " AS\n"@ + definition, "VIEW"@))
        } else {
            let no_data = if r.materialized_populated { Seq::empty() } else { "\nWITH NO DATA"@ };
            Ok(
                (
                    "View"@,
                    "CREATE MATERIALIZED VIEW "@ + qualified + " AS\n"@ + definition + no_data,
                    "MATERIALIZED VIEW"@,
                ),
            )
        }
    } else {
        Err("unsupported PostgreSQL relation kind "@ + kind + " for DDL"@)
    }
}

/// The main statement of a materialized view with a definition: it creates
/// the view under its quoted schema and name from the trimmed definition,
/// and ends with `WITH NO DATA` exactly when the view is not populated; a
/// populated view's statement ends with the definition itself.
pub proof fn lemma_materialized_view_statement(r: PgDdlRelation)
    requires
        r.relation_kind@ == "m"@,
        r.view_definition is Some,
        trim(r.view_definition->Some_0@).len() > 0,
    ensures
        ({
            let qualified = pg_identifier(r.schema@) + "."@ + pg_identifier(r.name@);
            let head = "CREATE MATERIALIZED VIEW "@ + qualified + " AS\n"@ + trim(
                r.view_definition->Some_0@,
            );
            &&& pg_main_statement(r, qualified) is Ok
            &&& pg_main_statement(r, qualified)->Ok_0.0 == "View"@
            &&& pg_main_statement(r, qualified)->Ok_0.2 == "MATERIALIZED VIEW"@
            &&& r.materialized_populated ==> pg_main_statement(r, qualified)->Ok_0.1 == head
            &&& !r.materialized_populated ==> pg_main_statement(r, qualified)->Ok_0.1 == head
                + "\nWITH NO DATA"@
        }),
{
    reveal_strlit("m");
    reveal_strlit("r");
    reveal_strlit("p");
    reveal_strlit("v");
    assert("m"@[0] != "r"@[0] && "m"@[0] != "p"@[0] && "m"@[0] != "v"@[0]);
    assert(r.relation_kind@ != "r"@ && r.relation_kind@ != "p"@ && r.relation_kind@ != "v"@);
    let qualified = pg_identifier(r.schema@) + "."@ + pg_identifier(r.name@);
    let head = "CREATE MATERIALIZED VIEW "@ + qualified + " AS\n"@ + trim(r.view_definition->Some_0@);
    assert(head + Seq::<char>::empty() =~= head);
}

/// The main statement of a plain view with a definition: it creates the
/// view under its quoted schema and name from the trimmed definition, with
/// nothing after it.
pub proof fn lemma_view_statement(r: PgDdlRelation)
    requires
        r.relation_kind@ == "v"@,
        r.view_definition is Some,
        trim(r.view_definition->Some_0@).len() > 0,
    ensures
        ({
            let qualified = pg_identifier(r.schema@) + "."@ + pg_identifier(r.name@);
            pg_main_statement(r, qualified) == Ok::<(Seq<char>, Seq<char>, Seq<char>), Seq<char>>(
                (
                    "View"@,
                    "CREATE VIEW "@ + qualified + " AS\n"@ + trim(r.view_definition->Some_0@),
                    "VIEW"@,
                ),
            )
        }),
{
    reveal_strlit("r");
    reveal_strlit("p");
    reveal_strlit("v");
    assert("v"@[0] != "r"@[0] && "v"@[0] != "p"@[0]);
    assert(r.relation_kind@ != "r"@ && r.relation_kind@ != "p"@);
}

pub open spec fn pg_column_comment(qualified: Seq<char>, c: (String, String)) -> Seq<char> {
    "COMMENT ON COLUMN "@ + qualified + "."@ + pg_identifier(c.0@) + " IS "@ + pg_literal(c.1@)
}

/// The comment statements: the relation's, then each column's by name.
pub open spec fn pg_comments(r: PgDdlRelation, qualified: Seq<char>, comment_kind: Seq<char>) -> Seq<
    Seq<char>,
> {
    let head = match r.relation_comment {
        Some(c) => seq!["COMMENT ON "@ + comment_kind + " "@ + qualified + " IS "@ + pg_literal(c@)],
        None => Seq::empty(),
    };
    head + sorted_by_name(r.column_comments@).map_values(
        |c: (String, String)| pg_column_comment(qualified, c),
    )
}

pub open spec fn second_views(s: Seq<(String, String)>) -> Seq<Seq<char>> {
    s.map_values(|p: (String, String)| p.1@)
}

/// The relation's DDL: its main statement, comments, indexes and triggers
/// in labelled sections, each list ordered by name.
pub open spec fn pg_relation_ddl(r: PgDdlRelation) -> Result<Seq<char>, Seq<char>> {
    let qualified = pg_identifier(r.schema@) + "."@ + pg_identifier(r.name@);
    match pg_main_statement(r, qualified) {
        Err(e) => Err(e),
        Ok(main) => {
            let sections = seq![
                (main.0, seq![main.1]),
                ("Comments"@, pg_comments(r, qualified, main.2)),
                ("Indexes"@, second_views(sorted_by_name(r.indexes@))),
                ("Triggers"@, second_views(sorted_by_name(r.triggers@))),
            ];
            match ddl_script(sections) {
                Some(s) => Ok(s),
                None => Err("PostgreSQL relation DDL assembly produced no statements"@),
            }
        },
    }
}

fn seconds(v: Vec<(String, String)>) -> (r: Vec<String>)
    ensures
        views(r@) == second_views(v@),
{
    let mut out: Vec<String> = Vec::new();
    let mut i: usize = 0;
    while i < v.len()
        invariant
            i <= v@.len(),
            views(out@) == second_views(v@.subrange(0, i as int)),
        decreases v@.len() - i,
    {
        let ghost before = views(out@);
        let t = v[i].1.clone();
        assert(t@ == v@[i as int].1@);
        out.push(t);
        assert forall|k: int| 0 <= k < i + 1 implies #[trigger] views(out@)[k] == second_views(
            v@.subrange(0, i + 1),
        )[k] by {
            if k < i {
                assert(views(out@)[k] == before[k]);
                assert(before[k] == second_views(v@.subrange(0, i as int))[k]);
            }
        }
        assert(views(out@) =~= second_views(v@.subrange(0, i + 1)));
        i = i + 1;
    }
    assert(v@.subrange(0, i as int) =~= v@);
    out
}

fn column_definitions(columns: &Vec<PgDdlColumn>) -> (r: Result<Vec<String>, DatabaseError>)
    ensures
        match r {
            Ok(defs) => pg_column_definitions(columns@) == Ok::<Seq<Seq<char>>, Seq<char>>(
                views(defs@),
            ),
            Err(e) => pg_column_definitions(columns@) matches Err(m) && is_internal_error(
                e,
                pg_code(),
                m,
            ),
        },
{
    let mut defs: Vec<String> = Vec::new();
    let mut i: usize = 0;
    assert(columns@.subrange(0, 0) =~= Seq::<PgDdlColumn>::empty());
    assert(views(defs@) =~= Seq::<Seq<char>>::empty());
    while i < columns.len()
        invariant
            i <= columns@.len(),
            pg_column_definitions(columns@.subrange(0, i as int)) == Ok::<
                Seq<Seq<char>>,
                Seq<char>,
            >(views(defs@)),
        decreases columns@.len() - i,
    {
        assert(columns@.subrange(0, i + 1).drop_last() =~= columns@.subrange(0, i as int));
        let ghost before = views(defs@);
        let d = column_definition(&columns[i]);
        match d {
            Ok(d) => {
                defs.push(d);
                assert(views(defs@) =~= before.push(views(defs@).last()));
            },
            Err(e) => {
                proof {
                    lemma_definitions_error_prefix(columns@, i as int);
                }
                return Err(e);
            },
        }
        i = i + 1;
    }
    assert(columns@.subrange(0, i as int) =~= columns@);
    Ok(defs)
}

/// An error among the first columns is the error of all of them.
proof fn lemma_definitions_error_prefix(cols: Seq<PgDdlColumn>, i: int)
    requires
        0 <= i < cols.len(),
        pg_column_definitions(cols.subrange(0, i)) is Ok,
        pg_column_definition(cols[i]) is Err,
    ensures
        pg_column_definitions(cols) == Err::<Seq<Seq<char>>, Seq<char>>(
            pg_column_definition(cols[i])->Err_0,
        ),
    decreases cols.len() - i,
{
    if i == cols.len() - 1 {
        assert(cols.drop_last() =~= cols.subrange(0, i));
    } else {
        assert(cols.drop_last().subrange(0, i) =~= cols.subrange(0, i));
        assert(cols.drop_last()[i] == cols[i]);
        lemma_definitions_error_prefix(cols.drop_last(), i);
    }
}


/// A copy of a list of named fragments.
pub fn clone_pairs(v: &Vec<(String, String)>) -> (r: Vec<(String, String)>)
    ensures
        r@ == v@,
{
    let mut out: Vec<(String, String)> = Vec::new();
    let mut i: usize = 0;
    while i < v.len()
        invariant
            i <= v@.len(),
            out@ == v@.subrange(0, i as int),
        decreases v@.len() - i,
    {
        let a = v[i].0.clone();
        let b = v[i].1.clone();
        out.push((a, b));
        assert(out@ =~= v@.subrange(0, i + 1));
        i = i + 1;
    }
    assert(v@.subrange(0, i as int) =~= v@);
    out
}

fn relation_message(prefix: &str, schema: &str, name: &str, suffix: &str) -> (r: String)
    ensures
        r@ == prefix@ + schema@ + "."@ + name@ + suffix@,
{
    let mut m = owned(prefix);
    push_str(&mut m, schema);
    push_str(&mut m, ".");
    push_str(&mut m, name);
    push_str(&mut m, suffix);
    m
}

fn table_body(defs: &Vec<String>, constraints: &Vec<(String, String)>) -> (r: String)
    ensures
        r@ == join(
            indented(views(defs@) + constraints@.map_values(
                |c: (String, String)| pg_constraint_clause(c),
            )),
            ",\n"@,
        ),
{
    let ghost all = views(defs@) + constraints@.map_values(|c: (String, String)| pg_constraint_clause(c));
    let mut lines: Vec<String> = Vec::new();
    let mut i: usize = 0;
    while i < defs.len()
        invariant
            i <= defs@.len(),
            views(lines@) == indented(all).subrange(0, i as int),
        decreases defs@.len() - i,
    {
        let mut line = owned("  ");
        push_str(&mut line, defs[i].as_str());
        lines.push(line);
        assert(views(lines@) =~= indented(all).subrange(0, i + 1));
        i = i + 1;
    }
    let n = defs.len();
    let mut k: usize = 0;
    while k < constraints.len()
        invariant
            n == defs@.len(),
            k <= constraints@.len(),
            views(lines@) == indented(all).subrange(0, n + k),
        decreases constraints@.len() - k,
    {
        let mut line = owned("  CONSTRAINT ");
        let q = quote_identifier(constraints[k].0.as_str());
        push_str(&mut line, q.as_str());
        push_str(&mut line, " ");
        push_str(&mut line, constraints[k].1.as_str());
        proof {
            let ghost c = constraints@[k as int];
            assert(all[n + k] == pg_constraint_clause(c));
            assert("  CONSTRAINT "@ =~= "  "@ + "CONSTRAINT "@) by {
                reveal_strlit("  CONSTRAINT ");
                reveal_strlit("  ");
                reveal_strlit("CONSTRAINT ");
            }
            assert(line@ =~= "  "@ + pg_constraint_clause(c));
        }
        lines.push(line);
        assert(views(lines@) =~= indented(all).subrange(0, n + k + 1));
        k = k + 1;
    }
    assert(indented(all).subrange(0, n + k) =~= indented(all));
    join_strings(&lines, ",\n")
}

fn main_statement(r: &PgDdlRelation, qualified: &str, constraints: &Vec<(String, String)>) -> (res:
    Result<(&'static str, String, &'static str), DatabaseError>)
    requires
        constraints@ == sorted_by_name(r.constraints@),
    ensures
        match res {
            Ok((label, sql, kind)) => pg_main_statement(*r, qualified@) == Ok::<
                (Seq<char>, Seq<char>, Seq<char>),
                Seq<char>,
            >((label@, sql@, kind@)),
            Err(e) => pg_main_statement(*r, qualified@) matches Err(m) && is_internal_error(
                e,
                pg_code(),
                m,
            ),
        },
{
    let kind = r.relation_kind.as_str();
    if str_eq(kind, "r") && r.partition_parent.is_some() {
        let parent = match &r.partition_parent {
            Some(p) => p,
            None => {
                return Err(catalog_internal("PostgreSQL partition has no parent"));
            },
        };
        match &r.partition_bound {
            None => {
                let m = relation_message(
                    "PostgreSQL partition ",
                    r.schema.as_str(),
                    r.name.as_str(),
                    " has no partition bound",
                );
                Err(catalog_internal(m.as_str()))
            },
            Some(bound) => {
                let mut sql = owned("CREATE TABLE ");
                push_str(&mut sql, qualified);
                push_str(&mut sql, " PARTITION OF ");
                let ps = quote_identifier(parent.0.as_str());
                push_str(&mut sql, ps.as_str());
                push_str(&mut sql, ".");
                let pn = quote_identifier(parent.1.as_str());
                push_str(&mut sql, pn.as_str());
                push_str(&mut sql, " ");
                push_str(&mut sql, bound.as_str());
                Ok(("Table", sql, "TABLE"))
            },
        }
    } else if str_eq(kind, "r") || str_eq(kind, "p") {
        let defs = column_definitions(&r.columns)?;
        let persistence = if str_eq(r.persistence.as_str(), "p") {
            ""
        } else if str_eq(r.persistence.as_str(), "u") {
            "UNLOGGED "
        } else if str_eq(r.persistence.as_str(), "t") {
            "TEMPORARY "
        } else {
            let mut m = owned("unexpected PostgreSQL relation persistence ");
            push_str(&mut m, r.persistence.as_str());
            return Err(catalog_internal(m.as_str()));
        };
        assert(pg_persistence(r.persistence@) == Some(persistence@)) by {
            reveal_strlit("");
        }
        let mut statement = owned("CREATE ");
        push_str(&mut statement, persistence);
        push_str(&mut statement, "TABLE ");
        push_str(&mut statement, qualified);
        push_str(&mut statement, " (\n");
        let body = table_body(&defs, constraints);
        push_str(&mut statement, body.as_str());
        push_str(&mut statement, "\n)");
        if str_eq(kind, "p") {
            match &r.partition_key {
                None => {
                    let m = relation_message(
                        "PostgreSQL partitioned table ",
                        r.schema.as_str(),
                        r.name.as_str(),
                        " has no partition key",
                    );
                    return Err(catalog_internal(m.as_str()));
                },
                Some(key) => {
                    push_str(&mut statement, " PARTITION BY ");
                    push_str(&mut statement, key.as_str());
                },
            }
        }
        Ok(("Table", statement, "TABLE"))
    } else if str_eq(kind, "v") || str_eq(kind, "m") {
        let definition = match &r.view_definition {
            Some(d) => trim_str(d.as_str()),
            None => String::new(),
        };
        if is_empty_str(definition.as_str()) {
            let m = relation_message(
                "PostgreSQL relation ",
                r.schema.as_str(),
                r.name.as_str(),
                " has no main view definition",
            );
            return Err(catalog_internal(m.as_str()));
        }
        if str_eq(kind, "v") {
            let mut sql = owned("CREATE VIEW ");
            push_str(&mut sql, qualified);
            push_str(&mut sql, " AS\n");
            push_str(&mut sql, definition.as_str());
            Ok(("View", sql, "VIEW"))
        } else {
            let mut sql = owned("CREATE MATERIALIZED VIEW ");
            push_str(&mut sql, qualified);
            push_str(&mut sql, " AS\n");
            push_str(&mut sql, definition.as_str());
            if !r.materialized_populated {
                push_str(&mut sql, "\nWITH NO DATA");
            }
            Ok(("View", sql, "MATERIALIZED VIEW"))
        }
    } else {
        let mut m = owned("unsupported PostgreSQL relation kind ");
        push_str(&mut m, kind);
        push_str(&mut m, " for DDL");
        Err(catalog_internal(m.as_str()))
    }
}

fn comment_statements(
    r: &PgDdlRelation,
    qualified: &str,
    comment_kind: &str,
    column_comments: &Vec<(String, String)>,
) -> (res: Vec<String>)
    requires
        column_comments@ == sorted_by_name(r.column_comments@),
    ensures
        views(res@) == pg_comments(*r, qualified@, comment_kind@),
{
    let mut out: Vec<String> = Vec::new();
    match &r.relation_comment {
        Some(c) => {
            let mut s = owned("COMMENT ON ");
            push_str(&mut s, comment_kind);
            push_str(&mut s, " ");
            push_str(&mut s, qualified);
            push_str(&mut s, " IS ");
            let lit = quote_literal(c.as_str());
            push_str(&mut s, lit.as_str());
            out.push(s);
        },
        None => {},
    }
    let ghost head = views(out@);
    let ghost tail = column_comments@.map_values(|c: (String, String)| pg_column_comment(qualified@, c));
    assert(head =~= match r.relation_comment {
        Some(c) => seq!["COMMENT ON "@ + comment_kind@ + " "@ + qualified@ + " IS "@ + pg_literal(c@)],
        None => Seq::<Seq<char>>::empty(),
    });
    let h = out.len();
    let mut i: usize = 0;
    while i < column_comments.len()
        invariant
            h == head.len(),
            i <= column_comments@.len(),
            views(out@) == head + tail.subrange(0, i as int),
        decreases column_comments@.len() - i,
    {
        let mut s = owned("COMMENT ON COLUMN ");
        push_str(&mut s, qualified);
        push_str(&mut s, ".");
        let q = quote_identifier(column_comments[i].0.as_str());
        push_str(&mut s, q.as_str());
        push_str(&mut s, " IS ");
        let lit = quote_literal(column_comments[i].1.as_str());
        push_str(&mut s, lit.as_str());
        let ghost before = views(out@);
        assert(s@ == tail[i as int]);
        out.push(s);
        assert forall|k: int| 0 <= k < h + i + 1 implies #[trigger] views(out@)[k] == (head
            + tail.subrange(0, i + 1))[k] by {
            if k < h + i {
                assert(views(out@)[k] == before[k]);
            }
        }
        assert(views(out@) =~= head + tail.subrange(0, i + 1));
        i = i + 1;
    }
    assert(tail.subrange(0, i as int) =~= tail);
    out
}

/// The DDL that recreates a relation, or why the catalog description
/// cannot be turned into one.
pub fn assemble_relation_ddl(relation: PgDdlRelation) -> (r: Result<String, DatabaseError>)
    ensures
        internal_outcome(r, pg_code(), pg_relation_ddl(relation)),
{
    let constraints = sort_by_name(clone_pairs(&relation.constraints));
    let column_comments = sort_by_name(clone_pairs(&relation.column_comments));
    let indexes = sort_by_name(clone_pairs(&relation.indexes));
    let triggers = sort_by_name(clone_pairs(&relation.triggers));
    let mut qualified = quote_identifier(relation.schema.as_str());
    push_str(&mut qualified, ".");
    let qn = quote_identifier(relation.name.as_str());
    push_str(&mut qualified, qn.as_str());
    let (label, main_sql, comment_kind) = match main_statement(
        &relation,
        qualified.as_str(),
        &constraints,
    ) {
        Ok(parts) => parts,
        Err(e) => {
            return Err(e);
        },
    };
    let comments = comment_statements(&relation, qualified.as_str(), comment_kind, &column_comments);
    let ghost main_view = main_sql@;
    let mut main_list: Vec<String> = Vec::new();
    main_list.push(main_sql);
    assert(views(main_list@) =~= seq![main_view]);
    let index_sql = seconds(indexes);
    let trigger_sql = seconds(triggers);
    let ghost expected = seq![
        (label@, views(main_list@)),
        ("Comments"@, views(comments@)),
        ("Indexes"@, views(index_sql@)),
        ("Triggers"@, views(trigger_sql@)),
    ];
    let mut sections: Vec<DdlSection> = Vec::new();
    sections.push(DdlSection { label, statements: main_list });
    sections.push(DdlSection { label: "Comments", statements: comments });
    sections.push(DdlSection { label: "Indexes", statements: index_sql });
    sections.push(DdlSection { label: "Triggers", statements: trigger_sql });
    assert(sections_view(sections@) =~= expected);
    match assemble_ddl(sections) {
        Some(s) => Ok(s),
        None => Err(catalog_internal("PostgreSQL relation DDL assembly produced no statements")),
    }
}


// ---------------------------------------------------------------------------
// Catalog drops
// ---------------------------------------------------------------------------

/// The schema-qualified, quoted name of an entry.
pub open spec fn pg_qualified_name(entry: CatalogEntry, kind: CatalogKind) -> Result<
    Seq<char>,
    DropSqlIssue,
> {
    let name = entry.qualified_name;
    if name.object@.len() == 0 {
        Err(DropSqlIssue::EmptyObjectName)
    } else {
        match name.schema {
            None => Err(
                DropSqlIssue::Unsupported(kind, "catalog entry has no schema-qualified name"@),
            ),
            Some(schema) => if schema@.len() == 0 {
                Err(DropSqlIssue::Unsupported(kind, "catalog entry has an empty schema name"@))
            } else {
                Ok(pg_identifier(schema@) + "."@ + pg_identifier(name.object@))
            },
        }
    }
}

/// The quoted name of the relation that owns an entry.
pub open spec fn pg_owning_relation(entry: CatalogEntry) -> Result<Seq<char>, DropSqlIssue> {
    let kind = entry.kind;
    match entry.relation_id {
        None => Err(
            DropSqlIssue::Unsupported(kind, "catalog entry has no owning relation identity"@),
        ),
        Some(relation) => if !relation.kind.spec_is_relation() || relation.native_path@.len() < 3 {
            Err(
                DropSqlIssue::Unsupported(
                    kind,
                    "catalog entry has an invalid owning relation identity"@,
                ),
            )
        } else {
            match entry.qualified_name.schema {
                None => Err(
                    DropSqlIssue::Unsupported(kind, "catalog entry has no owning relation schema"@),
                ),
                Some(schema) => {
                    let relation_name = relation.native_path@[2]@;
                    if schema@.len() == 0 || relation_name.len() == 0 {
                        Err(
                            DropSqlIssue::Unsupported(
                                kind,
                                "catalog entry has an incomplete owning relation identity"@,
                            ),
                        )
                    } else {
                        Ok(pg_identifier(schema@) + "."@ + pg_identifier(relation_name))
                    }
                },
            }
        },
    }
}

pub open spec fn prefixed(prefix: Seq<char>, r: Result<Seq<char>, DropSqlIssue>) -> Result<
    Seq<char>,
    DropSqlIssue,
> {
    match r {
        Ok(s) => Ok(prefix + s),
        Err(e) => Err(e),
    }
}

/// The statement that drops an entry, by its kind.
pub open spec fn pg_drop_sql(entry: CatalogEntry) -> Result<Seq<char>, DropSqlIssue> {
    let object = pg_identifier(entry.qualified_name.object@);
    match entry.kind {
        CatalogKind::Table => prefixed("DROP TABLE "@, pg_qualified_name(entry, entry.kind)),
        CatalogKind::View => prefixed("DROP VIEW "@, pg_qualified_name(entry, entry.kind)),
        CatalogKind::MaterializedView => prefixed(
            "DROP MATERIALIZED VIEW "@,
            pg_qualified_name(entry, entry.kind),
        ),
        CatalogKind::Sequence => prefixed("DROP SEQUENCE "@, pg_qualified_name(entry, entry.kind)),
        CatalogKind::Type => prefixed("DROP TYPE "@, pg_qualified_name(entry, entry.kind)),
        CatalogKind::Index => prefixed("DROP INDEX "@, pg_qualified_name(entry, entry.kind)),
        CatalogKind::Column => match pg_owning_relation(entry) {
            Ok(rel) => Ok("ALTER TABLE "@ + rel + " DROP COLUMN "@ + object),
            Err(e) => Err(e),
        },
        CatalogKind::PrimaryKey | CatalogKind::UniqueConstraint | CatalogKind::ForeignKey
        | CatalogKind::CheckConstraint => match pg_owning_relation(entry) {
            Ok(rel) => Ok("ALTER TABLE "@ + rel + " DROP CONSTRAINT "@ + object),
            Err(e) => Err(e),
        },
        CatalogKind::Trigger => match pg_owning_relation(entry) {
            Ok(rel) => Ok("DROP TRIGGER "@ + object + " ON "@ + rel),
            Err(e) => Err(e),
        },
        _ => Err(
            DropSqlIssue::Unsupported(
                entry.kind,
                "catalog metadata does not provide an unambiguous PostgreSQL drop target"@,
            ),
        ),
    }
}

fn postgres_qualified_name(entry: &CatalogEntry, kind: CatalogKind) -> (r: Result<
    String,
    CatalogDropError,
>)
    ensures
        match r {
            Ok(s) => pg_qualified_name(*entry, kind) == Ok::<Seq<char>, DropSqlIssue>(s@),
            Err(e) => pg_qualified_name(*entry, kind) matches Err(i) && drop_issue_matches(e, i),
        },
{
    let name = &entry.qualified_name;
    if is_empty_str(name.object.as_str()) {
        return Err(CatalogDropError::EmptyObjectName);
    }
    let schema = match &name.schema {
        Some(s) => s,
        None => {
            return Err(unsupported(kind, "catalog entry has no schema-qualified name"));
        },
    };
    if is_empty_str(schema.as_str()) {
        return Err(unsupported(kind, "catalog entry has an empty schema name"));
    }
    let mut out = quote_identifier(schema.as_str());
    push_str(&mut out, ".");
    let o = quote_identifier(name.object.as_str());
    push_str(&mut out, o.as_str());
    Ok(out)
}

fn relation_name_for_drop(entry: &CatalogEntry) -> (r: Result<String, CatalogDropError>)
    ensures
        match r {
            Ok(s) => pg_owning_relation(*entry) == Ok::<Seq<char>, DropSqlIssue>(s@),
            Err(e) => pg_owning_relation(*entry) matches Err(i) && drop_issue_matches(e, i),
        },
{
    let relation = match &entry.relation_id {
        Some(r) => r,
        None => {
            return Err(unsupported(entry.kind, "catalog entry has no owning relation identity"));
        },
    };
    if !relation.kind.is_relation() || relation.native_path.len() < 3 {
        return Err(
            unsupported(entry.kind, "catalog entry has an invalid owning relation identity"),
        );
    }
    let schema = match &entry.qualified_name.schema {
        Some(s) => s,
        None => {
            return Err(unsupported(entry.kind, "catalog entry has no owning relation schema"));
        },
    };
    let relation_name = relation.native_path[2].as_str();
    if is_empty_str(schema.as_str()) || is_empty_str(relation_name) {
        return Err(
            unsupported(entry.kind, "catalog entry has an incomplete owning relation identity"),
        );
    }
    let mut out = quote_identifier(schema.as_str());
    push_str(&mut out, ".");
    let o = quote_identifier(relation_name);
    push_str(&mut out, o.as_str());
    Ok(out)
}

fn with_prefix(prefix: &str, r: Result<String, CatalogDropError>) -> (out: Result<
    String,
    CatalogDropError,
>)
    ensures
        match r {
            Ok(s) => out matches Ok(t) && t@ == prefix@ + s@,
            Err(e) => out == Err::<String, CatalogDropError>(e),
        },
{
    match r {
        Ok(s) => {
            let mut t = owned(prefix);
            push_str(&mut t, s.as_str());
            Ok(t)
        },
        Err(e) => Err(e),
    }
}

/// The statement that drops `entry` on PostgreSQL, planned for `request`.
pub fn plan_postgres_catalog_drop(request: CatalogDropRequest, entry: &CatalogEntry) -> (r: Result<
    CatalogDropPlan,
    CatalogDropError,
>)
    ensures
        drop_plan_outcome(r, request, *entry, pg_drop_sql(*entry)),
{
    let sql = match entry.kind {
        CatalogKind::Table => with_prefix("DROP TABLE ", postgres_qualified_name(entry, entry.kind)),
        CatalogKind::View => with_prefix("DROP VIEW ", postgres_qualified_name(entry, entry.kind)),
        CatalogKind::MaterializedView => with_prefix(
            "DROP MATERIALIZED VIEW ",
            postgres_qualified_name(entry, entry.kind),
        ),
        CatalogKind::Sequence => with_prefix(
            "DROP SEQUENCE ",
            postgres_qualified_name(entry, entry.kind),
        ),
        CatalogKind::Type => with_prefix("DROP TYPE ", postgres_qualified_name(entry, entry.kind)),
        CatalogKind::Index => with_prefix("DROP INDEX ", postgres_qualified_name(entry, entry.kind)),
        CatalogKind::Column => match relation_name_for_drop(entry) {
            Ok(rel) => {
                let mut t = owned("ALTER TABLE ");
                push_str(&mut t, rel.as_str());
                push_str(&mut t, " DROP COLUMN ");
                let o = quote_identifier(entry.qualified_name.object.as_str());
                push_str(&mut t, o.as_str());
                Ok(t)
            },
            Err(e) => Err(e),
        },
        CatalogKind::PrimaryKey | CatalogKind::UniqueConstraint | CatalogKind::ForeignKey
        | CatalogKind::CheckConstraint => match relation_name_for_drop(entry) {
            Ok(rel) => {
                let mut t = owned("ALTER TABLE ");
                push_str(&mut t, rel.as_str());
                push_str(&mut t, " DROP CONSTRAINT ");
                let o = quote_identifier(entry.qualified_name.object.as_str());
                push_str(&mut t, o.as_str());
                Ok(t)
            },
            Err(e) => Err(e),
        },
        CatalogKind::Trigger => match relation_name_for_drop(entry) {
            Ok(rel) => {
                let mut t = owned("DROP TRIGGER ");
                let o = quote_identifier(entry.qualified_name.object.as_str());
                push_str(&mut t, o.as_str());
                push_str(&mut t, " ON ");
                push_str(&mut t, rel.as_str());
                Ok(t)
            },
            Err(e) => Err(e),
        },
        _ => Err(
            unsupported(
                entry.kind,
                "catalog metadata does not provide an unambiguous PostgreSQL drop target",
            ),
        ),
    };
    match sql {
        Ok(sql) => CatalogDropPlan::new(request, entry, sql),
        Err(e) => Err(e),
    }
}

/// Dropping a schema-level object: tables, views, sequences, types and
/// indexes are each dropped by the statement of their own kind, followed by
/// the quoted schema and the quoted name.
pub proof fn lemma_postgres_schema_object_drops(entry: CatalogEntry)
    requires
        entry.qualified_name.object@.len() > 0,
        entry.qualified_name.schema is Some,
        entry.qualified_name.schema->Some_0@.len() > 0,
    ensures
        ({
            let name = pg_identifier(entry.qualified_name.schema->Some_0@) + "."@ + pg_identifier(
                entry.qualified_name.object@,
            );
            &&& entry.kind == CatalogKind::Table ==> pg_drop_sql(entry) == Ok::<Seq<char>, DropSqlIssue>(
                "DROP TABLE "@ + name,
            )
            &&& entry.kind == CatalogKind::View ==> pg_drop_sql(entry) == Ok::<Seq<char>, DropSqlIssue>(
                "DROP VIEW "@ + name,
            )
            &&& entry.kind == CatalogKind::Sequence ==> pg_drop_sql(entry) == Ok::<
                Seq<char>,
                DropSqlIssue,
            >("DROP SEQUENCE "@ + name)
            &&& entry.kind == CatalogKind::Type ==> pg_drop_sql(entry) == Ok::<Seq<char>, DropSqlIssue>(
                "DROP TYPE "@ + name,
            )
            &&& entry.kind == CatalogKind::Index ==> pg_drop_sql(entry) == Ok::<Seq<char>, DropSqlIssue>(
                "DROP INDEX "@ + name,
            )
        }),
{
}

/// Dropping a materialized view: for an entry named in a non-empty schema,
/// the statement is `DROP MATERIALIZED VIEW` followed by the quoted schema
/// and the quoted name, and a plan made for it carries that statement. An
/// entry with no schema, an empty one or an empty name gets no statement.
pub proof fn lemma_postgres_materialized_view_drop(
    request: CatalogDropRequest,
    entry: CatalogEntry,
    r: Result<CatalogDropPlan, CatalogDropError>,
)
    requires
        entry.kind == CatalogKind::MaterializedView,
        drop_plan_outcome(r, request, entry, pg_drop_sql(entry)),
    ensures
        pg_drop_sql(entry) is Ok <==> (entry.qualified_name.object@.len() > 0
            && entry.qualified_name.schema is Some && entry.qualified_name.schema->Some_0@.len() > 0),
        pg_drop_sql(entry) is Ok ==> pg_drop_sql(entry) == Ok::<Seq<char>, DropSqlIssue>(
            "DROP MATERIALIZED VIEW "@ + pg_identifier(entry.qualified_name.schema->Some_0@) + "."@
                + pg_identifier(entry.qualified_name.object@),
        ),
        r is Ok ==> entry.qualified_name.schema is Some && r->Ok_0.sql@ == "DROP MATERIALIZED VIEW "@
            + pg_identifier(entry.qualified_name.schema->Some_0@) + "."@ + pg_identifier(
            entry.qualified_name.object@,
        ),
{
    if pg_drop_sql(entry) is Ok {
        let n = entry.qualified_name;
        assert("DROP MATERIALIZED VIEW "@ + (pg_identifier(n.schema->Some_0@) + "."@ + pg_identifier(
            n.object@,
        )) =~= "DROP MATERIALIZED VIEW "@ + pg_identifier(n.schema->Some_0@) + "."@ + pg_identifier(
            n.object@,
        ));
    }
    if r is Ok {
        assert(pg_drop_sql(entry) is Ok);
        assert(r->Ok_0@.sql == r->Ok_0.sql@);
    }
}

/// What the PostgreSQL catalog shows: databases with schemas, the
/// schema-level groups it lists, and the column metadata it reads.
pub fn postgres_catalog_capabilities() -> (r: CatalogCapabilities)
    ensures
        r.namespace_model == NamespaceModel::DatabaseAndSchema,
        r.top_level_groups@ == seq![
            ObjectGroup::Tables,
            ObjectGroup::Views,
            ObjectGroup::MaterializedViews,
            ObjectGroup::Sequences,
            ObjectGroup::Functions,
            ObjectGroup::Procedures,
            ObjectGroup::Types,
        ],
        r.column_metadata == (ColumnMetadataCapabilities {
            type_family: true,
            default_expression: true,
            identity: true,
            auto_increment: false,
            generated_expression: true,
            hidden: false,
            numeric_precision_and_scale: false,
            character_length: true,
            collation: true,
            character_set: false,
            comment: true,
        }),
        r.supports_lazy_children,
{
    let groups = vec![
        ObjectGroup::Tables,
        ObjectGroup::Views,
        ObjectGroup::MaterializedViews,
        ObjectGroup::Sequences,
        ObjectGroup::Functions,
        ObjectGroup::Procedures,
        ObjectGroup::Types,
    ];
    CatalogCapabilities {
        namespace_model: NamespaceModel::DatabaseAndSchema,
        top_level_groups: groups,
        column_metadata: ColumnMetadataCapabilities {
            type_family: true,
            default_expression: true,
            identity: true,
            auto_increment: false,
            generated_expression: true,
            hidden: false,
            numeric_precision_and_scale: false,
            character_length: true,
            collation: true,
            character_set: false,
            comment: true,
        },
        supports_lazy_children: true,
    }
}


// ---------------------------------------------------------------------------
// Row edits
// ---------------------------------------------------------------------------

/// Why a cell cannot be bound to a PostgreSQL parameter.
pub open spec fn pg_bind_issue(v: CellView) -> Option<Seq<char>> {
    match v {
        CellView::Unsigned(u) => if u > i64::MAX {
            Some("PostgreSQL cannot bind an unsigned value larger than i64"@)
        } else {
            None
        },
        CellView::Unsupported { .. } => Some("PostgreSQL cannot bind an unsupported cell value"@),
        _ => None,
    }
}

/// The first cell, in order, that cannot be bound.
pub open spec fn pg_binds_issue(vs: Seq<CellView>) -> Option<Seq<char>>
    decreases vs.len(),
{
    if vs.len() == 0 {
        None
    } else if pg_binds_issue(vs.drop_last()) is Some {
        pg_binds_issue(vs.drop_last())
    } else {
        pg_bind_issue(vs.last())
    }
}

proof fn lemma_binds_issue_at(vs: Seq<CellView>, i: int)
    requires
        0 <= i < vs.len(),
        pg_binds_issue(vs.subrange(0, i)) is None,
        pg_bind_issue(vs[i]) is Some,
    ensures
        pg_binds_issue(vs) == pg_bind_issue(vs[i]),
    decreases vs.len() - i,
{
    if i == vs.len() - 1 {
        assert(vs.drop_last() =~= vs.subrange(0, i));
    } else {
        assert(vs.drop_last().subrange(0, i) =~= vs.subrange(0, i));
        assert(vs.drop_last()[i] == vs[i]);
        lemma_binds_issue_at(vs.drop_last(), i);
    }
}

/// Whether `value` can be bound to a PostgreSQL parameter.
pub fn check_bindable(value: &CellValue) -> (r: Result<(), TransactionError>)
    ensures
        match r {
            Ok(()) => pg_bind_issue(value@) is None,
            Err(e) => pg_bind_issue(value@) == Some(e.0@),
        },
{
    match value {
        CellValue::Unsigned(u) => {
            if *u > 0x7fff_ffff_ffff_ffffu64 {
                Err(transaction_error("PostgreSQL cannot bind an unsigned value larger than i64"))
            } else {
                Ok(())
            }
        },
        CellValue::Unsupported { .. } => Err(
            transaction_error("PostgreSQL cannot bind an unsupported cell value"),
        ),
        _ => Ok(()),
    }
}

fn check_binds(values: &Vec<CellValue>) -> (r: Result<(), TransactionError>)
    ensures
        match r {
            Ok(()) => pg_binds_issue(cells_view(values@)) is None,
            Err(e) => pg_binds_issue(cells_view(values@)) == Some(e.0@),
        },
{
    let ghost all = cells_view(values@);
    let mut i: usize = 0;
    while i < values.len()
        invariant
            all == cells_view(values@),
            i <= values@.len(),
            pg_binds_issue(all.subrange(0, i as int)) is None,
        decreases values@.len() - i,
    {
        assert(all.subrange(0, i + 1).drop_last() =~= all.subrange(0, i as int));
        match check_bindable(&values[i]) {
            Ok(()) => {},
            Err(e) => {
                proof {
                    lemma_binds_issue_at(all, i as int);
                }
                return Err(e);
            },
        }
        i = i + 1;
    }
    assert(all.subrange(0, i as int) =~= all);
    Ok(())
}

pub open spec fn bound(sql: Seq<char>, binds: Seq<CellView>) -> Result<StatementView, Seq<char>> {
    match pg_binds_issue(binds) {
        Some(e) => Err(e),
        None => Ok((sql, binds)),
    }
}

/// The statement that deletes one row, or why it cannot be built.
pub open spec fn pg_delete_row(
    table: Seq<char>,
    columns: Seq<(String, String, bool)>,
    m: DeleteRowMutation,
) -> Result<StatementView, Seq<char>> {
    if m.row.columns@.len() != m.row.values@.len() || m.original@.len() != columns.len() {
        Err("PostgreSQL delete mutation is malformed"@)
    } else if m.row.columns@.len() == 0 {
        Err("PostgreSQL delete mutation has no row locator"@)
    } else {
        match pg_delete_sql(table, columns, m.row.columns@) {
            Err(e) => Err(e),
            Ok(sql) => bound(sql, cells_view(m.row.values@) + cells_view(m.original@)),
        }
    }
}

/// The cells an input list binds: defaults bind nothing, `NULL` binds a null.
pub open spec fn input_binds(values: Seq<InputValue>) -> Seq<CellView>
    decreases values.len(),
{
    if values.len() == 0 {
        Seq::empty()
    } else {
        let rest = input_binds(values.drop_last());
        match values.last() {
            InputValue::Default => rest,
            InputValue::Null => rest.push(CellView::Null),
            InputValue::Value(v) => rest.push(v@),
        }
    }
}

/// The value expressions of an insert: `DEFAULT`, or the next parameter.
pub open spec fn insert_expressions(values: Seq<InputValue>) -> Seq<Seq<char>>
    decreases values.len(),
{
    if values.len() == 0 {
        Seq::empty()
    } else {
        let rest = insert_expressions(values.drop_last());
        match values.last() {
            InputValue::Default => rest.push("DEFAULT"@),
            _ => rest.push("$"@ + decimal(input_binds(values.drop_last()).len() + 1)),
        }
    }
}

/// The insert statement, returning the inserted row.
pub open spec fn pg_insert(
    table: Seq<char>,
    columns: Seq<(String, String, bool)>,
    insert: InsertRowMutation,
) -> Result<StatementView, Seq<char>> {
    let idx = insert.columns@;
    if idx.len() != insert.values@.len() || exists|i: int|
        0 <= i < idx.len() && #[trigger] idx[i] >= columns.len() {
        Err("PostgreSQL insert mutation is malformed"@)
    } else {
        let names = Seq::new(idx.len(), |i: int| pg_identifier(columns[idx[i] as int].0@));
        let sql = if idx.len() == 0 {
            "INSERT INTO "@ + table + " DEFAULT VALUES RETURNING *"@
        } else {
            "INSERT INTO "@ + table + " ("@ + join(names, ", "@) + ") VALUES ("@ + join(
                insert_expressions(insert.values@),
                ", "@,
            ) + ") RETURNING *"@
        };
        bound(sql, input_binds(insert.values@))
    }
}

/// The first column named `name` at or after `i`.
pub open spec fn position_from(columns: Seq<(String, String, bool)>, name: Seq<char>, i: int) -> Option<
    int,
>
    decreases columns.len() - i,
{
    if i < 0 || i >= columns.len() {
        None
    } else if columns[i].0@ == name {
        Some(i)
    } else {
        position_from(columns, name, i + 1)
    }
}

/// The column positions of the primary key, or `None` if one is missing.
pub open spec fn pk_positions(columns: Seq<(String, String, bool)>, key: Seq<String>) -> Option<
    Seq<usize>,
>
    decreases key.len(),
{
    if key.len() == 0 {
        Some(Seq::empty())
    } else {
        match pk_positions(columns, key.drop_last()) {
            None => None,
            Some(ps) => match position_from(columns, key.last()@, 0) {
                None => None,
                Some(p) => Some(ps.push(p as usize)),
            },
        }
    }
}

pub open spec fn value_binds(v: InputValue) -> Seq<CellView> {
    match v {
        InputValue::Default => Seq::empty(),
        InputValue::Null => seq![CellView::Null],
        InputValue::Value(c) => seq![c@],
    }
}

/// The value read back for locator column `p`: the new value where the
/// locator column is the updated one.
pub open spec fn select_item(u: UpdateCellMutation, p: int) -> Result<CellView, Seq<char>> {
    if u.row.columns@[p] == u.column {
        match u.value {
            InputValue::Value(v) => Ok(v@),
            InputValue::Null => Ok(CellView::Null),
            InputValue::Default => Err(
                "PostgreSQL cannot fetch an update that resets a primary key to DEFAULT"@,
            ),
        }
    } else {
        Ok(u.row.values@[p]@)
    }
}

/// The values of the read-back query, or the first that cannot be bound.
pub open spec fn select_binds(u: UpdateCellMutation, n: int) -> Result<Seq<CellView>, Seq<char>>
    decreases n,
{
    if n <= 0 {
        Ok(Seq::empty())
    } else {
        match select_binds(u, n - 1) {
            Err(e) => Err(e),
            Ok(vs) => match select_item(u, n - 1) {
                Err(e) => Err(e),
                Ok(v) => match pg_bind_issue(v) {
                    Some(e) => Err(e),
                    None => Ok(vs.push(v)),
                },
            },
        }
    }
}

pub open spec fn locator_predicates(
    columns: Seq<(String, String, bool)>,
    locator: Seq<usize>,
    first: nat,
) -> Seq<Seq<char>> {
    Seq::new(
        locator.len(),
        |p: int| pg_predicate(column_pair(columns[locator[p] as int]), (first + p) as nat),
    )
}

/// The update of one cell, checked against the primary key and the value
/// read before, and the query that reads the row back.
pub open spec fn pg_update(
    table: Seq<char>,
    columns: Seq<(String, String, bool)>,
    key: Seq<String>,
    u: UpdateCellMutation,
) -> Result<MutationPlanView, Seq<char>> {
    let locator = u.row.columns@;
    let n = locator.len();
    if u.column >= columns.len() {
        Err("PostgreSQL update column is out of range"@)
    } else if n != u.row.values@.len() {
        Err("PostgreSQL row locator is malformed"@)
    } else {
        match pk_positions(columns, key) {
            None => Err("PostgreSQL primary key column is missing"@),
            Some(ps) => if ps != locator {
                Err("PostgreSQL row locator must contain the primary key columns in order"@)
            } else if exists|p: int| 0 <= p < n && #[trigger] locator[p] >= columns.len() {
                Err("PostgreSQL row locator column is out of range"@)
            } else {
                let target = columns[u.column as int];
                let quoted = pg_identifier(target.0@);
                let v: nat = if u.value is Default { 0 } else { 1 };
                let sql = "UPDATE "@ + table + " SET "@ + quoted + " = "@ + (if u.value is Default {
                    "DEFAULT"@
                } else {
                    "$1"@
                }) + " WHERE "@ + join(locator_predicates(columns, locator, v + 1), " AND "@) + (
                if n > 0 {
                    " AND "@
                } else {
                    Seq::empty()
                }) + quoted + " IS NOT DISTINCT FROM "@ + pg_placeholder(v + n + 1, target.1@);
                let binds = value_binds(u.value) + cells_view(u.row.values@) + seq![u.original@];
                let select_sql = "SELECT * FROM "@ + table + " WHERE "@ + join(
                    locator_predicates(columns, locator, 1),
                    " AND "@,
                );
                let select = match select_binds(u, n as int) {
                    Err(e) => Err(e),
                    Ok(vs) => Ok((select_sql, vs)),
                };
                match bound(sql, binds) {
                    Err(e) => Err(e),
                    Ok(update) => Ok(MutationPlanView::Update(update, select)),
                }
            },
        }
    }
}

/// The statements of a row edit on a PostgreSQL relation, whose native path
/// is database, schema, table and oid.
pub open spec fn pg_mutation_plan(
    path: Seq<String>,
    fingerprint: MetadataFingerprint,
    operation: RelationMutation,
) -> Result<MutationPlanView, Seq<char>> {
    if path.len() != 4 {
        Err("PostgreSQL relation has no canonical database, schema, table, and oid path"@)
    } else {
        let table = pg_identifier(path[1]@) + "."@ + pg_identifier(path[2]@);
        let columns = fingerprint.columns@;
        match operation {
            RelationMutation::DeleteRows(rows) => if columns.len() == 0 {
                Err("PostgreSQL delete mutation has no relation columns"@)
            } else {
                Ok(
                    MutationPlanView::Delete(
                        rows@.map_values(|m: DeleteRowMutation| pg_delete_row(table, columns, m)),
                    ),
                )
            },
            RelationMutation::InsertRow(insert) => match pg_insert(table, columns, insert) {
                Err(e) => Err(e),
                Ok(s) => Ok(MutationPlanView::Insert(s)),
            },
            RelationMutation::UpdateCell(u) => pg_update(
                table,
                columns,
                fingerprint.primary_key@,
                u,
            ),
        }
    }
}


/// Appends copies of `src` to `dst`.
pub fn append_cells(dst: &mut Vec<CellValue>, src: &Vec<CellValue>)
    ensures
        cells_view(final(dst)@) == cells_view(old(dst)@) + cells_view(src@),
{
    let ghost start = cells_view(dst@);
    let mut i: usize = 0;
    while i < src.len()
        invariant
            i <= src@.len(),
            cells_view(dst@) == start + cells_view(src@).subrange(0, i as int),
        decreases src@.len() - i,
    {
        let ghost before = cells_view(dst@);
        let c = src[i].clone();
        dst.push(c);
        assert(cells_view(dst@) =~= before.push(src@[i as int]@));
        assert(cells_view(dst@) =~= start + cells_view(src@).subrange(0, i + 1));
        i = i + 1;
    }
    assert(cells_view(src@).subrange(0, i as int) =~= cells_view(src@));
}

fn delete_row_statement(
    table: &str,
    columns: &Vec<(String, String, bool)>,
    m: &DeleteRowMutation,
) -> (r: Result<BoundStatement, TransactionError>)
    requires
        m.row.columns@.len() + columns@.len() < usize::MAX,
    ensures
        step_view(r) == pg_delete_row(table@, columns@, *m),
{
    if m.row.columns.len() != m.row.values.len() || m.original.len() != columns.len() {
        return Err(transaction_error("PostgreSQL delete mutation is malformed"));
    }
    if m.row.columns.len() == 0 {
        return Err(transaction_error("PostgreSQL delete mutation has no row locator"));
    }
    let sql = match postgres_delete_sql(table, columns.as_slice(), m.row.columns.as_slice()) {
        Ok(sql) => sql,
        Err(e) => {
            return Err(e);
        },
    };
    let mut binds: Vec<CellValue> = Vec::new();
    append_cells(&mut binds, &m.row.values);
    append_cells(&mut binds, &m.original);
    assert(cells_view(binds@) =~= cells_view(m.row.values@) + cells_view(m.original@));
    match check_binds(&binds) {
        Ok(()) => Ok(BoundStatement { sql, binds }),
        Err(e) => Err(e),
    }
}

pub proof fn lemma_input_binds_len(values: Seq<InputValue>)
    ensures
        input_binds(values).len() <= values.len(),
    decreases values.len(),
{
    if values.len() > 0 {
        lemma_input_binds_len(values.drop_last());
    }
}

fn insert_statement(
    table: &str,
    columns: &Vec<(String, String, bool)>,
    insert: &InsertRowMutation,
) -> (r: Result<BoundStatement, TransactionError>)
    requires
        insert.values@.len() < usize::MAX,
    ensures
        step_view(r) == pg_insert(table@, columns@, *insert),
{
    let idx = &insert.columns;
    if idx.len() != insert.values.len() {
        return Err(transaction_error("PostgreSQL insert mutation is malformed"));
    }
    let mut i: usize = 0;
    while i < idx.len()
        invariant
            i <= idx@.len(),
            forall|k: int| 0 <= k < i ==> #[trigger] idx@[k] < columns@.len(),
        decreases idx@.len() - i,
    {
        if idx[i] >= columns.len() {
            return Err(transaction_error("PostgreSQL insert mutation is malformed"));
        }
        i = i + 1;
    }
    let ghost all_names = Seq::new(
        idx@.len(),
        |k: int| pg_identifier(columns@[idx@[k] as int].0@),
    );
    let ghost values = insert.values@;
    let mut names: Vec<String> = Vec::new();
    let mut exprs: Vec<String> = Vec::new();
    let mut binds: Vec<CellValue> = Vec::new();
    let mut bind_count: usize = 1;
    let mut j: usize = 0;
    assert(values.subrange(0, 0) =~= Seq::<InputValue>::empty());
    assert(views(names@) =~= all_names.subrange(0, 0));
    assert(views(exprs@) =~= Seq::<Seq<char>>::empty());
    assert(cells_view(binds@) =~= Seq::<CellView>::empty());
    while j < idx.len()
        invariant
            idx@.len() == values.len(),
            values.len() < usize::MAX,
            values == insert.values@,
            forall|k: int| 0 <= k < idx@.len() ==> #[trigger] idx@[k] < columns@.len(),
            j <= idx@.len(),
            views(names@) == all_names.subrange(0, j as int),
            views(exprs@) == insert_expressions(values.subrange(0, j as int)),
            cells_view(binds@) == input_binds(values.subrange(0, j as int)),
            bind_count == input_binds(values.subrange(0, j as int)).len() + 1,
        decreases idx@.len() - j,
    {
        let ghost prefix = values.subrange(0, j as int);
        let ghost next = values.subrange(0, j + 1);
        assert(next.drop_last() =~= prefix);
        assert(next.last() == values[j as int]);
        proof {
            lemma_input_binds_len(prefix);
        }
        let ghost before_names = views(names@);
        names.push(quote_identifier(columns[idx[j]].0.as_str()));
        assert(views(names@) =~= all_names.subrange(0, j + 1));
        let ghost before_exprs = views(exprs@);
        let ghost before_binds = cells_view(binds@);
        match &insert.values[j] {
            InputValue::Default => {
                exprs.push(owned("DEFAULT"));
                assert(views(exprs@) =~= before_exprs.push("DEFAULT"@));
            },
            InputValue::Null => {
                let mut e = owned("$");
                push_decimal(&mut e, bind_count as u64);
                exprs.push(e);
                assert(views(exprs@) =~= before_exprs.push(
                    "$"@ + decimal(input_binds(prefix).len() + 1),
                ));
                binds.push(CellValue::Null);
                assert(cells_view(binds@) =~= before_binds.push(CellView::Null));
                bind_count = bind_count + 1;
            },
            InputValue::Value(v) => {
                let mut e = owned("$");
                push_decimal(&mut e, bind_count as u64);
                exprs.push(e);
                assert(views(exprs@) =~= before_exprs.push(
                    "$"@ + decimal(input_binds(prefix).len() + 1),
                ));
                binds.push(v.clone());
                assert(cells_view(binds@) =~= before_binds.push(v@));
                bind_count = bind_count + 1;
            },
        }
        j = j + 1;
    }
    assert(values.subrange(0, j as int) =~= values);
    assert(all_names.subrange(0, j as int) =~= all_names);
    let mut sql = owned("INSERT INTO ");
    push_str(&mut sql, table);
    if idx.len() == 0 {
        push_str(&mut sql, " DEFAULT VALUES RETURNING *");
    } else {
        push_str(&mut sql, " (");
        let n = join_strings(&names, ", ");
        push_str(&mut sql, n.as_str());
        push_str(&mut sql, ") VALUES (");
        let e = join_strings(&exprs, ", ");
        push_str(&mut sql, e.as_str());
        push_str(&mut sql, ") RETURNING *");
    }
    match check_binds(&binds) {
        Ok(()) => Ok(BoundStatement { sql, binds }),
        Err(e) => Err(e),
    }
}

pub fn find_column(columns: &Vec<(String, String, bool)>, name: &str) -> (r: Option<usize>)
    ensures
        match r {
            Some(p) => position_from(columns@, name@, 0) == Some(p as int),
            None => position_from(columns@, name@, 0) is None,
        },
{
    let mut i: usize = 0;
    while i < columns.len()
        invariant
            i <= columns@.len(),
            position_from(columns@, name@, 0) == position_from(columns@, name@, i as int),
        decreases columns@.len() - i,
    {
        if str_eq(columns[i].0.as_str(), name) {
            return Some(i);
        }
        i = i + 1;
    }
    None
}

pub fn key_positions(columns: &Vec<(String, String, bool)>, key: &Vec<String>) -> (r: Option<Vec<usize>>)
    ensures
        match r {
            Some(ps) => pk_positions(columns@, key@) == Some(ps@),
            None => pk_positions(columns@, key@) is None,
        },
{
    let mut ps: Vec<usize> = Vec::new();
    let mut k: usize = 0;
    assert(key@.subrange(0, 0) =~= Seq::<String>::empty());
    while k < key.len()
        invariant
            k <= key@.len(),
            pk_positions(columns@, key@.subrange(0, k as int)) == Some(ps@),
        decreases key@.len() - k,
    {
        assert(key@.subrange(0, k + 1).drop_last() =~= key@.subrange(0, k as int));
        match find_column(columns, key[k].as_str()) {
            Some(p) => {
                ps.push(p);
            },
            None => {
                proof {
                    lemma_positions_missing(columns@, key@, k as int);
                }
                return None;
            },
        }
        k = k + 1;
    }
    assert(key@.subrange(0, k as int) =~= key@);
    Some(ps)
}

proof fn lemma_positions_missing(columns: Seq<(String, String, bool)>, key: Seq<String>, k: int)
    requires
        0 <= k < key.len(),
        pk_positions(columns, key.subrange(0, k)) is Some,
        position_from(columns, key[k]@, 0) is None,
    ensures
        pk_positions(columns, key) is None,
    decreases key.len() - k,
{
    if k == key.len() - 1 {
        assert(key.drop_last() =~= key.subrange(0, k));
    } else {
        assert(key.drop_last().subrange(0, k) =~= key.subrange(0, k));
        assert(key.drop_last()[k] == key[k]);
        lemma_positions_missing(columns, key.drop_last(), k);
    }
}

pub fn same_positions(a: &Vec<usize>, b: &Vec<usize>) -> (r: bool)
    ensures
        r == (a@ == b@),
{
    if a.len() != b.len() {
        return false;
    }
    let mut i: usize = 0;
    while i < a.len()
        invariant
            a@.len() == b@.len(),
            i <= a@.len(),
            forall|k: int| 0 <= k < i ==> a@[k] == b@[k],
        decreases a@.len() - i,
    {
        if a[i] != b[i] {
            return false;
        }
        i = i + 1;
    }
    assert(a@ =~= b@);
    true
}

fn predicates_from(
    columns: &Vec<(String, String, bool)>,
    locator: &Vec<usize>,
    first: usize,
) -> (r: Vec<String>)
    requires
        forall|p: int| 0 <= p < locator@.len() ==> #[trigger] locator@[p] < columns@.len(),
        first + locator@.len() < usize::MAX,
    ensures
        views(r@) == locator_predicates(columns@, locator@, first as nat),
{
    let ghost all = locator_predicates(columns@, locator@, first as nat);
    let mut out: Vec<String> = Vec::new();
    let mut p: usize = 0;
    while p < locator.len()
        invariant
            p <= locator@.len(),
            views(out@) == all.subrange(0, p as int),
        decreases locator@.len() - p,
    {
        let c = locator[p];
        out.push(predicate(columns[c].0.as_str(), columns[c].1.as_str(), first + p));
        assert(views(out@) =~= all.subrange(0, p + 1));
        p = p + 1;
    }
    assert(all.subrange(0, p as int) =~= all);
    out
}

fn select_values(u: &UpdateCellMutation) -> (r: Result<Vec<CellValue>, TransactionError>)
    requires
        u.row.columns@.len() == u.row.values@.len(),
    ensures
        match r {
            Ok(vs) => select_binds(*u, u.row.columns@.len() as int) == Ok::<
                Seq<CellView>,
                Seq<char>,
            >(cells_view(vs@)),
            Err(e) => select_binds(*u, u.row.columns@.len() as int) == Err::<
                Seq<CellView>,
                Seq<char>,
            >(e.0@),
        },
{
    let n = u.row.columns.len();
    let mut out: Vec<CellValue> = Vec::new();
    let mut p: usize = 0;
    assert(cells_view(out@) =~= Seq::<CellView>::empty());
    while p < n
        invariant
            n == u.row.columns@.len(),
            n == u.row.values@.len(),
            p <= n,
            select_binds(*u, p as int) == Ok::<Seq<CellView>, Seq<char>>(cells_view(out@)),
        decreases n - p,
    {
        let value = if u.row.columns[p] == u.column {
            match &u.value {
                InputValue::Value(v) => v.clone(),
                InputValue::Null => CellValue::Null,
                InputValue::Default => {
                    proof {
                        lemma_select_error(*u, p as int, n as int);
                    }
                    return Err(
                        transaction_error(
                            "PostgreSQL cannot fetch an update that resets a primary key to DEFAULT",
                        ),
                    );
                },
            }
        } else {
            u.row.values[p].clone()
        };
        assert(select_item(*u, p as int) == Ok::<CellView, Seq<char>>(value@));
        match check_bindable(&value) {
            Ok(()) => {},
            Err(e) => {
                proof {
                    lemma_select_error(*u, p as int, n as int);
                }
                return Err(e);
            },
        }
        let ghost before = cells_view(out@);
        out.push(value);
        assert(cells_view(out@) =~= before.push(value@));
        p = p + 1;
    }
    Ok(out)
}

/// An error at position `p` of the read-back values is the error of all of them.
proof fn lemma_select_error(u: UpdateCellMutation, p: int, n: int)
    requires
        0 <= p < n,
        select_binds(u, p) is Ok,
        select_binds(u, p + 1) is Err,
    ensures
        select_binds(u, n) == select_binds(u, p + 1),
    decreases n - p,
{
    if p + 1 < n {
        lemma_select_error_stays(u, p + 1, n);
    }
}

proof fn lemma_select_error_stays(u: UpdateCellMutation, m: int, n: int)
    requires
        0 < m <= n,
        select_binds(u, m) is Err,
    ensures
        select_binds(u, n) == select_binds(u, m),
    decreases n - m,
{
    if m < n {
        lemma_select_error_stays(u, m, n - 1);
    }
}

fn update_plan(
    table: &str,
    columns: &Vec<(String, String, bool)>,
    key: &Vec<String>,
    u: &UpdateCellMutation,
) -> (r: Result<MutationPlan, TransactionError>)
    requires
        u.row.columns@.len() + 2 < usize::MAX,
    ensures
        plan_view(r) == pg_update(table@, columns@, key@, *u),
{
    if u.column >= columns.len() {
        return Err(transaction_error("PostgreSQL update column is out of range"));
    }
    if u.row.columns.len() != u.row.values.len() {
        return Err(transaction_error("PostgreSQL row locator is malformed"));
    }
    let positions = match key_positions(columns, key) {
        Some(ps) => ps,
        None => {
            return Err(transaction_error("PostgreSQL primary key column is missing"));
        },
    };
    if !same_positions(&positions, &u.row.columns) {
        return Err(
            transaction_error(
                "PostgreSQL row locator must contain the primary key columns in order",
            ),
        );
    }
    let locator = &u.row.columns;
    let n = locator.len();
    let mut i: usize = 0;
    while i < n
        invariant
            n == locator@.len(),
            i <= n,
            forall|k: int| 0 <= k < i ==> #[trigger] locator@[k] < columns@.len(),
        decreases n - i,
    {
        if locator[i] >= columns.len() {
            return Err(transaction_error("PostgreSQL row locator column is out of range"));
        }
        i = i + 1;
    }
    let target = &columns[u.column];
    let quoted = quote_identifier(target.0.as_str());
    let is_default = match u.value {
        InputValue::Default => true,
        _ => false,
    };
    let v: usize = if is_default {
        0
    } else {
        1
    };
    assert(!exists|p: int| 0 <= p < n && #[trigger] locator@[p] >= columns@.len());
    let ghost vn: nat = if u.value is Default { 0 } else { 1 };
    let ghost spec_sql = "UPDATE "@ + table@ + " SET "@ + quoted@ + " = "@ + (if u.value is Default {
        "DEFAULT"@
    } else {
        "$1"@
    }) + " WHERE "@ + join(locator_predicates(columns@, locator@, vn + 1), " AND "@) + (if n > 0 {
        " AND "@
    } else {
        Seq::empty()
    }) + quoted@ + " IS NOT DISTINCT FROM "@ + pg_placeholder(vn + (n as nat) + 1, target.1@);
    let mut sql = owned("UPDATE ");
    push_str(&mut sql, table);
    push_str(&mut sql, " SET ");
    push_str(&mut sql, quoted.as_str());
    push_str(&mut sql, " = ");
    if is_default {
        push_str(&mut sql, "DEFAULT");
    } else {
        push_str(&mut sql, "$1");
    }
    push_str(&mut sql, " WHERE ");
    let preds = predicates_from(columns, locator, v + 1);
    let joined = join_strings(&preds, " AND ");
    push_str(&mut sql, joined.as_str());
    if n > 0 {
        push_str(&mut sql, " AND ");
    }
    push_str(&mut sql, quoted.as_str());
    push_str(&mut sql, " IS NOT DISTINCT FROM ");
    let last = postgres_placeholder(v + n + 1, target.1.as_str());
    push_str(&mut sql, last.as_str());
    assert(sql@ =~= spec_sql);
    let mut binds: Vec<CellValue> = Vec::new();
    match &u.value {
        InputValue::Default => {},
        InputValue::Null => {
            binds.push(CellValue::Null);
        },
        InputValue::Value(c) => {
            binds.push(c.clone());
        },
    }
    assert(cells_view(binds@) =~= value_binds(u.value));
    append_cells(&mut binds, &u.row.values);
    let ghost before = cells_view(binds@);
    binds.push(u.original.clone());
    assert(cells_view(binds@) =~= before.push(u.original@));
    let mut select_sql = owned("SELECT * FROM ");
    push_str(&mut select_sql, table);
    push_str(&mut select_sql, " WHERE ");
    let select_preds = predicates_from(columns, locator, 1);
    let select_joined = join_strings(&select_preds, " AND ");
    push_str(&mut select_sql, select_joined.as_str());
    assert(select_sql@ =~= "SELECT * FROM "@ + table@ + " WHERE "@ + join(
        locator_predicates(columns@, locator@, 1),
        " AND "@,
    ));
    let select = match select_values(u) {
        Ok(vs) => Ok(BoundStatement { sql: select_sql, binds: vs }),
        Err(e) => Err(e),
    };
    assert(cells_view(binds@) == value_binds(u.value) + cells_view(u.row.values@) + seq![u.original@]);
    assert(step_view(select) == match select_binds(*u, n as int) {
        Err(e) => Err(e),
        Ok(vs) => Ok((select_sql@, vs)),
    });
    match check_binds(&binds) {
        Ok(()) => Ok(MutationPlan::Update { update: BoundStatement { sql, binds }, select }),
        Err(e) => Err(e),
    }
}

/// The sizes a PostgreSQL row edit must stay under so that its parameter
/// numbers fit in `usize`.
pub open spec fn pg_plan_fits(fingerprint: MetadataFingerprint, operation: RelationMutation) -> bool {
    match operation {
        RelationMutation::DeleteRows(rows) => forall|i: int|
            0 <= i < rows@.len() ==> #[trigger] rows@[i].row.columns@.len()
                + fingerprint.columns@.len() < usize::MAX,
        RelationMutation::UpdateCell(u) => u.row.columns@.len() + 2 < usize::MAX,
        RelationMutation::InsertRow(insert) => insert.values@.len() < usize::MAX,
    }
}

/// The statements that carry out a row edit on a PostgreSQL relation: each
/// statement matches the row by its locator and by the values read before,
/// so an edit of a row changed since then touches no row.
pub fn plan_postgres_mutation(
    relation: &CatalogId,
    fingerprint: &MetadataFingerprint,
    operation: &RelationMutation,
) -> (r: Result<MutationPlan, TransactionError>)
    requires
        pg_plan_fits(*fingerprint, *operation),
    ensures
        plan_view(r) == pg_mutation_plan(relation.native_path@, *fingerprint, *operation),
{
    let path = &relation.native_path;
    if path.len() != 4 {
        return Err(
            transaction_error(
                "PostgreSQL relation has no canonical database, schema, table, and oid path",
            ),
        );
    }
    let mut table = quote_identifier(path[1].as_str());
    push_str(&mut table, ".");
    let t2 = quote_identifier(path[2].as_str());
    push_str(&mut table, t2.as_str());
    let columns = &fingerprint.columns;
    match operation {
        RelationMutation::DeleteRows(rows) => {
            if columns.len() == 0 {
                return Err(transaction_error("PostgreSQL delete mutation has no relation columns"));
            }
            let ghost expected = rows@.map_values(
                |m: DeleteRowMutation| pg_delete_row(table@, columns@, m),
            );
            let mut statements: Vec<Result<BoundStatement, TransactionError>> = Vec::new();
            let mut i: usize = 0;
            while i < rows.len()
                invariant
                    i <= rows@.len(),
                    forall|k: int|
                        0 <= k < rows@.len() ==> #[trigger] rows@[k].row.columns@.len()
                            + columns@.len() < usize::MAX,
                    statements@.map_values(
                        |r: Result<BoundStatement, TransactionError>| step_view(r),
                    ) == expected.subrange(0, i as int),
                decreases rows@.len() - i,
            {
                let ghost before = statements@.map_values(
                    |r: Result<BoundStatement, TransactionError>| step_view(r),
                );
                let st = delete_row_statement(table.as_str(), columns, &rows[i]);
                statements.push(st);
                assert(statements@.map_values(
                    |r: Result<BoundStatement, TransactionError>| step_view(r),
                ) =~= expected.subrange(0, i + 1));
                i = i + 1;
            }
            assert(expected.subrange(0, i as int) =~= expected);
            Ok(MutationPlan::Delete { statements })
        },
        RelationMutation::InsertRow(insert) => match insert_statement(table.as_str(), columns, insert) {
            Ok(statement) => Ok(MutationPlan::Insert { statement }),
            Err(e) => Err(e),
        },
        RelationMutation::UpdateCell(u) => update_plan(
            table.as_str(),
            columns,
            &fingerprint.primary_key,
            u,
        ),
    }
}


// ---------------------------------------------------------------------------
// Catalog listing helpers
// ---------------------------------------------------------------------------

/// The catalog kind and native kind of a `pg_class.relkind` that search lists.
pub open spec fn pg_relation_kind(native: Seq<char>) -> Option<(CatalogKind, Seq<char>)> {
    if native == "r"@ || native == "p"@ {
        Some((CatalogKind::Table, "table"@))
    } else if native == "v"@ {
        Some((CatalogKind::View, "view"@))
    } else if native == "m"@ {
        Some((CatalogKind::MaterializedView, "materialized_view"@))
    } else {
        None
    }
}

/// The catalog kind and native kind of a relation `relkind`.
pub fn relation_kind(native: &str) -> (r: Result<(CatalogKind, &'static str), DatabaseError>)
    ensures
        match r {
            Ok((k, n)) => pg_relation_kind(native@) == Some((k, n@)),
            Err(e) => pg_relation_kind(native@) is None && is_internal_error(
                e,
                pg_code(),
                "unexpected PostgreSQL search relation kind"@,
            ),
        },
{
    if str_eq(native, "r") || str_eq(native, "p") {
        Ok((CatalogKind::Table, "table"))
    } else if str_eq(native, "v") {
        Ok((CatalogKind::View, "view"))
    } else if str_eq(native, "m") {
        Ok((CatalogKind::MaterializedView, "materialized_view"))
    } else {
        Err(catalog_internal("unexpected PostgreSQL search relation kind"))
    }
}

/// The native kind of a top-level search hit and whether it has children.
pub open spec fn pg_search_kind(kind: CatalogKind) -> Option<(Seq<char>, bool)> {
    match kind {
        CatalogKind::Table => Some(("table"@, true)),
        CatalogKind::View => Some(("view"@, true)),
        CatalogKind::MaterializedView => Some(("materialized_view"@, true)),
        CatalogKind::Sequence => Some(("sequence"@, false)),
        CatalogKind::Function => Some(("function"@, false)),
        CatalogKind::Procedure => Some(("procedure"@, false)),
        CatalogKind::Type => Some(("type"@, false)),
        _ => None,
    }
}

/// The native kind and expandability of a top-level search hit.
pub fn search_kind_properties(kind: CatalogKind) -> (r: Result<(&'static str, bool), DatabaseError>)
    ensures
        match r {
            Ok((n, e)) => pg_search_kind(kind) == Some((n@, e)),
            Err(e) => pg_search_kind(kind) is None && is_internal_error(
                e,
                pg_code(),
                "unexpected PostgreSQL top-level search kind"@,
            ),
        },
{
    match kind {
        CatalogKind::Table => Ok(("table", true)),
        CatalogKind::View => Ok(("view", true)),
        CatalogKind::MaterializedView => Ok(("materialized_view", true)),
        CatalogKind::Sequence => Ok(("sequence", false)),
        CatalogKind::Function => Ok(("function", false)),
        CatalogKind::Procedure => Ok(("procedure", false)),
        CatalogKind::Type => Ok(("type", false)),
        _ => Err(catalog_internal("unexpected PostgreSQL top-level search kind")),
    }
}

pub open spec fn pg_group_sort_key(group: ObjectGroup) -> &'static str {
    match group {
        ObjectGroup::Tables => "00:tables",
        ObjectGroup::Views => "01:views",
        ObjectGroup::MaterializedViews => "02:materialized_views",
        ObjectGroup::Sequences => "03:sequences",
        ObjectGroup::Functions => "04:functions",
        ObjectGroup::Procedures => "05:procedures",
        ObjectGroup::Types => "06:types",
        ObjectGroup::Triggers => "07:triggers",
    }
}

/// The key that orders group summaries.
pub fn group_sort_key(group: ObjectGroup) -> (r: &'static str)
    ensures
        r == pg_group_sort_key(group),
{
    match group {
        ObjectGroup::Tables => "00:tables",
        ObjectGroup::Views => "01:views",
        ObjectGroup::MaterializedViews => "02:materialized_views",
        ObjectGroup::Sequences => "03:sequences",
        ObjectGroup::Functions => "04:functions",
        ObjectGroup::Procedures => "05:procedures",
        ObjectGroup::Types => "06:types",
        ObjectGroup::Triggers => "07:triggers",
    }
}

pub open spec fn kind_rank(kind: CatalogKind) -> u8 {
    match kind {
        CatalogKind::Column => 0,
        CatalogKind::Index => 1,
        CatalogKind::PrimaryKey => 2,
        CatalogKind::UniqueConstraint => 3,
        CatalogKind::ForeignKey => 4,
        CatalogKind::CheckConstraint => 5,
        CatalogKind::Trigger => 6,
        _ => 7,
    }
}

/// The order of relation children: columns, indexes, constraints, triggers.
pub fn catalog_kind_rank(kind: CatalogKind) -> (r: u8)
    ensures
        r == kind_rank(kind),
{
    match kind {
        CatalogKind::Column => 0,
        CatalogKind::Index => 1,
        CatalogKind::PrimaryKey => 2,
        CatalogKind::UniqueConstraint => 3,
        CatalogKind::ForeignKey => 4,
        CatalogKind::CheckConstraint => 5,
        CatalogKind::Trigger => 6,
        _ => 7,
    }
}

/// `n` in decimal, padded with zeros on the left to `width` digits.
pub open spec fn zero_padded(n: nat, width: nat) -> Seq<char> {
    let d = decimal(n);
    if d.len() < width {
        Seq::new((width - d.len()) as nat, |i: int| '0') + d
    } else {
        d
    }
}

pub(crate) fn push_zero_padded(s: &mut String, n: u64, width: usize)
    ensures
        final(s)@ == old(s)@ + zero_padded(n as nat, width as nat),
{
    let digits = crate::text::decimal_string(n);
    let len = digits.unicode_len();
    if len < width {
        let mut pad: Vec<char> = Vec::new();
        let mut i: usize = 0;
        while i < width - len
            invariant
                i <= width - len,
                pad@ == Seq::new(i as nat, |k: int| '0'),
            decreases width - len - i,
        {
            pad.push('0');
            assert(pad@ =~= Seq::new((i + 1) as nat, |k: int| '0'));
            i = i + 1;
        }
        let p = string_from_chars(pad.as_slice());
        push_str(s, p.as_str());
    }
    push_str(s, digits.as_str());
}

/// The key that orders a relation's children: kind rank, then ordinal
/// position for columns or name for the others.
pub open spec fn pg_child_sort_key(entry: CatalogEntry) -> Seq<char> {
    let value = match entry.metadata {
        CatalogMetadata::Column(c) => zero_padded(c.ordinal_position as nat, 10),
        _ => entry.qualified_name.object@,
    };
    zero_padded(kind_rank(entry.kind) as nat, 2) + seq!['\0'] + value
}

/// The tie-breaker among a relation's children: kind rank, then the last
/// part of the native path.
pub open spec fn pg_child_tie_breaker(entry: CatalogEntry) -> Seq<char> {
    let last = if entry.id.native_path@.len() > 0 {
        entry.id.native_path@.last()@
    } else {
        Seq::empty()
    };
    zero_padded(kind_rank(entry.kind) as nat, 2) + seq!['\0'] + last
}

fn nul_string() -> (r: String)
    ensures
        r@ == seq!['\0'],
{
    let mut v: Vec<char> = Vec::new();
    v.push('\0');
    let r = string_from_chars(v.as_slice());
    assert(r@ =~= seq!['\0']);
    r
}

/// The sort key of a relation child.
pub fn child_sort_key(entry: &CatalogEntry) -> (r: String)
    ensures
        r@ == pg_child_sort_key(*entry),
{
    let mut s = String::new();
    push_zero_padded(&mut s, catalog_kind_rank(entry.kind) as u64, 2);
    let nul = nul_string();
    push_str(&mut s, nul.as_str());
    match &entry.metadata {
        CatalogMetadata::Column(column) => {
            push_zero_padded(&mut s, column.ordinal_position as u64, 10);
        },
        _ => {
            push_str(&mut s, entry.qualified_name.object.as_str());
        },
    }
    assert(s@ =~= pg_child_sort_key(*entry));
    s
}

/// The tie-breaker of a relation child.
pub fn child_tie_breaker(entry: &CatalogEntry) -> (r: String)
    ensures
        r@ == pg_child_tie_breaker(*entry),
{
    let mut s = String::new();
    push_zero_padded(&mut s, catalog_kind_rank(entry.kind) as u64, 2);
    let nul = nul_string();
    push_str(&mut s, nul.as_str());
    let n = entry.id.native_path.len();
    if n > 0 {
        push_str(&mut s, entry.id.native_path[n - 1].as_str());
    }
    assert(s@ =~= pg_child_tie_breaker(*entry));
    s
}

/// The query that counts the rows of `sql`.
pub fn relation_count_sql(sql: &str) -> (r: String)
    ensures
        r@ == "SELECT COUNT(*) FROM ("@ + sql@ + ") AS __lazydb_count"@,
{
    let mut s = owned("SELECT COUNT(*) FROM (");
    push_str(&mut s, sql);
    push_str(&mut s, ") AS __lazydb_count");
    s
}

/// The row limit that fetches one row past a page, to tell whether more follow.
pub fn page_limit(page_size: usize) -> (r: Result<i64, DatabaseError>)
    ensures
        match r {
            Ok(l) => l == page_size + 1,
            Err(e) => page_size + 1 > i64::MAX && is_internal_error(
                e,
                pg_code(),
                "PostgreSQL catalog page limit overflowed"@,
            ),
        },
{
    if page_size as u64 >= 0x7fff_ffff_ffff_ffffu64 {
        Err(catalog_internal("PostgreSQL catalog page limit overflowed"))
    } else {
        Ok((page_size as u64 + 1) as i64)
    }
}

/// A count the server returned, which must not be negative.
pub fn non_negative_count(count: i64) -> (r: Result<u64, DatabaseError>)
    ensures
        match r {
            Ok(c) => count >= 0 && c == count,
            Err(e) => count < 0 && is_internal_error(
                e,
                pg_code(),
                "PostgreSQL returned a negative catalog count"@,
            ),
        },
{
    if count < 0 {
        Err(catalog_internal("PostgreSQL returned a negative catalog count"))
    } else {
        Ok(count as u64)
    }
}

/// The identity of a relation's child: the relation's path extended by the
/// child's native identity.
pub fn relation_child_id(relation: &CatalogId, kind: CatalogKind, native_identity: &str) -> (r:
    CatalogId)
    ensures
        r@.connection_id == relation.connection_id,
        r@.kind == kind,
        r@.path == relation@.path.push(native_identity@),
{
    let mut path = crate::text::clone_strings(&relation.native_path);
    path.push(owned(native_identity));
    assert(views(path@) =~= relation@.path.push(native_identity@));
    CatalogId::new(relation.profile_id(), kind, path)
}

} // verus!
