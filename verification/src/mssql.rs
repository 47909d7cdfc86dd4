//! SQL Server dialect: quoting, statement text, DDL reconstruction, row
//! edits and catalog drop planning.
use vstd::prelude::*;

use crate::catalog::{
    id_eq, opt_id_view, CatalogCapabilities, CatalogEntry, CatalogId, CatalogIdView, CatalogKind,
    CatalogMetadata, ColumnMetadataCapabilities, ConstraintMetadata, IndexMetadata,
    NamespaceModel, ObjectGroup, OptionalMetadata, QualifiedName,
};
use crate::ddl::{assemble_ddl, ddl_script, sections_view, DdlSection};
use crate::error::{internal_error, internal_outcome, is_internal_error, DatabaseError};
use crate::page::{CatalogPage, CatalogTarget};
use crate::postgres::{input_binds, pk_positions, prefixed, value_binds};
use crate::mutation::{MetadataFingerprint, RelationMutation, UpdateCellMutation};
use crate::row_edit::{step_view, statement_view, BoundStatement, StatementView};
use crate::value::cells_view;
use crate::sort::{
    lemma_sorted_by_key_elements, lemma_sorted_by_name_elements, sort_by_key, sort_by_name,
    sorted_by_key, sorted_by_name,
};
use crate::catalog_drop::{
    drop_issue_matches, drop_plan_outcome, drop_request_issue, drop_result_issue, unsupported,
    CatalogDropError, CatalogDropPlan, CatalogDropRequest, DropSqlIssue,
};
use crate::cursor::{find_char, index_of};
use crate::error::ErrorCategory;
use crate::mutation::{DeleteRowMutation, InputValue, InsertRowMutation};
use crate::text::{
    chars_of, decimal, is_empty_str, join, join_strings, opt_view, owned, parse_usize,
    parse_usize_spec, push_decimal, push_str, replace_char, replace_char_str, str_eq,
    string_from_chars, sub_chars, views,
};
use crate::text::{lemma_unwrap_escaped, push_decimal_u128, unwrap_escaped};
use crate::transaction::{transaction_error, TransactionError};
use crate::value::{CellValue, CellView};

verus! {

/// `value` between square brackets, each `]` doubled.
pub open spec fn ms_identifier(value: Seq<char>) -> Seq<char> {
    seq!['['] + replace_char(value, ']', seq![']', ']']) + seq![']']
}

/// `value` as a Unicode literal: `N'...'`, each single quote doubled.
pub open spec fn ms_literal(value: Seq<char>) -> Seq<char> {
    seq!['N', '\''] + replace_char(value, '\'', seq!['\'', '\'']) + seq!['\'']
}

fn one_char(a: char) -> (r: String)
    ensures
        r@ == seq![a],
{
    let mut v: Vec<char> = Vec::new();
    v.push(a);
    let r = string_from_chars(v.as_slice());
    assert(r@ =~= seq![a]);
    r
}

fn two_chars(a: char, b: char) -> (r: String)
    ensures
        r@ == seq![a, b],
{
    let mut v: Vec<char> = Vec::new();
    v.push(a);
    v.push(b);
    let r = string_from_chars(v.as_slice());
    assert(r@ =~= seq![a, b]);
    r
}

/// A SQL Server identifier: bracketed, with `]` doubled.
pub fn quote_identifier(value: &str) -> (r: String)
    ensures
        r@ == ms_identifier(value@),
{
    let rep = two_chars(']', ']');
    let body = replace_char_str(value, ']', rep.as_str());
    let mut out = one_char('[');
    push_str(&mut out, body.as_str());
    let close = one_char(']');
    push_str(&mut out, close.as_str());
    out
}

/// A SQL Server Unicode string literal.
pub fn quote_literal(value: &str) -> (r: String)
    ensures
        r@ == ms_literal(value@),
{
    let rep = two_chars('\'', '\'');
    let body = replace_char_str(value, '\'', rep.as_str());
    let mut out = two_chars('N', '\'');
    push_str(&mut out, body.as_str());
    let close = one_char('\'');
    push_str(&mut out, close.as_str());
    out
}

/// Quoting can be undone: the text between the brackets (or the quotes of an
/// `N'...'` literal), with doubled closers read as one, is the value; so two
/// different names (or literals) never quote alike.
pub proof fn lemma_quoting_roundtrip(a: Seq<char>, b: Seq<char>)
    ensures
        unwrap_escaped(ms_identifier(a), 1, ']') == a,
        ms_identifier(a) == ms_identifier(b) <==> a == b,
        unwrap_escaped(ms_literal(a), 2, '\'') == a,
        ms_literal(a) == ms_literal(b) <==> a == b,
{
    lemma_unwrap_escaped(seq!['['], ']', ']', a, b);
    lemma_unwrap_escaped(seq!['N', '\''], '\'', '\'', a, b);
}

/// The text before the first `.`, or all of it.
pub open spec fn major_part(version: Seq<char>) -> Seq<char> {
    let i = index_of(version, '.');
    if i < 0 {
        version
    } else {
        version.subrange(0, i)
    }
}

/// Whether a server of product version `version` is supported: its major
/// version parses as a `u32` of at least 11 (SQL Server 2012).
pub open spec fn ms_supported_version(version: Seq<char>) -> bool {
    match parse_usize_spec(major_part(version)) {
        Some(major) => major <= u32::MAX && major >= 11,
        None => false,
    }
}

/// Whether the server's product version is supported.
pub fn supports_server_version(version: &str) -> (r: bool)
    ensures
        r == ms_supported_version(version@),
{
    let cs = chars_of(version);
    let head = match find_char(&cs, '.') {
        Some(i) => sub_chars(&cs, 0, i),
        None => cs,
    };
    assert(head@ == major_part(version@));
    match parse_usize(head.as_slice()) {
        Some(major) => major as u64 <= 0xffff_ffffu64 && major >= 11,
        None => false,
    }
}

/// `((column = @Pn) OR (column IS NULL AND @Pn+1 IS NULL))`: equality that
/// also holds between two nulls.
pub open spec fn ms_null_safe(column: Seq<char>, first: nat) -> Seq<char> {
    "(("@ + column + " = @P"@ + decimal(first) + ") OR ("@ + column + " IS NULL AND @P"@ + decimal(
        first + 1,
    ) + " IS NULL))"@
}

/// A null-safe equality test of `column` against parameters `first` and
/// `first + 1`.
pub fn mssql_null_safe_predicate(column: &str, first_parameter: usize) -> (r: String)
    requires
        first_parameter < usize::MAX,
    ensures
        r@ == ms_null_safe(column@, first_parameter as nat),
{
    let mut s = owned("((");
    push_str(&mut s, column);
    push_str(&mut s, " = @P");
    push_decimal(&mut s, first_parameter as u64);
    push_str(&mut s, ") OR (");
    push_str(&mut s, column);
    push_str(&mut s, " IS NULL AND @P");
    push_decimal(&mut s, (first_parameter + 1) as u64);
    push_str(&mut s, " IS NULL))");
    s
}

/// A delete is malformed when its locator is empty, does not match its
/// values, its original row does not have every column, a locator column
/// is out of range, or a value could not be decoded.
pub open spec fn ms_delete_malformed(m: DeleteRowMutation, column_count: usize) -> bool {
    ||| m.row.columns@.len() == 0
    ||| m.row.columns@.len() != m.row.values@.len()
    ||| m.original@.len() != column_count
    ||| exists|i: int| 0 <= i < m.row.columns@.len() && #[trigger] m.row.columns@[i] >= column_count
    ||| exists|i: int| 0 <= i < m.row.values@.len() && (#[trigger] m.row.values@[i]) is Unsupported
    ||| exists|i: int| 0 <= i < m.original@.len() && (#[trigger] m.original@[i]) is Unsupported
}

fn any_unsupported_cell(values: &Vec<CellValue>) -> (r: bool)
    ensures
        r == exists|i: int| 0 <= i < values@.len() && (#[trigger] values@[i]) is Unsupported,
{
    let mut i: usize = 0;
    while i < values.len()
        invariant
            i <= values@.len(),
            forall|k: int| 0 <= k < i ==> !((#[trigger] values@[k]) is Unsupported),
        decreases values@.len() - i,
    {
        if values[i].is_unsupported() {
            return true;
        }
        i = i + 1;
    }
    false
}

fn any_at_least(indexes: &Vec<usize>, bound: usize) -> (r: bool)
    ensures
        r == exists|i: int| 0 <= i < indexes@.len() && #[trigger] indexes@[i] >= bound,
{
    let mut i: usize = 0;
    while i < indexes.len()
        invariant
            i <= indexes@.len(),
            forall|k: int| 0 <= k < i ==> #[trigger] indexes@[k] < bound,
        decreases indexes@.len() - i,
    {
        if indexes[i] >= bound {
            return true;
        }
        i = i + 1;
    }
    false
}

/// Refuses a malformed delete.
pub fn validate_delete_mutation(mutation: &DeleteRowMutation, column_count: usize) -> (r: Result<
    (),
    TransactionError,
>)
    ensures
        match r {
            Ok(()) => !ms_delete_malformed(*mutation, column_count),
            Err(e) => ms_delete_malformed(*mutation, column_count) && e.0@
                == "SQL Server delete mutation is malformed or contains an unsupported value"@,
        },
{
    if mutation.row.columns.len() == 0 || mutation.row.columns.len() != mutation.row.values.len()
        || mutation.original.len() != column_count || any_at_least(
        &mutation.row.columns,
        column_count,
    ) || any_unsupported_cell(&mutation.row.values) || any_unsupported_cell(&mutation.original) {
        return Err(
            transaction_error(
                "SQL Server delete mutation is malformed or contains an unsupported value",
            ),
        );
    }
    Ok(())
}

/// Why an insert is refused: malformed or holding an undecodable value, or
/// with columns that are not strictly increasing.
pub open spec fn ms_insert_issue(insert: InsertRowMutation, column_count: usize) -> Option<
    Seq<char>,
> {
    let idx = insert.columns@;
    if idx.len() != insert.values@.len() || (exists|i: int|
        0 <= i < idx.len() && #[trigger] idx[i] >= column_count) || (exists|i: int|
        0 <= i < insert.values@.len() && #[trigger] insert.values@[i] matches InputValue::Value(
            CellValue::Unsupported { .. },
        )) {
        Some("SQL Server insert mutation is malformed or contains an unsupported value"@)
    } else if exists|i: int| 0 <= i < idx.len() - 1 && #[trigger] idx[i] >= idx[i + 1] {
        Some("SQL Server insert mutation columns must be unique and ordered"@)
    } else {
        None
    }
}

fn any_unsupported_input(values: &Vec<InputValue>) -> (r: bool)
    ensures
        r == exists|i: int|
            0 <= i < values@.len() && #[trigger] values@[i] matches InputValue::Value(
                CellValue::Unsupported { .. },
            ),
{
    let mut i: usize = 0;
    while i < values.len()
        invariant
            i <= values@.len(),
            forall|k: int|
                0 <= k < i ==> !(#[trigger] values@[k] matches InputValue::Value(
                    CellValue::Unsupported { .. },
                )),
        decreases values@.len() - i,
    {
        match &values[i] {
            InputValue::Value(v) => {
                if v.is_unsupported() {
                    return true;
                }
            },
            _ => {},
        }
        i = i + 1;
    }
    false
}

/// Refuses a malformed insert, or one whose columns repeat or are out of order.
pub fn validate_insert_mutation(insert: &InsertRowMutation, column_count: usize) -> (r: Result<
    (),
    TransactionError,
>)
    ensures
        match r {
            Ok(()) => ms_insert_issue(*insert, column_count) is None,
            Err(e) => ms_insert_issue(*insert, column_count) == Some(e.0@),
        },
{
    let idx = &insert.columns;
    if idx.len() != insert.values.len() || any_at_least(idx, column_count)
        || any_unsupported_input(&insert.values) {
        return Err(
            transaction_error(
                "SQL Server insert mutation is malformed or contains an unsupported value",
            ),
        );
    }
    let mut k: usize = 0;
    while k < idx.len() && k + 1 < idx.len()
        invariant
            k <= idx@.len(),
            forall|m: int| 0 <= m < k && m + 1 < idx@.len() ==> #[trigger] idx@[m] < idx@[m + 1],
        decreases idx@.len() - k,
    {
        if idx[k] >= idx[k + 1] {
            return Err(
                transaction_error("SQL Server insert mutation columns must be unique and ordered"),
            );
        }
        k = k + 1;
    }
    Ok(())
}

/// The category of a SQL Server error number.
pub open spec fn ms_error_category(code: u32) -> ErrorCategory {
    if code == 18456 {
        ErrorCategory::Authentication
    } else if code == 229 || code == 230 {
        ErrorCategory::Permission
    } else if code == 547 || code == 2601 || code == 2627 {
        ErrorCategory::Constraint
    } else {
        ErrorCategory::Sql
    }
}

/// Login failures, permission denials and constraint violations by their
/// error numbers; anything else is a SQL error.
pub fn server_error_category(code: u32) -> (r: ErrorCategory)
    ensures
        r == ms_error_category(code),
{
    match code {
        18456 => ErrorCategory::Authentication,
        229 | 230 => ErrorCategory::Permission,
        547 | 2601 | 2627 => ErrorCategory::Constraint,
        _ => ErrorCategory::Sql,
    }
}

/// Where a SQL Server driver error came from.
#[derive(Clone, Copy, Debug, PartialEq, Eq, Structural)]
pub enum MsSqlErrorSource {
    /// An error the server reported, with its error number.
    Server(u32),
    /// The connection failed: I/O, TLS or routing.
    Transport,
    /// Anything else the driver reports.
    Other,
}

/// The category of a SQL Server driver error: by its error number when the
/// server reported one, a network error for the connection, else
/// `default_category`.
pub open spec fn ms_driver_category(source: MsSqlErrorSource, default_category: ErrorCategory) -> ErrorCategory {
    match source {
        MsSqlErrorSource::Server(n) => ms_error_category(n),
        MsSqlErrorSource::Transport => ErrorCategory::Network,
        MsSqlErrorSource::Other => default_category,
    }
}

/// The error for what the SQL Server driver reported: its category, its
/// error number as the code, and its message made safe for the terminal.
pub fn mssql_driver_error(
    source: MsSqlErrorSource,
    code: Option<u32>,
    message: &str,
    default_category: ErrorCategory,
) -> (r: DatabaseError)
    ensures
        r.category == ms_driver_category(source, default_category),
        opt_view(r.code) == match code {
            Some(n) => Some(decimal(n as nat)),
            None => None::<Seq<char>>,
        },
        r.message@ == crate::text::sanitized(message@),
        r.diagnostic is None,
{
    let category = match source {
        MsSqlErrorSource::Server(n) => server_error_category(n),
        MsSqlErrorSource::Transport => ErrorCategory::Network,
        MsSqlErrorSource::Other => default_category,
    };
    let code = match code {
        Some(n) => Some(crate::text::decimal_string(n as u64)),
        None => None,
    };
    DatabaseError {
        category,
        code,
        message: crate::text::sanitize_terminal_text(message),
        diagnostic: None,
    }
}

/// The bracketed column names, separated by commas.
pub open spec fn ms_column_list(columns: Seq<String>) -> Seq<char> {
    join(columns.map_values(|c: String| ms_identifier(c@)), ", "@)
}

/// The bracketed names of `columns`, separated by commas.
pub fn quoted_columns(columns: &Vec<String>) -> (r: String)
    ensures
        r@ == ms_column_list(columns@),
{
    let ghost all = columns@.map_values(|c: String| ms_identifier(c@));
    let mut out: Vec<String> = Vec::new();
    let mut i: usize = 0;
    while i < columns.len()
        invariant
            i <= columns@.len(),
            views(out@) == all.subrange(0, i as int),
        decreases columns@.len() - i,
    {
        out.push(quote_identifier(columns[i].as_str()));
        assert(views(out@) =~= all.subrange(0, i + 1));
        i = i + 1;
    }
    assert(all.subrange(0, i as int) =~= all);
    join_strings(&out, ", ")
}

/// `CREATE [UNIQUE ]INDEX [name] ON qualified (columns)`.
pub open spec fn ms_index_sql(qualified: Seq<char>, name: Seq<char>, index: IndexMetadata) -> Seq<
    char,
> {
    "CREATE "@ + (if index.unique { "UNIQUE "@ } else { Seq::empty() }) + "INDEX "@
        + ms_identifier(name) + " ON "@ + qualified + " ("@ + ms_column_list(index.columns@)
        + ")"@
}

/// The statement that recreates an index from its catalog metadata.
pub fn reconstructed_index_sql(qualified: &str, name: &str, index: &IndexMetadata) -> (r: String)
    ensures
        r@ == ms_index_sql(qualified@, name@, *index),
{
    let mut s = owned("CREATE ");
    if index.unique {
        push_str(&mut s, "UNIQUE ");
    }
    push_str(&mut s, "INDEX ");
    let q = quote_identifier(name);
    push_str(&mut s, q.as_str());
    push_str(&mut s, " ON ");
    push_str(&mut s, qualified);
    push_str(&mut s, " (");
    let cols = quoted_columns(&index.columns);
    push_str(&mut s, cols.as_str());
    push_str(&mut s, ")");
    assert(s@ =~= ms_index_sql(qualified@, name@, *index)) by {
        reveal_strlit("");
    }
    s
}

/// A qualified name as SQL: `[schema].[object]`, or `[object]` without a schema.
pub open spec fn ms_qualified_name(name: QualifiedName) -> Seq<char> {
    match name.schema {
        Some(schema) => ms_identifier(schema@) + "."@ + ms_identifier(name.object@),
        None => ms_identifier(name.object@),
    }
}

/// A qualified name as SQL.
pub fn qualified_name_sql(name: &QualifiedName) -> (r: String)
    ensures
        r@ == ms_qualified_name(*name),
{
    match &name.schema {
        Some(schema) => {
            let mut s = quote_identifier(schema.as_str());
            push_str(&mut s, ".");
            let o = quote_identifier(name.object.as_str());
            push_str(&mut s, o.as_str());
            s
        },
        None => quote_identifier(name.object.as_str()),
    }
}

/// A `LIKE` pattern matching `query` anywhere, with `\`, `%` and `_`
/// escaped by a backslash.
pub open spec fn ms_like_pattern(query: Seq<char>) -> Seq<char> {
    "%"@ + replace_char(
        replace_char(replace_char(query, '\\', seq!['\\', '\\']), '%', seq!['\\', '%']),
        '_',
        seq!['\\', '_'],
    ) + "%"@
}

/// The `LIKE` pattern that finds `query` as a substring.
pub fn search_like_pattern(query: &str) -> (r: String)
    ensures
        r@ == ms_like_pattern(query@),
{
    let backslashes = two_chars('\\', '\\');
    let a = replace_char_str(query, '\\', backslashes.as_str());
    let percent = two_chars('\\', '%');
    let b = replace_char_str(a.as_str(), '%', percent.as_str());
    let underscore = two_chars('\\', '_');
    let c = replace_char_str(b.as_str(), '_', underscore.as_str());
    let mut s = owned("%");
    push_str(&mut s, c.as_str());
    push_str(&mut s, "%");
    s
}

/// The text that a `LIKE` pattern whose escape character is `\` matches
/// literally: `\` stands for the character after it; `None` where the
/// pattern holds an unescaped `%` or `_`, or ends in a lone `\`.
pub open spec fn like_literal(p: Seq<char>) -> Option<Seq<char>>
    decreases p.len(),
{
    if p.len() == 0 {
        Some(Seq::empty())
    } else if p[0] == '\\' {
        if p.len() < 2 {
            None
        } else {
            match like_literal(p.subrange(2, p.len() as int)) {
                Some(t) => Some(seq![p[1]] + t),
                None => None,
            }
        }
    } else if p[0] == '%' || p[0] == '_' {
        None
    } else {
        match like_literal(p.drop_first()) {
            Some(t) => Some(seq![p[0]] + t),
            None => None,
        }
    }
}

proof fn lemma_replace_concat(a: Seq<char>, b: Seq<char>, c: char, rep: Seq<char>)
    ensures
        replace_char(a + b, c, rep) == replace_char(a, c, rep) + replace_char(b, c, rep),
    decreases b.len(),
{
    if b.len() == 0 {
        assert(a + b =~= a);
        assert(replace_char(a, c, rep) + replace_char(b, c, rep) =~= replace_char(a, c, rep));
    } else {
        assert((a + b).drop_last() =~= a + b.drop_last());
        assert((a + b).last() == b.last());
        lemma_replace_concat(a, b.drop_last(), c, rep);
        assert(replace_char(a + b, c, rep) =~= replace_char(a, c, rep) + replace_char(b, c, rep));
    }
}

/// What escaping does to one character.
spec fn like_escaped_char(x: char) -> Seq<char> {
    if x == '\\' || x == '%' || x == '_' {
        seq!['\\', x]
    } else {
        seq![x]
    }
}

spec fn like_escape(q: Seq<char>) -> Seq<char> {
    replace_char(
        replace_char(replace_char(q, '\\', seq!['\\', '\\']), '%', seq!['\\', '%']),
        '_',
        seq!['\\', '_'],
    )
}

proof fn lemma_replace_one(x: char, c: char, rep: Seq<char>)
    ensures
        replace_char(seq![x], c, rep) == if x == c { rep } else { seq![x] },
{
    assert(seq![x].drop_last() =~= Seq::<char>::empty());
    assert(seq![x].last() == x);
    assert(replace_char(Seq::<char>::empty(), c, rep) == Seq::<char>::empty());
    assert(Seq::<char>::empty() + rep =~= rep);
    assert(Seq::<char>::empty() + seq![x] =~= seq![x]);
}

proof fn lemma_replace_two(x: char, y: char, c: char, rep: Seq<char>)
    requires
        y != c,
    ensures
        replace_char(seq![x, y], c, rep) == (if x == c { rep } else { seq![x] }) + seq![y],
{
    assert(seq![x, y].drop_last() =~= seq![x]);
    lemma_replace_one(x, c, rep);
}

proof fn lemma_like_escape_one(x: char)
    ensures
        like_escape(seq![x]) == like_escaped_char(x),
{
    let bs = '\\';
    lemma_replace_one(x, bs, seq![bs, bs]);
    if x == bs {
        lemma_replace_two(bs, bs, '%', seq![bs, '%']);
        assert(seq![bs] + seq![bs] =~= seq![bs, bs]);
        lemma_replace_two(bs, bs, '_', seq![bs, '_']);
    } else if x == '%' {
        lemma_replace_one(x, '%', seq![bs, '%']);
        lemma_replace_two(bs, '%', '_', seq![bs, '_']);
        assert(seq![bs] + seq!['%'] =~= seq![bs, '%']);
    } else if x == '_' {
        lemma_replace_one(x, '%', seq![bs, '%']);
        lemma_replace_one(x, '_', seq![bs, '_']);
    } else {
        lemma_replace_one(x, '%', seq![bs, '%']);
        lemma_replace_one(x, '_', seq![bs, '_']);
    }
}

proof fn lemma_like_escape_cons(q: Seq<char>)
    requires
        q.len() > 0,
    ensures
        like_escape(q) == like_escaped_char(q[0]) + like_escape(q.drop_first()),
{
    let bs = '\\';
    let h = seq![q[0]];
    let t = q.drop_first();
    assert(q =~= h + t);
    lemma_replace_concat(h, t, bs, seq![bs, bs]);
    let a1 = replace_char(h, bs, seq![bs, bs]);
    let b1 = replace_char(t, bs, seq![bs, bs]);
    lemma_replace_concat(a1, b1, '%', seq![bs, '%']);
    let a2 = replace_char(a1, '%', seq![bs, '%']);
    let b2 = replace_char(b1, '%', seq![bs, '%']);
    lemma_replace_concat(a2, b2, '_', seq![bs, '_']);
    lemma_like_escape_one(q[0]);
}

proof fn lemma_like_literal_of_escape(q: Seq<char>)
    ensures
        like_literal(like_escape(q)) == Some(q),
    decreases q.len(),
{
    if q.len() == 0 {
        assert(like_escape(q) =~= Seq::<char>::empty());
        assert(q =~= Seq::<char>::empty());
    } else {
        lemma_like_escape_cons(q);
        lemma_like_literal_of_escape(q.drop_first());
        let x = q[0];
        let e = like_escape(q);
        let rest = like_escape(q.drop_first());
        if x == '\\' || x == '%' || x == '_' {
            assert(e.subrange(2, e.len() as int) =~= rest);
        } else {
            assert(e.drop_first() =~= rest);
        }
        assert(seq![x] + q.drop_first() =~= q);
    }
}

/// The search pattern finds the query anywhere in a name: it is the query,
/// with `\`, `%` and `_` escaped so that each stands for itself, between a
/// leading and a trailing `%` wildcard.
pub proof fn lemma_like_pattern_finds_substrings(query: Seq<char>)
    ensures
        ({
            let p = ms_like_pattern(query);
            &&& p.len() >= 2
            &&& p[0] == '%'
            &&& p[p.len() - 1] == '%'
            &&& like_literal(p.subrange(1, p.len() - 1)) == Some(query)
        }),
{
    reveal_strlit("%");
    let p = ms_like_pattern(query);
    lemma_like_literal_of_escape(query);
    assert(p.subrange(1, p.len() - 1) =~= like_escape(query));
}

pub open spec fn ms_group_key(group: ObjectGroup) -> &'static str {
    match group {
        ObjectGroup::Tables => "00:tables",
        ObjectGroup::Views => "01:views",
        ObjectGroup::Functions => "02:functions",
        ObjectGroup::Procedures => "03:procedures",
        ObjectGroup::Sequences => "04:sequences",
        ObjectGroup::Triggers => "05:triggers",
        _ => "99:unsupported",
    }
}

/// The key that orders SQL Server group summaries.
pub fn group_key(group: ObjectGroup) -> (r: &'static str)
    ensures
        r == ms_group_key(group),
{
    match group {
        ObjectGroup::Tables => "00:tables",
        ObjectGroup::Views => "01:views",
        ObjectGroup::Functions => "02:functions",
        ObjectGroup::Procedures => "03:procedures",
        ObjectGroup::Sequences => "04:sequences",
        ObjectGroup::Triggers => "05:triggers",
        _ => "99:unsupported",
    }
}

/// What the SQL Server catalog shows.
pub fn mssql_catalog_capabilities() -> (r: CatalogCapabilities)
    ensures
        r.namespace_model == NamespaceModel::DatabaseAndSchema,
        r.top_level_groups@ == seq![
            ObjectGroup::Tables,
            ObjectGroup::Views,
            ObjectGroup::Functions,
            ObjectGroup::Procedures,
            ObjectGroup::Sequences,
            ObjectGroup::Triggers,
        ],
        r.column_metadata == (ColumnMetadataCapabilities {
            type_family: true,
            default_expression: true,
            identity: true,
            auto_increment: false,
            generated_expression: true,
            hidden: false,
            numeric_precision_and_scale: true,
            character_length: true,
            collation: true,
            character_set: false,
            comment: false,
        }),
        !r.supports_lazy_children,
{
    let groups = vec![
        ObjectGroup::Tables,
        ObjectGroup::Views,
        ObjectGroup::Functions,
        ObjectGroup::Procedures,
        ObjectGroup::Sequences,
        ObjectGroup::Triggers,
    ];
    CatalogCapabilities {
        namespace_model: NamespaceModel::DatabaseAndSchema,
        top_level_groups: groups,
        column_metadata: ColumnMetadataCapabilities {
            type_family: true,
            default_expression: true,
            identity: true,
            auto_increment: false,
            generated_expression: true,
            hidden: false,
            numeric_precision_and_scale: true,
            character_length: true,
            collation: true,
            character_set: false,
            comment: false,
        },
        supports_lazy_children: false,
    }
}


// ---------------------------------------------------------------------------
// Relation DDL
// ---------------------------------------------------------------------------

/// The error code of SQL Server decoding and catalog invariants.
pub open spec fn ms_code() -> Seq<char> {
    "sql_server_decode"@
}

fn catalog_internal(message: &str) -> (r: DatabaseError)
    ensures
        is_internal_error(r, ms_code(), message@),
{
    internal_error("sql_server_decode", message)
}

/// The ordinals and positions of the column entries among the first `n`.
pub open spec fn column_refs(es: Seq<CatalogEntry>, n: int) -> Seq<(u32, usize)>
    decreases n,
{
    if n <= 0 {
        Seq::empty()
    } else {
        let rest = column_refs(es, n - 1);
        match es[n - 1].metadata {
            CatalogMetadata::Column(c) => rest.push((c.ordinal_position, (n - 1) as usize)),
            _ => rest,
        }
    }
}

/// Whether some constraint entry is named `name`.
pub open spec fn is_constraint_name(es: Seq<CatalogEntry>, name: Seq<char>) -> bool {
    exists|i: int|
        0 <= i < es.len() && (#[trigger] es[i]).metadata is Constraint
            && es[i].qualified_name.object@ == name
}

/// The names and positions of the index entries among the first `n` that
/// do not back a constraint.
pub open spec fn index_refs(es: Seq<CatalogEntry>, n: int) -> Seq<(String, usize)>
    decreases n,
{
    if n <= 0 {
        Seq::empty()
    } else {
        let rest = index_refs(es, n - 1);
        let e = es[n - 1];
        if e.metadata is Index && !is_constraint_name(es, e.qualified_name.object@) {
            rest.push((e.qualified_name.object, (n - 1) as usize))
        } else {
            rest
        }
    }
}

/// The names and positions of the constraint entries among the first `n`.
pub open spec fn constraint_refs(es: Seq<CatalogEntry>, n: int) -> Seq<(String, usize)>
    decreases n,
{
    if n <= 0 {
        Seq::empty()
    } else {
        let rest = constraint_refs(es, n - 1);
        let e = es[n - 1];
        if e.metadata is Constraint {
            rest.push((e.qualified_name.object, (n - 1) as usize))
        } else {
            rest
        }
    }
}

/// A column's clause: bracketed name and type, then its computation, or
/// its default and nullability.
pub open spec fn ms_column_definition(e: CatalogEntry) -> Seq<char> {
    match e.metadata {
        CatalogMetadata::Column(c) => {
            let head = ms_identifier(e.qualified_name.object@) + " "@ + c.native_type@;
            match c.generated_expression {
                OptionalMetadata::Supported(Some(x)) => head + " AS "@ + x@,
                _ => head + (match c.default_expression {
                    OptionalMetadata::Supported(Some(d)) => " DEFAULT "@ + d@,
                    _ => Seq::empty(),
                }) + (if !c.nullable {
                    " NOT NULL"@
                } else {
                    Seq::empty()
                }),
            }
        },
        _ => Seq::empty(),
    }
}

/// The index statements, by index name, of the indexes with columns.
pub open spec fn index_statements(es: Seq<CatalogEntry>, refs: Seq<(String, usize)>, qualified: Seq<
    char,
>) -> Seq<Seq<char>>
    decreases refs.len(),
{
    if refs.len() == 0 {
        Seq::empty()
    } else {
        let rest = index_statements(es, refs.drop_last(), qualified);
        let r = refs.last();
        match es[r.1 as int].metadata {
            CatalogMetadata::Index(index) => if index.columns@.len() > 0 {
                rest.push(ms_index_sql(qualified, r.0@, index))
            } else {
                rest
            },
            _ => rest,
        }
    }
}

/// The statement that adds a constraint to the table.
pub open spec fn ms_constraint_sql(qualified: Seq<char>, name: Seq<char>, c: ConstraintMetadata) -> Seq<
    char,
> {
    let head = "ALTER TABLE "@ + qualified + " ADD CONSTRAINT "@ + ms_identifier(name);
    match c {
        ConstraintMetadata::PrimaryKey { columns } => head + " PRIMARY KEY ("@ + ms_column_list(
            columns@,
        ) + ")"@,
        ConstraintMetadata::Unique { columns } => head + " UNIQUE ("@ + ms_column_list(columns@)
            + ")"@,
        ConstraintMetadata::Check { expression } => head + " CHECK ("@ + expression@ + ")"@,
        ConstraintMetadata::ForeignKey { columns, referenced_relation, referenced_columns } => head
            + " FOREIGN KEY ("@ + ms_column_list(columns@) + ") REFERENCES "@ + ms_qualified_name(
            referenced_relation,
        ) + " ("@ + ms_column_list(referenced_columns@) + ")"@,
    }
}

pub open spec fn constraint_statements(
    es: Seq<CatalogEntry>,
    refs: Seq<(String, usize)>,
    qualified: Seq<char>,
) -> Seq<Seq<char>>
    decreases refs.len(),
{
    if refs.len() == 0 {
        Seq::empty()
    } else {
        let rest = constraint_statements(es, refs.drop_last(), qualified);
        let r = refs.last();
        match es[r.1 as int].metadata {
            CatalogMetadata::Constraint(c) => rest.push(ms_constraint_sql(qualified, r.0@, c)),
            _ => rest,
        }
    }
}

/// The `CREATE TABLE` statement and then the index and constraint
/// statements, each list ordered by name.
pub open spec fn ms_table_statements(es: Seq<CatalogEntry>, qualified: Seq<char>) -> Seq<Seq<char>> {
    let columns = sorted_by_key(column_refs(es, es.len() as int));
    let defs = columns.map_values(|r: (u32, usize)| ms_column_definition(es[r.1 as int]));
    let create = "CREATE TABLE "@ + qualified + " (\n    "@ + join(defs, ",\n    "@) + "\n)"@;
    seq![create] + index_statements(es, sorted_by_name(index_refs(es, es.len() as int)), qualified)
        + constraint_statements(
        es,
        sorted_by_name(constraint_refs(es, es.len() as int)),
        qualified,
    )
}

/// The DDL of a table from its catalog children, or why it has none.
pub open spec fn ms_relation_ddl(
    database: Seq<char>,
    schema: Seq<char>,
    name: Seq<char>,
    es: Seq<CatalogEntry>,
) -> Result<Seq<char>, Seq<char>> {
    let qualified = ms_identifier(schema) + "."@ + ms_identifier(name);
    if column_refs(es, es.len() as int).len() == 0 {
        Err("SQL Server relation "@ + database + "."@ + schema + "."@ + name + " has no columns"@)
    } else {
        Ok(ddl_script(seq![("Table"@, ms_table_statements(es, qualified))])->0)
    }
}

fn entry_column_definition(e: &CatalogEntry) -> (r: String)
    ensures
        r@ == ms_column_definition(*e),
{
    match &e.metadata {
        CatalogMetadata::Column(c) => {
            let mut d = quote_identifier(e.qualified_name.object.as_str());
            push_str(&mut d, " ");
            push_str(&mut d, c.native_type.as_str());
            match &c.generated_expression {
                OptionalMetadata::Supported(Some(x)) => {
                    push_str(&mut d, " AS ");
                    push_str(&mut d, x.as_str());
                },
                _ => {
                    match &c.default_expression {
                        OptionalMetadata::Supported(Some(x)) => {
                            push_str(&mut d, " DEFAULT ");
                            push_str(&mut d, x.as_str());
                        },
                        _ => {},
                    }
                    if !c.nullable {
                        push_str(&mut d, " NOT NULL");
                    }
                },
            }
            assert(d@ =~= ms_column_definition(*e)) by {
                reveal_strlit("");
            }
            d
        },
        _ => {
            let d = String::new();
            assert(d@ =~= Seq::<char>::empty());
            d
        },
    }
}

fn constraint_name_exists(es: &Vec<CatalogEntry>, name: &str) -> (r: bool)
    ensures
        r == is_constraint_name(es@, name@),
{
    let mut i: usize = 0;
    while i < es.len()
        invariant
            i <= es@.len(),
            forall|k: int|
                0 <= k < i ==> !((#[trigger] es@[k]).metadata is Constraint
                    && es@[k].qualified_name.object@ == name@),
        decreases es@.len() - i,
    {
        let e = &es[i];
        let is_constraint = match &e.metadata {
            CatalogMetadata::Constraint(_) => true,
            _ => false,
        };
        if is_constraint && str_eq(e.qualified_name.object.as_str(), name) {
            return true;
        }
        i = i + 1;
    }
    false
}

fn constraint_statement(qualified: &str, name: &str, c: &ConstraintMetadata) -> (r: String)
    ensures
        r@ == ms_constraint_sql(qualified@, name@, *c),
{
    let mut s = owned("ALTER TABLE ");
    push_str(&mut s, qualified);
    push_str(&mut s, " ADD CONSTRAINT ");
    let q = quote_identifier(name);
    push_str(&mut s, q.as_str());
    match c {
        ConstraintMetadata::PrimaryKey { columns } => {
            push_str(&mut s, " PRIMARY KEY (");
            let l = quoted_columns(columns);
            push_str(&mut s, l.as_str());
            push_str(&mut s, ")");
        },
        ConstraintMetadata::Unique { columns } => {
            push_str(&mut s, " UNIQUE (");
            let l = quoted_columns(columns);
            push_str(&mut s, l.as_str());
            push_str(&mut s, ")");
        },
        ConstraintMetadata::Check { expression } => {
            push_str(&mut s, " CHECK (");
            push_str(&mut s, expression.as_str());
            push_str(&mut s, ")");
        },
        ConstraintMetadata::ForeignKey { columns, referenced_relation, referenced_columns } => {
            push_str(&mut s, " FOREIGN KEY (");
            let l = quoted_columns(columns);
            push_str(&mut s, l.as_str());
            push_str(&mut s, ") REFERENCES ");
            let r = qualified_name_sql(referenced_relation);
            push_str(&mut s, r.as_str());
            push_str(&mut s, " (");
            let rl = quoted_columns(referenced_columns);
            push_str(&mut s, rl.as_str());
            push_str(&mut s, ")");
        },
    }
    s
}

fn table_statements(es: &Vec<CatalogEntry>, qualified: &str) -> (r: Vec<String>)
    ensures
        views(r@) == ms_table_statements(es@, qualified@),
{
    let n = es.len();
    let mut cols: Vec<(u32, usize)> = Vec::new();
    let mut irefs: Vec<(String, usize)> = Vec::new();
    let mut crefs: Vec<(String, usize)> = Vec::new();
    let mut i: usize = 0;
    while i < n
        invariant
            n == es@.len(),
            i <= n,
            cols@ == column_refs(es@, i as int),
            irefs@ == index_refs(es@, i as int),
            crefs@ == constraint_refs(es@, i as int),
            forall|m: int| 0 <= m < cols@.len() ==> #[trigger] cols@[m].1 < i,
            forall|m: int| 0 <= m < irefs@.len() ==> #[trigger] irefs@[m].1 < i,
            forall|m: int| 0 <= m < crefs@.len() ==> #[trigger] crefs@[m].1 < i,
        decreases n - i,
    {
        let e = &es[i];
        match &e.metadata {
            CatalogMetadata::Column(c) => {
                cols.push((c.ordinal_position, i));
            },
            CatalogMetadata::Index(_) => {
                if !constraint_name_exists(es, e.qualified_name.object.as_str()) {
                    irefs.push((e.qualified_name.object.clone(), i));
                }
            },
            CatalogMetadata::Constraint(_) => {
                crefs.push((e.qualified_name.object.clone(), i));
            },
            _ => {},
        }
        i = i + 1;
    }
    let ghost cols0 = cols@;
    let ghost irefs0 = irefs@;
    let ghost crefs0 = crefs@;
    let cols = sort_by_key(cols);
    let irefs = sort_by_name(irefs);
    let crefs = sort_by_name(crefs);
    proof {
        lemma_sorted_by_key_elements(cols0);
        lemma_sorted_by_name_elements(irefs0);
        lemma_sorted_by_name_elements(crefs0);
        assert forall|m: int| 0 <= m < cols@.len() implies #[trigger] cols@[m].1 < es@.len() by {
            let j = choose|j: int| 0 <= j < cols0.len() && cols0[j] == cols@[m];
        }
        assert forall|m: int| 0 <= m < irefs@.len() implies #[trigger] irefs@[m].1 < es@.len() by {
            let j = choose|j: int| 0 <= j < irefs0.len() && irefs0[j] == irefs@[m];
        }
        assert forall|m: int| 0 <= m < crefs@.len() implies #[trigger] crefs@[m].1 < es@.len() by {
            let j = choose|j: int| 0 <= j < crefs0.len() && crefs0[j] == crefs@[m];
        }
    }
    let ghost defs_spec = cols@.map_values(|r: (u32, usize)| ms_column_definition(es@[r.1 as int]));
    let mut defs: Vec<String> = Vec::new();
    let mut k: usize = 0;
    while k < cols.len()
        invariant
            k <= cols@.len(),
            forall|m: int| 0 <= m < cols@.len() ==> #[trigger] cols@[m].1 < es@.len(),
            views(defs@) == defs_spec.subrange(0, k as int),
        decreases cols@.len() - k,
    {
        defs.push(entry_column_definition(&es[cols[k].1]));
        assert(views(defs@) =~= defs_spec.subrange(0, k + 1));
        k = k + 1;
    }
    assert(defs_spec.subrange(0, k as int) =~= defs_spec);
    let mut create = owned("CREATE TABLE ");
    push_str(&mut create, qualified);
    push_str(&mut create, " (\n    ");
    let body = join_strings(&defs, ",\n    ");
    push_str(&mut create, body.as_str());
    push_str(&mut create, "\n)");
    let mut out: Vec<String> = Vec::new();
    out.push(create);
    let ghost head = views(out@);
    let ghost idx_spec = index_statements(es@, irefs@, qualified@);
    let mut j: usize = 0;
    while j < irefs.len()
        invariant
            j <= irefs@.len(),
            forall|m: int| 0 <= m < irefs@.len() ==> #[trigger] irefs@[m].1 < es@.len(),
            views(out@) == head + index_statements(es@, irefs@.subrange(0, j as int), qualified@),
        decreases irefs@.len() - j,
    {
        assert(irefs@.subrange(0, j + 1).drop_last() =~= irefs@.subrange(0, j as int));
        assert(irefs@.subrange(0, j + 1).last() == irefs@[j as int]);
        let ghost before = views(out@);
        let ghost prev = index_statements(es@, irefs@.subrange(0, j as int), qualified@);
        let entry = &es[irefs[j].1];
        match &entry.metadata {
            CatalogMetadata::Index(index) => {
                if index.columns.len() > 0 {
                    let st = reconstructed_index_sql(qualified, irefs[j].0.as_str(), index);
                    out.push(st);
                    assert(views(out@) =~= before.push(st@));
                    assert(head + prev.push(st@) =~= (head + prev).push(st@));
                }
            },
            _ => {},
        }
        j = j + 1;
    }
    assert(irefs@.subrange(0, j as int) =~= irefs@);
    let ghost head2 = views(out@);
    let mut c: usize = 0;
    while c < crefs.len()
        invariant
            c <= crefs@.len(),
            forall|m: int| 0 <= m < crefs@.len() ==> #[trigger] crefs@[m].1 < es@.len(),
            views(out@) == head2 + constraint_statements(
                es@,
                crefs@.subrange(0, c as int),
                qualified@,
            ),
        decreases crefs@.len() - c,
    {
        assert(crefs@.subrange(0, c + 1).drop_last() =~= crefs@.subrange(0, c as int));
        assert(crefs@.subrange(0, c + 1).last() == crefs@[c as int]);
        let ghost before = views(out@);
        let ghost prev = constraint_statements(es@, crefs@.subrange(0, c as int), qualified@);
        let entry = &es[crefs[c].1];
        match &entry.metadata {
            CatalogMetadata::Constraint(constraint) => {
                let st = constraint_statement(qualified, crefs[c].0.as_str(), constraint);
                out.push(st);
                assert(views(out@) =~= before.push(st@));
                assert(head2 + prev.push(st@) =~= (head2 + prev).push(st@));
            },
            _ => {},
        }
        c = c + 1;
    }
    assert(crefs@.subrange(0, c as int) =~= crefs@);
    out
}

/// The DDL that recreates a SQL Server table from its catalog children:
/// its columns by ordinal position, its indexes that back no constraint,
/// and its constraints.
pub fn reconstruct_relation_ddl(database: &str, schema: &str, name: &str, children: &CatalogPage) -> (r:
    Result<String, DatabaseError>)
    ensures
        internal_outcome(r, ms_code(), ms_relation_ddl(database@, schema@, name@, children.entries@)),
{
    let es = &children.entries;
    let mut qualified = quote_identifier(schema);
    push_str(&mut qualified, ".");
    let qn = quote_identifier(name);
    push_str(&mut qualified, qn.as_str());
    if !has_column_entry(es) {
        let mut m = owned("SQL Server relation ");
        push_str(&mut m, database);
        push_str(&mut m, ".");
        push_str(&mut m, schema);
        push_str(&mut m, ".");
        push_str(&mut m, name);
        push_str(&mut m, " has no columns");
        return Err(catalog_internal(m.as_str()));
    }
    let statements = table_statements(es, qualified.as_str());
    let ghost stmts = views(statements@);
    proof {
        let create = stmts[0];
        reveal_strlit("CREATE TABLE ");
        reveal_strlit("\n)");
        assert(create[0] == 'C');
        assert(create.last() == ')');
        crate::text::lemma_trim_unchanged(create);
        crate::ddl::lemma_section_statements_empty(stmts);
        let sections = seq![("Table"@, stmts)];
        assert(sections.drop_last() =~= Seq::<(Seq<char>, Seq<Seq<char>>)>::empty());
    }
    let mut sections: Vec<DdlSection> = Vec::new();
    sections.push(DdlSection { label: "Table", statements });
    assert(sections_view(sections@) =~= seq![("Table"@, stmts)]);
    match assemble_ddl(sections) {
        Some(s) => Ok(s),
        None => {
            proof {
                assert(false);
            }
            Err(catalog_internal("SQL Server relation DDL assembly produced no statements"))
        },
    }
}

fn has_column_entry(es: &Vec<CatalogEntry>) -> (r: bool)
    ensures
        r == (column_refs(es@, es@.len() as int).len() > 0),
{
    let mut i: usize = 0;
    while i < es.len()
        invariant
            i <= es@.len(),
            column_refs(es@, i as int).len() == 0,
        decreases es@.len() - i,
    {
        match &es[i].metadata {
            CatalogMetadata::Column(_) => {
                proof {
                    lemma_column_refs_grow(es@, i as int + 1, es@.len() as int);
                }
                return true;
            },
            _ => {},
        }
        i = i + 1;
    }
    false
}

proof fn lemma_column_refs_grow(es: Seq<CatalogEntry>, m: int, n: int)
    requires
        0 < m <= n <= es.len(),
        column_refs(es, m).len() > 0,
    ensures
        column_refs(es, n).len() > 0,
    decreases n - m,
{
    if m < n {
        lemma_column_refs_grow(es, m, n - 1);
    }
}


// ---------------------------------------------------------------------------
// Catalog drops
// ---------------------------------------------------------------------------

pub open spec fn text_or_empty(o: Option<String>) -> Seq<char> {
    match o {
        Some(s) => s@,
        None => Seq::empty(),
    }
}

pub open spec fn missing_or_empty(o: Option<String>) -> bool {
    match o {
        Some(s) => s@.len() == 0,
        None => true,
    }
}

/// The three-part name of a schema-level object whose identity, parent
/// and qualified name agree.
pub open spec fn ms_top_level_name(entry: CatalogEntry, kind: CatalogKind) -> Result<
    Seq<char>,
    DropSqlIssue,
> {
    let name = entry.qualified_name;
    let path = entry.id.native_path@;
    if path.len() != 4 || entry.id.kind != kind || opt_id_view(entry.parent_id) != Some(
        CatalogIdView {
            connection_id: entry.id.connection_id,
            kind: CatalogKind::Schema,
            path: seq![path[0]@, path[1]@],
        },
    ) || path[0]@ != text_or_empty(name.database) || path[1]@ != text_or_empty(name.schema)
        || path[2]@ != name.object@ || missing_or_empty(name.database) || missing_or_empty(
        name.schema,
    ) {
        Err(
            DropSqlIssue::Unsupported(kind, "catalog entry has an invalid SQL Server object identity"@),
        )
    } else {
        Ok(
            ms_identifier(text_or_empty(name.database)) + "."@ + ms_identifier(
                text_or_empty(name.schema),
            ) + "."@ + ms_identifier(name.object@),
        )
    }
}

/// The relation part of a relation child's identity agrees with its owner.
pub open spec fn ms_child_agrees(entry: CatalogEntry, kind: CatalogKind, relation: CatalogId) -> bool {
    let name = entry.qualified_name;
    let path = entry.id.native_path@;
    let rpath = relation.native_path@;
    &&& entry.id.kind == kind
    &&& opt_id_view(entry.parent_id) == Some(relation@)
    &&& relation.connection_id == entry.id.connection_id
    &&& relation.kind.spec_is_relation()
    &&& rpath.len() == 4
    &&& path.len() == 5
    &&& views(path.subrange(0, 4)) == views(rpath)
    &&& path[4]@.len() > 0
    &&& opt_view(name.database) == Some(rpath[0]@)
    &&& opt_view(name.schema) == Some(rpath[1]@)
    &&& name.object@.len() > 0
}

/// The three-part name of the relation that owns an index.
pub open spec fn ms_child_relation(entry: CatalogEntry, kind: CatalogKind) -> Result<
    Seq<char>,
    DropSqlIssue,
> {
    match entry.relation_id {
        None => Err(DropSqlIssue::Unsupported(kind, "catalog entry has no owning relation identity"@)),
        Some(relation) => if !ms_child_agrees(entry, kind, relation) {
            Err(
                DropSqlIssue::Unsupported(
                    kind,
                    "catalog entry has an invalid owning relation identity"@,
                ),
            )
        } else {
            Ok(
                ms_identifier(text_or_empty(entry.qualified_name.database)) + "."@ + ms_identifier(
                    text_or_empty(entry.qualified_name.schema),
                ) + "."@ + ms_identifier(relation.native_path@[2]@),
            )
        },
    }
}

/// A trigger's path is its relation's path and its own name, or the schema
/// path with its name and object id.
pub open spec fn ms_trigger_path_ok(entry: CatalogEntry, relation: CatalogId) -> bool {
    let path = entry.id.native_path@;
    let rpath = relation.native_path@;
    ||| (path.len() == 5 && views(path.subrange(0, 4)) == views(rpath) && path[4]@.len() > 0)
    ||| (path.len() == 4 && path[0]@ == rpath[0]@ && path[1]@ == rpath[1]@ && path[2]@
        == entry.qualified_name.object@ && path[3]@.len() > 0)
}

/// The trigger check reads the owner's first two path parts.
pub open spec fn ms_trigger_readable(entry: CatalogEntry) -> bool {
    match entry.relation_id {
        Some(relation) => !(entry.id.native_path@.len() == 4 && (relation.native_path@.len() == 0
            || (relation.native_path@.len() == 1 && entry.id.native_path@[0]@
            == relation.native_path@[0]@))),
        None => true,
    }
}

/// The three-part name of a trigger whose identity agrees with its owner.
pub open spec fn ms_trigger_name(entry: CatalogEntry) -> Result<Seq<char>, DropSqlIssue> {
    let name = entry.qualified_name;
    match entry.relation_id {
        None => Err(
            DropSqlIssue::Unsupported(
                CatalogKind::Trigger,
                "catalog entry has no owning relation identity"@,
            ),
        ),
        Some(relation) => {
            let rpath = relation.native_path@;
            if !ms_trigger_path_ok(entry, relation) || entry.id.kind != CatalogKind::Trigger
                || opt_id_view(entry.parent_id) != Some(relation@) || relation.connection_id
                != entry.id.connection_id || !relation.kind.spec_is_relation() || rpath.len() != 4
                || opt_view(name.database) != Some(rpath[0]@) || opt_view(name.schema) != Some(
                rpath[1]@,
            ) || name.object@.len() == 0 {
                Err(
                    DropSqlIssue::Unsupported(
                        CatalogKind::Trigger,
                        "catalog entry has an invalid owning relation identity"@,
                    ),
                )
            } else {
                Ok(
                    ms_identifier(text_or_empty(name.database)) + "."@ + ms_identifier(
                        text_or_empty(name.schema),
                    ) + "."@ + ms_identifier(name.object@),
                )
            }
        },
    }
}

/// The statement that drops an entry on SQL Server, by its kind.
pub open spec fn ms_drop_sql(entry: CatalogEntry) -> Result<Seq<char>, DropSqlIssue> {
    let kind = entry.kind;
    match kind {
        CatalogKind::Table => prefixed("DROP TABLE "@, ms_top_level_name(entry, kind)),
        CatalogKind::View => prefixed("DROP VIEW "@, ms_top_level_name(entry, kind)),
        CatalogKind::Sequence => prefixed("DROP SEQUENCE "@, ms_top_level_name(entry, kind)),
        CatalogKind::Function => prefixed("DROP FUNCTION "@, ms_top_level_name(entry, kind)),
        CatalogKind::Procedure => prefixed("DROP PROCEDURE "@, ms_top_level_name(entry, kind)),
        CatalogKind::Trigger => prefixed("DROP TRIGGER "@, ms_trigger_name(entry)),
        CatalogKind::Index => match ms_child_relation(entry, kind) {
            Ok(rel) => Ok(
                "DROP INDEX "@ + ms_identifier(entry.qualified_name.object@) + " ON "@ + rel,
            ),
            Err(e) => Err(e),
        },
        CatalogKind::Column => Err(
            DropSqlIssue::Unsupported(
                kind,
                "SQL Server column drops are unsupported by the catalog planner"@,
            ),
        ),
        CatalogKind::PrimaryKey | CatalogKind::UniqueConstraint | CatalogKind::ForeignKey
        | CatalogKind::CheckConstraint => Err(
            DropSqlIssue::Unsupported(
                kind,
                "SQL Server constraint drops are unsupported by the catalog planner"@,
            ),
        ),
        _ => Err(DropSqlIssue::Unsupported(kind, "SQL Server support is not implemented yet"@)),
    }
}

fn opt_text(o: &Option<String>) -> (r: &str)
    ensures
        r@ == text_or_empty(*o),
{
    match o {
        Some(s) => s.as_str(),
        None => {
            let e = "";
            proof {
                reveal_strlit("");
            }
            assert(e@ =~= Seq::<char>::empty());
            e
        },
    }
}

fn opt_missing(o: &Option<String>) -> (r: bool)
    ensures
        r == missing_or_empty(*o),
{
    match o {
        Some(s) => is_empty_str(s.as_str()),
        None => true,
    }
}

fn opt_is(o: &Option<String>, v: &String) -> (r: bool)
    ensures
        r == (opt_view(*o) == Some(v@)),
{
    match o {
        Some(s) => str_eq(s.as_str(), v.as_str()),
        None => false,
    }
}

fn three_part(a: &str, b: &str, c: &str) -> (r: String)
    ensures
        r@ == ms_identifier(a@) + "."@ + ms_identifier(b@) + "."@ + ms_identifier(c@),
{
    let mut s = quote_identifier(a);
    push_str(&mut s, ".");
    let qb = quote_identifier(b);
    push_str(&mut s, qb.as_str());
    push_str(&mut s, ".");
    let qc = quote_identifier(c);
    push_str(&mut s, qc.as_str());
    s
}

fn paths_eq(a: &Vec<String>, lo: usize, hi: usize, b: &Vec<String>) -> (r: bool)
    requires
        lo <= hi <= a@.len(),
    ensures
        r == (views(a@.subrange(lo as int, hi as int)) == views(b@)),
{
    if hi - lo != b.len() {
        assert(views(a@.subrange(lo as int, hi as int)).len() != views(b@).len());
        return false;
    }
    let mut i: usize = 0;
    while i < b.len()
        invariant
            hi - lo == b@.len(),
            lo <= hi <= a@.len(),
            i <= b@.len(),
            forall|k: int| 0 <= k < i ==> a@[lo + k]@ == b@[k]@,
        decreases b@.len() - i,
    {
        if !str_eq(a[lo + i].as_str(), b[i].as_str()) {
            assert(views(a@.subrange(lo as int, hi as int))[i as int] != views(b@)[i as int]);
            return false;
        }
        i = i + 1;
    }
    assert(views(a@.subrange(lo as int, hi as int)) =~= views(b@));
    true
}

fn schema_parent_is(entry: &CatalogEntry) -> (r: bool)
    requires
        entry.id.native_path@.len() == 4,
    ensures
        r == (opt_id_view(entry.parent_id) == Some(
            CatalogIdView {
                connection_id: entry.id.connection_id,
                kind: CatalogKind::Schema,
                path: seq![entry.id.native_path@[0]@, entry.id.native_path@[1]@],
            },
        )),
{
    let path = &entry.id.native_path;
    match &entry.parent_id {
        Some(p) => {
            let r = p.connection_id == entry.id.connection_id && p.kind == CatalogKind::Schema
                && p.native_path.len() == 2 && str_eq(p.native_path[0].as_str(), path[0].as_str())
                && str_eq(p.native_path[1].as_str(), path[1].as_str());
            proof {
                let expected = seq![path@[0]@, path@[1]@];
                if r {
                    assert(p@.path =~= expected);
                }
                if p@.path == expected {
                    assert(p@.path.len() == 2);
                    assert(p@.path[0] == expected[0]);
                    assert(p@.path[1] == expected[1]);
                }
            }
            r
        },
        None => false,
    }
}

fn mssql_top_level_name(entry: &CatalogEntry, kind: CatalogKind) -> (r: Result<
    String,
    CatalogDropError,
>)
    ensures
        match r {
            Ok(s) => ms_top_level_name(*entry, kind) == Ok::<Seq<char>, DropSqlIssue>(s@),
            Err(e) => ms_top_level_name(*entry, kind) matches Err(i) && drop_issue_matches(e, i),
        },
{
    let name = &entry.qualified_name;
    let path = &entry.id.native_path;
    if path.len() != 4 || entry.id.kind != kind || !schema_parent_is(entry) || !str_eq(
        path[0].as_str(),
        opt_text(&name.database),
    ) || !str_eq(path[1].as_str(), opt_text(&name.schema)) || !str_eq(
        path[2].as_str(),
        name.object.as_str(),
    ) || opt_missing(&name.database) || opt_missing(&name.schema) {
        return Err(unsupported(kind, "catalog entry has an invalid SQL Server object identity"));
    }
    Ok(three_part(opt_text(&name.database), opt_text(&name.schema), name.object.as_str()))
}

fn mssql_child_name(entry: &CatalogEntry, kind: CatalogKind) -> (r: Result<
    String,
    CatalogDropError,
>)
    ensures
        match r {
            Ok(s) => ms_child_relation(*entry, kind) == Ok::<Seq<char>, DropSqlIssue>(s@),
            Err(e) => ms_child_relation(*entry, kind) matches Err(i) && drop_issue_matches(e, i),
        },
{
    let relation = match &entry.relation_id {
        Some(r) => r,
        None => {
            return Err(unsupported(kind, "catalog entry has no owning relation identity"));
        },
    };
    let name = &entry.qualified_name;
    let path = &entry.id.native_path;
    let parent_ok = match &entry.parent_id {
        Some(p) => id_eq(p, relation),
        None => false,
    };
    let ok = entry.id.kind == kind && parent_ok && relation.connection_id == entry.id.connection_id
        && relation.kind.is_relation() && relation.native_path.len() == 4 && path.len() == 5
        && paths_eq(path, 0, 4, &relation.native_path) && !is_empty_str(path[4].as_str())
        && opt_is(&name.database, &relation.native_path[0]) && opt_is(
        &name.schema,
        &relation.native_path[1],
    ) && !is_empty_str(name.object.as_str());
    if !ok {
        return Err(unsupported(kind, "catalog entry has an invalid owning relation identity"));
    }
    Ok(
        three_part(
            opt_text(&name.database),
            opt_text(&name.schema),
            relation.native_path[2].as_str(),
        ),
    )
}

fn mssql_trigger_name(entry: &CatalogEntry) -> (r: Result<String, CatalogDropError>)
    requires
        ms_trigger_readable(*entry),
    ensures
        match r {
            Ok(s) => ms_trigger_name(*entry) == Ok::<Seq<char>, DropSqlIssue>(s@),
            Err(e) => ms_trigger_name(*entry) matches Err(i) && drop_issue_matches(e, i),
        },
{
    let name = &entry.qualified_name;
    let relation = match &entry.relation_id {
        Some(r) => r,
        None => {
            return Err(
                unsupported(CatalogKind::Trigger, "catalog entry has no owning relation identity"),
            );
        },
    };
    let path = &entry.id.native_path;
    let rpath = &relation.native_path;
    let valid_path = (path.len() == 5 && paths_eq(path, 0, 4, rpath) && !is_empty_str(
        path[4].as_str(),
    )) || (path.len() == 4 && str_eq(path[0].as_str(), rpath[0].as_str()) && str_eq(
        path[1].as_str(),
        rpath[1].as_str(),
    ) && str_eq(path[2].as_str(), name.object.as_str()) && !is_empty_str(path[3].as_str()));
    let parent_ok = match &entry.parent_id {
        Some(p) => id_eq(p, relation),
        None => false,
    };
    if entry.id.kind != CatalogKind::Trigger || !parent_ok || relation.connection_id
        != entry.id.connection_id || !relation.kind.is_relation() || rpath.len() != 4 || !valid_path
        || !opt_is(&name.database, &rpath[0]) || !opt_is(&name.schema, &rpath[1]) || is_empty_str(
        name.object.as_str(),
    ) {
        return Err(
            unsupported(
                CatalogKind::Trigger,
                "catalog entry has an invalid owning relation identity",
            ),
        );
    }
    Ok(three_part(opt_text(&name.database), opt_text(&name.schema), name.object.as_str()))
}

fn prefix_name(prefix: &str, r: Result<String, CatalogDropError>) -> (out: Result<
    String,
    CatalogDropError,
>)
    ensures
        match r {
            Ok(s) => out matches Ok(t) && t@ == prefix@ + s@,
            Err(e) => out == Err::<String, CatalogDropError>(e),
        },
{
    match r {
        Ok(s) => {
            let mut t = owned(prefix);
            push_str(&mut t, s.as_str());
            Ok(t)
        },
        Err(e) => Err(e),
    }
}

/// The statement that drops `entry` on SQL Server, planned for `request`.
pub fn plan_mssql_catalog_drop(request: CatalogDropRequest, entry: &CatalogEntry) -> (r: Result<
    CatalogDropPlan,
    CatalogDropError,
>)
    requires
        entry.kind == CatalogKind::Trigger ==> ms_trigger_readable(*entry),
    ensures
        drop_request_issue(request) is Some ==> drop_result_issue(r) == drop_request_issue(request),
        drop_request_issue(request) is None ==> drop_plan_outcome(
            r,
            request,
            *entry,
            ms_drop_sql(*entry),
        ),
{
    match request.validate() {
        Ok(()) => {},
        Err(e) => {
            return Err(e);
        },
    }
    let kind = entry.kind;
    let sql = match kind {
        CatalogKind::Table => prefix_name("DROP TABLE ", mssql_top_level_name(entry, kind)),
        CatalogKind::View => prefix_name("DROP VIEW ", mssql_top_level_name(entry, kind)),
        CatalogKind::Sequence => prefix_name("DROP SEQUENCE ", mssql_top_level_name(entry, kind)),
        CatalogKind::Function => prefix_name("DROP FUNCTION ", mssql_top_level_name(entry, kind)),
        CatalogKind::Procedure => prefix_name(
            "DROP PROCEDURE ",
            mssql_top_level_name(entry, kind),
        ),
        CatalogKind::Trigger => prefix_name("DROP TRIGGER ", mssql_trigger_name(entry)),
        CatalogKind::Index => match mssql_child_name(entry, kind) {
            Ok(relation) => {
                let mut t = owned("DROP INDEX ");
                let q = quote_identifier(entry.qualified_name.object.as_str());
                push_str(&mut t, q.as_str());
                push_str(&mut t, " ON ");
                push_str(&mut t, relation.as_str());
                Ok(t)
            },
            Err(e) => Err(e),
        },
        CatalogKind::Column => Err(
            unsupported(kind, "SQL Server column drops are unsupported by the catalog planner"),
        ),
        CatalogKind::PrimaryKey | CatalogKind::UniqueConstraint | CatalogKind::ForeignKey
        | CatalogKind::CheckConstraint => Err(
            unsupported(kind, "SQL Server constraint drops are unsupported by the catalog planner"),
        ),
        _ => Err(unsupported(kind, "SQL Server support is not implemented yet")),
    };
    match sql {
        Ok(sql) => CatalogDropPlan::new(request, entry, sql),
        Err(e) => Err(e),
    }
}


// ---------------------------------------------------------------------------
// Row edits
// ---------------------------------------------------------------------------

/// The statements of a SQL Server row edit. `edit_run::mssql_edit_step`
/// runs deletes and updates after a savepoint, so that a conflict can roll
/// back to it:
/// - `Delete`: one statement per row, each of which must delete exactly one
///   row; a row that cannot be bound stops the edit there.
/// - `Insert`: one statement that outputs the inserted row.
/// - `Update`: one statement that must update and output exactly one row,
///   or why it cannot be built.
#[derive(Debug, PartialEq, Eq)]
pub enum MsSqlMutationPlan {
    Delete { statements: Vec<Result<BoundStatement, TransactionError>> },
    Insert { statement: BoundStatement },
    Update { statement: Result<BoundStatement, TransactionError> },
}

pub enum MsSqlMutationPlanView {
    Delete(Seq<Result<StatementView, Seq<char>>>),
    Insert(StatementView),
    Update(Result<StatementView, Seq<char>>),
}

impl View for MsSqlMutationPlan {
    type V = MsSqlMutationPlanView;

    open spec fn view(&self) -> MsSqlMutationPlanView {
        match *self {
            MsSqlMutationPlan::Delete { statements } => MsSqlMutationPlanView::Delete(
                statements@.map_values(|r: Result<BoundStatement, TransactionError>| step_view(r)),
            ),
            MsSqlMutationPlan::Insert { statement } => MsSqlMutationPlanView::Insert(
                statement_view(statement),
            ),
            MsSqlMutationPlan::Update { statement } => MsSqlMutationPlanView::Update(
                step_view(statement),
            ),
        }
    }
}

pub open spec fn ms_plan_view(r: Result<MsSqlMutationPlan, TransactionError>) -> Result<
    MsSqlMutationPlanView,
    Seq<char>,
> {
    match r {
        Ok(p) => Ok(p@),
        Err(e) => Err(e.0@),
    }
}

/// Why a cell cannot be bound to a SQL Server parameter.
pub open spec fn ms_bind_issue(v: CellView) -> Option<Seq<char>> {
    match v {
        CellView::Unsigned(u) => if u > i64::MAX {
            Some("SQL Server cannot bind an unsigned value larger than i64"@)
        } else {
            None
        },
        CellView::Unsupported { .. } => Some("SQL Server cannot bind an unsupported cell value"@),
        _ => None,
    }
}

/// The first cell, in order, that cannot be bound.
pub open spec fn ms_binds_issue(vs: Seq<CellView>) -> Option<Seq<char>>
    decreases vs.len(),
{
    if vs.len() == 0 {
        None
    } else if ms_binds_issue(vs.drop_last()) is Some {
        ms_binds_issue(vs.drop_last())
    } else {
        ms_bind_issue(vs.last())
    }
}

proof fn lemma_ms_binds_issue_at(vs: Seq<CellView>, i: int)
    requires
        0 <= i < vs.len(),
        ms_binds_issue(vs.subrange(0, i)) is None,
        ms_bind_issue(vs[i]) is Some,
    ensures
        ms_binds_issue(vs) == ms_bind_issue(vs[i]),
    decreases vs.len() - i,
{
    if i == vs.len() - 1 {
        assert(vs.drop_last() =~= vs.subrange(0, i));
    } else {
        assert(vs.drop_last().subrange(0, i) =~= vs.subrange(0, i));
        assert(vs.drop_last()[i] == vs[i]);
        lemma_ms_binds_issue_at(vs.drop_last(), i);
    }
}

/// Whether `value` can be bound to a SQL Server parameter.
pub fn check_mssql_bindable(value: &CellValue) -> (r: Result<(), TransactionError>)
    ensures
        match r {
            Ok(()) => ms_bind_issue(value@) is None,
            Err(e) => ms_bind_issue(value@) == Some(e.0@),
        },
{
    match value {
        CellValue::Unsigned(u) => {
            if *u > 0x7fff_ffff_ffff_ffffu64 {
                Err(transaction_error("SQL Server cannot bind an unsigned value larger than i64"))
            } else {
                Ok(())
            }
        },
        CellValue::Unsupported { .. } => Err(
            transaction_error("SQL Server cannot bind an unsupported cell value"),
        ),
        _ => Ok(()),
    }
}

fn check_ms_binds(values: &Vec<CellValue>) -> (r: Result<(), TransactionError>)
    ensures
        match r {
            Ok(()) => ms_binds_issue(cells_view(values@)) is None,
            Err(e) => ms_binds_issue(cells_view(values@)) == Some(e.0@),
        },
{
    let ghost all = cells_view(values@);
    let mut i: usize = 0;
    while i < values.len()
        invariant
            all == cells_view(values@),
            i <= values@.len(),
            ms_binds_issue(all.subrange(0, i as int)) is None,
        decreases values@.len() - i,
    {
        assert(all.subrange(0, i + 1).drop_last() =~= all.subrange(0, i as int));
        match check_mssql_bindable(&values[i]) {
            Ok(()) => {},
            Err(e) => {
                proof {
                    lemma_ms_binds_issue_at(all, i as int);
                }
                return Err(e);
            },
        }
        i = i + 1;
    }
    assert(all.subrange(0, i as int) =~= all);
    Ok(())
}

pub open spec fn ms_bound(sql: Seq<char>, binds: Seq<CellView>) -> Result<StatementView, Seq<char>> {
    match ms_binds_issue(binds) {
        Some(e) => Err(e),
        None => Ok((sql, binds)),
    }
}

/// Each value twice: a null-safe test reads its parameter twice.
pub open spec fn doubled(s: Seq<CellView>) -> Seq<CellView>
    decreases s.len(),
{
    if s.len() == 0 {
        Seq::empty()
    } else {
        doubled(s.drop_last()).push(s.last()).push(s.last())
    }
}

pub(crate) fn push_doubled(dst: &mut Vec<CellValue>, src: &Vec<CellValue>)
    ensures
        cells_view(final(dst)@) == cells_view(old(dst)@) + doubled(cells_view(src@)),
{
    let ghost start = cells_view(dst@);
    let ghost all = cells_view(src@);
    let mut i: usize = 0;
    assert(all.subrange(0, 0) =~= Seq::<CellView>::empty());
    assert(start + doubled(Seq::<CellView>::empty()) =~= start);
    while i < src.len()
        invariant
            all == cells_view(src@),
            i <= src@.len(),
            cells_view(dst@) == start + doubled(all.subrange(0, i as int)),
        decreases src@.len() - i,
    {
        let ghost before = cells_view(dst@);
        assert(all.subrange(0, i + 1).drop_last() =~= all.subrange(0, i as int));
        assert(all.subrange(0, i + 1).last() == src@[i as int]@);
        dst.push(src[i].clone());
        dst.push(src[i].clone());
        assert(cells_view(dst@) =~= before.push(src@[i as int]@).push(src@[i as int]@));
        assert(start + doubled(all.subrange(0, i + 1)) =~= (start + doubled(
            all.subrange(0, i as int),
        )).push(src@[i as int]@).push(src@[i as int]@));
        i = i + 1;
    }
    assert(all.subrange(0, i as int) =~= all);
}

/// The null-safe predicates of a delete: the locator columns, then every
/// column, each reading the next two parameters.
pub open spec fn ms_delete_predicates(columns: Seq<(String, String, bool)>, locator: Seq<usize>) -> Seq<
    Seq<char>,
> {
    Seq::new(
        locator.len(),
        |p: int| ms_null_safe(ms_identifier(columns[locator[p] as int].0@), (2 * p + 1) as nat),
    ) + Seq::new(
        columns.len(),
        |c: int| ms_null_safe(ms_identifier(columns[c].0@), (2 * (locator.len() + c) + 1) as nat),
    )
}

pub open spec fn ms_delete_row(
    table: Seq<char>,
    columns: Seq<(String, String, bool)>,
    m: DeleteRowMutation,
) -> Result<StatementView, Seq<char>> {
    ms_bound(
        "DELETE FROM "@ + table + " WHERE "@ + join(
            ms_delete_predicates(columns, m.row.columns@),
            " AND "@,
        ),
        doubled(cells_view(m.row.values@)) + doubled(cells_view(m.original@)),
    )
}

/// The value expressions of an insert: `DEFAULT`, or the next `@Pn`.
pub open spec fn ms_insert_expressions(values: Seq<InputValue>) -> Seq<Seq<char>>
    decreases values.len(),
{
    if values.len() == 0 {
        Seq::empty()
    } else {
        let rest = ms_insert_expressions(values.drop_last());
        match values.last() {
            InputValue::Default => rest.push("DEFAULT"@),
            _ => rest.push("@P"@ + decimal(input_binds(values.drop_last()).len() + 1)),
        }
    }
}

pub open spec fn ms_insert(
    table: Seq<char>,
    columns: Seq<(String, String, bool)>,
    insert: InsertRowMutation,
) -> Result<StatementView, Seq<char>> {
    let idx = insert.columns@;
    let names = Seq::new(idx.len(), |i: int| ms_identifier(columns[idx[i] as int].0@));
    let sql = if idx.len() == 0 {
        "INSERT INTO "@ + table + " DEFAULT VALUES OUTPUT inserted.*"@
    } else {
        "INSERT INTO "@ + table + " ("@ + join(names, ", "@) + ") OUTPUT inserted.* VALUES ("@
            + join(ms_insert_expressions(insert.values@), ", "@) + ")"@
    };
    ms_bound(sql, input_binds(insert.values@))
}

/// The locator is the whole row, in column order.
pub open spec fn full_row(columns: Seq<(String, String, bool)>, locator: Seq<usize>) -> bool {
    locator.len() == columns.len() && forall|p: int| 0 <= p < locator.len() ==> #[trigger] locator[p]
        == p
}

/// Every locator column is declared not null.
pub open spec fn non_null_locator(columns: Seq<(String, String, bool)>, locator: Seq<usize>) -> bool {
    forall|p: int| 0 <= p < locator.len() ==> !columns[#[trigger] locator[p] as int].2
}

/// The update of one cell, matched by a locator that identifies one row and
/// by the value read before, outputting the updated row.
pub open spec fn ms_update(
    table: Seq<char>,
    columns: Seq<(String, String, bool)>,
    key: Seq<String>,
    u: UpdateCellMutation,
) -> Result<StatementView, Seq<char>> {
    let locator = u.row.columns@;
    let n = locator.len();
    if u.column >= columns.len() {
        Err("SQL Server update column is out of range"@)
    } else if n != u.row.values@.len() {
        Err("SQL Server row locator is malformed"@)
    } else if n == 0 || exists|p: int| 0 <= p < n && #[trigger] locator[p] >= columns.len() {
        Err(
            "SQL Server row locator must contain valid primary-key, non-null unique, or full-row columns"@,
        )
    } else if exists|p: int| 0 <= p < n - 1 && #[trigger] locator[p] == locator[p + 1] {
        Err("SQL Server row locator contains duplicate columns"@)
    } else {
        match pk_positions(columns, key) {
            None => Err("SQL Server metadata primary-key column is missing"@),
            Some(ps) => if !full_row(columns, locator) && ps != locator && !non_null_locator(
                columns,
                locator,
            ) {
                Err(
                    "SQL Server row locator must be the primary key, a non-null unique key, or the full row"@,
                )
            } else if u.original is Unsupported {
                Err("SQL Server cannot compare an unsupported original cell value"@)
            } else {
                let quoted = ms_identifier(columns[u.column as int].0@);
                let d: nat = if u.value is Default { 1 } else { 2 };
                let set = quoted + (if u.value is Default { " = DEFAULT"@ } else { " = @P1"@ });
                let preds = Seq::new(
                    n,
                    |p: int| ms_null_safe(ms_identifier(columns[locator[p] as int].0@), (2 * p + d) as nat),
                ).push(ms_null_safe(quoted, 2 * n + d));
                ms_bound(
                    "UPDATE "@ + table + " SET "@ + set + " OUTPUT inserted.* WHERE "@ + join(
                        preds,
                        " AND "@,
                    ),
                    value_binds(u.value) + doubled(cells_view(u.row.values@)) + seq![
                        u.original@,
                        u.original@,
                    ],
                )
            },
        }
    }
}

/// The statements of a row edit on a SQL Server relation, whose native path
/// is database, schema, table and object id, over a transaction client that
/// must still be open.
pub open spec fn ms_mutation_plan(
    path: Seq<String>,
    fingerprint: MetadataFingerprint,
    operation: RelationMutation,
    client_open: bool,
) -> Result<MsSqlMutationPlanView, Seq<char>> {
    let columns = fingerprint.columns@;
    if path.len() != 4 {
        Err("SQL Server relation has no canonical database, schema, table, and object path"@)
    } else if columns.len() == 0 {
        Err("SQL Server relation mutation has no relation columns"@)
    } else if !client_open {
        Err("SQL Server transaction client is closed"@)
    } else {
        let table = ms_identifier(path[0]@) + "."@ + ms_identifier(path[1]@) + "."@ + ms_identifier(
            path[2]@,
        );
        match operation {
            RelationMutation::DeleteRows(rows) => if exists|i: int|
                0 <= i < rows@.len() && ms_delete_malformed(#[trigger] rows@[i], columns.len() as usize) {
                Err("SQL Server delete mutation is malformed or contains an unsupported value"@)
            } else {
                Ok(
                    MsSqlMutationPlanView::Delete(
                        rows@.map_values(|m: DeleteRowMutation| ms_delete_row(table, columns, m)),
                    ),
                )
            },
            RelationMutation::InsertRow(insert) => match ms_insert_issue(
                insert,
                columns.len() as usize,
            ) {
                Some(e) => Err(e),
                None => match ms_insert(table, columns, insert) {
                    Err(e) => Err(e),
                    Ok(s) => Ok(MsSqlMutationPlanView::Insert(s)),
                },
            },
            RelationMutation::UpdateCell(u) => Ok(
                MsSqlMutationPlanView::Update(
                    ms_update(table, columns, fingerprint.primary_key@, u),
                ),
            ),
        }
    }
}


fn delete_statement(
    table: &str,
    columns: &Vec<(String, String, bool)>,
    m: &DeleteRowMutation,
) -> (r: Result<BoundStatement, TransactionError>)
    requires
        2 * (m.row.columns@.len() + columns@.len()) + 2 < usize::MAX,
        forall|p: int| 0 <= p < m.row.columns@.len() ==> #[trigger] m.row.columns@[p] < columns@.len(),
    ensures
        step_view(r) == ms_delete_row(table@, columns@, *m),
{
    let locator = &m.row.columns;
    let n = locator.len();
    let ghost expected = ms_delete_predicates(columns@, locator@);
    let mut preds: Vec<String> = Vec::new();
    let mut p: usize = 0;
    while p < n
        invariant
            n == locator@.len(),
            2 * (n + columns@.len()) + 2 < usize::MAX,
            forall|k: int| 0 <= k < n ==> #[trigger] locator@[k] < columns@.len(),
            p <= n,
            views(preds@) == expected.subrange(0, p as int),
        decreases n - p,
    {
        let idx = locator[p];
        let q = quote_identifier(columns[idx].0.as_str());
        preds.push(mssql_null_safe_predicate(q.as_str(), 2 * p + 1));
        assert(views(preds@) =~= expected.subrange(0, p + 1));
        p = p + 1;
    }
    let mut c: usize = 0;
    while c < columns.len()
        invariant
            n == locator@.len(),
            2 * (n + columns@.len()) + 2 < usize::MAX,
            c <= columns@.len(),
            views(preds@) == expected.subrange(0, n + c),
        decreases columns@.len() - c,
    {
        let q = quote_identifier(columns[c].0.as_str());
        preds.push(mssql_null_safe_predicate(q.as_str(), 2 * (n + c) + 1));
        assert(views(preds@) =~= expected.subrange(0, n + c + 1));
        c = c + 1;
    }
    assert(expected.subrange(0, n + c) =~= expected);
    let mut sql = owned("DELETE FROM ");
    push_str(&mut sql, table);
    push_str(&mut sql, " WHERE ");
    let body = join_strings(&preds, " AND ");
    push_str(&mut sql, body.as_str());
    let mut binds: Vec<CellValue> = Vec::new();
    push_doubled(&mut binds, &m.row.values);
    push_doubled(&mut binds, &m.original);
    assert(cells_view(binds@) =~= doubled(cells_view(m.row.values@)) + doubled(
        cells_view(m.original@),
    ));
    match check_ms_binds(&binds) {
        Ok(()) => Ok(BoundStatement { sql, binds }),
        Err(e) => Err(e),
    }
}


fn insert_statement(
    table: &str,
    columns: &Vec<(String, String, bool)>,
    insert: &InsertRowMutation,
) -> (r: Result<BoundStatement, TransactionError>)
    requires
        insert.values@.len() < usize::MAX,
        insert.columns@.len() == insert.values@.len(),
        forall|k: int| 0 <= k < insert.columns@.len() ==> #[trigger] insert.columns@[k] < columns@.len(),
    ensures
        step_view(r) == ms_insert(table@, columns@, *insert),
{
    let idx = &insert.columns;
    let ghost all_names = Seq::new(idx@.len(), |k: int| ms_identifier(columns@[idx@[k] as int].0@));
    let ghost values = insert.values@;
    let mut names: Vec<String> = Vec::new();
    let mut exprs: Vec<String> = Vec::new();
    let mut binds: Vec<CellValue> = Vec::new();
    let mut parameter: usize = 0;
    let mut j: usize = 0;
    assert(values.subrange(0, 0) =~= Seq::<InputValue>::empty());
    assert(views(names@) =~= all_names.subrange(0, 0));
    assert(views(exprs@) =~= Seq::<Seq<char>>::empty());
    assert(cells_view(binds@) =~= Seq::<CellView>::empty());
    while j < idx.len()
        invariant
            idx@.len() == values.len(),
            values.len() < usize::MAX,
            values == insert.values@,
            forall|k: int| 0 <= k < idx@.len() ==> #[trigger] idx@[k] < columns@.len(),
            j <= idx@.len(),
            views(names@) == all_names.subrange(0, j as int),
            views(exprs@) == ms_insert_expressions(values.subrange(0, j as int)),
            cells_view(binds@) == input_binds(values.subrange(0, j as int)),
            parameter == input_binds(values.subrange(0, j as int)).len(),
        decreases idx@.len() - j,
    {
        let ghost prefix = values.subrange(0, j as int);
        assert(values.subrange(0, j + 1).drop_last() =~= prefix);
        assert(values.subrange(0, j + 1).last() == values[j as int]);
        proof {
            crate::postgres::lemma_input_binds_len(prefix);
        }
        names.push(quote_identifier(columns[idx[j]].0.as_str()));
        assert(views(names@) =~= all_names.subrange(0, j + 1));
        let ghost before_exprs = views(exprs@);
        let ghost before_binds = cells_view(binds@);
        match &insert.values[j] {
            InputValue::Default => {
                exprs.push(owned("DEFAULT"));
                assert(views(exprs@) =~= before_exprs.push("DEFAULT"@));
            },
            InputValue::Null => {
                parameter = parameter + 1;
                let mut e = owned("@P");
                push_decimal(&mut e, parameter as u64);
                exprs.push(e);
                assert(views(exprs@) =~= before_exprs.push(
                    "@P"@ + decimal(input_binds(prefix).len() + 1),
                ));
                binds.push(CellValue::Null);
                assert(cells_view(binds@) =~= before_binds.push(CellView::Null));
            },
            InputValue::Value(v) => {
                parameter = parameter + 1;
                let mut e = owned("@P");
                push_decimal(&mut e, parameter as u64);
                exprs.push(e);
                assert(views(exprs@) =~= before_exprs.push(
                    "@P"@ + decimal(input_binds(prefix).len() + 1),
                ));
                binds.push(v.clone());
                assert(cells_view(binds@) =~= before_binds.push(v@));
            },
        }
        j = j + 1;
    }
    assert(values.subrange(0, j as int) =~= values);
    assert(all_names.subrange(0, j as int) =~= all_names);
    let mut sql = owned("INSERT INTO ");
    push_str(&mut sql, table);
    if idx.len() == 0 {
        push_str(&mut sql, " DEFAULT VALUES OUTPUT inserted.*");
    } else {
        push_str(&mut sql, " (");
        let n = join_strings(&names, ", ");
        push_str(&mut sql, n.as_str());
        push_str(&mut sql, ") OUTPUT inserted.* VALUES (");
        let e = join_strings(&exprs, ", ");
        push_str(&mut sql, e.as_str());
        push_str(&mut sql, ")");
    }
    match check_ms_binds(&binds) {
        Ok(()) => Ok(BoundStatement { sql, binds }),
        Err(e) => Err(e),
    }
}

fn all_below_and_distinct(locator: &Vec<usize>, bound: usize) -> (r: (bool, bool))
    ensures
        r.0 == (locator@.len() == 0 || exists|p: int|
            0 <= p < locator@.len() && #[trigger] locator@[p] >= bound),
        r.1 == exists|p: int| 0 <= p < locator@.len() - 1 && #[trigger] locator@[p] == locator@[p
            + 1],
{
    let bad_range = locator.len() == 0 || crate::mssql::any_index_at_least(locator, bound);
    let mut dup = false;
    let mut p: usize = 0;
    while p < locator.len() && p + 1 < locator.len()
        invariant
            p <= locator@.len(),
            !dup,
            forall|k: int| 0 <= k < p && k + 1 < locator@.len() ==> #[trigger] locator@[k]
                != locator@[k + 1],
        decreases locator@.len() - p,
    {
        if locator[p] == locator[p + 1] {
            return (bad_range, true);
        }
        p = p + 1;
    }
    (bad_range, dup)
}

fn any_index_at_least(indexes: &Vec<usize>, bound: usize) -> (r: bool)
    ensures
        r == exists|i: int| 0 <= i < indexes@.len() && #[trigger] indexes@[i] >= bound,
{
    any_at_least(indexes, bound)
}

fn is_full_row(columns: &Vec<(String, String, bool)>, locator: &Vec<usize>) -> (r: bool)
    ensures
        r == full_row(columns@, locator@),
{
    if locator.len() != columns.len() {
        return false;
    }
    let mut p: usize = 0;
    while p < locator.len()
        invariant
            p <= locator@.len(),
            forall|k: int| 0 <= k < p ==> #[trigger] locator@[k] == k,
        decreases locator@.len() - p,
    {
        if locator[p] != p {
            return false;
        }
        p = p + 1;
    }
    true
}

fn is_non_null_locator(columns: &Vec<(String, String, bool)>, locator: &Vec<usize>) -> (r: bool)
    requires
        forall|p: int| 0 <= p < locator@.len() ==> #[trigger] locator@[p] < columns@.len(),
    ensures
        r == non_null_locator(columns@, locator@),
{
    let mut p: usize = 0;
    while p < locator.len()
        invariant
            p <= locator@.len(),
            forall|k: int| 0 <= k < locator@.len() ==> #[trigger] locator@[k] < columns@.len(),
            forall|k: int| 0 <= k < p ==> !columns@[#[trigger] locator@[k] as int].2,
        decreases locator@.len() - p,
    {
        if columns[locator[p]].2 {
            return false;
        }
        p = p + 1;
    }
    true
}

fn update_statement(
    table: &str,
    columns: &Vec<(String, String, bool)>,
    key: &Vec<String>,
    u: &UpdateCellMutation,
) -> (r: Result<BoundStatement, TransactionError>)
    requires
        2 * u.row.columns@.len() + 3 < usize::MAX,
    ensures
        step_view(r) == ms_update(table@, columns@, key@, *u),
{
    if u.column >= columns.len() {
        return Err(transaction_error("SQL Server update column is out of range"));
    }
    let locator = &u.row.columns;
    if locator.len() != u.row.values.len() {
        return Err(transaction_error("SQL Server row locator is malformed"));
    }
    let (bad_range, dup) = all_below_and_distinct(locator, columns.len());
    if bad_range {
        return Err(
            transaction_error(
                "SQL Server row locator must contain valid primary-key, non-null unique, or full-row columns",
            ),
        );
    }
    if dup {
        return Err(transaction_error("SQL Server row locator contains duplicate columns"));
    }
    let positions = match crate::postgres::key_positions(columns, key) {
        Some(ps) => ps,
        None => {
            return Err(transaction_error("SQL Server metadata primary-key column is missing"));
        },
    };
    let full = is_full_row(columns, locator);
    let is_key = crate::postgres::same_positions(locator, &positions);
    let non_null = is_non_null_locator(columns, locator);
    if !full && !is_key && !non_null {
        return Err(
            transaction_error(
                "SQL Server row locator must be the primary key, a non-null unique key, or the full row",
            ),
        );
    }
    if u.original.is_unsupported() {
        return Err(
            transaction_error("SQL Server cannot compare an unsupported original cell value"),
        );
    }
    let n = locator.len();
    let quoted = quote_identifier(columns[u.column].0.as_str());
    let is_default = match u.value {
        InputValue::Default => true,
        _ => false,
    };
    let d: usize = if is_default {
        1
    } else {
        2
    };
    let ghost dn: nat = if u.value is Default { 1 } else { 2 };
    let ghost expected = Seq::new(
        n as nat,
        |p: int| ms_null_safe(ms_identifier(columns@[locator@[p] as int].0@), (2 * p + dn) as nat),
    ).push(ms_null_safe(quoted@, 2 * (n as nat) + dn));
    let mut preds: Vec<String> = Vec::new();
    let mut p: usize = 0;
    while p < n
        invariant
            n == locator@.len(),
            2 * n + 3 < usize::MAX,
            d == dn,
            forall|k: int| 0 <= k < n ==> #[trigger] locator@[k] < columns@.len(),
            p <= n,
            views(preds@) == expected.subrange(0, p as int),
        decreases n - p,
    {
        let q = quote_identifier(columns[locator[p]].0.as_str());
        preds.push(mssql_null_safe_predicate(q.as_str(), 2 * p + d));
        assert(views(preds@) =~= expected.subrange(0, p + 1));
        p = p + 1;
    }
    let ghost before_last = views(preds@);
    let last = mssql_null_safe_predicate(quoted.as_str(), 2 * n + d);
    assert(last@ == expected[n as int]);
    preds.push(last);
    assert(views(preds@) =~= before_last.push(expected[n as int]));
    assert(views(preds@) =~= expected);
    let mut sql = owned("UPDATE ");
    push_str(&mut sql, table);
    push_str(&mut sql, " SET ");
    push_str(&mut sql, quoted.as_str());
    if is_default {
        push_str(&mut sql, " = DEFAULT");
    } else {
        push_str(&mut sql, " = @P1");
    }
    push_str(&mut sql, " OUTPUT inserted.* WHERE ");
    let body = join_strings(&preds, " AND ");
    push_str(&mut sql, body.as_str());
    assert(sql@ =~= "UPDATE "@ + table@ + " SET "@ + (quoted@ + (if u.value is Default {
        " = DEFAULT"@
    } else {
        " = @P1"@
    })) + " OUTPUT inserted.* WHERE "@ + join(expected, " AND "@));
    let mut binds: Vec<CellValue> = Vec::new();
    match &u.value {
        InputValue::Default => {},
        InputValue::Null => {
            binds.push(CellValue::Null);
        },
        InputValue::Value(c) => {
            binds.push(c.clone());
        },
    }
    assert(cells_view(binds@) =~= value_binds(u.value));
    push_doubled(&mut binds, &u.row.values);
    let ghost before = cells_view(binds@);
    binds.push(u.original.clone());
    binds.push(u.original.clone());
    assert(cells_view(binds@) =~= before.push(u.original@).push(u.original@));
    assert(cells_view(binds@) =~= value_binds(u.value) + doubled(cells_view(u.row.values@)) + seq![
        u.original@,
        u.original@,
    ]);
    match check_ms_binds(&binds) {
        Ok(()) => Ok(BoundStatement { sql, binds }),
        Err(e) => Err(e),
    }
}

/// The sizes a SQL Server row edit must stay under so that its parameter
/// numbers fit in `usize`.
pub open spec fn ms_plan_fits(fingerprint: MetadataFingerprint, operation: RelationMutation) -> bool {
    match operation {
        RelationMutation::DeleteRows(rows) => forall|i: int|
            0 <= i < rows@.len() ==> 2 * (#[trigger] rows@[i].row.columns@.len()
                + fingerprint.columns@.len()) + 2 < usize::MAX,
        RelationMutation::UpdateCell(u) => 2 * u.row.columns@.len() + 3 < usize::MAX,
        RelationMutation::InsertRow(insert) => insert.values@.len() < usize::MAX,
    }
}

/// The statements that carry out a row edit on a SQL Server relation: each
/// statement matches the row null-safely by its locator and by the values
/// read before, so an edit of a row changed since then touches no row.
pub fn plan_mssql_mutation(
    relation: &CatalogId,
    fingerprint: &MetadataFingerprint,
    operation: &RelationMutation,
    client_open: bool,
) -> (r: Result<MsSqlMutationPlan, TransactionError>)
    requires
        ms_plan_fits(*fingerprint, *operation),
    ensures
        ms_plan_view(r) == ms_mutation_plan(
            relation.native_path@,
            *fingerprint,
            *operation,
            client_open,
        ),
{
    let path = &relation.native_path;
    if path.len() != 4 {
        return Err(
            transaction_error(
                "SQL Server relation has no canonical database, schema, table, and object path",
            ),
        );
    }
    let columns = &fingerprint.columns;
    if columns.len() == 0 {
        return Err(transaction_error("SQL Server relation mutation has no relation columns"));
    }
    if !client_open {
        return Err(transaction_error("SQL Server transaction client is closed"));
    }
    let table = three_part(path[0].as_str(), path[1].as_str(), path[2].as_str());
    match operation {
        RelationMutation::DeleteRows(rows) => {
            let mut i: usize = 0;
            while i < rows.len()
                invariant
                    i <= rows@.len(),
                    forall|k: int|
                        0 <= k < i ==> !ms_delete_malformed(
                            #[trigger] rows@[k],
                            columns@.len() as usize,
                        ),
                decreases rows@.len() - i,
            {
                match validate_delete_mutation(&rows[i], columns.len()) {
                    Ok(()) => {},
                    Err(e) => {
                        return Err(e);
                    },
                }
                i = i + 1;
            }
            let ghost expected = rows@.map_values(
                |m: DeleteRowMutation| ms_delete_row(table@, columns@, m),
            );
            let mut statements: Vec<Result<BoundStatement, TransactionError>> = Vec::new();
            let mut k: usize = 0;
            while k < rows.len()
                invariant
                    k <= rows@.len(),
                    forall|m: int|
                        0 <= m < rows@.len() ==> !ms_delete_malformed(
                            #[trigger] rows@[m],
                            columns@.len() as usize,
                        ),
                    forall|m: int|
                        0 <= m < rows@.len() ==> 2 * (#[trigger] rows@[m].row.columns@.len()
                            + columns@.len()) + 2 < usize::MAX,
                    statements@.map_values(
                        |r: Result<BoundStatement, TransactionError>| step_view(r),
                    ) == expected.subrange(0, k as int),
                decreases rows@.len() - k,
            {
                assert(!ms_delete_malformed(rows@[k as int], columns@.len() as usize));
                let st = delete_statement(table.as_str(), columns, &rows[k]);
                statements.push(st);
                assert(statements@.map_values(
                    |r: Result<BoundStatement, TransactionError>| step_view(r),
                ) =~= expected.subrange(0, k + 1));
                k = k + 1;
            }
            assert(expected.subrange(0, k as int) =~= expected);
            Ok(MsSqlMutationPlan::Delete { statements })
        },
        RelationMutation::InsertRow(insert) => {
            match validate_insert_mutation(insert, columns.len()) {
                Ok(()) => {},
                Err(e) => {
                    return Err(e);
                },
            }
            match insert_statement(table.as_str(), columns, insert) {
                Ok(statement) => Ok(MsSqlMutationPlan::Insert { statement }),
                Err(e) => Err(e),
            }
        },
        RelationMutation::UpdateCell(u) => Ok(
            MsSqlMutationPlan::Update {
                statement: update_statement(
                    table.as_str(),
                    columns,
                    &fingerprint.primary_key,
                    u,
                ),
            },
        ),
    }
}

// ---------------------------------------------------------------------------
// Values and errors
// ---------------------------------------------------------------------------

/// `n` zeros.
pub open spec fn zeros(n: nat) -> Seq<char> {
    Seq::new(n, |i: int| '0')
}

/// A decimal with `scale` fractional digits whose digits, without the point,
/// are `coefficient`: the digits with a point before the last `scale` of
/// them, zero-padded to one integer digit.
pub open spec fn ms_numeric(coefficient: i128, scale: nat) -> Seq<char> {
    let negative = coefficient < 0;
    let magnitude: nat = if negative {
        (-coefficient) as nat
    } else {
        coefficient as nat
    };
    let digits = decimal(magnitude);
    let sign = if negative {
        seq!['-']
    } else {
        Seq::empty()
    };
    if scale == 0 {
        sign + digits
    } else if digits.len() <= scale {
        sign + "0."@ + zeros((scale - digits.len()) as nat) + digits
    } else {
        let split = digits.len() - scale;
        sign + digits.subrange(0, split) + seq!['.'] + digits.subrange(split, digits.len() as int)
    }
}

/// A SQL Server `numeric` written exactly, from its coefficient and scale.
pub fn format_numeric(coefficient: i128, scale: u8) -> (r: String)
    ensures
        r@ == ms_numeric(coefficient, scale as nat),
{
    let negative = coefficient < 0;
    let magnitude: u128 = if negative {
        if coefficient == i128::MIN {
            0x8000_0000_0000_0000_0000_0000_0000_0000u128
        } else {
            (-coefficient) as u128
        }
    } else {
        coefficient as u128
    };
    let mut digits = String::new();
    push_decimal_u128(&mut digits, magnitude);
    assert(digits@ =~= decimal(magnitude as nat));
    let mut out = String::new();
    if negative {
        crate::text::push_char(&mut out, '-');
    }
    let ghost sign = out@;
    assert(sign =~= (if negative {
        seq!['-']
    } else {
        Seq::<char>::empty()
    }));
    if scale == 0 {
        push_str(&mut out, digits.as_str());
        return out;
    }
    let cs = chars_of(digits.as_str());
    let n = cs.len();
    let sc = scale as usize;
    if n <= sc {
        push_str(&mut out, "0.");
        let mut k: usize = 0;
        let ghost base = out@;
        while k < sc - n
            invariant
                k <= sc - n,
                out@ == base + zeros(k as nat),
            decreases sc - n - k,
        {
            crate::text::push_char(&mut out, '0');
            assert(zeros((k + 1) as nat) =~= zeros(k as nat).push('0'));
            k = k + 1;
        }
        push_str(&mut out, digits.as_str());
        assert(out@ =~= sign + "0."@ + zeros((scale as nat - digits@.len()) as nat) + digits@);
        out
    } else {
        let split = n - sc;
        let head = sub_chars(&cs, 0, split);
        let tail = sub_chars(&cs, split, n);
        let hs = string_from_chars(head.as_slice());
        let ts = string_from_chars(tail.as_slice());
        push_str(&mut out, hs.as_str());
        crate::text::push_char(&mut out, '.');
        push_str(&mut out, ts.as_str());
        assert(out@ =~= sign + digits@.subrange(0, split as int) + seq!['.'] + digits@.subrange(
            split as int,
            digits@.len() as int,
        ));
        out
    }
}

/// Why a SQL Server edit failed, as the server's message suggests.
pub open spec fn ms_mutation_detail(message: Seq<char>) -> Seq<char> {
    let lowered = crate::text::ascii_lower(message);
    if crate::text::contains_seq(lowered, "identity"@) {
        "identity columns cannot be edited explicitly"@
    } else if crate::text::contains_seq(lowered, "computed"@) {
        "computed columns cannot be edited explicitly"@
    } else if crate::text::contains_seq(lowered, "timestamp"@) || crate::text::contains_seq(
        lowered,
        "rowversion"@,
    ) {
        "rowversion columns cannot be edited explicitly"@
    } else {
        "mutation failed"@
    }
}

/// The error of a failed SQL Server `operation`, from the server's message:
/// what kind of column refused the edit, then the message itself, made safe
/// for a terminal.
pub fn mssql_mutation_error(operation: &str, message: &str) -> (r: TransactionError)
    ensures
        r.0@ == crate::text::sanitized(
            "SQL Server "@ + operation@ + " relation mutation "@ + ms_mutation_detail(message@)
                + ": "@ + message@,
        ),
{
    let lowered = crate::text::to_ascii_lower(message);
    let l = lowered.as_str();
    let detail = if crate::text::contains_str(l, "identity") {
        "identity columns cannot be edited explicitly"
    } else if crate::text::contains_str(l, "computed") {
        "computed columns cannot be edited explicitly"
    } else if crate::text::contains_str(l, "timestamp") || crate::text::contains_str(
        l,
        "rowversion",
    ) {
        "rowversion columns cannot be edited explicitly"
    } else {
        "mutation failed"
    };
    let mut text = owned("SQL Server ");
    push_str(&mut text, operation);
    push_str(&mut text, " relation mutation ");
    push_str(&mut text, detail);
    push_str(&mut text, ": ");
    push_str(&mut text, message);
    assert(text@ =~= "SQL Server "@ + operation@ + " relation mutation "@ + ms_mutation_detail(
        message@,
    ) + ": "@ + message@);
    TransactionError(crate::text::sanitize_terminal_text(text.as_str()))
}

/// The most characters an unsupported cell's preview keeps.
pub const UNSUPPORTED_PREVIEW_LEN: usize = 64;

/// A preview of a value the workspace cannot show: made safe for a
/// terminal, then cut to its first `UNSUPPORTED_PREVIEW_LEN` characters.
pub open spec fn bounded_preview_spec(value: Seq<char>) -> Seq<char> {
    if crate::text::sanitized(value).len() > UNSUPPORTED_PREVIEW_LEN {
        crate::text::sanitized(value).take(UNSUPPORTED_PREVIEW_LEN as int)
    } else {
        crate::text::sanitized(value)
    }
}

/// A preview of a value the workspace cannot show.
pub fn bounded_preview(value: &str) -> (r: String)
    ensures
        r@ == bounded_preview_spec(value@),
{
    let safe = crate::text::sanitize_terminal_text(value);
    let cs = chars_of(safe.as_str());
    if cs.len() > UNSUPPORTED_PREVIEW_LEN {
        let head = sub_chars(&cs, 0, UNSUPPORTED_PREVIEW_LEN);
        assert(head@ =~= cs@.take(UNSUPPORTED_PREVIEW_LEN as int));
        string_from_chars(head.as_slice())
    } else {
        safe
    }
}

pub open spec fn ms_not_found(target: CatalogTarget, e: DatabaseError) -> bool {
    &&& e.category == ErrorCategory::Configuration
    &&& opt_view(e.code) == Some("catalog_target_not_found"@)
    &&& e.message@ == crate::text::sanitized(
        "SQL Server catalog target was not found: "@ + crate::page::target_description(target)@,
    )
    &&& e.diagnostic is None
}

/// The database a database target names.
pub fn database_name(id: &CatalogId, target: &CatalogTarget) -> (r: Result<String, DatabaseError>)
    ensures
        match r {
            Ok(d) => id.kind == CatalogKind::Database && id.native_path@.len() == 1
                && id.native_path@[0]@.len() > 0 && d@ == id.native_path@[0]@,
            Err(e) => !(id.kind == CatalogKind::Database && id.native_path@.len() == 1
                && id.native_path@[0]@.len() > 0) && ms_not_found(*target, e),
        },
{
    if id.kind != CatalogKind::Database || id.native_path.len() != 1 || is_empty_str(
        id.native_path[0].as_str(),
    ) {
        proof {
            reveal_strlit("SQL Server");
            reveal_strlit(" catalog target was not found: ");
            reveal_strlit("SQL Server catalog target was not found: ");
        }
        let e = crate::page::catalog_target_not_found("SQL Server", target);
        assert("SQL Server"@ + " catalog target was not found: "@ =~= "SQL Server catalog target was not found: "@);
        assert(e.message@ == crate::text::sanitized(
            "SQL Server catalog target was not found: "@ + crate::page::target_description(*target)@,
        ));
        return Err(e);
    }
    Ok(id.native_path[0].clone())
}

/// The database and schema a schema target names.
pub fn schema_names(id: &CatalogId, target: &CatalogTarget) -> (r: Result<(String, String), DatabaseError>)
    ensures
        match r {
            Ok((d, sc)) => id.kind == CatalogKind::Schema && id.native_path@.len() == 2
                && id.native_path@[0]@.len() > 0 && id.native_path@[1]@.len() > 0 && d@
                == id.native_path@[0]@ && sc@ == id.native_path@[1]@,
            Err(e) => !(id.kind == CatalogKind::Schema && id.native_path@.len() == 2
                && id.native_path@[0]@.len() > 0 && id.native_path@[1]@.len() > 0) && ms_not_found(
                *target,
                e,
            ),
        },
{
    if id.kind != CatalogKind::Schema || id.native_path.len() != 2 || is_empty_str(
        id.native_path[0].as_str(),
    ) || is_empty_str(id.native_path[1].as_str()) {
        proof {
            reveal_strlit("SQL Server");
            reveal_strlit(" catalog target was not found: ");
            reveal_strlit("SQL Server catalog target was not found: ");
        }
        let e = crate::page::catalog_target_not_found("SQL Server", target);
        assert("SQL Server"@ + " catalog target was not found: "@ =~= "SQL Server catalog target was not found: "@);
        assert(e.message@ == crate::text::sanitized(
            "SQL Server catalog target was not found: "@ + crate::page::target_description(*target)@,
        ));
        return Err(e);
    }
    Ok((id.native_path[0].clone(), id.native_path[1].clone()))
}

} // verus!
