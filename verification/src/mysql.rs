//! MySQL dialect: quoting, version checks, catalog parts, DDL, row edits
//! and catalog drop planning.
use vstd::prelude::*;

use crate::catalog::{
    CatalogCapabilities, CatalogEntry, CatalogId, CatalogKind, ColumnMetadataCapabilities,
    DdlProvenance, NamespaceModel, ObjectGroup,
};
use crate::catalog_drop::{
    drop_issue_matches, drop_plan_outcome, unsupported, CatalogDropError, CatalogDropPlan,
    CatalogDropRequest, DropSqlIssue,
};
use crate::cursor::{find_char, index_of};
use crate::ddl::{assemble_ddl, ddl_script, sections_view, DdlSection};
use crate::error::{
    internal_error, is_internal_error, DatabaseError, ErrorCategory,
};
use crate::postgres::prefixed;
use crate::scope::{CatalogScope, CatalogSelection, DatabaseSelection};
use crate::sort::{sort_by_name, sorted_by_name};
use crate::text::{
    all_digits, ascii_lower, chars_of, contains_seq, contains_str, decimal, eq_ignore_ascii_case,
    eq_ignore_case, is_ascii_digit, is_empty_str, join, join_strings, opt_view, owned,
    parse_usize, parse_usize_spec, push_decimal, push_str, replace_char, replace_char_str,
    sanitize_terminal_text, sanitized, str_eq, string_from_chars, sub_chars, to_ascii_lower,
    trim, trim_str, unwrap_escaped, views, to_ascii_upper, ends_with, ascii_upper, is_suffix,
};
use crate::text::lemma_unwrap_escaped;

verus! {

/// The query that reads the server version and the current database; the
/// alias `current_database` avoids the reserved word `database`.
pub const PROBE_SQL: &'static str = "SELECT VERSION() AS version, DATABASE() AS current_database";

/// `value` between backticks, each backtick doubled.
pub open spec fn my_identifier(value: Seq<char>) -> Seq<char> {
    seq!['`'] + replace_char(value, '`', seq!['`', '`']) + seq!['`']
}

/// A MySQL identifier: backquoted, with backticks doubled.
pub fn quote_identifier(value: &str) -> (r: String)
    ensures
        r@ == my_identifier(value@),
{
    let mut two: Vec<char> = Vec::new();
    two.push('`');
    two.push('`');
    let rep = string_from_chars(two.as_slice());
    assert(rep@ =~= seq!['`', '`']);
    let body = replace_char_str(value, '`', rep.as_str());
    let mut one: Vec<char> = Vec::new();
    one.push('`');
    let mut out = string_from_chars(one.as_slice());
    assert(out@ =~= seq!['`']);
    push_str(&mut out, body.as_str());
    let close = string_from_chars(one.as_slice());
    push_str(&mut out, close.as_str());
    out
}

/// Backquoting can be undone: the text between the backticks, with doubled
/// backticks read as one, is the name; so two different names never quote
/// alike.
pub proof fn lemma_quote_identifier_roundtrip(a: Seq<char>, b: Seq<char>)
    ensures
        unwrap_escaped(my_identifier(a), 1, '`') == a,
        my_identifier(a) == my_identifier(b) <==> a == b,
{
    lemma_unwrap_escaped(seq!['`'], '`', '`', a, b);
}

/// The error code of MySQL catalog invariants.
pub open spec fn my_code() -> Seq<char> {
    "mysql_catalog_invariant"@
}

fn catalog_internal(message: &str) -> (r: DatabaseError)
    ensures
        is_internal_error(r, my_code(), message@),
{
    internal_error("mysql_catalog_invariant", message)
}

// ---------------------------------------------------------------------------
// Versions
// ---------------------------------------------------------------------------

/// The text before the first `c`, and what follows it, if `c` occurs.
pub open spec fn split_at_char(s: Seq<char>, c: char) -> (Seq<char>, Option<Seq<char>>) {
    let i = index_of(s, c);
    if i < 0 {
        (s, None)
    } else {
        (s.subrange(0, i), Some(s.subrange(i + 1, s.len() as int)))
    }
}

/// The leading run of ASCII digits of `s`.
pub open spec fn leading_digits(s: Seq<char>) -> Seq<char>
    decreases s.len(),
{
    if s.len() == 0 || !is_ascii_digit(s[0]) {
        Seq::empty()
    } else {
        seq![s[0]] + leading_digits(s.drop_first())
    }
}

/// `str::parse::<u32>`.
pub open spec fn parse_u32_spec(s: Seq<char>) -> Option<u32> {
    match parse_usize_spec(s) {
        Some(v) => if v <= u32::MAX {
            Some(v as u32)
        } else {
            None
        },
        None => None,
    }
}

/// `major.minor.patch...`: the first two parts as numbers and the leading
/// digits of the third.
pub open spec fn version_triplet(version: Seq<char>) -> Option<(u32, u32, u32)> {
    let (major, rest) = split_at_char(version, '.');
    match rest {
        None => None,
        Some(rest) => {
            let (minor, rest2) = split_at_char(rest, '.');
            match rest2 {
                None => None,
                Some(rest2) => {
                    let (patch, _) = split_at_char(rest2, '.');
                    match (parse_u32_spec(major), parse_u32_spec(minor), parse_u32_spec(
                        leading_digits(patch),
                    )) {
                        (Some(a), Some(b), Some(c)) => Some((a, b, c)),
                        _ => None,
                    }
                },
            }
        },
    }
}

fn parse_u32(cs: &Vec<char>) -> (r: Option<u32>)
    ensures
        r == parse_u32_spec(cs@),
{
    match parse_usize(cs.as_slice()) {
        Some(v) => if v as u64 <= 0xffff_ffffu64 {
            Some(v as u32)
        } else {
            None
        },
        None => None,
    }
}

fn split_first(cs: &Vec<char>, c: char) -> (r: (Vec<char>, Option<Vec<char>>))
    ensures
        r.0@ == split_at_char(cs@, c).0,
        match r.1 {
            Some(rest) => split_at_char(cs@, c).1 == Some(rest@),
            None => split_at_char(cs@, c).1 is None,
        },
{
    match find_char(cs, c) {
        Some(i) => {
            assert(i < cs.len());
            (sub_chars(cs, 0, i), Some(sub_chars(cs, i + 1, cs.len())))
        },
        None => (sub_chars(cs, 0, cs.len()), None),
    }
}

fn digits_prefix(cs: &Vec<char>) -> (r: Vec<char>)
    ensures
        r@ == leading_digits(cs@),
{
    let mut n: usize = 0;
    while n < cs.len() && cs[n] >= '0' && cs[n] <= '9'
        invariant
            n <= cs@.len(),
            forall|k: int| 0 <= k < n ==> is_ascii_digit(#[trigger] cs@[k]),
        decreases cs@.len() - n,
    {
        n = n + 1;
    }
    proof {
        lemma_leading_digits(cs@, n as int);
    }
    sub_chars(cs, 0, n)
}

proof fn lemma_leading_digits(s: Seq<char>, n: int)
    requires
        0 <= n <= s.len(),
        forall|k: int| 0 <= k < n ==> is_ascii_digit(#[trigger] s[k]),
        n == s.len() || !is_ascii_digit(s[n]),
    ensures
        leading_digits(s) == s.subrange(0, n),
    decreases n,
{
    if n == 0 {
        assert(s.subrange(0, 0) =~= Seq::<char>::empty());
    } else {
        let t = s.drop_first();
        assert forall|k: int| 0 <= k < n - 1 implies is_ascii_digit(#[trigger] t[k]) by {
            assert(t[k] == s[k + 1]);
        }
        if n < s.len() {
            assert(t[n - 1] == s[n]);
        }
        lemma_leading_digits(t, n - 1);
        assert(seq![s[0]] + t.subrange(0, n - 1) =~= s.subrange(0, n));
    }
}

/// The numeric major, minor and patch version of a server version string.
pub fn parse_version_triplet(version: &str) -> (r: Option<(u32, u32, u32)>)
    ensures
        r == version_triplet(version@),
{
    let cs = chars_of(version);
    let (major, rest) = split_first(&cs, '.');
    let rest = match rest {
        Some(r) => r,
        None => {
            return None;
        },
    };
    let (minor, rest2) = split_first(&rest, '.');
    let rest2 = match rest2 {
        Some(r) => r,
        None => {
            return None;
        },
    };
    let (patch, _) = split_first(&rest2, '.');
    let digits = digits_prefix(&patch);
    match (parse_u32(&major), parse_u32(&minor), parse_u32(&digits)) {
        (Some(a), Some(b), Some(c)) => Some((a, b, c)),
        _ => None,
    }
}

/// Lexicographic order of version triplets.
pub open spec fn triplet_at_least(v: (u32, u32, u32), w: (u32, u32, u32)) -> bool {
    v.0 > w.0 || (v.0 == w.0 && (v.1 > w.1 || (v.1 == w.1 && v.2 >= w.2)))
}

/// Whether the catalog pages support this server: Oracle MySQL 8.0.13 or
/// newer, and not MariaDB.
pub open spec fn my_supported_version(version: Seq<char>) -> bool {
    !contains_seq(ascii_lower(version), "mariadb"@) && match version_triplet(version) {
        Some(v) => triplet_at_least(v, (8, 0, 13)),
        None => false,
    }
}

/// Whether the catalog supports the server reporting `version`.
pub fn supports_catalog_version(version: &str) -> (r: bool)
    ensures
        r == my_supported_version(version@),
{
    let lowered = to_ascii_lower(version);
    if contains_str(lowered.as_str(), "mariadb") {
        return false;
    }
    match parse_version_triplet(version) {
        Some((a, b, c)) => a > 8 || (a == 8 && (b > 0 || (b == 0 && c >= 13))),
        None => false,
    }
}

/// Which servers the catalog supports: never MariaDB, nor a version string
/// without a numeric major, minor and patch; otherwise exactly those at or
/// above Oracle MySQL 8.0.13, compared part by part from the major version.
pub proof fn lemma_supported_versions(version: Seq<char>)
    ensures
        contains_seq(ascii_lower(version), "mariadb"@) ==> !my_supported_version(version),
        version_triplet(version) is None ==> !my_supported_version(version),
        !contains_seq(ascii_lower(version), "mariadb"@) && version_triplet(version) is Some ==> {
            let (major, minor, patch) = version_triplet(version)->Some_0;
            my_supported_version(version) <==> (major > 8 || (major == 8 && minor >= 1) || (major == 8
                && minor == 0 && patch >= 13))
        },
{
}

// ---------------------------------------------------------------------------
// Catalog helpers
// ---------------------------------------------------------------------------

/// The catalog kind a search result row names.
pub open spec fn my_search_kind(native: Seq<char>) -> Option<CatalogKind> {
    if native == "database"@ {
        Some(CatalogKind::Database)
    } else if native == "schema"@ {
        Some(CatalogKind::Schema)
    } else if native == "table"@ {
        Some(CatalogKind::Table)
    } else if native == "view"@ {
        Some(CatalogKind::View)
    } else if native == "function"@ {
        Some(CatalogKind::Function)
    } else if native == "procedure"@ {
        Some(CatalogKind::Procedure)
    } else if native == "trigger"@ {
        Some(CatalogKind::Trigger)
    } else if native == "column"@ {
        Some(CatalogKind::Column)
    } else if native == "index"@ {
        Some(CatalogKind::Index)
    } else if native == "primary_key"@ {
        Some(CatalogKind::PrimaryKey)
    } else if native == "unique_constraint"@ {
        Some(CatalogKind::UniqueConstraint)
    } else if native == "foreign_key"@ {
        Some(CatalogKind::ForeignKey)
    } else {
        None
    }
}

/// The catalog kind of a search result, limited to what MySQL catalogs hold.
pub fn search_catalog_kind(native_kind: &str) -> (r: Result<CatalogKind, DatabaseError>)
    ensures
        match r {
            Ok(k) => my_search_kind(native_kind@) == Some(k),
            Err(e) => my_search_kind(native_kind@) is None && is_internal_error(
                e,
                my_code(),
                "unexpected MySQL search catalog kind `"@ + native_kind@ + "`"@,
            ),
        },
{
    let n = native_kind;
    if str_eq(n, "database") {
        Ok(CatalogKind::Database)
    } else if str_eq(n, "schema") {
        Ok(CatalogKind::Schema)
    } else if str_eq(n, "table") {
        Ok(CatalogKind::Table)
    } else if str_eq(n, "view") {
        Ok(CatalogKind::View)
    } else if str_eq(n, "function") {
        Ok(CatalogKind::Function)
    } else if str_eq(n, "procedure") {
        Ok(CatalogKind::Procedure)
    } else if str_eq(n, "trigger") {
        Ok(CatalogKind::Trigger)
    } else if str_eq(n, "column") {
        Ok(CatalogKind::Column)
    } else if str_eq(n, "index") {
        Ok(CatalogKind::Index)
    } else if str_eq(n, "primary_key") {
        Ok(CatalogKind::PrimaryKey)
    } else if str_eq(n, "unique_constraint") {
        Ok(CatalogKind::UniqueConstraint)
    } else if str_eq(n, "foreign_key") {
        Ok(CatalogKind::ForeignKey)
    } else {
        let mut m = owned("unexpected MySQL search catalog kind `");
        push_str(&mut m, n);
        push_str(&mut m, "`");
        Err(catalog_internal(m.as_str()))
    }
}

pub open spec fn my_search_native_kind(kind: CatalogKind) -> &'static str {
    match kind {
        CatalogKind::Function => "function",
        CatalogKind::Procedure => "procedure",
        _ => "object",
    }
}

/// The native kind a search query uses for a top-level kind.
pub fn search_native_kind(kind: CatalogKind) -> (r: &'static str)
    ensures
        r == my_search_native_kind(kind),
{
    match kind {
        CatalogKind::Function => "function",
        CatalogKind::Procedure => "procedure",
        _ => "object",
    }
}

/// The relation kind of an `information_schema.TABLES.TABLE_TYPE`.
pub open spec fn my_relation_kind(table_type: Option<Seq<char>>) -> Option<CatalogKind> {
    match table_type {
        Some(t) => if t == "BASE TABLE"@ {
            Some(CatalogKind::Table)
        } else if t == "VIEW"@ {
            Some(CatalogKind::View)
        } else {
            None
        },
        None => None,
    }
}

/// The relation kind of a table type: base tables and views only.
pub fn relation_kind(table_type: Option<&str>) -> (r: Result<CatalogKind, DatabaseError>)
    ensures
        match r {
            Ok(k) => my_relation_kind(match table_type {
                Some(t) => Some(t@),
                None => None,
            }) == Some(k),
            Err(e) => my_relation_kind(match table_type {
                Some(t) => Some(t@),
                None => None,
            }) is None && is_internal_error(e, my_code(), "unexpected MySQL search relation type"@),
        },
{
    match table_type {
        Some(t) => {
            if str_eq(t, "BASE TABLE") {
                Ok(CatalogKind::Table)
            } else if str_eq(t, "VIEW") {
                Ok(CatalogKind::View)
            } else {
                Err(catalog_internal("unexpected MySQL search relation type"))
            }
        },
        None => Err(catalog_internal("unexpected MySQL search relation type")),
    }
}

/// A MySQL relation is addressed by exactly database, schema and name.
pub fn relation_path(relation: &CatalogId) -> (r: Option<(&str, &str, &str)>)
    ensures
        match r {
            Some((a, b, c)) => relation.native_path@.len() == 3 && a@ == relation.native_path@[0]@
                && b@ == relation.native_path@[1]@ && c@ == relation.native_path@[2]@,
            None => relation.native_path@.len() != 3,
        },
{
    let p = &relation.native_path;
    if p.len() == 3 {
        Some((p[0].as_str(), p[1].as_str(), p[2].as_str()))
    } else {
        None
    }
}

/// A selected database whose schemas are not `All`: MySQL mirrors each
/// database as its only schema.
pub open spec fn my_scope_issue(scope: CatalogScope) -> Option<Seq<char>> {
    match scope.databases {
        CatalogSelection::All => None,
        CatalogSelection::Selected(v) => if exists|i: int|
            0 <= i < v@.len() && !((#[trigger] v@[i]).schemas is All) {
            let i = choose|i: int|
                0 <= i < v@.len() && !((#[trigger] v@[i]).schemas is All) && forall|j: int|
                    0 <= j < i ==> (#[trigger] v@[j]).schemas is All;
            Some(v@[i].name@)
        } else {
            None
        },
    }
}

/// The scope must select every schema of each selected database.
pub fn validate_catalog_scope(scope: &CatalogScope) -> (r: Result<(), DatabaseError>)
    ensures
        match r {
            Ok(()) => my_scope_issue(*scope) is None,
            Err(e) => my_scope_issue(*scope) matches Some(name) && e.category
                == ErrorCategory::Configuration && opt_view(e.code) == Some(
                "invalid_catalog_request"@,
            ) && e.message@ == sanitized(
                "invalid MySQL catalog scope for database `"@ + name
                    + "`: mirrored schemas must use All"@,
            ) && e.diagnostic is None,
        },
{
    match &scope.databases {
        CatalogSelection::All => Ok(()),
        CatalogSelection::Selected(databases) => {
            let mut i: usize = 0;
            while i < databases.len()
                invariant
                    i <= databases@.len(),
                    forall|j: int| 0 <= j < i ==> (#[trigger] databases@[j]).schemas is All,
                decreases databases@.len() - i,
            {
                let is_all = match &databases[i].schemas {
                    CatalogSelection::All => true,
                    _ => false,
                };
                if !is_all {
                    proof {
                        let c = choose|c: int|
                            0 <= c < databases@.len() && !((#[trigger] databases@[c]).schemas is All)
                                && forall|j: int| 0 <= j < c ==> (#[trigger] databases@[j]).schemas is All;
                        assert(0 <= i < databases@.len() && !(databases@[i as int].schemas is All)
                            && forall|j: int| 0 <= j < i ==> (#[trigger] databases@[j]).schemas is All);
                        assert(c == i) by {
                            if c < i {
                                assert(databases@[c].schemas is All);
                            } else if c > i {
                                assert(databases@[i as int].schemas is All);
                            }
                        }
                    }
                    let mut m = owned("invalid MySQL catalog scope for database `");
                    push_str(&mut m, databases[i].name.as_str());
                    push_str(&mut m, "`: mirrored schemas must use All");
                    return Err(
                        DatabaseError {
                            category: ErrorCategory::Configuration,
                            code: Some(owned("invalid_catalog_request")),
                            message: sanitize_terminal_text(m.as_str()),
                            diagnostic: None,
                        },
                    );
                }
                i = i + 1;
            }
            Ok(())
        },
    }
}

/// How a name column is compared under `lower_case_table_names`.
pub open spec fn my_name_comparison(lower_case_table_names: i64, column: Seq<char>) -> Option<
    Seq<char>,
> {
    if lower_case_table_names == 0 {
        Some("BINARY "@ + column + "=BINARY ?"@)
    } else if lower_case_table_names == 1 || lower_case_table_names == 2 {
        Some("LOWER("@ + column + ")=LOWER(?)"@)
    } else {
        None
    }
}

/// The predicate comparing `column` to a parameter as the server compares
/// table names: exactly, or ignoring case.
pub fn canonical_name_comparison(lower_case_table_names: i64, column: &str) -> (r: Result<
    String,
    DatabaseError,
>)
    ensures
        match r {
            Ok(s) => my_name_comparison(lower_case_table_names, column@) == Some(s@),
            Err(e) => my_name_comparison(lower_case_table_names, column@) is None
                && is_internal_error(
                e,
                my_code(),
                "MySQL returned unsupported lower_case_table_names value "@ + (if lower_case_table_names
                    < 0 {
                    seq!['-'] + decimal((-lower_case_table_names) as nat)
                } else {
                    decimal(lower_case_table_names as nat)
                }),
            ),
        },
{
    if lower_case_table_names == 0 {
        let mut s = owned("BINARY ");
        push_str(&mut s, column);
        push_str(&mut s, "=BINARY ?");
        assert(s@ =~= "BINARY "@ + column@ + "=BINARY ?"@);
        Ok(s)
    } else if lower_case_table_names == 1 || lower_case_table_names == 2 {
        let mut s = owned("LOWER(");
        push_str(&mut s, column);
        push_str(&mut s, ")=LOWER(?)");
        assert(s@ =~= "LOWER("@ + column@ + ")=LOWER(?)"@);
        Ok(s)
    } else {
        let mut m = owned("MySQL returned unsupported lower_case_table_names value ");
        if lower_case_table_names < 0 {
            let mut minus: Vec<char> = Vec::new();
            minus.push('-');
            let ms = string_from_chars(minus.as_slice());
            assert(ms@ =~= seq!['-']);
            push_str(&mut m, ms.as_str());
            let magnitude: u64 = if lower_case_table_names == i64::MIN {
                0x8000_0000_0000_0000u64
            } else {
                (-lower_case_table_names) as u64
            };
            assert(magnitude as nat == (-lower_case_table_names) as nat);
            push_decimal(&mut m, magnitude);
            assert(m@ =~= "MySQL returned unsupported lower_case_table_names value "@ + (seq!['-']
                + decimal((-lower_case_table_names) as nat)));
        } else {
            push_decimal(&mut m, lower_case_table_names as u64);
        }
        Err(catalog_internal(m.as_str()))
    }
}

/// Whether two names are the same table name under `lower_case_table_names`.
pub open spec fn my_names_match(lower_case_table_names: i64, actual: Seq<char>, expected: Seq<char>) -> bool {
    if lower_case_table_names == 0 {
        actual == expected
    } else if lower_case_table_names == 1 || lower_case_table_names == 2 {
        eq_ignore_ascii_case(actual, expected)
    } else {
        false
    }
}

/// Whether `actual` names the table `expected` as the server compares names.
pub fn canonical_name_matches(lower_case_table_names: i64, actual: &str, expected: &str) -> (r: bool)
    ensures
        r == my_names_match(lower_case_table_names, actual@, expected@),
{
    if lower_case_table_names == 0 {
        str_eq(actual, expected)
    } else if lower_case_table_names == 1 || lower_case_table_names == 2 {
        eq_ignore_case(actual, expected)
    } else {
        false
    }
}

/// `count` parameters, separated by commas.
pub open spec fn my_placeholders(count: nat) -> Seq<char> {
    join(Seq::new(count, |i: int| "?"@), ","@)
}

/// A list of `count` parameters for an `IN (...)` clause.
pub fn placeholders(count: usize) -> (r: String)
    ensures
        r@ == my_placeholders(count as nat),
{
    let mut parts: Vec<String> = Vec::new();
    let mut i: usize = 0;
    while i < count
        invariant
            i <= count,
            views(parts@) == Seq::new(i as nat, |k: int| "?"@),
        decreases count - i,
    {
        let ghost before = parts@;
        let q = owned("?");
        parts.push(q);
        assert(parts@ == before.push(q));
        assert forall|k: int| 0 <= k < i + 1 implies #[trigger] views(parts@)[k] == "?"@ by {
            if k < i {
                assert(views(before)[k] == "?"@);
            }
        }
        assert(views(parts@) =~= Seq::new((i + 1) as nat, |k: int| "?"@));
        i = i + 1;
    }
    join_strings(&parts, ",")
}

pub open spec fn my_group_sort_key(group: ObjectGroup) -> &'static str {
    match group {
        ObjectGroup::Tables => "00:tables",
        ObjectGroup::Views => "01:views",
        ObjectGroup::Functions => "02:functions",
        ObjectGroup::Procedures => "03:procedures",
        ObjectGroup::Triggers => "04:triggers",
        ObjectGroup::MaterializedViews => "05:materialized_views",
        ObjectGroup::Sequences => "06:sequences",
        ObjectGroup::Types => "07:types",
    }
}

/// The key that orders MySQL group summaries.
pub fn group_sort_key(group: ObjectGroup) -> (r: &'static str)
    ensures
        r == my_group_sort_key(group),
{
    match group {
        ObjectGroup::Tables => "00:tables",
        ObjectGroup::Views => "01:views",
        ObjectGroup::Functions => "02:functions",
        ObjectGroup::Procedures => "03:procedures",
        ObjectGroup::Triggers => "04:triggers",
        ObjectGroup::MaterializedViews => "05:materialized_views",
        ObjectGroup::Sequences => "06:sequences",
        ObjectGroup::Types => "07:types",
    }
}

/// An empty text read from the catalog means no value.
pub fn empty_as_none(value: Option<String>) -> (r: Option<String>)
    ensures
        r == (match value {
            Some(v) => if v@.len() == 0 {
                None
            } else {
                Some(v)
            },
            None => None,
        }),
{
    match value {
        Some(v) => if is_empty_str(v.as_str()) {
            None
        } else {
            Some(v)
        },
        None => None,
    }
}

/// What the MySQL catalog shows: each database is its only schema.
pub fn mysql_catalog_capabilities() -> (r: CatalogCapabilities)
    ensures
        r.namespace_model == NamespaceModel::DatabaseIsSchema,
        r.top_level_groups@ == seq![
            ObjectGroup::Tables,
            ObjectGroup::Views,
            ObjectGroup::Functions,
            ObjectGroup::Procedures,
            ObjectGroup::Triggers,
        ],
        r.column_metadata == (ColumnMetadataCapabilities {
            type_family: true,
            default_expression: true,
            identity: false,
            auto_increment: true,
            generated_expression: true,
            hidden: false,
            numeric_precision_and_scale: true,
            character_length: true,
            collation: true,
            character_set: true,
            comment: true,
        }),
        r.supports_lazy_children,
{
    let groups = vec![
        ObjectGroup::Tables,
        ObjectGroup::Views,
        ObjectGroup::Functions,
        ObjectGroup::Procedures,
        ObjectGroup::Triggers,
    ];
    CatalogCapabilities {
        namespace_model: NamespaceModel::DatabaseIsSchema,
        top_level_groups: groups,
        column_metadata: ColumnMetadataCapabilities {
            type_family: true,
            default_expression: true,
            identity: false,
            auto_increment: true,
            generated_expression: true,
            hidden: false,
            numeric_precision_and_scale: true,
            character_length: true,
            collation: true,
            character_set: true,
            comment: true,
        },
        supports_lazy_children: true,
    }
}

// ---------------------------------------------------------------------------
// Relation DDL
// ---------------------------------------------------------------------------

pub open spec fn pair_seconds(s: Seq<(String, String)>) -> Seq<Seq<char>> {
    s.map_values(|p: (String, String)| p.1@)
}

/// The relation's DDL: the server's `SHOW CREATE` statement, then its
/// triggers by name; native when there are no triggers.
pub open spec fn my_relation_ddl(main_sql: Seq<char>, triggers: Seq<(String, String)>) -> Result<
    (Seq<char>, DdlProvenance),
    Seq<char>,
> {
    if trim(main_sql).len() == 0 {
        Err("MySQL relation has no SHOW CREATE statement"@)
    } else {
        let provenance = if triggers.len() == 0 {
            DdlProvenance::NativeCatalog
        } else {
            DdlProvenance::AdapterGenerated
        };
        let sections = seq![
            ("Object"@, seq![main_sql]),
            ("Triggers"@, pair_seconds(sorted_by_name(triggers))),
        ];
        match ddl_script(sections) {
            Some(s) => Ok((s, provenance)),
            None => Err("MySQL relation DDL assembly produced no statements"@),
        }
    }
}

/// The DDL of a relation from its `SHOW CREATE` statement and triggers.
pub fn assemble_relation_ddl(main_sql: String, triggers: Vec<(String, String)>) -> (r: Result<
    (String, DdlProvenance),
    DatabaseError,
>)
    ensures
        match r {
            Ok((s, p)) => my_relation_ddl(main_sql@, triggers@) == Ok::<
                (Seq<char>, DdlProvenance),
                Seq<char>,
            >((s@, p)),
            Err(e) => my_relation_ddl(main_sql@, triggers@) matches Err(m) && is_internal_error(
                e,
                my_code(),
                m,
            ),
        },
{
    if is_empty_str(trim_str(main_sql.as_str()).as_str()) {
        return Err(catalog_internal("MySQL relation has no SHOW CREATE statement"));
    }
    let sorted = sort_by_name(triggers);
    let provenance = if sorted.len() == 0 {
        DdlProvenance::NativeCatalog
    } else {
        DdlProvenance::AdapterGenerated
    };
    proof {
        crate::sort::lemma_sorted_by_name_elements(triggers@);
    }
    let ghost sorted_view = sorted@;
    let mut trigger_sql: Vec<String> = Vec::new();
    let mut i: usize = 0;
    while i < sorted.len()
        invariant
            sorted_view == sorted@,
            i <= sorted@.len(),
            views(trigger_sql@) == pair_seconds(sorted@).subrange(0, i as int),
        decreases sorted@.len() - i,
    {
        trigger_sql.push(sorted[i].1.clone());
        assert(views(trigger_sql@) =~= pair_seconds(sorted@).subrange(0, i + 1));
        i = i + 1;
    }
    assert(pair_seconds(sorted@).subrange(0, i as int) =~= pair_seconds(sorted@));
    let ghost main_view = main_sql@;
    let mut main_list: Vec<String> = Vec::new();
    main_list.push(main_sql);
    assert(views(main_list@) =~= seq![main_view]);
    let mut sections: Vec<DdlSection> = Vec::new();
    sections.push(DdlSection { label: "Object", statements: main_list });
    sections.push(DdlSection { label: "Triggers", statements: trigger_sql });
    assert(sections_view(sections@) =~= seq![
        ("Object"@, seq![main_view]),
        ("Triggers"@, pair_seconds(sorted_view)),
    ]);
    match assemble_ddl(sections) {
        Some(s) => Ok((s, provenance)),
        None => Err(catalog_internal("MySQL relation DDL assembly produced no statements")),
    }
}

// ---------------------------------------------------------------------------
// Drop planning
// ---------------------------------------------------------------------------

pub open spec fn my_unsupported(kind: CatalogKind, reason: Seq<char>) -> Result<Seq<char>, DropSqlIssue> {
    Err(DropSqlIssue::Unsupported(kind, reason))
}

/// The database name of an entry, when it has a non-empty one.
pub open spec fn my_database(entry: CatalogEntry) -> Option<Seq<char>> {
    match entry.qualified_name.database {
        Some(d) => if d@.len() > 0 {
            Some(d@)
        } else {
            None
        },
        None => None,
    }
}

/// The quoted database that a database or schema entry names.
pub open spec fn my_namespace_name(entry: CatalogEntry) -> Result<Seq<char>, DropSqlIssue> {
    let kind = entry.kind;
    let path = entry.id.native_path@;
    let expected: int = if kind == CatalogKind::Database {
        1
    } else if kind == CatalogKind::Schema {
        2
    } else {
        0
    };
    if expected == 0 || path.len() != expected {
        my_unsupported(kind, "catalog entry has an invalid MySQL namespace identity"@)
    } else {
        match my_database(entry) {
            None => my_unsupported(kind, "catalog entry has no MySQL database name"@),
            Some(db) => if path[0]@ != db || (kind == CatalogKind::Schema && (path[1]@ != db
                || opt_view(entry.qualified_name.schema) != Some(db))) {
                my_unsupported(kind, "catalog entry has an inconsistent MySQL namespace identity"@)
            } else {
                Ok(my_identifier(db))
            },
        }
    }
}

/// `database`.`object` for an entry whose path is database, database, object.
pub open spec fn my_schema_object_name(entry: CatalogEntry) -> Result<Seq<char>, DropSqlIssue> {
    let kind = entry.kind;
    let path = entry.id.native_path@;
    let object = entry.qualified_name.object@;
    match my_database(entry) {
        None => my_unsupported(kind, "catalog entry has no MySQL database name"@),
        Some(db) => if object.len() == 0 || path.len() < 3 || path[0]@ != db || path[1]@ != db
            || path[2]@ != object {
            my_unsupported(kind, "catalog entry has an inconsistent MySQL object identity"@)
        } else {
            Ok(my_identifier(db) + "."@ + my_identifier(object))
        },
    }
}

pub open spec fn my_relation_name(entry: CatalogEntry) -> Result<Seq<char>, DropSqlIssue> {
    if !entry.kind.spec_is_relation() || entry.id.native_path@.len() != 3 {
        my_unsupported(entry.kind, "catalog entry has an invalid MySQL relation identity"@)
    } else {
        my_schema_object_name(entry)
    }
}

/// `database`.`relation` of the relation that owns an entry.
pub open spec fn my_relation_owner(entry: CatalogEntry) -> Result<Seq<char>, DropSqlIssue> {
    let kind = entry.kind;
    match entry.relation_id {
        None => my_unsupported(kind, "catalog entry has no owning MySQL relation identity"@),
        Some(relation) => if !relation.kind.spec_is_relation() {
            my_unsupported(kind, "catalog entry has no owning MySQL relation identity"@)
        } else if relation.native_path@.len() != 3 {
            my_unsupported(kind, "catalog entry has an invalid owning MySQL relation identity"@)
        } else {
            let path = relation.native_path@;
            if path[0]@.len() == 0 || path[1]@ != path[0]@ || path[2]@.len() == 0 {
                my_unsupported(
                    kind,
                    "catalog entry has an incomplete owning MySQL relation identity"@,
                )
            } else {
                Ok(my_identifier(path[0]@) + "."@ + my_identifier(path[2]@))
            }
        },
    }
}

pub open spec fn my_trigger_name(entry: CatalogEntry) -> Result<Seq<char>, DropSqlIssue> {
    let kind = entry.kind;
    let path = entry.id.native_path@;
    let object = entry.qualified_name.object@;
    match my_relation_owner(entry) {
        Err(e) => Err(e),
        Ok(_) => match my_database(entry) {
            None => my_unsupported(kind, "catalog entry has no MySQL trigger database name"@),
            Some(db) => if path.len() != 3 || path[0]@ != db || path[1]@ != db || path[2]@
                != object {
                my_unsupported(kind, "catalog entry has an inconsistent MySQL trigger identity"@)
            } else {
                Ok(my_identifier(db) + "."@ + my_identifier(object))
            },
        },
    }
}

pub open spec fn my_routine_name(entry: CatalogEntry) -> Result<Seq<char>, DropSqlIssue> {
    let path = entry.id.native_path@;
    if path.len() != 4 || path[3]@.len() == 0 {
        my_unsupported(entry.kind, "catalog entry has no unambiguous MySQL routine identity"@)
    } else {
        my_schema_object_name(entry)
    }
}

/// The statement that drops an entry on MySQL, by its kind.
pub open spec fn my_drop_sql(entry: CatalogEntry) -> Result<Seq<char>, DropSqlIssue> {
    let object = my_identifier(entry.qualified_name.object@);
    match entry.kind {
        CatalogKind::Database | CatalogKind::Schema => prefixed(
            "DROP DATABASE "@,
            my_namespace_name(entry),
        ),
        CatalogKind::Table => prefixed("DROP TABLE "@, my_relation_name(entry)),
        CatalogKind::View => prefixed("DROP VIEW "@, my_relation_name(entry)),
        CatalogKind::Index | CatalogKind::UniqueConstraint => match my_relation_owner(entry) {
            Ok(o) => Ok("ALTER TABLE "@ + o + " DROP INDEX "@ + object),
            Err(e) => Err(e),
        },
        CatalogKind::PrimaryKey => match my_relation_owner(entry) {
            Ok(o) => Ok("ALTER TABLE "@ + o + " DROP PRIMARY KEY"@),
            Err(e) => Err(e),
        },
        CatalogKind::ForeignKey => match my_relation_owner(entry) {
            Ok(o) => Ok("ALTER TABLE "@ + o + " DROP FOREIGN KEY "@ + object),
            Err(e) => Err(e),
        },
        CatalogKind::Trigger => prefixed("DROP TRIGGER "@, my_trigger_name(entry)),
        CatalogKind::Function => prefixed("DROP FUNCTION "@, my_routine_name(entry)),
        CatalogKind::Procedure => prefixed("DROP PROCEDURE "@, my_routine_name(entry)),
        _ => my_unsupported(
            entry.kind,
            "MySQL catalog metadata does not provide an unambiguous drop target"@,
        ),
    }
}

fn database_of(entry: &CatalogEntry) -> (r: Option<&String>)
    ensures
        match r {
            Some(d) => my_database(*entry) == Some(d@),
            None => my_database(*entry) is None,
        },
{
    match &entry.qualified_name.database {
        Some(d) => if is_empty_str(d.as_str()) {
            None
        } else {
            Some(d)
        },
        None => None,
    }
}

fn dotted(a: &str, b: &str) -> (r: String)
    ensures
        r@ == my_identifier(a@) + "."@ + my_identifier(b@),
{
    let mut out = quote_identifier(a);
    push_str(&mut out, ".");
    let o = quote_identifier(b);
    push_str(&mut out, o.as_str());
    out
}

fn namespace_name(entry: &CatalogEntry) -> (r: Result<String, CatalogDropError>)
    ensures
        match r {
            Ok(s) => my_namespace_name(*entry) == Ok::<Seq<char>, DropSqlIssue>(s@),
            Err(e) => my_namespace_name(*entry) matches Err(i) && drop_issue_matches(e, i),
        },
{
    let kind = entry.kind;
    let expected: usize = match kind {
        CatalogKind::Database => 1,
        CatalogKind::Schema => 2,
        _ => 0,
    };
    let path = &entry.id.native_path;
    if expected == 0 || path.len() != expected {
        return Err(unsupported(kind, "catalog entry has an invalid MySQL namespace identity"));
    }
    let db = match database_of(entry) {
        Some(d) => d,
        None => {
            return Err(unsupported(kind, "catalog entry has no MySQL database name"));
        },
    };
    let inconsistent = !str_eq(path[0].as_str(), db.as_str()) || (kind == CatalogKind::Schema && (
    !str_eq(path[1].as_str(), db.as_str()) || match &entry.qualified_name.schema {
        Some(s) => !str_eq(s.as_str(), db.as_str()),
        None => true,
    }));
    if inconsistent {
        return Err(
            unsupported(kind, "catalog entry has an inconsistent MySQL namespace identity"),
        );
    }
    Ok(quote_identifier(db.as_str()))
}

fn schema_object_name(entry: &CatalogEntry) -> (r: Result<String, CatalogDropError>)
    ensures
        match r {
            Ok(s) => my_schema_object_name(*entry) == Ok::<Seq<char>, DropSqlIssue>(s@),
            Err(e) => my_schema_object_name(*entry) matches Err(i) && drop_issue_matches(e, i),
        },
{
    let kind = entry.kind;
    let db = match database_of(entry) {
        Some(d) => d,
        None => {
            return Err(unsupported(kind, "catalog entry has no MySQL database name"));
        },
    };
    let object = entry.qualified_name.object.as_str();
    let path = &entry.id.native_path;
    if is_empty_str(object) || path.len() < 3 || !str_eq(path[0].as_str(), db.as_str()) || !str_eq(
        path[1].as_str(),
        db.as_str(),
    ) || !str_eq(path[2].as_str(), object) {
        return Err(unsupported(kind, "catalog entry has an inconsistent MySQL object identity"));
    }
    Ok(dotted(db.as_str(), object))
}

fn relation_name(entry: &CatalogEntry) -> (r: Result<String, CatalogDropError>)
    ensures
        match r {
            Ok(s) => my_relation_name(*entry) == Ok::<Seq<char>, DropSqlIssue>(s@),
            Err(e) => my_relation_name(*entry) matches Err(i) && drop_issue_matches(e, i),
        },
{
    if !entry.kind.is_relation() || entry.id.native_path.len() != 3 {
        return Err(unsupported(entry.kind, "catalog entry has an invalid MySQL relation identity"));
    }
    schema_object_name(entry)
}

fn relation_owner(entry: &CatalogEntry) -> (r: Result<String, CatalogDropError>)
    ensures
        match r {
            Ok(s) => my_relation_owner(*entry) == Ok::<Seq<char>, DropSqlIssue>(s@),
            Err(e) => my_relation_owner(*entry) matches Err(i) && drop_issue_matches(e, i),
        },
{
    let kind = entry.kind;
    let relation = match &entry.relation_id {
        Some(r) => r,
        None => {
            return Err(unsupported(kind, "catalog entry has no owning MySQL relation identity"));
        },
    };
    if !relation.kind.is_relation() {
        return Err(unsupported(kind, "catalog entry has no owning MySQL relation identity"));
    }
    let path = &relation.native_path;
    if path.len() != 3 {
        return Err(
            unsupported(kind, "catalog entry has an invalid owning MySQL relation identity"),
        );
    }
    if is_empty_str(path[0].as_str()) || !str_eq(path[1].as_str(), path[0].as_str())
        || is_empty_str(path[2].as_str()) {
        return Err(
            unsupported(kind, "catalog entry has an incomplete owning MySQL relation identity"),
        );
    }
    Ok(dotted(path[0].as_str(), path[2].as_str()))
}

fn trigger_name(entry: &CatalogEntry) -> (r: Result<String, CatalogDropError>)
    ensures
        match r {
            Ok(s) => my_trigger_name(*entry) == Ok::<Seq<char>, DropSqlIssue>(s@),
            Err(e) => my_trigger_name(*entry) matches Err(i) && drop_issue_matches(e, i),
        },
{
    let kind = entry.kind;
    match relation_owner(entry) {
        Err(e) => {
            return Err(e);
        },
        Ok(_) => {},
    }
    let db = match database_of(entry) {
        Some(d) => d,
        None => {
            return Err(unsupported(kind, "catalog entry has no MySQL trigger database name"));
        },
    };
    let object = entry.qualified_name.object.as_str();
    let path = &entry.id.native_path;
    if path.len() != 3 || !str_eq(path[0].as_str(), db.as_str()) || !str_eq(
        path[1].as_str(),
        db.as_str(),
    ) || !str_eq(path[2].as_str(), object) {
        return Err(unsupported(kind, "catalog entry has an inconsistent MySQL trigger identity"));
    }
    Ok(dotted(db.as_str(), object))
}

fn routine_name(entry: &CatalogEntry) -> (r: Result<String, CatalogDropError>)
    ensures
        match r {
            Ok(s) => my_routine_name(*entry) == Ok::<Seq<char>, DropSqlIssue>(s@),
            Err(e) => my_routine_name(*entry) matches Err(i) && drop_issue_matches(e, i),
        },
{
    let path = &entry.id.native_path;
    if path.len() != 4 || is_empty_str(path[3].as_str()) {
        return Err(
            unsupported(entry.kind, "catalog entry has no unambiguous MySQL routine identity"),
        );
    }
    schema_object_name(entry)
}

fn prefix_name(prefix: &str, r: Result<String, CatalogDropError>) -> (out: Result<
    String,
    CatalogDropError,
>)
    ensures
        match r {
            Ok(s) => out matches Ok(t) && t@ == prefix@ + s@,
            Err(e) => out == Err::<String, CatalogDropError>(e),
        },
{
    match r {
        Ok(s) => {
            let mut t = owned(prefix);
            push_str(&mut t, s.as_str());
            Ok(t)
        },
        Err(e) => Err(e),
    }
}

fn alter_owner(entry: &CatalogEntry, middle: &str, object: bool) -> (r: Result<String, CatalogDropError>)
    ensures
        match my_relation_owner(*entry) {
            Ok(o) => r matches Ok(t) && t@ == "ALTER TABLE "@ + o + middle@ + (if object {
                my_identifier(entry.qualified_name.object@)
            } else {
                Seq::empty()
            }),
            Err(i) => r matches Err(e) && drop_issue_matches(e, i),
        },
{
    match relation_owner(entry) {
        Ok(o) => {
            let mut t = owned("ALTER TABLE ");
            push_str(&mut t, o.as_str());
            push_str(&mut t, middle);
            if object {
                let q = quote_identifier(entry.qualified_name.object.as_str());
                push_str(&mut t, q.as_str());
            }
            Ok(t)
        },
        Err(e) => Err(e),
    }
}

/// The statement that drops `entry` on MySQL, planned for `request`.
pub fn plan_mysql_catalog_drop(request: CatalogDropRequest, entry: &CatalogEntry) -> (r: Result<
    CatalogDropPlan,
    CatalogDropError,
>)
    ensures
        drop_plan_outcome(r, request, *entry, my_drop_sql(*entry)),
{
    let sql = match entry.kind {
        CatalogKind::Database | CatalogKind::Schema => prefix_name(
            "DROP DATABASE ",
            namespace_name(entry),
        ),
        CatalogKind::Table => prefix_name("DROP TABLE ", relation_name(entry)),
        CatalogKind::View => prefix_name("DROP VIEW ", relation_name(entry)),
        CatalogKind::Index | CatalogKind::UniqueConstraint => alter_owner(entry, " DROP INDEX ", true),
        CatalogKind::PrimaryKey => alter_owner(entry, " DROP PRIMARY KEY", false),
        CatalogKind::ForeignKey => alter_owner(entry, " DROP FOREIGN KEY ", true),
        CatalogKind::Trigger => prefix_name("DROP TRIGGER ", trigger_name(entry)),
        CatalogKind::Function => prefix_name("DROP FUNCTION ", routine_name(entry)),
        CatalogKind::Procedure => prefix_name("DROP PROCEDURE ", routine_name(entry)),
        _ => Err(
            unsupported(
                entry.kind,
                "MySQL catalog metadata does not provide an unambiguous drop target",
            ),
        ),
    };
    proof {
        let o = my_relation_owner(*entry);
        if o is Ok {
            assert(("ALTER TABLE "@ + o->Ok_0 + " DROP PRIMARY KEY"@ + Seq::<char>::empty()) =~= (
            "ALTER TABLE "@ + o->Ok_0 + " DROP PRIMARY KEY"@));
        }
    }
    match sql {
        Ok(sql) => CatalogDropPlan::new(request, entry, sql),
        Err(e) => Err(e),
    }
}

// ---------------------------------------------------------------------------
// Cell decoding
// ---------------------------------------------------------------------------

/// How a MySQL value of a given column type is read into a cell.
#[derive(Clone, Copy, Debug, PartialEq, Eq, Structural)]
pub enum MySqlDecode {
    Unsigned,
    Boolean,
    Integer,
    Float,
    Date,
    Time,
    DateTime,
    Bytes,
    Text,
    /// Read as text, else as bytes, else unsupported.
    Fallback,
}

/// The decoding of an upper-cased MySQL type name.
pub open spec fn my_decode(upper: Seq<char>) -> MySqlDecode {
    if is_suffix(" UNSIGNED"@, upper) || upper == "YEAR"@ || upper == "BIT"@ {
        MySqlDecode::Unsigned
    } else if upper == "BOOLEAN"@ {
        MySqlDecode::Boolean
    } else if upper == "TINYINT"@ || upper == "SMALLINT"@ || upper == "MEDIUMINT"@ || upper
        == "INT"@ || upper == "BIGINT"@ {
        MySqlDecode::Integer
    } else if upper == "FLOAT"@ || upper == "DOUBLE"@ {
        MySqlDecode::Float
    } else if upper == "DATE"@ {
        MySqlDecode::Date
    } else if upper == "TIME"@ {
        MySqlDecode::Time
    } else if upper == "DATETIME"@ || upper == "TIMESTAMP"@ {
        MySqlDecode::DateTime
    } else if upper == "BINARY"@ || upper == "VARBINARY"@ || upper == "TINYBLOB"@ || upper
        == "BLOB"@ || upper == "MEDIUMBLOB"@ || upper == "LONGBLOB"@ {
        MySqlDecode::Bytes
    } else if upper == "CHAR"@ || upper == "VARCHAR"@ || upper == "TINYTEXT"@ || upper == "TEXT"@
        || upper == "MEDIUMTEXT"@ || upper == "LONGTEXT"@ || upper == "ENUM"@ {
        MySqlDecode::Text
    } else {
        MySqlDecode::Fallback
    }
}

/// The upper-cased type name of a column, which unsupported cells report,
/// and how its non-null values are read.
pub fn mysql_decode_plan(column_type: &str) -> (r: (String, MySqlDecode))
    ensures
        r.0@ == ascii_upper(column_type@),
        r.1 == my_decode(ascii_upper(column_type@)),
{
    let upper = to_ascii_upper(column_type);
    let u = upper.as_str();
    let plan = if ends_with(u, " UNSIGNED") || str_eq(u, "YEAR") || str_eq(u, "BIT") {
        MySqlDecode::Unsigned
    } else if str_eq(u, "BOOLEAN") {
        MySqlDecode::Boolean
    } else if str_eq(u, "TINYINT") || str_eq(u, "SMALLINT") || str_eq(u, "MEDIUMINT") || str_eq(
        u,
        "INT",
    ) || str_eq(u, "BIGINT") {
        MySqlDecode::Integer
    } else if str_eq(u, "FLOAT") || str_eq(u, "DOUBLE") {
        MySqlDecode::Float
    } else if str_eq(u, "DATE") {
        MySqlDecode::Date
    } else if str_eq(u, "TIME") {
        MySqlDecode::Time
    } else if str_eq(u, "DATETIME") || str_eq(u, "TIMESTAMP") {
        MySqlDecode::DateTime
    } else if str_eq(u, "BINARY") || str_eq(u, "VARBINARY") || str_eq(u, "TINYBLOB") || str_eq(
        u,
        "BLOB",
    ) || str_eq(u, "MEDIUMBLOB") || str_eq(u, "LONGBLOB") {
        MySqlDecode::Bytes
    } else if str_eq(u, "CHAR") || str_eq(u, "VARCHAR") || str_eq(u, "TINYTEXT") || str_eq(
        u,
        "TEXT",
    ) || str_eq(u, "MEDIUMTEXT") || str_eq(u, "LONGTEXT") || str_eq(u, "ENUM") {
        MySqlDecode::Text
    } else {
        MySqlDecode::Fallback
    };
    (upper, plan)
}

/// The error for a server below the MySQL catalog contract (Oracle MySQL
/// 8.0.13), naming the version it reported.
pub fn unsupported_catalog_version(version: &str) -> (r: DatabaseError)
    ensures
        r.category == ErrorCategory::Unsupported,
        opt_view(r.code) == Some("mysql_catalog_version_unsupported"@),
        r.message@ == sanitized(
            "MySQL catalog pages require Oracle MySQL 8.0.13 or newer; server reported "@ + version@,
        ),
        r.diagnostic is None,
{
    let mut text = owned("MySQL catalog pages require Oracle MySQL 8.0.13 or newer; server reported ");
    push_str(&mut text, version);
    DatabaseError {
        category: ErrorCategory::Unsupported,
        code: Some(owned("mysql_catalog_version_unsupported")),
        message: sanitize_terminal_text(text.as_str()),
        diagnostic: None,
    }
}

} // verus!
