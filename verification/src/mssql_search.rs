//! Catalog search on SQL Server: the candidates the search query returns,
//! how they rank, and the hits built from them.
use vstd::prelude::*;

use crate::catalog::{
    CatalogEntry, CatalogId, CatalogIdView, CatalogKind, CatalogMetadata, ColumnMetadata,
    ConstraintMetadata, IndexMetadata, OptionalMetadata, QualifiedName, QualifiedNameView,
};
use crate::catalog_error::{CatalogIssue, CatalogValidationError};
use crate::entry::{entry_issue, first_issue, object_kind_issue};
use crate::error::{internal_error, is_internal_error, DatabaseError};
use crate::mssql::ms_code;
use crate::page::str_lt;
use crate::page::str_less;
use crate::rules::relation_issue;
use crate::text::{
    ascii_lower, eq_ignore_ascii_case, eq_ignore_case, is_prefix, owned, push_str,
    signed_decimal, signed_decimal_string, starts_with, str_eq, to_ascii_lower, views,
};

verus! {

/// A search hit: the entry found and the entries above it, outermost first.
#[derive(Clone, Debug, PartialEq, Eq)]
pub struct CatalogSearchHit {
    pub entry: CatalogEntry,
    pub ancestors: Vec<CatalogEntry>,
}

/// How well a name matches a search: 0 when equal ignoring ASCII case, 1
/// when it starts with the query ignoring ASCII case, 2 otherwise.
pub open spec fn search_rank_spec(name: Seq<char>, query: Seq<char>) -> u8 {
    if eq_ignore_ascii_case(name, query) {
        0
    } else if is_prefix(ascii_lower(query), ascii_lower(name)) {
        1
    } else {
        2
    }
}

/// How well `name` matches the search `query`.
pub fn search_rank(name: &str, query: &str) -> (r: u8)
    ensures
        r == search_rank_spec(name@, query@),
{
    if eq_ignore_case(name, query) {
        0
    } else if starts_with(to_ascii_lower(name).as_str(), to_ascii_lower(query).as_str()) {
        1
    } else {
        2
    }
}

/// One object that a SQL Server search matched, before it becomes a hit.
#[derive(Debug, PartialEq, Eq)]
pub struct MsSqlSearchCandidate {
    pub kind: CatalogKind,
    pub database: String,
    pub schema: String,
    pub name: String,
    pub native_kind: String,
    pub relation_kind: CatalogKind,
    pub relation_name: String,
    pub relation_id: i32,
    pub object_id: i32,
    pub rank: u8,
    pub path: String,
}

/// The candidate for a database whose name holds the query.
pub fn mssql_database_candidate(database: &str, query: &str) -> (r: MsSqlSearchCandidate)
    ensures
        r.kind == CatalogKind::Database,
        r.database@ == database@,
        r.schema@.len() == 0,
        r.name@ == database@,
        r.native_kind@ == "database"@,
        r.relation_kind == CatalogKind::Table,
        r.relation_name@.len() == 0,
        r.relation_id == 0,
        r.object_id == 0,
        r.rank == search_rank_spec(database@, query@),
        r.path@ == database@,
{
    MsSqlSearchCandidate {
        kind: CatalogKind::Database,
        database: owned(database),
        schema: String::new(),
        name: owned(database),
        native_kind: owned("database"),
        relation_kind: CatalogKind::Table,
        relation_name: String::new(),
        relation_id: 0,
        object_id: 0,
        rank: search_rank(database, query),
        path: owned(database),
    }
}

/// One row of the SQL Server search query.
#[derive(Clone, Debug, PartialEq, Eq)]
pub struct MsSqlSearchRow {
    pub kind: String,
    pub schema: String,
    pub name: String,
    pub native_kind: String,
    pub relation_kind: String,
    pub relation_name: String,
    pub relation_id: Option<i32>,
    pub object_id: Option<i32>,
}

/// The catalog kind a search row names.
pub open spec fn ms_search_kind(kind: Seq<char>) -> Option<CatalogKind> {
    if kind == "schema"@ {
        Some(CatalogKind::Schema)
    } else if kind == "table"@ {
        Some(CatalogKind::Table)
    } else if kind == "view"@ {
        Some(CatalogKind::View)
    } else if kind == "function"@ {
        Some(CatalogKind::Function)
    } else if kind == "procedure"@ {
        Some(CatalogKind::Procedure)
    } else if kind == "sequence"@ {
        Some(CatalogKind::Sequence)
    } else if kind == "column"@ {
        Some(CatalogKind::Column)
    } else if kind == "index"@ {
        Some(CatalogKind::Index)
    } else if kind == "primary_key"@ {
        Some(CatalogKind::PrimaryKey)
    } else if kind == "unique_constraint"@ {
        Some(CatalogKind::UniqueConstraint)
    } else if kind == "foreign_key"@ {
        Some(CatalogKind::ForeignKey)
    } else if kind == "check_constraint"@ {
        Some(CatalogKind::CheckConstraint)
    } else if kind == "trigger"@ {
        Some(CatalogKind::Trigger)
    } else {
        None
    }
}

fn search_kind(kind: &str) -> (r: Option<CatalogKind>)
    ensures
        r == ms_search_kind(kind@),
{
    if str_eq(kind, "schema") {
        Some(CatalogKind::Schema)
    } else if str_eq(kind, "table") {
        Some(CatalogKind::Table)
    } else if str_eq(kind, "view") {
        Some(CatalogKind::View)
    } else if str_eq(kind, "function") {
        Some(CatalogKind::Function)
    } else if str_eq(kind, "procedure") {
        Some(CatalogKind::Procedure)
    } else if str_eq(kind, "sequence") {
        Some(CatalogKind::Sequence)
    } else if str_eq(kind, "column") {
        Some(CatalogKind::Column)
    } else if str_eq(kind, "index") {
        Some(CatalogKind::Index)
    } else if str_eq(kind, "primary_key") {
        Some(CatalogKind::PrimaryKey)
    } else if str_eq(kind, "unique_constraint") {
        Some(CatalogKind::UniqueConstraint)
    } else if str_eq(kind, "foreign_key") {
        Some(CatalogKind::ForeignKey)
    } else if str_eq(kind, "check_constraint") {
        Some(CatalogKind::CheckConstraint)
    } else if str_eq(kind, "trigger") {
        Some(CatalogKind::Trigger)
    } else {
        None
    }
}

/// The dotted path a candidate sorts by: database, schema and name.
pub open spec fn ms_candidate_path(database: Seq<char>, schema: Seq<char>, name: Seq<char>) -> Seq<
    char,
> {
    database + "."@ + schema + "."@ + name
}

/// The candidate for one search row of `database`; a row of a kind the
/// search does not know is refused.
pub fn mssql_search_candidate(row: MsSqlSearchRow, database: &str, query: &str) -> (r: Result<
    MsSqlSearchCandidate,
    DatabaseError,
>)
    ensures
        match ms_search_kind(row.kind@) {
            Some(kind) => r matches Ok(c) && {
                &&& c.kind == kind
                &&& c.database@ == database@
                &&& c.schema == row.schema
                &&& c.name == row.name
                &&& c.native_kind == row.native_kind
                &&& c.relation_kind == if row.relation_kind@ == "view"@ {
                    CatalogKind::View
                } else {
                    CatalogKind::Table
                }
                &&& c.relation_name == row.relation_name
                &&& c.relation_id == match row.relation_id {
                    Some(v) => v,
                    None => 0,
                }
                &&& c.object_id == match row.object_id {
                    Some(v) => v,
                    None => 0,
                }
                &&& c.rank == search_rank_spec(row.name@, query@)
                &&& c.path@ == ms_candidate_path(database@, row.schema@, row.name@)
            },
            None => r matches Err(e) && is_internal_error(
                e,
                ms_code(),
                "unsupported SQL Server search kind "@ + row.kind@,
            ),
        },
{
    let kind = match search_kind(row.kind.as_str()) {
        Some(k) => k,
        None => {
            let mut message = owned("unsupported SQL Server search kind ");
            push_str(&mut message, row.kind.as_str());
            return Err(internal_error("sql_server_decode", message.as_str()));
        },
    };
    let relation_kind = if str_eq(row.relation_kind.as_str(), "view") {
        CatalogKind::View
    } else {
        CatalogKind::Table
    };
    let rank = search_rank(row.name.as_str(), query);
    let mut path = owned(database);
    push_str(&mut path, ".");
    push_str(&mut path, row.schema.as_str());
    push_str(&mut path, ".");
    push_str(&mut path, row.name.as_str());
    let MsSqlSearchRow { schema, name, native_kind, relation_name, relation_id, object_id, .. } =
        row;
    Ok(
        MsSqlSearchCandidate {
            kind,
            database: owned(database),
            schema,
            name,
            native_kind,
            relation_kind,
            relation_name,
            relation_id: match relation_id {
                Some(v) => v,
                None => 0,
            },
            object_id: match object_id {
                Some(v) => v,
                None => 0,
            },
            rank,
            path,
        },
    )
}

/// The name of a kind as `Debug` prints it.
pub open spec fn kind_debug_name(kind: CatalogKind) -> Seq<char> {
    match kind {
        CatalogKind::Database => "Database"@,
        CatalogKind::Schema => "Schema"@,
        CatalogKind::Table => "Table"@,
        CatalogKind::View => "View"@,
        CatalogKind::MaterializedView => "MaterializedView"@,
        CatalogKind::Column => "Column"@,
        CatalogKind::Index => "Index"@,
        CatalogKind::PrimaryKey => "PrimaryKey"@,
        CatalogKind::UniqueConstraint => "UniqueConstraint"@,
        CatalogKind::ForeignKey => "ForeignKey"@,
        CatalogKind::CheckConstraint => "CheckConstraint"@,
        CatalogKind::Function => "Function"@,
        CatalogKind::Procedure => "Procedure"@,
        CatalogKind::Trigger => "Trigger"@,
        CatalogKind::Sequence => "Sequence"@,
        CatalogKind::Type => "Type"@,
    }
}

fn kind_debug(kind: CatalogKind) -> (r: &'static str)
    ensures
        r@ == kind_debug_name(kind),
{
    match kind {
        CatalogKind::Database => "Database",
        CatalogKind::Schema => "Schema",
        CatalogKind::Table => "Table",
        CatalogKind::View => "View",
        CatalogKind::MaterializedView => "MaterializedView",
        CatalogKind::Column => "Column",
        CatalogKind::Index => "Index",
        CatalogKind::PrimaryKey => "PrimaryKey",
        CatalogKind::UniqueConstraint => "UniqueConstraint",
        CatalogKind::ForeignKey => "ForeignKey",
        CatalogKind::CheckConstraint => "CheckConstraint",
        CatalogKind::Function => "Function",
        CatalogKind::Procedure => "Procedure",
        CatalogKind::Trigger => "Trigger",
        CatalogKind::Sequence => "Sequence",
        CatalogKind::Type => "Type",
    }
}

/// The order of SQL Server search candidates: by rank, then by path
/// ignoring ASCII case, then by path, then by kind name, then by object id.
pub open spec fn ms_candidate_lt(a: MsSqlSearchCandidate, b: MsSqlSearchCandidate) -> bool {
    let la = ascii_lower(a.path@);
    let lb = ascii_lower(b.path@);
    let ka = kind_debug_name(a.kind);
    let kb = kind_debug_name(b.kind);
    a.rank < b.rank || (a.rank == b.rank && (str_lt(la, lb) || (la == lb && (str_lt(a.path@, b.path@)
        || (a.path@ == b.path@ && (str_lt(ka, kb) || (ka == kb && a.object_id < b.object_id)))))))
}

fn candidate_less(a: &MsSqlSearchCandidate, b: &MsSqlSearchCandidate) -> (r: bool)
    ensures
        r == ms_candidate_lt(*a, *b),
{
    if a.rank != b.rank {
        return a.rank < b.rank;
    }
    let la = to_ascii_lower(a.path.as_str());
    let lb = to_ascii_lower(b.path.as_str());
    if str_less(la.as_str(), lb.as_str()) {
        return true;
    }
    if !str_eq(la.as_str(), lb.as_str()) {
        return false;
    }
    if str_less(a.path.as_str(), b.path.as_str()) {
        return true;
    }
    if !str_eq(a.path.as_str(), b.path.as_str()) {
        return false;
    }
    let ka = kind_debug(a.kind);
    let kb = kind_debug(b.kind);
    if str_less(ka, kb) {
        return true;
    }
    if !str_eq(ka, kb) {
        return false;
    }
    a.object_id < b.object_id
}

/// `s` with `x` placed after every candidate that does not sort after it.
pub open spec fn insert_candidate(s: Seq<MsSqlSearchCandidate>, x: MsSqlSearchCandidate) -> Seq<
    MsSqlSearchCandidate,
>
    decreases s.len(),
{
    if s.len() == 0 || !ms_candidate_lt(x, s.last()) {
        s.push(x)
    } else {
        insert_candidate(s.drop_last(), x).push(s.last())
    }
}

/// `s` stably sorted by `ms_candidate_lt`, as `sort_by` orders it.
pub open spec fn sorted_candidates(s: Seq<MsSqlSearchCandidate>) -> Seq<MsSqlSearchCandidate>
    decreases s.len(),
{
    if s.len() == 0 {
        Seq::empty()
    } else {
        insert_candidate(sorted_candidates(s.drop_last()), s.last())
    }
}

proof fn lemma_insert_candidate_at(s: Seq<MsSqlSearchCandidate>, x: MsSqlSearchCandidate, j: int)
    requires
        0 <= j <= s.len(),
        forall|k: int| j <= k < s.len() ==> ms_candidate_lt(x, #[trigger] s[k]),
        j == 0 || !ms_candidate_lt(x, s[j - 1]),
    ensures
        insert_candidate(s, x) == s.insert(j, x),
    decreases s.len(),
{
    if j == s.len() {
        assert(s.push(x) =~= s.insert(j, x));
    } else {
        let init = s.drop_last();
        assert forall|k: int| j <= k < init.len() implies ms_candidate_lt(x, #[trigger] init[k]) by {
            assert(init[k] == s[k]);
        }
        if j > 0 {
            assert(init[j - 1] == s[j - 1]);
        }
        assert(ms_candidate_lt(x, s[s.len() - 1]));
        lemma_insert_candidate_at(init, x, j);
        assert(init.insert(j, x).push(s.last()) =~= s.insert(j, x));
    }
}

proof fn lemma_insert_candidate_len(s: Seq<MsSqlSearchCandidate>, x: MsSqlSearchCandidate)
    ensures
        insert_candidate(s, x).len() == s.len() + 1,
    decreases s.len(),
{
    if s.len() > 0 && ms_candidate_lt(x, s.last()) {
        lemma_insert_candidate_len(s.drop_last(), x);
    }
}

proof fn lemma_sorted_candidates_len(s: Seq<MsSqlSearchCandidate>)
    ensures
        sorted_candidates(s).len() == s.len(),
    decreases s.len(),
{
    if s.len() > 0 {
        lemma_sorted_candidates_len(s.drop_last());
        lemma_insert_candidate_len(sorted_candidates(s.drop_last()), s.last());
    }
}

fn sort_candidates(v: Vec<MsSqlSearchCandidate>) -> (r: Vec<MsSqlSearchCandidate>)
    ensures
        r@ == sorted_candidates(v@),
{
    let ghost orig = v@;
    let n = v.len();
    let mut rest = v;
    let mut out: Vec<MsSqlSearchCandidate> = Vec::new();
    let mut consumed: usize = 0;
    while rest.len() > 0
        invariant
            consumed + rest@.len() == orig.len(),
            orig.len() == n,
            rest@ == orig.subrange(consumed as int, orig.len() as int),
            out@ == sorted_candidates(orig.subrange(0, consumed as int)),
        decreases rest@.len(),
    {
        let x = rest.remove(0);
        assert(x == orig[consumed as int]);
        assert(orig.subrange(0, consumed + 1).drop_last() =~= orig.subrange(0, consumed as int));
        let ghost before = out@;
        let mut j: usize = out.len();
        while j > 0 && candidate_less(&x, &out[j - 1])
            invariant
                j <= out@.len(),
                before == out@,
                forall|k: int| j <= k < out@.len() ==> ms_candidate_lt(x, #[trigger] before[k]),
            decreases j,
        {
            j = j - 1;
        }
        proof {
            lemma_insert_candidate_at(before, x, j as int);
        }
        out.insert(j, x);
        consumed = consumed + 1;
        assert(rest@ =~= orig.subrange(consumed as int, orig.len() as int));
    }
    assert(orig.subrange(0, consumed as int) =~= orig);
    out
}

/// The candidates a search page shows: sorted, cut to `limit`, and whether
/// any were cut.
pub fn rank_mssql_candidates(candidates: Vec<MsSqlSearchCandidate>, limit: usize) -> (r: (
    Vec<MsSqlSearchCandidate>,
    bool,
))
    ensures
        r.1 == (candidates@.len() > limit),
        r.0@ == if candidates@.len() > limit {
            sorted_candidates(candidates@).take(limit as int)
        } else {
            sorted_candidates(candidates@)
        },
{
    let n = candidates.len();
    let ghost all = candidates@;
    let mut sorted = sort_candidates(candidates);
    proof {
        lemma_sorted_candidates_len(all);
    }
    let truncated = n > limit;
    if truncated {
        sorted.truncate(limit);
        assert(sorted@ =~= sorted_candidates(all).take(limit as int));
    }
    (sorted, truncated)
}

/// Whether `e` is the database entry of a search hit in `database`.
pub open spec fn ms_database_entry(e: CatalogEntry, profile_id: u128, database: Seq<char>) -> bool {
    &&& e.kind == CatalogKind::Database
    &&& e.id@ == (CatalogIdView {
        connection_id: profile_id,
        kind: CatalogKind::Database,
        path: seq![database],
    })
    &&& e.parent_id is None
    &&& e.qualified_name@ == (QualifiedNameView {
        database: Some(database),
        schema: None,
        object: database,
    })
    &&& e.native_kind@ == "database"@
    &&& e.comment == OptionalMetadata::<String>::Supported(None)
    &&& e.metadata is NoMetadata
    &&& e.expandable
    &&& e.relation_id is None
}

/// Whether `e` is the schema entry of a search hit in `database`.
pub open spec fn ms_schema_entry(
    e: CatalogEntry,
    profile_id: u128,
    database: Seq<char>,
    schema: Seq<char>,
) -> bool {
    &&& e.kind == CatalogKind::Schema
    &&& e.id@ == (CatalogIdView {
        connection_id: profile_id,
        kind: CatalogKind::Schema,
        path: seq![database, schema],
    })
    &&& e.parent_id matches Some(p) && p@ == (CatalogIdView {
        connection_id: profile_id,
        kind: CatalogKind::Database,
        path: seq![database],
    })
    &&& e.qualified_name@ == (QualifiedNameView {
        database: Some(database),
        schema: Some(schema),
        object: schema,
    })
    &&& e.native_kind@ == "schema"@
    &&& e.comment == OptionalMetadata::<String>::Supported(None)
    &&& e.metadata is NoMetadata
    &&& e.expandable
    &&& e.relation_id is None
}

/// The identity of the relation that owns a candidate.
pub open spec fn ms_relation_id(profile_id: u128, c: MsSqlSearchCandidate) -> CatalogIdView {
    CatalogIdView {
        connection_id: profile_id,
        kind: c.relation_kind,
        path: seq![c.database@, c.schema@, c.relation_name@, signed_decimal(c.relation_id as int)],
    }
}

/// Whether `e` is the entry of the relation that owns a candidate.
pub open spec fn ms_relation_entry(e: CatalogEntry, profile_id: u128, c: MsSqlSearchCandidate) -> bool {
    &&& e.kind == c.relation_kind
    &&& e.id@ == ms_relation_id(profile_id, c)
    &&& e.parent_id matches Some(p) && p@ == (CatalogIdView {
        connection_id: profile_id,
        kind: CatalogKind::Schema,
        path: seq![c.database@, c.schema@],
    })
    &&& e.qualified_name@ == (QualifiedNameView {
        database: Some(c.database@),
        schema: Some(c.schema@),
        object: c.relation_name@,
    })
    &&& e.native_kind@ == "table"@
    &&& e.comment == OptionalMetadata::<String>::Supported(None)
    &&& e.metadata is NoMetadata
    &&& e.expandable
    &&& e.relation_id matches Some(rel) && rel@ == e.id@
}

/// Whether a candidate names a child of a relation: a column, index,
/// key, check constraint or trigger.
pub open spec fn ms_is_child(kind: CatalogKind) -> bool {
    kind.spec_is_relation_child()
}

/// The identity of a child candidate.
pub open spec fn ms_child_id(profile_id: u128, c: MsSqlSearchCandidate) -> CatalogIdView {
    CatalogIdView {
        connection_id: profile_id,
        kind: c.kind,
        path: seq![
            c.database@,
            c.schema@,
            c.relation_name@,
            signed_decimal(c.relation_id as int),
            signed_decimal(c.object_id as int),
        ],
    }
}

/// Whether `e` is the entry that stands for a child candidate whose
/// details were not loaded: its metadata says only what its kind is.
pub open spec fn ms_placeholder_child(e: CatalogEntry, profile_id: u128, c: MsSqlSearchCandidate) -> bool {
    &&& e.kind == c.kind
    &&& e.id@ == ms_child_id(profile_id, c)
    &&& e.parent_id matches Some(p) && p@ == ms_relation_id(profile_id, c)
    &&& e.relation_id matches Some(r) && r@ == ms_relation_id(profile_id, c)
    &&& e.qualified_name@ == (QualifiedNameView {
        database: Some(c.database@),
        schema: Some(c.schema@),
        object: c.name@,
    })
    &&& e.native_kind == c.native_kind
    &&& e.comment == OptionalMetadata::<String>::Supported(None)
    &&& !e.expandable
    &&& match c.kind {
        CatalogKind::Column => e.metadata matches CatalogMetadata::Column(m) && m.ordinal_position
            == 0 && m.native_type@ == "unknown"@ && !m.nullable && m.constraint_memberships@.len()
            == 0,
        CatalogKind::Index => e.metadata matches CatalogMetadata::Index(m) && m.columns@.len()
            == 0 && !m.unique,
        CatalogKind::PrimaryKey => e.metadata matches CatalogMetadata::Constraint(
            ConstraintMetadata::PrimaryKey { columns },
        ) && columns@.len() == 0,
        CatalogKind::UniqueConstraint => e.metadata matches CatalogMetadata::Constraint(
            ConstraintMetadata::Unique { columns },
        ) && columns@.len() == 0,
        CatalogKind::ForeignKey => e.metadata matches CatalogMetadata::Constraint(
            ConstraintMetadata::ForeignKey { columns, referenced_relation, referenced_columns },
        ) && columns@.len() == 0 && referenced_columns@.len() == 0 && referenced_relation@
            == (QualifiedNameView {
            database: Some(c.database@),
            schema: Some(c.schema@),
            object: c.relation_name@,
        }),
        CatalogKind::CheckConstraint => e.metadata matches CatalogMetadata::Constraint(
            ConstraintMetadata::Check { expression },
        ) && expression@.len() == 0,
        _ => e.metadata is NoMetadata,
    }
}

/// What is wrong with the hit for a candidate: an empty database, schema,
/// owning relation or object name, an owner that is no relation, or a kind
/// that no schema object has.
pub open spec fn ms_hit_issue(c: MsSqlSearchCandidate) -> Option<CatalogIssue> {
    let empty = Some(CatalogIssue::EmptyQualifiedObject);
    if c.database@.len() == 0 {
        empty
    } else if c.kind == CatalogKind::Database {
        None
    } else if c.schema@.len() == 0 {
        empty
    } else if c.kind == CatalogKind::Schema {
        None
    } else if relation_issue(c.relation_kind, "relation") is Some {
        relation_issue(c.relation_kind, "relation")
    } else if c.relation_name@.len() == 0 {
        empty
    } else if !ms_is_child(c.kind) && !c.kind.spec_is_relation() && object_kind_issue(c.kind) is Some {
        object_kind_issue(c.kind)
    } else if c.name@.len() == 0 {
        empty
    } else {
        None
    }
}

/// Whether `e` is the entry of a candidate that is a schema object.
pub open spec fn ms_object_entry(e: CatalogEntry, profile_id: u128, c: MsSqlSearchCandidate) -> bool {
    &&& e.kind == c.kind
    &&& e.id@ == (CatalogIdView {
        connection_id: profile_id,
        kind: c.kind,
        path: seq![c.database@, c.schema@, c.name@, signed_decimal(c.object_id as int)],
    })
    &&& e.parent_id matches Some(p) && p@ == (CatalogIdView {
        connection_id: profile_id,
        kind: CatalogKind::Schema,
        path: seq![c.database@, c.schema@],
    })
    &&& e.qualified_name@ == (QualifiedNameView {
        database: Some(c.database@),
        schema: Some(c.schema@),
        object: c.name@,
    })
    &&& e.native_kind == c.native_kind
    &&& e.comment == OptionalMetadata::<String>::Supported(None)
    &&& e.metadata is NoMetadata
    &&& e.expandable == c.kind.spec_is_relation()
    &&& if c.kind.spec_is_relation() {
        e.relation_id matches Some(rel) && rel@ == e.id@
    } else {
        e.relation_id is None
    }
}

/// Whether `hit` is the search hit of candidate `c`: the database, then the
/// schema, then for a child the owning relation, as ancestors; a child's
/// entry is the one loaded for it where there is one.
pub open spec fn ms_hit(
    hit: CatalogSearchHit,
    profile_id: u128,
    c: MsSqlSearchCandidate,
    child: Option<CatalogEntry>,
) -> bool {
    let a = hit.ancestors@;
    if c.kind == CatalogKind::Database {
        ms_database_entry(hit.entry, profile_id, c.database@) && a.len() == 0
    } else if c.kind == CatalogKind::Schema {
        &&& ms_schema_entry(hit.entry, profile_id, c.database@, c.schema@)
        &&& a.len() == 1
        &&& ms_database_entry(a[0], profile_id, c.database@)
    } else {
        &&& a.len() >= 2
        &&& ms_database_entry(a[0], profile_id, c.database@)
        &&& ms_schema_entry(a[1], profile_id, c.database@, c.schema@)
        &&& if ms_is_child(c.kind) {
            &&& a.len() == 3
            &&& ms_relation_entry(a[2], profile_id, c)
            &&& match child {
                Some(loaded) => hit.entry == loaded,
                None => ms_placeholder_child(hit.entry, profile_id, c),
            }
        } else {
            a.len() == 2 && ms_object_entry(hit.entry, profile_id, c)
        }
    }
}

fn qualified(database: &str, schema: Option<&str>, object: &str) -> (r: QualifiedName)
    ensures
        r@ == (QualifiedNameView {
            database: Some(database@),
            schema: match schema {
                Some(s) => Some(s@),
                None => None,
            },
            object: object@,
        }),
{
    QualifiedName {
        database: Some(owned(database)),
        schema: match schema {
            Some(s) => Some(owned(s)),
            None => None,
        },
        object: owned(object),
    }
}

fn id_of(profile_id: u128, kind: CatalogKind, parts: Vec<String>) -> (r: CatalogId)
    ensures
        r@ == (CatalogIdView { connection_id: profile_id, kind, path: views(parts@) }),
{
    CatalogId::new(profile_id, kind, parts)
}

fn placeholder_child(
    profile_id: u128,
    c: &MsSqlSearchCandidate,
    relation: CatalogId,
) -> (r: Result<CatalogEntry, CatalogValidationError>)
    requires
        ms_is_child(c.kind),
        relation@ == ms_relation_id(profile_id, *c),
        relation_issue(c.relation_kind, "relation") is None,
    ensures
        match r {
            Ok(e) => c.name@.len() > 0 && ms_placeholder_child(e, profile_id, *c),
            Err(err) => c.name@.len() == 0 && err@ == CatalogIssue::EmptyQualifiedObject,
        },
{
    let mut parts: Vec<String> = Vec::new();
    parts.push(c.database.clone());
    parts.push(c.schema.clone());
    parts.push(c.relation_name.clone());
    parts.push(signed_decimal_string(c.relation_id as i64));
    parts.push(signed_decimal_string(c.object_id as i64));
    assert(views(parts@) =~= ms_child_id(profile_id, *c).path);
    let id = id_of(profile_id, c.kind, parts);
    let metadata = match c.kind {
        CatalogKind::Column => CatalogMetadata::Column(
            ColumnMetadata::new(0, owned("unknown"), false),
        ),
        CatalogKind::Index => CatalogMetadata::Index(
            IndexMetadata { columns: Vec::new(), unique: false },
        ),
        CatalogKind::PrimaryKey => CatalogMetadata::Constraint(
            ConstraintMetadata::PrimaryKey { columns: Vec::new() },
        ),
        CatalogKind::UniqueConstraint => CatalogMetadata::Constraint(
            ConstraintMetadata::Unique { columns: Vec::new() },
        ),
        CatalogKind::ForeignKey => CatalogMetadata::Constraint(
            ConstraintMetadata::ForeignKey {
                columns: Vec::new(),
                referenced_relation: qualified(
                    c.database.as_str(),
                    Some(c.schema.as_str()),
                    c.relation_name.as_str(),
                ),
                referenced_columns: Vec::new(),
            },
        ),
        CatalogKind::CheckConstraint => CatalogMetadata::Constraint(
            ConstraintMetadata::Check { expression: String::new() },
        ),
        _ => CatalogMetadata::NoMetadata,
    };
    proof {
        reveal_strlit("unknown");
    }
    CatalogEntry::relation_child(
        id,
        relation,
        qualified(c.database.as_str(), Some(c.schema.as_str()), c.name.as_str()),
        c.native_kind.clone(),
        OptionalMetadata::Supported(None),
        metadata,
    )
}

/// The hit for a SQL Server search candidate. `child` is the entry loaded
/// for a child candidate, if the children query found it.
pub fn mssql_search_hit(
    profile_id: u128,
    candidate: MsSqlSearchCandidate,
    child: Option<CatalogEntry>,
) -> (r: Result<CatalogSearchHit, CatalogValidationError>)
    ensures
        match r {
            Ok(hit) => ms_hit_issue(candidate) is None && ms_hit(hit, profile_id, candidate, child),
            Err(e) => Some(e@) == ms_hit_issue(candidate),
        },
{
    let c = candidate;
    let mut database_path: Vec<String> = Vec::new();
    database_path.push(c.database.clone());
    assert(views(database_path@) =~= seq![c.database@]);
    let database = CatalogEntry::database(
        id_of(profile_id, CatalogKind::Database, database_path),
        qualified(c.database.as_str(), None, c.database.as_str()),
        owned("database"),
        OptionalMetadata::Supported(None),
        true,
    )?;
    if c.kind == CatalogKind::Database {
        return Ok(CatalogSearchHit { entry: database, ancestors: Vec::new() });
    }
    let mut schema_path: Vec<String> = Vec::new();
    schema_path.push(c.database.clone());
    schema_path.push(c.schema.clone());
    assert(views(schema_path@) =~= seq![c.database@, c.schema@]);
    let schema = CatalogEntry::schema(
        id_of(profile_id, CatalogKind::Schema, schema_path),
        database.id.clone(),
        qualified(c.database.as_str(), Some(c.schema.as_str()), c.schema.as_str()),
        owned("schema"),
        OptionalMetadata::Supported(None),
        true,
    )?;
    if c.kind == CatalogKind::Schema {
        let mut ancestors: Vec<CatalogEntry> = Vec::new();
        ancestors.push(database);
        return Ok(CatalogSearchHit { entry: schema, ancestors });
    }
    let mut relation_path: Vec<String> = Vec::new();
    relation_path.push(c.database.clone());
    relation_path.push(c.schema.clone());
    relation_path.push(c.relation_name.clone());
    relation_path.push(signed_decimal_string(c.relation_id as i64));
    assert(views(relation_path@) =~= ms_relation_id(profile_id, c).path);
    let relation = CatalogEntry::relation(
        id_of(profile_id, c.relation_kind, relation_path),
        schema.id.clone(),
        qualified(c.database.as_str(), Some(c.schema.as_str()), c.relation_name.as_str()),
        owned("table"),
        OptionalMetadata::Supported(None),
        true,
    )?;
    if c.kind.is_relation_child() {
        let fallback = placeholder_child(profile_id, &c, relation.id.clone())?;
        let entry = match child {
            Some(loaded) => loaded,
            None => fallback,
        };
        let mut ancestors: Vec<CatalogEntry> = Vec::new();
        ancestors.push(database);
        ancestors.push(schema);
        ancestors.push(relation);
        return Ok(CatalogSearchHit { entry, ancestors });
    }
    let mut object_path: Vec<String> = Vec::new();
    object_path.push(c.database.clone());
    object_path.push(c.schema.clone());
    object_path.push(c.name.clone());
    object_path.push(signed_decimal_string(c.object_id as i64));
    assert(views(object_path@) =~= seq![
        c.database@,
        c.schema@,
        c.name@,
        signed_decimal(c.object_id as int),
    ]);
    let id = id_of(profile_id, c.kind, object_path);
    let name = qualified(c.database.as_str(), Some(c.schema.as_str()), c.name.as_str());
    let entry = if c.kind.is_relation() {
        CatalogEntry::relation(
            id,
            schema.id.clone(),
            name,
            c.native_kind,
            OptionalMetadata::Supported(None),
            true,
        )?
    } else {
        CatalogEntry::object(
            id,
            schema.id.clone(),
            name,
            c.native_kind,
            OptionalMetadata::Supported(None),
            false,
        )?
    };
    let mut ancestors: Vec<CatalogEntry> = Vec::new();
    ancestors.push(database);
    ancestors.push(schema);
    Ok(CatalogSearchHit { entry, ancestors })
}

/// One row of the children that a SQL Server search loads for the
/// relations among its hits.
#[derive(Clone, Debug, PartialEq, Eq)]
pub struct MsSqlSearchChildRow {
    pub kind: String,
    pub relation_id: i32,
    pub relation_name: String,
    pub schema: String,
    pub identity: Option<i32>,
    pub name: String,
    pub ordinal: Option<i32>,
    pub data_type: Option<String>,
    pub is_nullable: Option<bool>,
    pub is_unique: Option<bool>,
}

/// The child kinds the search children query reports.
pub open spec fn ms_search_child_kind(kind: Seq<char>) -> Option<CatalogKind> {
    if kind == "column"@ {
        Some(CatalogKind::Column)
    } else if kind == "index"@ {
        Some(CatalogKind::Index)
    } else if kind == "primary_key"@ {
        Some(CatalogKind::PrimaryKey)
    } else if kind == "unique_constraint"@ {
        Some(CatalogKind::UniqueConstraint)
    } else if kind == "trigger"@ {
        Some(CatalogKind::Trigger)
    } else {
        None
    }
}

/// Whether `e` is the entry for a search children row of kind `kind` in
/// `database`; the owning relation is named as a table.
pub open spec fn ms_search_child(
    e: CatalogEntry,
    profile_id: u128,
    database: Seq<char>,
    row: MsSqlSearchChildRow,
    kind: CatalogKind,
) -> bool {
    let relation = CatalogIdView {
        connection_id: profile_id,
        kind: CatalogKind::Table,
        path: seq![database, row.schema@, row.relation_name@, signed_decimal(row.relation_id as int)],
    };
    let identity = match row.identity {
        Some(i) => i,
        None => 0,
    };
    &&& e.kind == kind
    &&& e.id@ == (CatalogIdView {
        connection_id: profile_id,
        kind,
        path: relation.path.push(signed_decimal(identity as int)),
    })
    &&& e.parent_id matches Some(p) && p@ == relation
    &&& e.relation_id matches Some(r) && r@ == relation
    &&& e.qualified_name@ == (QualifiedNameView {
        database: Some(database),
        schema: Some(row.schema@),
        object: row.name@,
    })
    &&& e.native_kind == row.kind
    &&& e.comment == OptionalMetadata::<String>::Supported(None)
    &&& !e.expandable
    &&& match kind {
        CatalogKind::Column => e.metadata matches CatalogMetadata::Column(m) && m.ordinal_position
            == (match row.ordinal {
            Some(o) => o,
            None => 0,
        }) as u32 && m.native_type@ == (match row.data_type {
            Some(t) => t@,
            None => "unknown"@,
        }) && m.nullable == (match row.is_nullable {
            Some(b) => b,
            None => false,
        }) && m.type_family is Unsupported && m.default_expression is Unsupported
            && m.constraint_memberships@.len() == 0,
        CatalogKind::Index => e.metadata matches CatalogMetadata::Index(m) && m.columns@.len()
            == 0 && m.unique == (match row.is_unique {
            Some(b) => b,
            None => false,
        }),
        CatalogKind::PrimaryKey => e.metadata matches CatalogMetadata::Constraint(
            ConstraintMetadata::PrimaryKey { columns },
        ) && columns@.len() == 0,
        CatalogKind::UniqueConstraint => e.metadata matches CatalogMetadata::Constraint(
            ConstraintMetadata::Unique { columns },
        ) && columns@.len() == 0,
        _ => e.metadata is NoMetadata,
    }
}

/// The entry for one row of the search children of `database`, or `None`
/// for a row of a kind the search does not show.
pub fn mssql_search_child(profile_id: u128, database: &str, row: MsSqlSearchChildRow) -> (r: Option<
    Result<CatalogEntry, CatalogValidationError>,
>)
    ensures
        match ms_search_child_kind(row.kind@) {
            None => r is None,
            Some(kind) => match r {
                Some(Ok(e)) => row.name@.len() > 0 && ms_search_child(e, profile_id, database@, row, kind),
                Some(Err(err)) => row.name@.len() == 0 && err@ == CatalogIssue::EmptyQualifiedObject,
                None => false,
            },
        },
{
    let kind = if str_eq(row.kind.as_str(), "column") {
        CatalogKind::Column
    } else if str_eq(row.kind.as_str(), "index") {
        CatalogKind::Index
    } else if str_eq(row.kind.as_str(), "primary_key") {
        CatalogKind::PrimaryKey
    } else if str_eq(row.kind.as_str(), "unique_constraint") {
        CatalogKind::UniqueConstraint
    } else if str_eq(row.kind.as_str(), "trigger") {
        CatalogKind::Trigger
    } else {
        return None;
    };
    let mut relation_path: Vec<String> = Vec::new();
    relation_path.push(owned(database));
    relation_path.push(row.schema.clone());
    relation_path.push(row.relation_name.clone());
    relation_path.push(signed_decimal_string(row.relation_id as i64));
    let identity: i32 = match row.identity {
        Some(i) => i,
        None => 0,
    };
    let mut child_path: Vec<String> = Vec::new();
    child_path.push(owned(database));
    child_path.push(row.schema.clone());
    child_path.push(row.relation_name.clone());
    child_path.push(signed_decimal_string(row.relation_id as i64));
    child_path.push(signed_decimal_string(identity as i64));
    assert(views(relation_path@) =~= seq![
        database@,
        row.schema@,
        row.relation_name@,
        signed_decimal(row.relation_id as int),
    ]);
    assert(views(child_path@) =~= views(relation_path@).push(signed_decimal(identity as int)));
    let relation = id_of(profile_id, CatalogKind::Table, relation_path);
    let id = id_of(profile_id, kind, child_path);
    let metadata = match kind {
        CatalogKind::Column => {
            let ordinal: i32 = match row.ordinal {
                Some(o) => o,
                None => 0,
            };
            let native = match &row.data_type {
                Some(t) => t.clone(),
                None => owned("unknown"),
            };
            let nullable = match row.is_nullable {
                Some(b) => b,
                None => false,
            };
            CatalogMetadata::Column(ColumnMetadata::new(ordinal as u32, native, nullable))
        },
        CatalogKind::Index => CatalogMetadata::Index(
            IndexMetadata {
                columns: Vec::new(),
                unique: match row.is_unique {
                    Some(b) => b,
                    None => false,
                },
            },
        ),
        CatalogKind::PrimaryKey => CatalogMetadata::Constraint(
            ConstraintMetadata::PrimaryKey { columns: Vec::new() },
        ),
        CatalogKind::UniqueConstraint => CatalogMetadata::Constraint(
            ConstraintMetadata::Unique { columns: Vec::new() },
        ),
        _ => CatalogMetadata::NoMetadata,
    };
    let name = qualified(database, Some(row.schema.as_str()), row.name.as_str());
    Some(
        CatalogEntry::relation_child(
            id,
            relation,
            name,
            row.kind,
            OptionalMetadata::Supported(None),
            metadata,
        ),
    )
}

} // verus!
