//! Catalog search on MySQL: the search statement, the candidates it
//! returns, and the hits built from them.
use vstd::prelude::*;

use crate::catalog::{
    CatalogEntry, CatalogId, CatalogIdView, CatalogKind, OptionalMetadata, QualifiedName,
    QualifiedNameView,
};
use crate::catalog_error::{CatalogIssue, CatalogValidationError};
use crate::error::{internal_error, is_internal_error, DatabaseError};
use crate::catalog::id_eq;
use crate::entry::{entry_issue, first_issue, object_kind_issue};
use crate::mssql_search::CatalogSearchHit;
use crate::mysql::{
    empty_as_none, my_code, my_placeholders, my_relation_kind, my_search_kind, my_search_native_kind,
    placeholders, relation_kind, search_catalog_kind, search_native_kind,
};
use crate::rules::relation_issue;
use crate::text::{clone_strings, str_eq};
use crate::text::{owned, parse_i64, parse_i64_spec, push_str, signed_decimal, signed_decimal_string, views};

verus! {

/// The search statement up to its scope predicate.
pub const SEARCH_SQL_HEAD: &'static str = r#"
WITH candidates AS (
    SELECT 'database' AS kind, schema_name AS database_name, schema_name AS object_name,
           NULL AS relation_name, NULL AS relation_type, schema_name AS native_identity,
           schema_name AS qualified_path, NULL AS comment
    FROM information_schema.schemata
    WHERE schema_name NOT IN ('information_schema','mysql','performance_schema','sys')
    UNION ALL
    SELECT 'schema', schema_name, schema_name, NULL, NULL, schema_name, schema_name, NULL
    FROM information_schema.schemata
    WHERE schema_name NOT IN ('information_schema','mysql','performance_schema','sys')
    UNION ALL
    SELECT IF(table_type='VIEW','view','table'), table_schema, table_name, table_name, table_type,
           table_name, CONCAT(table_schema,'.',table_name), table_comment
    FROM information_schema.tables WHERE table_type IN ('BASE TABLE','VIEW')
    UNION ALL
    SELECT LOWER(routine_type), routine_schema, routine_name, NULL, NULL, specific_name,
           CONCAT(routine_schema,'.',routine_name), routine_comment
    FROM information_schema.routines WHERE routine_type IN ('FUNCTION','PROCEDURE')
    UNION ALL
    SELECT 'trigger', tr.trigger_schema, tr.trigger_name, tr.event_object_table, t.table_type,
           tr.trigger_name, CONCAT(tr.trigger_schema,'.',tr.event_object_table,'.',tr.trigger_name), NULL
    FROM information_schema.triggers tr JOIN information_schema.tables t
      ON BINARY t.table_schema=BINARY tr.event_object_schema
     AND BINARY t.table_name=BINARY tr.event_object_table
     AND t.table_type IN ('BASE TABLE','VIEW')
    UNION ALL
    SELECT 'column', c.table_schema, c.column_name, c.table_name, t.table_type,
           CAST(c.ordinal_position AS CHAR), CONCAT(c.table_schema,'.',c.table_name,'.',c.column_name), NULL
    FROM information_schema.columns c JOIN information_schema.tables t
      ON BINARY t.table_schema=BINARY c.table_schema AND BINARY t.table_name=BINARY c.table_name
     AND t.table_type IN ('BASE TABLE','VIEW')
    UNION ALL
    SELECT 'index', s.table_schema, s.index_name, s.table_name, t.table_type, s.index_name,
           CONCAT(s.table_schema,'.',s.table_name,'.',s.index_name), NULL
    FROM information_schema.statistics s JOIN information_schema.tables t
      ON BINARY t.table_schema=BINARY s.table_schema AND BINARY t.table_name=BINARY s.table_name
     AND t.table_type IN ('BASE TABLE','VIEW')
    GROUP BY s.table_schema, s.table_name, s.index_name, t.table_type
    UNION ALL
    SELECT CASE constraint_type WHEN 'PRIMARY KEY' THEN 'primary_key'
               WHEN 'UNIQUE' THEN 'unique_constraint' ELSE 'foreign_key' END,
           tc.table_schema, tc.constraint_name, tc.table_name, t.table_type, tc.constraint_name,
           CONCAT(tc.table_schema,'.',tc.table_name,'.',tc.constraint_name), NULL
    FROM information_schema.table_constraints tc JOIN information_schema.tables t
      ON BINARY t.table_schema=BINARY tc.table_schema AND BINARY t.table_name=BINARY tc.table_name
     AND t.table_type IN ('BASE TABLE','VIEW')
    WHERE tc.constraint_type IN ('PRIMARY KEY','UNIQUE','FOREIGN KEY')
)
SELECT kind, database_name, object_name, relation_name, relation_type, native_identity, comment
FROM candidates
WHERE "#;

/// The search statement after its scope predicate. Its parameters are the
/// query five times: twice to match names and paths, three times to rank.
pub const SEARCH_SQL_TAIL: &'static str = r#"
  AND database_name NOT IN ('information_schema','mysql','performance_schema','sys')
  AND (LOCATE(LOWER(?), LOWER(object_name)) > 0
       OR LOCATE(LOWER(?), LOWER(qualified_path)) > 0)
ORDER BY CASE
    WHEN LOWER(object_name)=LOWER(?) THEN 0
    WHEN LOCATE(LOWER(?), LOWER(object_name))=1 THEN 1
    WHEN LOCATE(LOWER(?), LOWER(object_name))>0 THEN 2
    ELSE 3 END,
    LOWER(qualified_path), kind, BINARY native_identity
LIMIT 101
"#;

/// The predicate that keeps a search to the databases a scope selects:
/// any database when it selects all, none when it selects none.
pub open spec fn my_scope_predicate(selected: Option<Seq<Seq<char>>>) -> Seq<char> {
    match selected {
        None => "TRUE"@,
        Some(names) => if names.len() == 0 {
            "FALSE"@
        } else {
            "BINARY database_name IN ("@ + my_placeholders(names.len()) + ")"@
        },
    }
}

/// The search statement for the databases `selected` names (all where it is
/// `None`); the names are bound first, then the query five times.
pub fn mysql_search_sql(selected: &Option<Vec<&str>>) -> (r: String)
    ensures
        r@ == SEARCH_SQL_HEAD@ + my_scope_predicate(
            match selected {
                Some(v) => Some(v@.map_values(|n: &str| n@)),
                None => None,
            },
        ) + SEARCH_SQL_TAIL@,
{
    let mut sql = owned(SEARCH_SQL_HEAD);
    match selected {
        None => push_str(&mut sql, "TRUE"),
        Some(names) => {
            if names.len() == 0 {
                push_str(&mut sql, "FALSE");
            } else {
                push_str(&mut sql, "BINARY database_name IN (");
                let list = placeholders(names.len());
                push_str(&mut sql, list.as_str());
                push_str(&mut sql, ")");
            }
        },
    }
    push_str(&mut sql, SEARCH_SQL_TAIL);
    sql
}

/// What the server's `lower_case_table_names` setting reads as: its text is
/// an `i64` from 0 to 2.
pub open spec fn my_lower_case_setting(text: Seq<char>) -> Result<i64, Seq<char>> {
    match parse_i64_spec(text) {
        None => Err("MySQL returned an invalid lower_case_table_names value"@),
        Some(v) => if 0 <= v <= 2 {
            Ok(v)
        } else {
            Err("MySQL returned unsupported lower_case_table_names value "@ + signed_decimal(v as int))
        },
    }
}

/// Reads the server's `lower_case_table_names` setting from its text.
pub fn mysql_lower_case_table_names(text: &str) -> (r: Result<i64, DatabaseError>)
    ensures
        match my_lower_case_setting(text@) {
            Ok(v) => r == Ok::<i64, DatabaseError>(v),
            Err(msg) => r matches Err(e) && is_internal_error(e, my_code(), msg),
        },
{
    match parse_i64(text) {
        None => Err(internal_error(
            "mysql_catalog_invariant",
            "MySQL returned an invalid lower_case_table_names value",
        )),
        Some(v) => if 0 <= v && v <= 2 {
            Ok(v)
        } else {
            let mut message = owned("MySQL returned unsupported lower_case_table_names value ");
            let digits = signed_decimal_string(v);
            push_str(&mut message, digits.as_str());
            Err(internal_error("mysql_catalog_invariant", message.as_str()))
        },
    }
}

/// One object that a MySQL search matched, before it becomes a hit.
#[derive(Clone, Debug, PartialEq, Eq)]
pub struct MySqlSearchCandidate {
    pub kind: CatalogKind,
    pub database: String,
    pub name: String,
    pub relation_name: Option<String>,
    pub relation_type: Option<String>,
    pub native_identity: String,
    pub comment: Option<String>,
}

/// The path of a candidate's identity: the database, twice for all but a
/// database, then the name, then a routine's specific name.
pub open spec fn my_candidate_path(c: MySqlSearchCandidate) -> Seq<Seq<char>> {
    let base = match c.kind {
        CatalogKind::Database => seq![c.database@],
        CatalogKind::Schema => seq![c.database@, c.database@],
        _ => seq![c.database@, c.database@, c.name@],
    };
    if c.kind is Function || c.kind is Procedure {
        base.push(c.native_identity@)
    } else {
        base
    }
}

/// The identity a candidate names.
pub fn mysql_candidate_id(profile_id: u128, c: &MySqlSearchCandidate) -> (r: CatalogId)
    ensures
        r@ == (CatalogIdView { connection_id: profile_id, kind: c.kind, path: my_candidate_path(*c) }),
{
    let mut path: Vec<String> = Vec::new();
    path.push(c.database.clone());
    match c.kind {
        CatalogKind::Database => {},
        CatalogKind::Schema => {
            path.push(c.database.clone());
        },
        _ => {
            path.push(c.database.clone());
            path.push(c.name.clone());
        },
    }
    if matches!(c.kind, CatalogKind::Function | CatalogKind::Procedure) {
        path.push(c.native_identity.clone());
    }
    assert(views(path@) =~= my_candidate_path(*c));
    CatalogId::new(profile_id, c.kind, path)
}

/// Why a search hit could not be built: an entry that breaks the catalog's
/// rules, or a reply the library cannot use.
#[derive(Clone, Debug, PartialEq, Eq)]
pub enum SearchHitError {
    Invalid(CatalogValidationError),
    Database(DatabaseError),
}

/// A relation that search hits hang under, with the children loaded for it.
#[derive(Clone, Debug, PartialEq, Eq)]
pub struct MySqlHydratedRelation {
    pub entry: CatalogEntry,
    pub children: Option<Vec<CatalogEntry>>,
}

fn qualified(database: &str, schema: bool, object: &str) -> (r: QualifiedName)
    ensures
        r@ == (QualifiedNameView {
            database: Some(database@),
            schema: if schema {
                Some(database@)
            } else {
                None
            },
            object: object@,
        }),
{
    QualifiedName {
        database: Some(owned(database)),
        schema: if schema {
            Some(owned(database))
        } else {
            None
        },
        object: owned(object),
    }
}

/// Whether `e` is the database entry of a MySQL search hit.
pub open spec fn my_database_entry(e: CatalogEntry, profile_id: u128, database: Seq<char>) -> bool {
    &&& e.kind == CatalogKind::Database
    &&& e.id@ == (CatalogIdView {
        connection_id: profile_id,
        kind: CatalogKind::Database,
        path: seq![database],
    })
    &&& e.parent_id is None
    &&& e.qualified_name@ == (QualifiedNameView {
        database: Some(database),
        schema: None,
        object: database,
    })
    &&& e.native_kind@ == "database"@
    &&& e.comment is Unsupported
    &&& e.metadata is NoMetadata
    &&& e.expandable
    &&& e.relation_id is None
}

/// Whether `e` is the schema entry of a MySQL search hit: each database is
/// its only schema.
pub open spec fn my_schema_entry(e: CatalogEntry, profile_id: u128, database: Seq<char>) -> bool {
    &&& e.kind == CatalogKind::Schema
    &&& e.id@ == (CatalogIdView {
        connection_id: profile_id,
        kind: CatalogKind::Schema,
        path: seq![database, database],
    })
    &&& e.parent_id matches Some(p) && p@ == (CatalogIdView {
        connection_id: profile_id,
        kind: CatalogKind::Database,
        path: seq![database],
    })
    &&& e.qualified_name@ == (QualifiedNameView {
        database: Some(database),
        schema: Some(database),
        object: database,
    })
    &&& e.native_kind@ == "schema"@
    &&& e.comment is Unsupported
    &&& e.metadata is NoMetadata
    &&& e.expandable
    &&& e.relation_id is None
}

/// The database entry of a MySQL search hit.
pub fn mysql_search_database_entry(profile_id: u128, database: &str) -> (r: Result<
    CatalogEntry,
    CatalogValidationError,
>)
    ensures
        match r {
            Ok(e) => database@.len() > 0 && my_database_entry(e, profile_id, database@),
            Err(err) => database@.len() == 0 && err@ == CatalogIssue::EmptyQualifiedObject,
        },
{
    let mut path: Vec<String> = Vec::new();
    path.push(owned(database));
    assert(views(path@) =~= seq![database@]);
    CatalogEntry::database(
        CatalogId::new(profile_id, CatalogKind::Database, path),
        qualified(database, false, database),
        owned("database"),
        OptionalMetadata::Unsupported,
        true,
    )
}

/// The schema entry of a MySQL search hit.
pub fn mysql_search_schema_entry(profile_id: u128, database: &str) -> (r: Result<
    CatalogEntry,
    CatalogValidationError,
>)
    ensures
        match r {
            Ok(e) => database@.len() > 0 && my_schema_entry(e, profile_id, database@),
            Err(err) => database@.len() == 0 && err@ == CatalogIssue::EmptyQualifiedObject,
        },
{
    let mut path: Vec<String> = Vec::new();
    path.push(owned(database));
    path.push(owned(database));
    assert(views(path@) =~= seq![database@, database@]);
    let mut parent: Vec<String> = Vec::new();
    parent.push(owned(database));
    assert(views(parent@) =~= seq![database@]);
    CatalogEntry::schema(
        CatalogId::new(profile_id, CatalogKind::Schema, path),
        CatalogId::new(profile_id, CatalogKind::Database, parent),
        qualified(database, true, database),
        owned("schema"),
        OptionalMetadata::Unsupported,
        true,
    )
}

/// Whether `e` is the entry of the relation `name` of table type
/// `table_type` in `database`.
pub open spec fn my_relation_entry(
    e: CatalogEntry,
    profile_id: u128,
    database: Seq<char>,
    name: Seq<char>,
    kind: CatalogKind,
    native_kind: Seq<char>,
    comment: Option<String>,
) -> bool {
    &&& e.kind == kind
    &&& e.id@ == (CatalogIdView {
        connection_id: profile_id,
        kind,
        path: seq![database, database, name],
    })
    &&& e.parent_id matches Some(p) && p@ == (CatalogIdView {
        connection_id: profile_id,
        kind: CatalogKind::Schema,
        path: seq![database, database],
    })
    &&& e.qualified_name@ == (QualifiedNameView {
        database: Some(database),
        schema: Some(database),
        object: name,
    })
    &&& e.native_kind@ == native_kind
    &&& e.comment == OptionalMetadata::Supported(
        match comment {
            Some(c) => if c@.len() == 0 {
                None
            } else {
                Some(c)
            },
            None => None,
        },
    )
    &&& e.metadata is NoMetadata
    &&& e.expandable
    &&& e.relation_id matches Some(rel) && rel@ == e.id@
}

/// The entry of a relation that a MySQL search found or hangs a child
/// under; its table type decides its kind.
pub fn mysql_search_relation_entry(
    profile_id: u128,
    database: &str,
    name: &str,
    table_type: Option<&str>,
    comment: Option<String>,
) -> (r: Result<CatalogEntry, SearchHitError>)
    ensures
        match my_relation_kind(
            match table_type {
                Some(t) => Some(t@),
                None => None,
            },
        ) {
            None => r matches Err(SearchHitError::Database(e)) && is_internal_error(
                e,
                my_code(),
                "unexpected MySQL search relation type"@,
            ),
            Some(kind) => match r {
                Ok(e) => name@.len() > 0 && my_relation_entry(
                    e,
                    profile_id,
                    database@,
                    name@,
                    kind,
                    table_type.unwrap()@,
                    comment,
                ),
                Err(SearchHitError::Invalid(err)) => name@.len() == 0 && err@
                    == CatalogIssue::EmptyQualifiedObject,
                Err(SearchHitError::Database(_)) => false,
            },
        },
{
    let kind = match relation_kind(table_type) {
        Ok(k) => k,
        Err(e) => {
            return Err(SearchHitError::Database(e));
        },
    };
    let native = match table_type {
        Some(t) => owned(t),
        None => owned("BASE TABLE"),
    };
    let mut path: Vec<String> = Vec::new();
    path.push(owned(database));
    path.push(owned(database));
    path.push(owned(name));
    assert(views(path@) =~= seq![database@, database@, name@]);
    let mut parent: Vec<String> = Vec::new();
    parent.push(owned(database));
    parent.push(owned(database));
    assert(views(parent@) =~= seq![database@, database@]);
    match CatalogEntry::relation(
        CatalogId::new(profile_id, kind, path),
        CatalogId::new(profile_id, CatalogKind::Schema, parent),
        qualified(database, true, name),
        native,
        OptionalMetadata::Supported(empty_as_none(comment)),
        true,
    ) {
        Ok(e) => Ok(e),
        Err(e) => Err(SearchHitError::Invalid(e)),
    }
}

/// Whether `e` is the child of kind `kind` whose identity ends in `identity`.
pub open spec fn is_search_child(e: CatalogEntry, kind: CatalogKind, identity: Seq<char>) -> bool {
    e.kind == kind && e.id@.path.len() > 0 && e.id@.path.last() == identity
}

/// The position of the first child in `children` from `i` on that a search
/// candidate names.
pub open spec fn first_search_child(
    children: Seq<CatalogEntry>,
    kind: CatalogKind,
    identity: Seq<char>,
    i: int,
) -> Option<int>
    decreases children.len() - i,
{
    if i < 0 || i >= children.len() {
        None
    } else if is_search_child(children[i], kind, identity) {
        Some(i)
    } else {
        first_search_child(children, kind, identity, i + 1)
    }
}

fn take_search_child(children: Vec<CatalogEntry>, kind: CatalogKind, identity: &str) -> (r: Option<
    CatalogEntry,
>)
    ensures
        match first_search_child(children@, kind, identity@, 0) {
            Some(i) => r == Some(children@[i]),
            None => r is None,
        },
{
    let mut i: usize = 0;
    while i < children.len()
        invariant
            i <= children@.len(),
            first_search_child(children@, kind, identity@, 0) == first_search_child(
                children@,
                kind,
                identity@,
                i as int,
            ),
        decreases children@.len() - i,
    {
        let e = &children[i];
        let n = e.id.native_path.len();
        if e.kind == kind && n > 0 && str_eq(e.id.native_path[n - 1].as_str(), identity) {
            let mut rest = children;
            return Some(rest.swap_remove(i));
        }
        i = i + 1;
    }
    None
}

/// Whether `e` is the entry of a schema object that a MySQL search found
/// with no owning relation.
pub open spec fn my_object_entry(e: CatalogEntry, profile_id: u128, c: MySqlSearchCandidate) -> bool {
    &&& e.kind == c.kind
    &&& e.id@ == (CatalogIdView { connection_id: profile_id, kind: c.kind, path: my_candidate_path(c) })
    &&& e.parent_id matches Some(p) && p@ == (CatalogIdView {
        connection_id: profile_id,
        kind: CatalogKind::Schema,
        path: seq![c.database@, c.database@],
    })
    &&& e.qualified_name@ == (QualifiedNameView {
        database: Some(c.database@),
        schema: Some(c.database@),
        object: c.name@,
    })
    &&& e.native_kind@ == my_search_native_kind(c.kind)@
    &&& e.comment == OptionalMetadata::Supported(
        match c.comment {
            Some(t) => if t@.len() == 0 {
                None
            } else {
                Some(t)
            },
            None => None,
        },
    )
    &&& e.metadata is NoMetadata
    &&& !e.expandable
    &&& e.relation_id is None
}

/// Whether `e` is the entry of a trigger that a MySQL search found under
/// the relation `owner`.
pub open spec fn my_trigger_entry(
    e: CatalogEntry,
    profile_id: u128,
    c: MySqlSearchCandidate,
    owner: CatalogId,
) -> bool {
    &&& e.kind == CatalogKind::Trigger
    &&& e.id@ == (CatalogIdView { connection_id: profile_id, kind: c.kind, path: my_candidate_path(c) })
    &&& e.parent_id matches Some(p) && p@ == (CatalogIdView {
        connection_id: profile_id,
        kind: CatalogKind::Schema,
        path: seq![c.database@, c.database@],
    })
    &&& e.relation_id matches Some(rel) && rel@ == owner@
    &&& e.qualified_name@ == (QualifiedNameView {
        database: Some(c.database@),
        schema: Some(c.database@),
        object: c.name@,
    })
    &&& e.native_kind@ == "trigger"@
    &&& e.comment is Unsupported
    &&& e.metadata is NoMetadata
    &&& !e.expandable
}

fn invalid<T>(r: Result<T, CatalogValidationError>) -> (out: Result<T, SearchHitError>)
    ensures
        match r {
            Ok(v) => out == Ok::<T, SearchHitError>(v),
            Err(e) => out == Err::<T, SearchHitError>(SearchHitError::Invalid(e)),
        },
{
    match r {
        Ok(v) => Ok(v),
        Err(e) => Err(SearchHitError::Invalid(e)),
    }
}

fn hit_internal(message: &str) -> (r: SearchHitError)
    ensures
        r matches SearchHitError::Database(e) && is_internal_error(e, my_code(), message@),
{
    SearchHitError::Database(internal_error("mysql_catalog_invariant", message))
}

/// Whether `e` is an internal MySQL catalog error with `message`.
pub open spec fn is_hit_internal(e: SearchHitError, message: Seq<char>) -> bool {
    e matches SearchHitError::Database(d) && is_internal_error(d, my_code(), message)
}

/// The hit for a MySQL search candidate. `relation` is the relation of the
/// candidate's database named by its `relation_name`, as loaded for the
/// search, with its children where the search needs them.
pub fn mysql_search_hit(
    profile_id: u128,
    candidate: MySqlSearchCandidate,
    relation: Option<MySqlHydratedRelation>,
) -> (r: Result<CatalogSearchHit, SearchHitError>)
    ensures
        candidate.database@.len() == 0 ==> (r matches Err(SearchHitError::Invalid(e)) && e@
            == CatalogIssue::EmptyQualifiedObject),
        r matches Ok(hit) ==> {
            let a = hit.ancestors@;
            let c = candidate;
            if c.kind == CatalogKind::Database {
                my_database_entry(hit.entry, profile_id, c.database@) && a.len() == 0
            } else if c.kind == CatalogKind::Schema {
                &&& my_schema_entry(hit.entry, profile_id, c.database@)
                &&& a.len() == 1
                &&& my_database_entry(a[0], profile_id, c.database@)
            } else {
                &&& a.len() >= 2
                &&& my_database_entry(a[0], profile_id, c.database@)
                &&& my_schema_entry(a[1], profile_id, c.database@)
                &&& if c.kind.spec_is_relation() {
                    a.len() == 2 && my_relation_entry(
                        hit.entry,
                        profile_id,
                        c.database@,
                        c.name@,
                        my_relation_kind(opt_str_view(c.relation_type)).unwrap(),
                        c.relation_type.unwrap()@,
                        c.comment,
                    )
                } else if c.relation_name is Some {
                    relation matches Some(rel) && (if c.kind == CatalogKind::Trigger {
                        a.len() == 3 && a[2] == rel.entry && my_trigger_entry(
                            hit.entry,
                            profile_id,
                            c,
                            rel.entry.id,
                        )
                    } else if c.kind.spec_is_relation_child() {
                        &&& a.len() == 3
                        &&& a[2] == rel.entry
                        &&& rel.children matches Some(children) && (first_search_child(
                            children@,
                            c.kind,
                            c.native_identity@,
                            0,
                        ) matches Some(i) && hit.entry == children@[i])
                    } else {
                        a.len() == 2 && hit.entry == rel.entry
                    })
                } else {
                    a.len() == 2 && my_object_entry(hit.entry, profile_id, c)
                }
            }
        },
        r matches Err(e) ==> candidate.database@.len() == 0 || (candidate.kind
            != CatalogKind::Database && candidate.kind != CatalogKind::Schema && {
            let c = candidate;
            if c.kind.spec_is_relation() {
                my_relation_kind(opt_str_view(c.relation_type)) is None || c.name@.len() == 0
            } else if c.relation_name is Some {
                match relation {
                    None => is_hit_internal(e, "MySQL search relation was not hydrated"@),
                    Some(rel) => if c.kind == CatalogKind::Trigger {
                        relation_issue(rel.entry.id.kind, "owning relation") is Some
                            || rel.entry.id.connection_id != profile_id || c.name@.len() == 0
                    } else if c.kind.spec_is_relation_child() {
                        match rel.children {
                            None => is_hit_internal(e, "MySQL search child metadata was not loaded"@),
                            Some(children) => first_search_child(
                                children@,
                                c.kind,
                                c.native_identity@,
                                0,
                            ) is None && is_hit_internal(e, "MySQL search child was not hydrated"@),
                        }
                    } else {
                        false
                    },
                }
            } else {
                object_kind_issue(c.kind) is Some || c.name@.len() == 0
            }
        }),
{
    let c = candidate;
    let database = invalid(mysql_search_database_entry(profile_id, c.database.as_str()))?;
    if c.kind == CatalogKind::Database {
        return Ok(CatalogSearchHit { entry: database, ancestors: Vec::new() });
    }
    let schema = invalid(mysql_search_schema_entry(profile_id, c.database.as_str()))?;
    let schema_id = schema.id.clone();
    let mut ancestors: Vec<CatalogEntry> = Vec::new();
    ancestors.push(database);
    if c.kind == CatalogKind::Schema {
        return Ok(CatalogSearchHit { entry: schema, ancestors });
    }
    ancestors.push(schema);
    if c.kind.is_relation() {
        let table_type = match &c.relation_type {
            Some(t) => Some(t.as_str()),
            None => None,
        };
        let entry = mysql_search_relation_entry(
            profile_id,
            c.database.as_str(),
            c.name.as_str(),
            table_type,
            c.comment,
        )?;
        return Ok(CatalogSearchHit { entry, ancestors });
    }
    if c.relation_name.is_some() {
        let rel = match relation {
            Some(rel) => rel,
            None => {
                return Err(hit_internal("MySQL search relation was not hydrated"));
            },
        };
        if c.kind == CatalogKind::Trigger {
            let id = mysql_candidate_id(profile_id, &c);
            let owner = rel.entry.id.clone();
            let entry = invalid(
                CatalogEntry::relation_object(
                    id,
                    schema_id,
                    owner,
                    qualified(c.database.as_str(), true, c.name.as_str()),
                    owned("trigger"),
                    OptionalMetadata::Unsupported,
                ),
            )?;
            ancestors.push(rel.entry);
            return Ok(CatalogSearchHit { entry, ancestors });
        }
        if c.kind.is_relation_child() {
            let children = match rel.children {
                Some(children) => children,
                None => {
                    return Err(hit_internal("MySQL search child metadata was not loaded"));
                },
            };
            let entry = match take_search_child(children, c.kind, c.native_identity.as_str()) {
                Some(e) => e,
                None => {
                    return Err(hit_internal("MySQL search child was not hydrated"));
                },
            };
            ancestors.push(rel.entry);
            return Ok(CatalogSearchHit { entry, ancestors });
        }
        return Ok(CatalogSearchHit { entry: rel.entry, ancestors });
    }
    let id = mysql_candidate_id(profile_id, &c);
    let entry = invalid(
        CatalogEntry::object(
            id,
            schema_id,
            qualified(c.database.as_str(), true, c.name.as_str()),
            owned(search_native_kind(c.kind)),
            OptionalMetadata::Supported(empty_as_none(c.comment)),
            false,
        ),
    )?;
    Ok(CatalogSearchHit { entry, ancestors })
}

/// The view of an optional string.
pub open spec fn opt_str_view(o: Option<String>) -> Option<Seq<char>> {
    match o {
        Some(s) => Some(s@),
        None => None,
    }
}

/// `s` with each run of hits on the same entry cut to its first hit, as
/// `dedup_by` on the entries' identities leaves it.
pub open spec fn dedup_hits(s: Seq<CatalogSearchHit>) -> Seq<CatalogSearchHit>
    decreases s.len(),
{
    if s.len() == 0 {
        Seq::empty()
    } else {
        let d = dedup_hits(s.drop_last());
        if d.len() > 0 && d.last().entry.id@ == s.last().entry.id@ {
            d
        } else {
            d.push(s.last())
        }
    }
}

/// Whether no two neighbouring hits are on the same entry.
pub open spec fn no_adjacent_repeats(s: Seq<CatalogSearchHit>) -> bool {
    forall|i: int| 0 <= i < s.len() - 1 ==> (#[trigger] s[i]).entry.id@ != s[i + 1].entry.id@
}

/// Repeats removed by `dedup_hits` leave no neighbouring hits on one entry.
pub proof fn lemma_dedup_hits_no_adjacent_repeats(s: Seq<CatalogSearchHit>)
    ensures
        no_adjacent_repeats(dedup_hits(s)),
        dedup_hits(s).len() <= s.len(),
    decreases s.len(),
{
    if s.len() > 0 {
        lemma_dedup_hits_no_adjacent_repeats(s.drop_last());
        let d = dedup_hits(s.drop_last());
        if !(d.len() > 0 && d.last().entry.id@ == s.last().entry.id@) {
            let e = d.push(s.last());
            assert forall|i: int| 0 <= i < e.len() - 1 implies (#[trigger] e[i]).entry.id@ != e[i
                + 1].entry.id@ by {
                if i < d.len() - 1 {
                    assert(e[i] == d[i] && e[i + 1] == d[i + 1]);
                } else {
                    assert(e[i] == d.last());
                }
            }
        }
    }
}

/// The hits of a MySQL search page: repeats of one entry dropped, then cut
/// to `limit`, and whether any were cut.
pub fn mysql_finish_hits(hits: Vec<CatalogSearchHit>, limit: usize) -> (r: (
    Vec<CatalogSearchHit>,
    bool,
))
    ensures
        r.1 == (dedup_hits(hits@).len() > limit),
        r.0@ == if dedup_hits(hits@).len() > limit {
            dedup_hits(hits@).take(limit as int)
        } else {
            dedup_hits(hits@)
        },
        no_adjacent_repeats(r.0@),
        r.0@.len() <= limit,
{
    let ghost all = hits@;
    let total = hits.len();
    let mut rest = hits;
    let mut out: Vec<CatalogSearchHit> = Vec::new();
    let mut consumed: usize = 0;
    while rest.len() > 0
        invariant
            all.len() == total,
            consumed + rest@.len() == all.len(),
            rest@ == all.subrange(consumed as int, all.len() as int),
            out@ == dedup_hits(all.subrange(0, consumed as int)),
        decreases rest@.len(),
    {
        let x = rest.remove(0);
        assert(x == all[consumed as int]);
        assert(all.subrange(0, consumed + 1).drop_last() =~= all.subrange(0, consumed as int));
        let n = out.len();
        let repeat = n > 0 && id_eq(&out[n - 1].entry.id, &x.entry.id);
        if !repeat {
            out.push(x);
        }
        consumed = consumed + 1;
        assert(rest@ =~= all.subrange(consumed as int, all.len() as int));
    }
    assert(all.subrange(0, consumed as int) =~= all);
    proof {
        lemma_dedup_hits_no_adjacent_repeats(all);
    }
    let truncated = out.len() > limit;
    if truncated {
        out.truncate(limit);
        assert(out@ =~= dedup_hits(all).take(limit as int));
        assert forall|i: int| 0 <= i < out@.len() - 1 implies (#[trigger] out@[i]).entry.id@
            != out@[i + 1].entry.id@ by {
            assert(out@[i] == dedup_hits(all)[i] && out@[i + 1] == dedup_hits(all)[i + 1]);
        }
    }
    (out, truncated)
}

} // verus!
