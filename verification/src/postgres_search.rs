//! Catalog search on PostgreSQL: the candidates the search query returns
//! and the hits built from them.
use vstd::prelude::*;

use crate::catalog::{
    id_eq, CatalogEntry, CatalogId, CatalogIdView, CatalogKind, OptionalMetadata, QualifiedName,
    QualifiedNameView,
};
use crate::catalog_error::{CatalogIssue, CatalogValidationError};
use crate::error::{internal_error, is_internal_error, DatabaseError};
use crate::mssql_search::CatalogSearchHit;
use crate::mysql_search::{is_hit_internal, SearchHitError};
use crate::postgres::{
    pg_code, pg_relation_kind, pg_search_kind, relation_kind, search_kind_properties,
};
use crate::text::{
    clone_opt, owned, parse_i64, parse_i64_spec, signed_decimal, signed_decimal_string, str_eq, views,
};

verus! {

/// One object that a PostgreSQL search matched, before it becomes a hit.
#[derive(Clone, Debug, PartialEq, Eq)]
pub struct PgSearchCandidate {
    pub kind: CatalogKind,
    pub database: String,
    pub schema: Option<String>,
    pub name: String,
    pub oid: Option<i64>,
    pub relation_kind: Option<String>,
    pub relation_name: Option<String>,
    pub relation_oid: Option<i64>,
    pub comment: Option<String>,
    pub relation_comment: Option<String>,
    pub database_comment: Option<String>,
    pub schema_comment: Option<String>,
}

/// The catalog kind a search row names.
pub open spec fn pg_candidate_kind(kind: Seq<char>) -> Option<CatalogKind> {
    if kind == "database"@ {
        Some(CatalogKind::Database)
    } else if kind == "schema"@ {
        Some(CatalogKind::Schema)
    } else if kind == "table"@ {
        Some(CatalogKind::Table)
    } else if kind == "view"@ {
        Some(CatalogKind::View)
    } else if kind == "materialized_view"@ {
        Some(CatalogKind::MaterializedView)
    } else if kind == "sequence"@ {
        Some(CatalogKind::Sequence)
    } else if kind == "function"@ {
        Some(CatalogKind::Function)
    } else if kind == "procedure"@ {
        Some(CatalogKind::Procedure)
    } else if kind == "type"@ {
        Some(CatalogKind::Type)
    } else if kind == "column"@ {
        Some(CatalogKind::Column)
    } else if kind == "index"@ {
        Some(CatalogKind::Index)
    } else if kind == "primary_key"@ {
        Some(CatalogKind::PrimaryKey)
    } else if kind == "unique_constraint"@ {
        Some(CatalogKind::UniqueConstraint)
    } else if kind == "foreign_key"@ {
        Some(CatalogKind::ForeignKey)
    } else if kind == "check_constraint"@ {
        Some(CatalogKind::CheckConstraint)
    } else {
        None
    }
}

/// The catalog kind of a search row; a kind the search does not list is
/// refused.
pub fn postgres_search_kind(kind: &str) -> (r: Result<CatalogKind, DatabaseError>)
    ensures
        match pg_candidate_kind(kind@) {
            Some(k) => r == Ok::<CatalogKind, DatabaseError>(k),
            None => r matches Err(e) && is_internal_error(
                e,
                pg_code(),
                "unexpected PostgreSQL search catalog kind"@,
            ),
        },
{
    if str_eq(kind, "database") {
        Ok(CatalogKind::Database)
    } else if str_eq(kind, "schema") {
        Ok(CatalogKind::Schema)
    } else if str_eq(kind, "table") {
        Ok(CatalogKind::Table)
    } else if str_eq(kind, "view") {
        Ok(CatalogKind::View)
    } else if str_eq(kind, "materialized_view") {
        Ok(CatalogKind::MaterializedView)
    } else if str_eq(kind, "sequence") {
        Ok(CatalogKind::Sequence)
    } else if str_eq(kind, "function") {
        Ok(CatalogKind::Function)
    } else if str_eq(kind, "procedure") {
        Ok(CatalogKind::Procedure)
    } else if str_eq(kind, "type") {
        Ok(CatalogKind::Type)
    } else if str_eq(kind, "column") {
        Ok(CatalogKind::Column)
    } else if str_eq(kind, "index") {
        Ok(CatalogKind::Index)
    } else if str_eq(kind, "primary_key") {
        Ok(CatalogKind::PrimaryKey)
    } else if str_eq(kind, "unique_constraint") {
        Ok(CatalogKind::UniqueConstraint)
    } else if str_eq(kind, "foreign_key") {
        Ok(CatalogKind::ForeignKey)
    } else if str_eq(kind, "check_constraint") {
        Ok(CatalogKind::CheckConstraint)
    } else {
        Err(internal_error("postgres_catalog_invariant", "unexpected PostgreSQL search catalog kind"))
    }
}

/// The row limit of the search query: one more than the page shows, so that
/// a cut page can be told from a full one.
pub fn postgres_search_limit(limit: usize) -> (r: Result<i64, DatabaseError>)
    ensures
        match r {
            Ok(v) => v == (if limit < usize::MAX {
                limit + 1
            } else {
                limit as int
            }),
            Err(e) => (if limit < usize::MAX {
                limit + 1
            } else {
                limit as int
            }) > i64::MAX && is_internal_error(
                e,
                pg_code(),
                "PostgreSQL catalog search limit overflowed"@,
            ),
        },
{
    let wanted = limit.saturating_add(1);
    if wanted as u64 > 9223372036854775807u64 {
        return Err(
            internal_error("postgres_catalog_invariant", "PostgreSQL catalog search limit overflowed"),
        );
    }
    Ok(wanted as i64)
}

/// The identity of the relation that owns a child candidate, where the
/// candidate names its schema, name, oid and a relation kind search lists.
pub open spec fn pg_candidate_relation(profile_id: u128, c: PgSearchCandidate) -> Option<
    CatalogIdView,
> {
    if c.kind.spec_is_relation_child() && c.schema is Some && c.relation_name is Some
        && c.relation_oid is Some && c.relation_kind is Some && pg_relation_kind(
        c.relation_kind.unwrap()@,
    ) is Some {
        Some(
            CatalogIdView {
                connection_id: profile_id,
                kind: pg_relation_kind(c.relation_kind.unwrap()@).unwrap().0,
                path: seq![
                    c.database@,
                    c.schema.unwrap()@,
                    c.relation_name.unwrap()@,
                    signed_decimal(c.relation_oid.unwrap() as int),
                ],
            },
        )
    } else {
        None
    }
}

/// The identity of the relation that owns a child candidate, if the
/// candidate names one completely.
pub fn postgres_candidate_relation_id(profile_id: u128, c: &PgSearchCandidate) -> (r: Option<
    CatalogId,
>)
    ensures
        match pg_candidate_relation(profile_id, *c) {
            Some(v) => r matches Some(id) && id@ == v,
            None => r is None,
        },
{
    if !c.kind.is_relation_child() {
        return None;
    }
    let schema = match &c.schema {
        Some(s) => s,
        None => {
            return None;
        },
    };
    let name = match &c.relation_name {
        Some(n) => n,
        None => {
            return None;
        },
    };
    let oid = match c.relation_oid {
        Some(o) => o,
        None => {
            return None;
        },
    };
    let native = match &c.relation_kind {
        Some(k) => k,
        None => {
            return None;
        },
    };
    let kind = match relation_kind(native.as_str()) {
        Ok((k, _)) => k,
        Err(_) => {
            return None;
        },
    };
    let mut path: Vec<String> = Vec::new();
    path.push(c.database.clone());
    path.push(schema.clone());
    path.push(name.clone());
    path.push(signed_decimal_string(oid));
    assert(views(path@) =~= pg_candidate_relation(profile_id, *c).unwrap().path);
    Some(CatalogId::new(profile_id, kind, path))
}

/// The identity of a child candidate: its owner's identity and its oid.
pub open spec fn pg_candidate_child(profile_id: u128, c: PgSearchCandidate) -> Option<CatalogIdView> {
    match pg_candidate_relation(profile_id, c) {
        Some(rel) => match c.oid {
            Some(oid) => Some(
                CatalogIdView {
                    connection_id: profile_id,
                    kind: c.kind,
                    path: rel.path.push(signed_decimal(oid as int)),
                },
            ),
            None => None,
        },
        None => None,
    }
}

/// Where a relation that search hits hang under lives: database, schema and
/// oid, from an identity of four path parts whose last is its oid.
pub open spec fn pg_search_relation(path: Seq<Seq<char>>) -> Result<
    (Seq<char>, Seq<char>, i64),
    Seq<char>,
> {
    if path.len() != 4 {
        Err("invalid PostgreSQL search relation identity"@)
    } else {
        match parse_i64_spec(path[3]) {
            Some(oid) => Ok((path[0], path[1], oid)),
            None => Err("invalid PostgreSQL search relation OID"@),
        }
    }
}

/// The database, schema and oid of a relation whose children a search
/// loads.
pub fn postgres_search_relation(relation: &CatalogId) -> (r: Result<
    (String, String, i64),
    DatabaseError,
>)
    ensures
        match pg_search_relation(relation@.path) {
            Ok((d, s, oid)) => r matches Ok((x, y, z)) && x@ == d && y@ == s && z == oid,
            Err(msg) => r matches Err(e) && is_internal_error(e, pg_code(), msg),
        },
{
    if relation.native_path.len() != 4 {
        return Err(
            internal_error("postgres_catalog_invariant", "invalid PostgreSQL search relation identity"),
        );
    }
    match parse_i64(relation.native_path[3].as_str()) {
        Some(oid) => Ok((relation.native_path[0].clone(), relation.native_path[1].clone(), oid)),
        None => Err(
            internal_error("postgres_catalog_invariant", "invalid PostgreSQL search relation OID"),
        ),
    }
}

fn qualified(database: &str, schema: Option<&str>, object: &str) -> (r: QualifiedName)
    ensures
        r@ == (QualifiedNameView {
            database: Some(database@),
            schema: match schema {
                Some(s) => Some(s@),
                None => None,
            },
            object: object@,
        }),
{
    QualifiedName {
        database: Some(owned(database)),
        schema: match schema {
            Some(s) => Some(owned(s)),
            None => None,
        },
        object: owned(object),
    }
}

fn invalid<T>(r: Result<T, CatalogValidationError>) -> (out: Result<T, SearchHitError>)
    ensures
        match r {
            Ok(v) => out == Ok::<T, SearchHitError>(v),
            Err(e) => out == Err::<T, SearchHitError>(SearchHitError::Invalid(e)),
        },
{
    match r {
        Ok(v) => Ok(v),
        Err(e) => Err(SearchHitError::Invalid(e)),
    }
}

fn failed<T>(message: &str) -> (r: Result<T, SearchHitError>)
    ensures
        r matches Err(e) && is_hit_internal_pg(e, message@),
{
    Err(SearchHitError::Database(internal_error("postgres_catalog_invariant", message)))
}

/// Whether `e` is an internal PostgreSQL catalog error with `message`.
pub open spec fn is_hit_internal_pg(e: SearchHitError, message: Seq<char>) -> bool {
    e matches SearchHitError::Database(d) && is_internal_error(d, pg_code(), message)
}

/// Whether `e` is the database entry of a PostgreSQL search hit.
pub open spec fn pg_database_entry(
    e: CatalogEntry,
    profile_id: u128,
    database: Seq<char>,
    comment: Option<String>,
) -> bool {
    &&& e.kind == CatalogKind::Database
    &&& e.id@ == (CatalogIdView {
        connection_id: profile_id,
        kind: CatalogKind::Database,
        path: seq![database],
    })
    &&& e.parent_id is None
    &&& e.qualified_name@ == (QualifiedNameView {
        database: Some(database),
        schema: None,
        object: database,
    })
    &&& e.native_kind@ == "database"@
    &&& e.comment == OptionalMetadata::Supported(comment)
    &&& e.metadata is NoMetadata
    &&& e.expandable
    &&& e.relation_id is None
}

/// Whether `e` is the schema entry of a PostgreSQL search hit.
pub open spec fn pg_schema_entry(
    e: CatalogEntry,
    profile_id: u128,
    database: Seq<char>,
    schema: Seq<char>,
    comment: Option<String>,
) -> bool {
    &&& e.kind == CatalogKind::Schema
    &&& e.id@ == (CatalogIdView {
        connection_id: profile_id,
        kind: CatalogKind::Schema,
        path: seq![database, schema],
    })
    &&& e.parent_id matches Some(p) && p@ == (CatalogIdView {
        connection_id: profile_id,
        kind: CatalogKind::Database,
        path: seq![database],
    })
    &&& e.qualified_name@ == (QualifiedNameView {
        database: Some(database),
        schema: Some(schema),
        object: schema,
    })
    &&& e.native_kind@ == "schema"@
    &&& e.comment == OptionalMetadata::Supported(comment)
    &&& e.metadata is NoMetadata
    &&& e.expandable
    &&& e.relation_id is None
}

/// Whether `e` is the entry of the relation that owns child candidate `c`.
pub open spec fn pg_relation_entry(
    e: CatalogEntry,
    profile_id: u128,
    database: Seq<char>,
    c: PgSearchCandidate,
) -> bool {
    let schema = c.schema.unwrap()@;
    &&& Some(e.id@) == pg_candidate_relation(profile_id, c)
    &&& e.kind == e.id.kind
    &&& e.parent_id matches Some(p) && p@ == (CatalogIdView {
        connection_id: profile_id,
        kind: CatalogKind::Schema,
        path: seq![database, schema],
    })
    &&& e.qualified_name@ == (QualifiedNameView {
        database: Some(c.database@),
        schema: Some(schema),
        object: c.relation_name.unwrap()@,
    })
    &&& e.native_kind@ == pg_relation_kind(c.relation_kind.unwrap()@).unwrap().1
    &&& e.comment == OptionalMetadata::Supported(c.relation_comment)
    &&& e.metadata is NoMetadata
    &&& e.expandable
    &&& e.relation_id matches Some(rel) && rel@ == e.id@
}

/// Whether `e` is the entry of a top-level candidate `c`: a relation or a
/// schema object under its schema.
pub open spec fn pg_object_entry(
    e: CatalogEntry,
    profile_id: u128,
    database: Seq<char>,
    c: PgSearchCandidate,
) -> bool {
    let schema = c.schema.unwrap()@;
    &&& e.kind == c.kind
    &&& e.id@ == (CatalogIdView {
        connection_id: profile_id,
        kind: c.kind,
        path: seq![database, schema, c.name@, signed_decimal(c.oid.unwrap() as int)],
    })
    &&& e.parent_id matches Some(p) && p@ == (CatalogIdView {
        connection_id: profile_id,
        kind: CatalogKind::Schema,
        path: seq![database, schema],
    })
    &&& e.qualified_name@ == (QualifiedNameView {
        database: Some(database),
        schema: Some(schema),
        object: c.name@,
    })
    &&& e.native_kind@ == pg_search_kind(c.kind).unwrap().0
    &&& e.comment == OptionalMetadata::Supported(c.comment)
    &&& e.metadata is NoMetadata
    &&& e.expandable == pg_search_kind(c.kind).unwrap().1
    &&& if c.kind.spec_is_relation() {
        e.relation_id matches Some(rel) && rel@ == e.id@
    } else {
        e.relation_id is None
    }
}

/// Whether `hit` is the PostgreSQL search hit of candidate `c` found in the
/// connection's current `database`; a child's entry is the one loaded for
/// it.
pub open spec fn pg_hit(
    hit: CatalogSearchHit,
    profile_id: u128,
    database: Seq<char>,
    c: PgSearchCandidate,
    child: Option<CatalogEntry>,
) -> bool {
    let a = hit.ancestors@;
    if c.kind == CatalogKind::Database {
        pg_database_entry(hit.entry, profile_id, database, c.database_comment) && a.len() == 0
    } else {
        &&& c.schema is Some
        &&& a.len() >= 1
        &&& pg_database_entry(a[0], profile_id, database, c.database_comment)
        &&& if c.kind == CatalogKind::Schema {
            a.len() == 1 && pg_schema_entry(
                hit.entry,
                profile_id,
                database,
                c.schema.unwrap()@,
                c.schema_comment,
            )
        } else {
            &&& a.len() >= 2
            &&& pg_schema_entry(a[1], profile_id, database, c.schema.unwrap()@, c.schema_comment)
            &&& if c.kind.spec_is_relation_child() {
                &&& a.len() == 3
                &&& pg_relation_entry(a[2], profile_id, database, c)
                &&& child == Some(hit.entry)
                &&& Some(hit.entry.id@) == pg_candidate_child(profile_id, c)
            } else {
                a.len() == 2 && pg_object_entry(hit.entry, profile_id, database, c)
            }
        }
    }
}

/// The hit for a PostgreSQL search candidate found in the connection's
/// current `database`. `child` is the entry loaded for a child candidate;
/// one whose identity is not the candidate's counts as missing.
pub fn postgres_search_hit(
    profile_id: u128,
    database: &str,
    candidate: PgSearchCandidate,
    child: Option<CatalogEntry>,
) -> (r: Result<CatalogSearchHit, SearchHitError>)
    ensures
        r matches Ok(hit) ==> pg_hit(hit, profile_id, database@, candidate, child),
        r matches Err(e) ==> {
            let c = candidate;
            ||| database@.len() == 0
            ||| (c.kind != CatalogKind::Database && c.schema is None && is_hit_internal_pg(
                e,
                "PostgreSQL search object has no schema"@,
            ))
            ||| (c.kind != CatalogKind::Database && c.schema is Some && c.schema.unwrap()@.len()
                == 0)
            ||| (c.kind.spec_is_relation_child() && pg_candidate_relation(profile_id, c) is None
                && is_hit_internal_pg(e, "incomplete PostgreSQL search relation identity"@))
            ||| (c.kind.spec_is_relation_child() && c.relation_name is Some
                && c.relation_name.unwrap()@.len() == 0)
            ||| (c.kind.spec_is_relation_child() && c.oid is None && is_hit_internal_pg(
                e,
                "PostgreSQL search child has no native identity"@,
            ))
            ||| (c.kind.spec_is_relation_child() && pg_candidate_child(profile_id, c) is Some
                && !(child matches Some(x) && Some(x.id@) == pg_candidate_child(profile_id, c))
                && is_hit_internal_pg(e, "PostgreSQL search child disappeared during hydration"@))
            ||| (!c.kind.spec_is_relation_child() && c.kind != CatalogKind::Database && c.kind
                != CatalogKind::Schema && c.oid is None && is_hit_internal_pg(
                e,
                "PostgreSQL search object has no OID"@,
            ))
            ||| (!c.kind.spec_is_relation_child() && c.kind != CatalogKind::Database && c.kind
                != CatalogKind::Schema && pg_search_kind(c.kind) is None && (e matches SearchHitError::Database(d)
                && is_internal_error(d, pg_code(), "unexpected PostgreSQL top-level search kind"@)))
            ||| (!c.kind.spec_is_relation_child() && c.name@.len() == 0)
        },
        database@.len() > 0 && candidate.kind == CatalogKind::Database ==> r is Ok,
{
    let c = candidate;
    let mut database_path: Vec<String> = Vec::new();
    database_path.push(owned(database));
    assert(views(database_path@) =~= seq![database@]);
    let database_entry = invalid(
        CatalogEntry::database(
            CatalogId::new(profile_id, CatalogKind::Database, database_path),
            qualified(database, None, database),
            owned("database"),
            OptionalMetadata::Supported(clone_opt(&c.database_comment)),
            true,
        ),
    )?;
    if c.kind == CatalogKind::Database {
        return Ok(CatalogSearchHit { entry: database_entry, ancestors: Vec::new() });
    }
    let schema = match &c.schema {
        Some(s) => s,
        None => {
            return failed("PostgreSQL search object has no schema");
        },
    };
    let mut schema_path: Vec<String> = Vec::new();
    schema_path.push(owned(database));
    schema_path.push(schema.clone());
    assert(views(schema_path@) =~= seq![database@, schema@]);
    let schema_id = CatalogId::new(profile_id, CatalogKind::Schema, schema_path);
    let schema_entry = invalid(
        CatalogEntry::schema(
            schema_id.clone(),
            database_entry.id.clone(),
            qualified(database, Some(schema.as_str()), schema.as_str()),
            owned("schema"),
            OptionalMetadata::Supported(clone_opt(&c.schema_comment)),
            true,
        ),
    )?;
    let mut ancestors: Vec<CatalogEntry> = Vec::new();
    ancestors.push(database_entry);
    if c.kind == CatalogKind::Schema {
        return Ok(CatalogSearchHit { entry: schema_entry, ancestors });
    }
    ancestors.push(schema_entry);
    if c.kind.is_relation_child() {
        let relation_id = match postgres_candidate_relation_id(profile_id, &c) {
            Some(id) => id,
            None => {
                return failed("incomplete PostgreSQL search relation identity");
            },
        };
        let relation_name = match &c.relation_name {
            Some(n) => n,
            None => {
                return failed("incomplete PostgreSQL search relation identity");
            },
        };
        let native = match &c.relation_kind {
            Some(k) => match relation_kind(k.as_str()) {
                Ok((_, n)) => n,
                Err(_) => {
                    return failed("incomplete PostgreSQL search relation identity");
                },
            },
            None => {
                return failed("incomplete PostgreSQL search relation identity");
            },
        };
        let relation = invalid(
            CatalogEntry::relation(
                relation_id,
                schema_id.clone(),
                qualified(c.database.as_str(), Some(schema.as_str()), relation_name.as_str()),
                owned(native),
                OptionalMetadata::Supported(clone_opt(&c.relation_comment)),
                true,
            ),
        )?;
        let oid = match c.oid {
            Some(o) => o,
            None => {
                return failed("PostgreSQL search child has no native identity");
            },
        };
        assert(Some(relation.id@) == pg_candidate_relation(profile_id, c));
        let mut child_path = crate::text::clone_strings(&relation.id.native_path);
        let ghost before = views(child_path@);
        child_path.push(signed_decimal_string(oid));
        assert(views(child_path@) =~= before.push(signed_decimal(oid as int)));
        let child_id = CatalogId::new(profile_id, c.kind, child_path);
        assert(Some(child_id@) == pg_candidate_child(profile_id, c));
        let entry = match child {
            Some(loaded) => if id_eq(&loaded.id, &child_id) {
                loaded
            } else {
                return failed("PostgreSQL search child disappeared during hydration");
            },
            None => {
                return failed("PostgreSQL search child disappeared during hydration");
            },
        };
        ancestors.push(relation);
        return Ok(CatalogSearchHit { entry, ancestors });
    }
    let oid = match c.oid {
        Some(o) => o,
        None => {
            return failed("PostgreSQL search object has no OID");
        },
    };
    let mut path: Vec<String> = Vec::new();
    path.push(owned(database));
    path.push(schema.clone());
    path.push(c.name.clone());
    path.push(signed_decimal_string(oid));
    assert(views(path@) =~= seq![database@, schema@, c.name@, signed_decimal(oid as int)]);
    let id = CatalogId::new(profile_id, c.kind, path);
    let name = qualified(database, Some(schema.as_str()), c.name.as_str());
    let (native_kind, expandable) = match search_kind_properties(c.kind) {
        Ok(p) => p,
        Err(e) => {
            return Err(SearchHitError::Database(e));
        },
    };
    let entry = if c.kind.is_relation() {
        invalid(
            CatalogEntry::relation(
                id,
                schema_id,
                name,
                owned(native_kind),
                OptionalMetadata::Supported(c.comment),
                expandable,
            ),
        )?
    } else {
        invalid(
            CatalogEntry::object(
                id,
                schema_id,
                name,
                owned(native_kind),
                OptionalMetadata::Supported(c.comment),
                expandable,
            ),
        )?
    };
    Ok(CatalogSearchHit { entry, ancestors })
}

} // verus!
