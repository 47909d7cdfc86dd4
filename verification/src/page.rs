//! Catalog listing requests and pages.
use vstd::prelude::*;

use crate::catalog::{
    id_eq, opt_id_eq, opt_id_view, CatalogCount, CatalogEntry, CatalogGroupSummary, CatalogId,
    CatalogIdView, CatalogKind, CatalogMetadata, ObjectGroup,
};
use crate::catalog_error::{result_view, CatalogIssue, CatalogValidationError};
use crate::cursor::{keyset_parts_spec, opt_cursor_view, CatalogCursor};
use crate::entry::first_issue;
use crate::identity::ConnectionIdentity;
use crate::rules::{
    database_path, database_path_spec, database_shape_issue, kind_issue, metadata_identity_issue,
    metadata_issue, metadata_profiles_issue, object_namespace, object_path, object_path_spec,
    object_shape_issue, profile_issue, relation_issue, require_kind, require_profile,
    require_relation, schema_path, schema_path_spec, schema_shape_issue, strictly_extends,
    strictly_extends_native_path, validate_metadata, validate_metadata_identity,
    validate_metadata_profiles,
};
use crate::scope::CatalogScope;
use crate::text::{is_empty_str, str_eq};

verus! {

/// What a catalog listing lists.
#[derive(Debug, PartialEq, Eq, Hash)]
pub enum CatalogTarget {
    Databases,
    Schemas { database: CatalogId },
    Groups { schema: CatalogId },
    Objects { schema: CatalogId, group: ObjectGroup },
    RelationChildren { relation: CatalogId },
}

pub enum CatalogTargetView {
    Databases,
    Schemas { database: CatalogIdView },
    Groups { schema: CatalogIdView },
    Objects { schema: CatalogIdView, group: ObjectGroup },
    RelationChildren { relation: CatalogIdView },
}

impl View for CatalogTarget {
    type V = CatalogTargetView;

    open spec fn view(&self) -> CatalogTargetView {
        match *self {
            CatalogTarget::Databases => CatalogTargetView::Databases,
            CatalogTarget::Schemas { database } => CatalogTargetView::Schemas {
                database: database@,
            },
            CatalogTarget::Groups { schema } => CatalogTargetView::Groups { schema: schema@ },
            CatalogTarget::Objects { schema, group } => CatalogTargetView::Objects {
                schema: schema@,
                group,
            },
            CatalogTarget::RelationChildren { relation } => CatalogTargetView::RelationChildren {
                relation: relation@,
            },
        }
    }
}

impl Clone for CatalogTarget {
    fn clone(&self) -> (r: Self)
        ensures
            r@ == self@,
    {
        match self {
            CatalogTarget::Databases => CatalogTarget::Databases,
            CatalogTarget::Schemas { database } => CatalogTarget::Schemas {
                database: database.clone(),
            },
            CatalogTarget::Groups { schema } => CatalogTarget::Groups { schema: schema.clone() },
            CatalogTarget::Objects { schema, group } => CatalogTarget::Objects {
                schema: schema.clone(),
                group: *group,
            },
            CatalogTarget::RelationChildren { relation } => CatalogTarget::RelationChildren {
                relation: relation.clone(),
            },
        }
    }
}

/// The identity of one catalog request.
#[derive(Debug, PartialEq, Eq, Hash)]
pub struct CatalogRequestKey {
    pub connection: ConnectionIdentity,
    pub catalog_epoch: u64,
    pub request_id: u64,
    pub target: CatalogTarget,
    pub cursor: Option<CatalogCursor>,
}

pub struct CatalogRequestKeyView {
    pub connection: ConnectionIdentity,
    pub catalog_epoch: u64,
    pub request_id: u64,
    pub target: CatalogTargetView,
    pub cursor: Option<Seq<char>>,
}

impl View for CatalogRequestKey {
    type V = CatalogRequestKeyView;

    open spec fn view(&self) -> CatalogRequestKeyView {
        CatalogRequestKeyView {
            connection: self.connection,
            catalog_epoch: self.catalog_epoch,
            request_id: self.request_id,
            target: self.target@,
            cursor: opt_cursor_view(self.cursor),
        }
    }
}

impl Clone for CatalogRequestKey {
    fn clone(&self) -> (r: Self)
        ensures
            r@ == self@,
    {
        CatalogRequestKey {
            connection: self.connection,
            catalog_epoch: self.catalog_epoch,
            request_id: self.request_id,
            target: self.target.clone(),
            cursor: match &self.cursor {
                Some(c) => Some(c.clone()),
                None => None,
            },
        }
    }
}

/// A request for one page of a catalog listing.
#[derive(Clone, Debug, PartialEq, Eq)]
pub struct CatalogRequest {
    pub key: CatalogRequestKey,
    pub scope: CatalogScope,
    pub page_size: usize,
}

/// Whether a page ends its listing.
#[derive(Clone, Copy, Debug, PartialEq, Eq, Structural)]
pub enum CatalogCompleteness {
    Partial,
    Complete,
}

/// One page of a catalog listing.
#[derive(Clone, Debug, PartialEq, Eq)]
pub struct CatalogPage {
    pub key: CatalogRequestKey,
    pub entries: Vec<crate::catalog::CatalogEntry>,
    pub group_summaries: Vec<CatalogGroupSummary>,
    pub total_count: CatalogCount,
    pub next_cursor: Option<CatalogCursor>,
    pub completeness: CatalogCompleteness,
}

/// The largest page a request may ask for.
pub const MAX_CATALOG_PAGE_SIZE: usize = 500;

/// A relation with its children and its DDL.
#[derive(Clone, Debug, PartialEq, Eq)]
pub struct RelationStructure {
    pub relation: CatalogEntry,
    pub children: CatalogPage,
    pub ddl: crate::catalog::Ddl,
}

/// A relation with its children and the DDL text that creates it.
#[derive(Clone, Debug, PartialEq, Eq)]
pub struct RelationDdl {
    pub relation: CatalogEntry,
    pub children: CatalogPage,
    pub sql: String,
    pub provenance: crate::catalog::DdlProvenance,
}

/// A presentation row of the catalog tree.
#[derive(Clone, Debug, PartialEq, Eq)]
pub struct CatalogNode {
    pub id: CatalogId,
    pub parent_id: Option<CatalogId>,
    pub kind: CatalogKind,
    pub name: String,
    pub native_kind: String,
    pub detail: Option<String>,
    pub expandable: bool,
}

impl CatalogNode {
    /// A node whose kind is its identity's kind.
    pub fn new(
        id: CatalogId,
        parent_id: Option<CatalogId>,
        name: String,
        native_kind: String,
        detail: Option<String>,
        expandable: bool,
    ) -> (r: Self)
        ensures
            r == (CatalogNode { kind: id.kind, id, parent_id, name, native_kind, detail, expandable }),
    {
        CatalogNode { kind: id.kind, id, parent_id, name, native_kind, detail, expandable }
    }
}


// ---------------------------------------------------------------------------
// Targets
// ---------------------------------------------------------------------------

pub open spec fn target_profile(t: CatalogTarget) -> Option<u128> {
    match t {
        CatalogTarget::Databases => None,
        CatalogTarget::Schemas { database } => Some(database.connection_id),
        CatalogTarget::Groups { schema } => Some(schema.connection_id),
        CatalogTarget::Objects { schema, .. } => Some(schema.connection_id),
        CatalogTarget::RelationChildren { relation } => Some(relation.connection_id),
    }
}

pub open spec fn target_ok<T>(r: Result<T, CatalogValidationError>) -> Option<CatalogIssue> {
    match r {
        Ok(_) => None,
        Err(e) => Some(e@),
    }
}

impl CatalogTarget {
    /// The schemas of a database.
    pub fn schemas(database: CatalogId) -> (r: Result<Self, CatalogValidationError>)
        ensures
            target_ok(r) == kind_issue(database.kind, CatalogKind::Database, "database target"),
            r matches Ok(t) ==> t == (CatalogTarget::Schemas { database }),
    {
        require_kind(database.kind, CatalogKind::Database, "database target")?;
        Ok(CatalogTarget::Schemas { database })
    }

    /// The object groups of a schema.
    pub fn groups(schema: CatalogId) -> (r: Result<Self, CatalogValidationError>)
        ensures
            target_ok(r) == kind_issue(schema.kind, CatalogKind::Schema, "schema target"),
            r matches Ok(t) ==> t == (CatalogTarget::Groups { schema }),
    {
        require_kind(schema.kind, CatalogKind::Schema, "schema target")?;
        Ok(CatalogTarget::Groups { schema })
    }

    /// The objects of one group of a schema.
    pub fn objects(schema: CatalogId, group: ObjectGroup) -> (r: Result<Self, CatalogValidationError>)
        ensures
            target_ok(r) == kind_issue(schema.kind, CatalogKind::Schema, "schema target"),
            r matches Ok(t) ==> t == (CatalogTarget::Objects { schema, group }),
    {
        require_kind(schema.kind, CatalogKind::Schema, "schema target")?;
        Ok(CatalogTarget::Objects { schema, group })
    }

    /// The columns, indexes, constraints and triggers of a relation.
    pub fn relation_children(relation: CatalogId) -> (r: Result<Self, CatalogValidationError>)
        ensures
            target_ok(r) == relation_issue(relation.kind, "relation target"),
            r matches Ok(t) ==> t == (CatalogTarget::RelationChildren { relation }),
    {
        require_relation(relation.kind, "relation target")?;
        Ok(CatalogTarget::RelationChildren { relation })
    }

    /// The profile of the target's anchor, if it has one.
    pub fn profile_id(&self) -> (r: Option<u128>)
        ensures
            r == target_profile(*self),
    {
        match self {
            CatalogTarget::Databases => None,
            CatalogTarget::Schemas { database } => Some(database.connection_id),
            CatalogTarget::Groups { schema } => Some(schema.connection_id),
            CatalogTarget::Objects { schema, .. } => Some(schema.connection_id),
            CatalogTarget::RelationChildren { relation } => Some(relation.connection_id),
        }
    }

    /// A short name for the kind of listing.
    pub fn description(&self) -> (r: &'static str)
        ensures
            r == target_description(*self),
    {
        match self {
            CatalogTarget::Databases => "databases",
            CatalogTarget::Schemas { .. } => "schemas",
            CatalogTarget::Groups { .. } => "groups",
            CatalogTarget::Objects { .. } => "objects",
            CatalogTarget::RelationChildren { .. } => "relation children",
        }
    }

    /// The target's anchor must have the right kind, belong to `profile_id`,
    /// have a well-formed path and lie inside `scope`.
    pub fn validate_for_request(&self, profile_id: u128, scope: &CatalogScope) -> (r: Result<
        (),
        CatalogValidationError,
    >)
        ensures
            result_view(r) == target_request_issue(*self, profile_id, *scope),
    {
        match self {
            CatalogTarget::Databases => Ok(()),
            CatalogTarget::Schemas { database } => {
                require_kind(database.kind, CatalogKind::Database, "database target")?;
                require_profile(database, profile_id)?;
                let database_name = database_path(database)?;
                require_target_scope(self, scope.allows_database(database_name))
            },
            CatalogTarget::Groups { schema } | CatalogTarget::Objects { schema, .. } => {
                require_kind(schema.kind, CatalogKind::Schema, "schema target")?;
                require_profile(schema, profile_id)?;
                let (database_name, schema_name) = schema_path(schema)?;
                require_target_scope(self, scope.allows_schema(database_name, schema_name))
            },
            CatalogTarget::RelationChildren { relation } => {
                require_relation(relation.kind, "relation target")?;
                require_profile(relation, profile_id)?;
                let (database_name, schema_name) = object_namespace(relation)?;
                require_target_scope(self, scope.allows_schema(database_name, schema_name))
            },
        }
    }
}

pub open spec fn target_description(t: CatalogTarget) -> &'static str {
    match t {
        CatalogTarget::Databases => "databases",
        CatalogTarget::Schemas { .. } => "schemas",
        CatalogTarget::Groups { .. } => "groups",
        CatalogTarget::Objects { .. } => "objects",
        CatalogTarget::RelationChildren { .. } => "relation children",
    }
}

pub open spec fn scope_issue(t: CatalogTarget, allowed: bool) -> Option<CatalogIssue> {
    if allowed {
        None
    } else {
        Some(CatalogIssue::TargetOutsideScope { target: t@ })
    }
}

pub open spec fn target_request_issue(t: CatalogTarget, profile_id: u128, scope: CatalogScope) -> Option<
    CatalogIssue,
> {
    match t {
        CatalogTarget::Databases => None,
        CatalogTarget::Schemas { database } => first_issue(
            kind_issue(database.kind, CatalogKind::Database, "database target"),
            first_issue(
                profile_issue(database.connection_id, profile_id),
                match database_path_spec(database@) {
                    None => Some(database_shape_issue(database@)),
                    Some(d) => scope_issue(t, scope.allows_database_spec(d)),
                },
            ),
        ),
        CatalogTarget::Groups { schema } => schema_target_issue(t, schema, profile_id, scope),
        CatalogTarget::Objects { schema, .. } => schema_target_issue(t, schema, profile_id, scope),
        CatalogTarget::RelationChildren { relation } => first_issue(
            relation_issue(relation.kind, "relation target"),
            first_issue(
                profile_issue(relation.connection_id, profile_id),
                match object_path_spec(relation@) {
                    None => Some(object_shape_issue(relation@)),
                    Some((d, s, _)) => scope_issue(t, scope.allows_schema_spec(d, s)),
                },
            ),
        ),
    }
}

pub open spec fn schema_target_issue(
    t: CatalogTarget,
    schema: CatalogId,
    profile_id: u128,
    scope: CatalogScope,
) -> Option<CatalogIssue> {
    first_issue(
        kind_issue(schema.kind, CatalogKind::Schema, "schema target"),
        first_issue(
            profile_issue(schema.connection_id, profile_id),
            match schema_path_spec(schema@) {
                None => Some(schema_shape_issue(schema@)),
                Some((d, s)) => scope_issue(t, scope.allows_schema_spec(d, s)),
            },
        ),
    )
}

fn require_target_scope(target: &CatalogTarget, allowed: bool) -> (r: Result<
    (),
    CatalogValidationError,
>)
    ensures
        result_view(r) == scope_issue(*target, allowed),
{
    if allowed {
        Ok(())
    } else {
        Err(CatalogValidationError::TargetOutsideScope { target: Box::new(target.clone()) })
    }
}


// ---------------------------------------------------------------------------
// Entries on a page
// ---------------------------------------------------------------------------

pub open spec fn parent_kind_is(e: CatalogEntry, kind: CatalogKind) -> bool {
    e.parent_id matches Some(p) && p.kind == kind
}

/// Whether an entry's parent and owning relation fit its kind.
pub open spec fn entry_shape_ok(e: CatalogEntry) -> bool {
    match e.kind {
        CatalogKind::Database => e.parent_id is None && e.relation_id is None,
        CatalogKind::Schema => parent_kind_is(e, CatalogKind::Database) && e.relation_id is None,
        CatalogKind::Table | CatalogKind::View | CatalogKind::MaterializedView => parent_kind_is(
            e,
            CatalogKind::Schema,
        ) && opt_id_view(e.relation_id) == Some(e.id@),
        CatalogKind::Function | CatalogKind::Procedure | CatalogKind::Sequence
        | CatalogKind::Type => parent_kind_is(e, CatalogKind::Schema) && e.relation_id is None,
        CatalogKind::Trigger => match (e.parent_id, e.relation_id) {
            (Some(p), Some(rel)) => rel.kind.is_relation() && (p.kind == CatalogKind::Schema
                || p@ == rel@),
            _ => false,
        },
        _ => match e.parent_id {
            Some(p) => p.kind.is_relation() && opt_id_view(e.relation_id) == Some(p@),
            None => false,
        },
    }
}

/// Whether an entry's parent and owning relation fit its kind.
pub fn valid_entry_shape(entry: &CatalogEntry) -> (r: bool)
    ensures
        r == entry_shape_ok(*entry),
{
    match entry.kind {
        CatalogKind::Database => entry.parent_id.is_none() && entry.relation_id.is_none(),
        CatalogKind::Schema => parent_is(entry, CatalogKind::Database) && entry.relation_id.is_none(),
        CatalogKind::Table | CatalogKind::View | CatalogKind::MaterializedView => {
            parent_is(entry, CatalogKind::Schema) && match &entry.relation_id {
                Some(rel) => id_eq(rel, &entry.id),
                None => false,
            }
        },
        CatalogKind::Function | CatalogKind::Procedure | CatalogKind::Sequence
        | CatalogKind::Type => parent_is(entry, CatalogKind::Schema) && entry.relation_id.is_none(),
        CatalogKind::Trigger => match (&entry.parent_id, &entry.relation_id) {
            (Some(p), Some(rel)) => rel.kind.is_relation() && (p.kind == CatalogKind::Schema
                || id_eq(p, rel)),
            _ => false,
        },
        _ => match &entry.parent_id {
            Some(p) => p.kind.is_relation() && match &entry.relation_id {
                Some(rel) => id_eq(rel, p),
                None => false,
            },
            None => false,
        },
    }
}

fn parent_is(entry: &CatalogEntry, kind: CatalogKind) -> (r: bool)
    ensures
        r == parent_kind_is(*entry, kind),
{
    match &entry.parent_id {
        Some(p) => p.kind == kind,
        None => false,
    }
}

pub open spec fn missing_part(e: CatalogEntry, part: &'static str) -> CatalogIssue {
    CatalogIssue::MissingQualifiedNamePart { id: e.id@, part: part@ }
}

/// Why an entry's qualified name is incomplete or outside `scope`.
pub open spec fn entry_scope_issue(e: CatalogEntry, scope: CatalogScope) -> Option<CatalogIssue> {
    let name = e.qualified_name@;
    if name.object.len() == 0 {
        Some(CatalogIssue::EmptyQualifiedObject)
    } else {
        match name.database {
            None => Some(missing_part(e, "database")),
            Some(db) => if db.len() == 0 {
                Some(missing_part(e, "database"))
            } else if !scope.allows_database_spec(db) {
                Some(CatalogIssue::EntryOutsideScope { id: e.id@ })
            } else if e.kind == CatalogKind::Database {
                if name.schema is Some || name.object != db {
                    Some(CatalogIssue::InvalidQualifiedNameShape { id: e.id@ })
                } else {
                    None
                }
            } else {
                match name.schema {
                    None => Some(missing_part(e, "schema")),
                    Some(sc) => if sc.len() == 0 {
                        Some(missing_part(e, "schema"))
                    } else if !scope.allows_schema_spec(db, sc) {
                        Some(CatalogIssue::EntryOutsideScope { id: e.id@ })
                    } else if e.kind == CatalogKind::Schema && name.object != sc {
                        Some(CatalogIssue::InvalidQualifiedNameShape { id: e.id@ })
                    } else {
                        None
                    },
                }
            },
        }
    }
}

/// The entry's qualified name must be complete and inside `scope`.
pub fn validate_entry_scope(entry: &CatalogEntry, scope: &CatalogScope) -> (r: Result<
    (),
    CatalogValidationError,
>)
    ensures
        result_view(r) == entry_scope_issue(*entry, *scope),
{
    if is_empty_str(entry.qualified_name.object.as_str()) {
        return Err(CatalogValidationError::EmptyQualifiedObject);
    }
    let database = match &entry.qualified_name.database {
        Some(d) => d,
        None => {
            return Err(
                CatalogValidationError::MissingQualifiedNamePart {
                    id: entry.id.clone(),
                    part: "database",
                },
            );
        },
    };
    if is_empty_str(database.as_str()) {
        return Err(
            CatalogValidationError::MissingQualifiedNamePart {
                id: entry.id.clone(),
                part: "database",
            },
        );
    }
    if !scope.allows_database(database.as_str()) {
        return Err(CatalogValidationError::EntryOutsideScope { id: entry.id.clone() });
    }
    if entry.kind == CatalogKind::Database {
        if entry.qualified_name.schema.is_some() || entry.qualified_name.object != *database {
            return Err(CatalogValidationError::InvalidQualifiedNameShape { id: entry.id.clone() });
        }
        return Ok(());
    }
    let schema = match &entry.qualified_name.schema {
        Some(s) => s,
        None => {
            return Err(
                CatalogValidationError::MissingQualifiedNamePart {
                    id: entry.id.clone(),
                    part: "schema",
                },
            );
        },
    };
    if is_empty_str(schema.as_str()) {
        return Err(
            CatalogValidationError::MissingQualifiedNamePart { id: entry.id.clone(), part: "schema" },
        );
    }
    if !scope.allows_schema(database.as_str(), schema.as_str()) {
        return Err(CatalogValidationError::EntryOutsideScope { id: entry.id.clone() });
    }
    if entry.kind == CatalogKind::Schema && entry.qualified_name.object != *schema {
        return Err(CatalogValidationError::InvalidQualifiedNameShape { id: entry.id.clone() });
    }
    Ok(())
}

pub open spec fn mismatch(e: CatalogEntry) -> CatalogIssue {
    CatalogIssue::NativeNamespaceMismatch { id: e.id@ }
}

/// The namespace check of one parent identity: its path's namespace must be
/// `(db, sc)`; a malformed parent path reports its own shape issue.
pub open spec fn parent_namespace_issue(
    e: CatalogEntry,
    p: CatalogId,
    db: Seq<char>,
    sc: Seq<char>,
) -> Option<CatalogIssue> {
    if p.kind == CatalogKind::Database {
        match database_path_spec(p@) {
            None => Some(database_shape_issue(p@)),
            Some(d) => if d == db {
                None
            } else {
                Some(mismatch(e))
            },
        }
    } else if p.kind == CatalogKind::Schema {
        match schema_path_spec(p@) {
            None => Some(schema_shape_issue(p@)),
            Some((d, s)) => if d == db && s == sc {
                None
            } else {
                Some(mismatch(e))
            },
        }
    } else if p.kind.is_relation() {
        match object_path_spec(p@) {
            None => Some(object_shape_issue(p@)),
            Some((d, s, _)) => if d == db && s == sc {
                None
            } else {
                Some(mismatch(e))
            },
        }
    } else {
        Some(mismatch(e))
    }
}

pub open spec fn relation_namespace_issue(
    e: CatalogEntry,
    rel: CatalogId,
    db: Seq<char>,
    sc: Seq<char>,
) -> Option<CatalogIssue> {
    if !rel.kind.is_relation() {
        Some(mismatch(e))
    } else {
        match object_path_spec(rel@) {
            None => Some(object_shape_issue(rel@)),
            Some((d, s, _)) => if d == db && s == sc {
                None
            } else {
                Some(mismatch(e))
            },
        }
    }
}

/// Why an entry's native path disagrees with its qualified name or with the
/// paths of its parent and owning relation.
pub open spec fn entry_namespace_issue(e: CatalogEntry) -> Option<CatalogIssue> {
    let name = e.qualified_name@;
    match name.database {
        None => Some(missing_part(e, "database")),
        Some(db) => if e.kind == CatalogKind::Database {
            match database_path_spec(e.id@) {
                None => Some(database_shape_issue(e.id@)),
                Some(d) => if d == db {
                    None
                } else {
                    Some(mismatch(e))
                },
            }
        } else {
            match name.schema {
                None => Some(missing_part(e, "schema")),
                Some(sc) => {
                    let own: Result<(Seq<char>, Seq<char>), CatalogIssue> = if e.kind
                        == CatalogKind::Schema {
                        match schema_path_spec(e.id@) {
                            None => Err(schema_shape_issue(e.id@)),
                            Some((d, s)) => Ok((d, s)),
                        }
                    } else {
                        match object_path_spec(e.id@) {
                            None => Err(object_shape_issue(e.id@)),
                            Some((d, s, o)) => if parent_kind_is(e, CatalogKind::Schema) && o
                                != name.object {
                                Err(CatalogIssue::NativeIdentityMismatch { id: e.id@ })
                            } else {
                                Ok((d, s))
                            },
                        }
                    };
                    match own {
                        Err(i) => Some(i),
                        Ok((d, s)) => if d != db || s != sc {
                            Some(mismatch(e))
                        } else {
                            first_issue(
                                match e.parent_id {
                                    Some(p) => parent_namespace_issue(e, p, db, sc),
                                    None => None,
                                },
                                first_issue(
                                    match e.relation_id {
                                        Some(rel) => relation_namespace_issue(e, rel, db, sc),
                                        None => None,
                                    },
                                    match e.parent_id {
                                        Some(p) => if p.kind.is_relation() && !strictly_extends(
                                            e.id@,
                                            p@,
                                        ) {
                                            Some(
                                                CatalogIssue::NativeIdentityMismatch { id: e.id@ },
                                            )
                                        } else {
                                            None
                                        },
                                        None => None,
                                    },
                                ),
                            )
                        },
                    }
                },
            }
        },
    }
}

fn pair_eq(a: (&str, &str), db: &str, sc: &str) -> (r: bool)
    ensures
        r == (a.0@ == db@ && a.1@ == sc@),
{
    str_eq(a.0, db) && str_eq(a.1, sc)
}

fn parent_namespace(entry: &CatalogEntry, p: &CatalogId, db: &str, sc: &str) -> (r: Result<
    (),
    CatalogValidationError,
>)
    ensures
        result_view(r) == parent_namespace_issue(*entry, *p, db@, sc@),
{
    let matches_parent = if p.kind == CatalogKind::Database {
        str_eq(database_path(p)?, db)
    } else if p.kind == CatalogKind::Schema {
        pair_eq(schema_path(p)?, db, sc)
    } else if p.kind.is_relation() {
        pair_eq(object_namespace(p)?, db, sc)
    } else {
        false
    };
    if !matches_parent {
        return Err(CatalogValidationError::NativeNamespaceMismatch { id: entry.id.clone() });
    }
    Ok(())
}

/// The entry's native path must agree with its qualified name and with the
/// paths of its parent and owning relation.
pub fn validate_entry_namespace(entry: &CatalogEntry) -> (r: Result<(), CatalogValidationError>)
    ensures
        result_view(r) == entry_namespace_issue(*entry),
{
    let database = match &entry.qualified_name.database {
        Some(d) => d,
        None => {
            return Err(
                CatalogValidationError::MissingQualifiedNamePart {
                    id: entry.id.clone(),
                    part: "database",
                },
            );
        },
    };
    if entry.kind == CatalogKind::Database {
        if str_eq(database_path(&entry.id)?, database.as_str()) {
            return Ok(());
        }
        return Err(CatalogValidationError::NativeNamespaceMismatch { id: entry.id.clone() });
    }
    let schema = match &entry.qualified_name.schema {
        Some(s) => s,
        None => {
            return Err(
                CatalogValidationError::MissingQualifiedNamePart {
                    id: entry.id.clone(),
                    part: "schema",
                },
            );
        },
    };
    let own = if entry.kind == CatalogKind::Schema {
        schema_path(&entry.id)?
    } else {
        let (native_database, native_schema, native_object) = object_path(&entry.id)?;
        if parent_is(entry, CatalogKind::Schema) && !str_eq(
            native_object,
            entry.qualified_name.object.as_str(),
        ) {
            return Err(CatalogValidationError::NativeIdentityMismatch { id: entry.id.clone() });
        }
        (native_database, native_schema)
    };
    if !pair_eq(own, database.as_str(), schema.as_str()) {
        return Err(CatalogValidationError::NativeNamespaceMismatch { id: entry.id.clone() });
    }
    if let Some(parent) = &entry.parent_id {
        parent_namespace(entry, parent, database.as_str(), schema.as_str())?;
    }
    if let Some(relation) = &entry.relation_id {
        if !relation.kind.is_relation() || !pair_eq(
            object_namespace(relation)?,
            database.as_str(),
            schema.as_str(),
        ) {
            return Err(CatalogValidationError::NativeNamespaceMismatch { id: entry.id.clone() });
        }
    }
    if let Some(parent) = &entry.parent_id {
        if parent.kind.is_relation() && !strictly_extends_native_path(&entry.id, parent) {
            return Err(CatalogValidationError::NativeIdentityMismatch { id: entry.id.clone() });
        }
    }
    Ok(())
}


pub open spec fn opt_profile_issue(id: Option<CatalogId>, profile_id: u128) -> Option<CatalogIssue> {
    match id {
        Some(i) => profile_issue(i.connection_id, profile_id),
        None => None,
    }
}

/// Whether an entry belongs to the listing `t`.
pub open spec fn entry_belongs(e: CatalogEntry, t: CatalogTarget) -> bool {
    match t {
        CatalogTarget::Databases => e.kind == CatalogKind::Database && e.parent_id is None,
        CatalogTarget::Schemas { database } => e.kind == CatalogKind::Schema && opt_id_view(
            e.parent_id,
        ) == Some(database@),
        CatalogTarget::Groups { .. } => false,
        CatalogTarget::Objects { schema, group } => group.contains_kind(e.kind) && opt_id_view(
            e.parent_id,
        ) == Some(schema@),
        CatalogTarget::RelationChildren { relation } => e.kind.is_relation_child() && opt_id_view(
            e.parent_id,
        ) == Some(relation@) && opt_id_view(e.relation_id) == Some(relation@),
    }
}

pub open spec fn entry_metadata_issue(e: CatalogEntry) -> Option<CatalogIssue> {
    if e.kind.is_relation_child() {
        metadata_issue(e.kind, e.metadata)
    } else if !(e.metadata is NoMetadata) {
        Some(CatalogIssue::MetadataKindMismatch { kind: e.kind })
    } else {
        None
    }
}

/// Why one entry cannot stand on a page for `request`.
pub open spec fn page_entry_issue(e: CatalogEntry, request: CatalogRequest) -> Option<CatalogIssue> {
    let profile = request.key.connection.profile_id;
    first_issue(
        profile_issue(e.id.connection_id, profile),
        first_issue(
            if e.id.native_path@.len() == 0 {
                Some(CatalogIssue::EmptyNativePath { id: e.id@ })
            } else {
                None
            },
            first_issue(
                if e.id.kind != e.kind {
                    Some(
                        CatalogIssue::EntryKindMismatch {
                            id: e.id@,
                            id_kind: e.id.kind,
                            entry_kind: e.kind,
                        },
                    )
                } else {
                    None
                },
                first_issue(
                    opt_profile_issue(e.parent_id, profile),
                    first_issue(
                        opt_profile_issue(e.relation_id, profile),
                        first_issue(
                            if !entry_shape_ok(e) {
                                Some(CatalogIssue::InvalidEntryShape { id: e.id@ })
                            } else {
                                None
                            },
                            first_issue(
                                entry_metadata_issue(e),
                                first_issue(
                                    metadata_profiles_issue(e.id@, e.metadata),
                                    first_issue(
                                        entry_scope_issue(e, request.scope),
                                        first_issue(
                                            entry_namespace_issue(e),
                                            first_issue(
                                                match e.relation_id {
                                                    Some(rel) => metadata_identity_issue(
                                                        rel@,
                                                        e.metadata,
                                                    ),
                                                    None => None,
                                                },
                                                if entry_belongs(e, request.key.target) {
                                                    None
                                                } else {
                                                    Some(
                                                        CatalogIssue::EntryOutsideTarget {
                                                            id: e.id@,
                                                            target: request.key.target@,
                                                        },
                                                    )
                                                },
                                            ),
                                        ),
                                    ),
                                ),
                            ),
                        ),
                    ),
                ),
            ),
        ),
    )
}

fn require_opt_profile(id: &Option<CatalogId>, profile_id: u128) -> (r: Result<
    (),
    CatalogValidationError,
>)
    ensures
        result_view(r) == opt_profile_issue(*id, profile_id),
{
    match id {
        Some(i) => require_profile(i, profile_id),
        None => Ok(()),
    }
}

fn entry_belongs_to(entry: &CatalogEntry, target: &CatalogTarget) -> (r: bool)
    ensures
        r == entry_belongs(*entry, *target),
{
    match target {
        CatalogTarget::Databases => entry.kind == CatalogKind::Database && entry.parent_id.is_none(),
        CatalogTarget::Schemas { database } => entry.kind == CatalogKind::Schema && match &entry.parent_id {
            Some(p) => id_eq(p, database),
            None => false,
        },
        CatalogTarget::Groups { .. } => false,
        CatalogTarget::Objects { schema, group } => group.contains_kind(entry.kind) && match &entry.parent_id {
            Some(p) => id_eq(p, schema),
            None => false,
        },
        CatalogTarget::RelationChildren { relation } => entry.kind.is_relation_child() && match &entry.parent_id {
            Some(p) => id_eq(p, relation),
            None => false,
        } && match &entry.relation_id {
            Some(rel) => id_eq(rel, relation),
            None => false,
        },
    }
}

/// One entry must fit the page's profile, scope, namespace and target.
pub fn validate_page_entry(entry: &CatalogEntry, request: &CatalogRequest) -> (r: Result<
    (),
    CatalogValidationError,
>)
    ensures
        result_view(r) == page_entry_issue(*entry, *request),
{
    let profile = request.key.connection.profile_id;
    require_profile(&entry.id, profile)?;
    if entry.id.native_path.len() == 0 {
        return Err(CatalogValidationError::EmptyNativePath { id: entry.id.clone() });
    }
    if entry.id.kind != entry.kind {
        return Err(
            CatalogValidationError::EntryKindMismatch {
                id: entry.id.clone(),
                id_kind: entry.id.kind,
                entry_kind: entry.kind,
            },
        );
    }
    require_opt_profile(&entry.parent_id, profile)?;
    require_opt_profile(&entry.relation_id, profile)?;
    if !valid_entry_shape(entry) {
        return Err(CatalogValidationError::InvalidEntryShape { id: entry.id.clone() });
    }
    if entry.kind.is_relation_child() {
        validate_metadata(entry.kind, &entry.metadata)?;
    } else if !matches!(entry.metadata, CatalogMetadata::NoMetadata) {
        return Err(CatalogValidationError::MetadataKindMismatch { kind: entry.kind });
    }
    validate_metadata_profiles(&entry.id, &entry.metadata)?;
    validate_entry_scope(entry, &request.scope)?;
    validate_entry_namespace(entry)?;
    if let Some(relation) = &entry.relation_id {
        validate_metadata_identity(relation, &entry.metadata)?;
    }
    if entry_belongs_to(entry, &request.key.target) {
        Ok(())
    } else {
        Err(
            CatalogValidationError::EntryOutsideTarget {
                id: entry.id.clone(),
                target: request.key.target.clone(),
            },
        )
    }
}


// ---------------------------------------------------------------------------
// Requests
// ---------------------------------------------------------------------------

pub open spec fn page_size_issue(page_size: usize) -> Option<CatalogIssue> {
    if 1 <= page_size <= MAX_CATALOG_PAGE_SIZE {
        None
    } else {
        Some(CatalogIssue::InvalidPageSize { found: page_size, max: MAX_CATALOG_PAGE_SIZE })
    }
}

pub open spec fn cursor_issue(c: Option<Seq<char>>) -> Option<CatalogIssue> {
    match c {
        Some(text) => match keyset_parts_spec(text) {
            Ok(_) => None,
            Err(e) => Some(e),
        },
        None => None,
    }
}

pub open spec fn scope_validation_issue(scope: CatalogScope) -> Option<CatalogIssue> {
    match scope.validate_spec() {
        Some(e) => Some(CatalogIssue::InvalidScope(e)),
        None => None,
    }
}

/// Why a request is malformed.
pub open spec fn request_issue(request: CatalogRequest) -> Option<CatalogIssue> {
    first_issue(
        page_size_issue(request.page_size),
        first_issue(
            scope_validation_issue(request.scope),
            first_issue(
                target_request_issue(
                    request.key.target,
                    request.key.connection.profile_id,
                    request.scope,
                ),
                cursor_issue(opt_cursor_view(request.key.cursor)),
            ),
        ),
    )
}

/// A page size must lie in `1..=MAX_CATALOG_PAGE_SIZE`.
pub fn validate_page_size(page_size: usize) -> (r: Result<(), CatalogValidationError>)
    ensures
        result_view(r) == page_size_issue(page_size),
{
    if 1 <= page_size && page_size <= MAX_CATALOG_PAGE_SIZE {
        Ok(())
    } else {
        Err(
            CatalogValidationError::InvalidPageSize {
                found: page_size,
                max: MAX_CATALOG_PAGE_SIZE,
            },
        )
    }
}

/// A cursor, when present, must be a keyset cursor.
pub fn validate_cursor(cursor: Option<&CatalogCursor>) -> (r: Result<(), CatalogValidationError>)
    ensures
        result_view(r) == cursor_issue(
            match cursor {
                Some(c) => Some(c@),
                None => None,
            },
        ),
{
    if let Some(cursor) = cursor {
        cursor.keyset_parts()?;
    }
    Ok(())
}

impl CatalogRequest {
    /// The request's page size, scope, target and cursor must be well formed.
    pub fn validate(&self) -> (r: Result<(), CatalogValidationError>)
        ensures
            result_view(r) == request_issue(*self),
    {
        validate_page_size(self.page_size)?;
        match self.scope.validate() {
            Ok(()) => {},
            Err(e) => {
                return Err(CatalogValidationError::InvalidScope(e));
            },
        }
        self.key.target.validate_for_request(self.key.connection.profile_id, &self.scope)?;
        validate_cursor(self.key.cursor.as_ref())
    }

    /// `validate`, and the request must come from `profile_id`.
    pub fn validate_for_profile(&self, profile_id: u128) -> (r: Result<(), CatalogValidationError>)
        ensures
            result_view(r) == first_issue(
                request_issue(*self),
                profile_issue(self.key.connection.profile_id, profile_id),
            ),
    {
        self.validate()?;
        if self.key.connection.profile_id == profile_id {
            Ok(())
        } else {
            Err(
                CatalogValidationError::ProfileMismatch {
                    child_profile_id: self.key.connection.profile_id,
                    parent_profile_id: profile_id,
                },
            )
        }
    }
}

// ---------------------------------------------------------------------------
// Pages
// ---------------------------------------------------------------------------

pub open spec fn completeness_of(next: Option<Seq<char>>) -> CatalogCompleteness {
    if next is Some {
        CatalogCompleteness::Partial
    } else {
        CatalogCompleteness::Complete
    }
}

/// A page with a continuation is partial; one without is complete.
pub fn completeness_for(next_cursor: Option<&CatalogCursor>) -> (r: CatalogCompleteness)
    ensures
        r == completeness_of(
            match next_cursor {
                Some(c) => Some(c@),
                None => None,
            },
        ),
{
    if next_cursor.is_some() {
        CatalogCompleteness::Partial
    } else {
        CatalogCompleteness::Complete
    }
}

pub open spec fn total_count_issue(total: CatalogCount, len: usize) -> Option<CatalogIssue> {
    match total {
        CatalogCount::Exact(c) | CatalogCount::AtLeast(c) => if c < len {
            Some(CatalogIssue::TotalCountBelowPayload { count: c, payload_len: len })
        } else {
            None
        },
        CatalogCount::Unknown => None,
    }
}

/// A known total must cover the page's payload.
pub fn validate_total_count(total_count: CatalogCount, active_payload_len: usize) -> (r: Result<
    (),
    CatalogValidationError,
>)
    ensures
        result_view(r) == total_count_issue(total_count, active_payload_len),
{
    let count = match total_count {
        CatalogCount::Exact(count) => count,
        CatalogCount::AtLeast(count) => count,
        CatalogCount::Unknown => return Ok(()),
    };
    if (count as u128) < (active_payload_len as u128) {
        Err(
            CatalogValidationError::TotalCountBelowPayload {
                count,
                payload_len: active_payload_len,
            },
        )
    } else {
        Ok(())
    }
}

/// Byte-lexicographic order of UTF-8 strings (`str`'s `Ord`).
pub open spec fn bytes_lt(a: Seq<u8>, b: Seq<u8>) -> bool
    decreases a.len(),
{
    if a.len() == 0 {
        b.len() > 0
    } else if b.len() == 0 {
        false
    } else if a[0] < b[0] {
        true
    } else if a[0] > b[0] {
        false
    } else {
        bytes_lt(a.drop_first(), b.drop_first())
    }
}

pub open spec fn str_lt(a: Seq<char>, b: Seq<char>) -> bool {
    bytes_lt(vstd::utf8::encode_utf8(a), vstd::utf8::encode_utf8(b))
}

/// Tuple order of (sort key, tie-breaker) pairs.
pub open spec fn pair_lt(p: (Seq<char>, Seq<char>), q: (Seq<char>, Seq<char>)) -> bool {
    str_lt(p.0, q.0) || (p.0 == q.0 && str_lt(p.1, q.1))
}

/// Whether `a < b` in `str` order.
pub fn str_less(a: &str, b: &str) -> (r: bool)
    ensures
        r == str_lt(a@, b@),
{
    let x = a.as_bytes();
    let y = b.as_bytes();
    let mut i: usize = 0;
    assert(x@.subrange(0, x@.len() as int) =~= x@);
    assert(y@.subrange(0, y@.len() as int) =~= y@);
    while i < x.len() && i < y.len() && x[i] == y[i]
        invariant
            i <= x@.len(),
            i <= y@.len(),
            x@ == vstd::utf8::encode_utf8(a@),
            y@ == vstd::utf8::encode_utf8(b@),
            bytes_lt(x@, y@) == bytes_lt(x@.subrange(i as int, x@.len() as int), y@.subrange(i as int, y@.len() as int)),
        decreases x@.len() - i,
    {
        let ghost xs = x@.subrange(i as int, x@.len() as int);
        let ghost ys = y@.subrange(i as int, y@.len() as int);
        assert(xs.drop_first() =~= x@.subrange(i + 1, x@.len() as int));
        assert(ys.drop_first() =~= y@.subrange(i + 1, y@.len() as int));
        i = i + 1;
    }
    let ghost xs = x@.subrange(i as int, x@.len() as int);
    let ghost ys = y@.subrange(i as int, y@.len() as int);
    if i == x.len() {
        assert(xs.len() == 0);
        i < y.len()
    } else if i == y.len() {
        false
    } else {
        assert(xs[0] == x@[i as int] && ys[0] == y@[i as int]);
        x[i] < y[i]
    }
}

pub open spec fn progress_issue(
    request: CatalogRequest,
    total: CatalogCount,
    next: Option<Seq<char>>,
    len: usize,
) -> Option<CatalogIssue> {
    let advance: Option<CatalogIssue> = match (next, opt_cursor_view(request.key.cursor)) {
        (Some(n), Some(rc)) => match keyset_parts_spec(rc) {
            Err(e) => Some(e),
            Ok(rp) => match keyset_parts_spec(n) {
                Err(e) => Some(e),
                Ok(np) => if pair_lt(rp, np) {
                    None
                } else {
                    Some(CatalogIssue::NonAdvancingCursor)
                },
            },
        },
        _ => None,
    };
    let size: Option<CatalogIssue> = if next is Some && len != request.page_size {
        Some(
            CatalogIssue::PartialPagePayloadSizeMismatch {
                expected: request.page_size,
                found: len,
            },
        )
    } else {
        None
    };
    let initial: Option<CatalogIssue> = match total {
        CatalogCount::Exact(c) => if request.key.cursor is None && !(if next is Some {
            c > len
        } else {
            c == len
        }) {
            Some(CatalogIssue::InitialExactCountMismatch { count: c, payload_len: len })
        } else {
            None
        },
        _ => None,
    };
    first_issue(advance, first_issue(size, initial))
}

/// A continuation must move past the request's cursor and follow a full
/// page; an initial exact count must agree with the payload.
pub fn validate_page_progress(
    request: &CatalogRequest,
    total_count: CatalogCount,
    next_cursor: Option<&CatalogCursor>,
    active_payload_len: usize,
) -> (r: Result<(), CatalogValidationError>)
    ensures
        result_view(r) == progress_issue(
            *request,
            total_count,
            match next_cursor {
                Some(c) => Some(c@),
                None => None,
            },
            active_payload_len,
        ),
{
    if let Some(next_cursor) = next_cursor {
        if let Some(request_cursor) = &request.key.cursor {
            let request_parts = request_cursor.keyset_parts()?;
            let next_parts = next_cursor.keyset_parts()?;
            let advances = str_less(request_parts.0, next_parts.0) || (str_eq(
                request_parts.0,
                next_parts.0,
            ) && str_less(request_parts.1, next_parts.1));
            if !advances {
                return Err(CatalogValidationError::NonAdvancingCursor);
            }
        }
        if active_payload_len != request.page_size {
            return Err(
                CatalogValidationError::PartialPagePayloadSizeMismatch {
                    expected: request.page_size,
                    found: active_payload_len,
                },
            );
        }
    }
    if request.key.cursor.is_none() {
        if let CatalogCount::Exact(count) = total_count {
            let payload_len = active_payload_len as u128;
            let is_consistent = if next_cursor.is_some() {
                count as u128 > payload_len
            } else {
                count as u128 == payload_len
            };
            if !is_consistent {
                return Err(
                    CatalogValidationError::InitialExactCountMismatch {
                        count,
                        payload_len: active_payload_len,
                    },
                );
            }
        }
    }
    Ok(())
}


pub open spec fn page_payload_len(page: CatalogPage, request: CatalogRequest) -> usize {
    if request.key.target is Groups {
        page.group_summaries@.len() as usize
    } else {
        page.entries@.len() as usize
    }
}

/// The first summary (from `i` on) whose group was already listed.
pub open spec fn group_dup_issue(s: Seq<CatalogGroupSummary>, i: int) -> Option<CatalogIssue>
    decreases s.len() - i,
{
    if i < 0 || i >= s.len() {
        None
    } else if exists|k: int| 0 <= k < i && (#[trigger] s[k]).group == s[i].group {
        Some(CatalogIssue::DuplicateGroupSummary { group: s[i].group })
    } else {
        group_dup_issue(s, i + 1)
    }
}

/// The first entry (from `i` on) that repeats an earlier identity or cannot
/// stand on the page.
pub open spec fn entries_issue(es: Seq<CatalogEntry>, request: CatalogRequest, i: int) -> Option<
    CatalogIssue,
>
    decreases es.len() - i,
{
    if i < 0 || i >= es.len() {
        None
    } else if exists|k: int| 0 <= k < i && (#[trigger] es[k]).id@ == es[i].id@ {
        Some(CatalogIssue::DuplicatePageEntry { id: es[i].id@ })
    } else {
        first_issue(page_entry_issue(es[i], request), entries_issue(es, request, i + 1))
    }
}

pub open spec fn payload_issue(page: CatalogPage, request: CatalogRequest) -> Option<CatalogIssue> {
    if request.key.target is Groups {
        if page.entries@.len() > 0 {
            Some(CatalogIssue::PagePayloadMismatch { target: request.key.target@ })
        } else {
            group_dup_issue(page.group_summaries@, 0)
        }
    } else if page.group_summaries@.len() > 0 {
        Some(CatalogIssue::PagePayloadMismatch { target: request.key.target@ })
    } else {
        None
    }
}

/// Why `page` is not a valid answer to `request`.
pub open spec fn page_issue(page: CatalogPage, request: CatalogRequest) -> Option<CatalogIssue> {
    let len = page_payload_len(page, request);
    let next = opt_cursor_view(page.next_cursor);
    first_issue(
        request_issue(request),
        first_issue(
            if page.key@ != request.key@ {
                Some(CatalogIssue::RequestKeyMismatch { expected: request.key@, found: page.key@ })
            } else {
                None
            },
            first_issue(
                cursor_issue(next),
                first_issue(
                    if page.completeness != completeness_of(next) {
                        Some(
                            CatalogIssue::CompletenessMismatch {
                                expected: completeness_of(next),
                                found: page.completeness,
                            },
                        )
                    } else {
                        None
                    },
                    first_issue(
                        payload_issue(page, request),
                        first_issue(
                            if len > request.page_size {
                                Some(
                                    CatalogIssue::TooManyPageEntries {
                                        found: len,
                                        max: request.page_size,
                                    },
                                )
                            } else {
                                None
                            },
                            first_issue(
                                total_count_issue(page.total_count, len),
                                first_issue(
                                    progress_issue(request, page.total_count, next, len),
                                    if request.key.target is Groups {
                                        None
                                    } else {
                                        entries_issue(page.entries@, request, 0)
                                    },
                                ),
                            ),
                        ),
                    ),
                ),
            ),
        ),
    )
}

/// Whether two listing targets are the same.
pub fn target_eq(a: &CatalogTarget, b: &CatalogTarget) -> (r: bool)
    ensures
        r == (a@ == b@),
{
    match (a, b) {
        (CatalogTarget::Databases, CatalogTarget::Databases) => true,
        (CatalogTarget::Schemas { database: x }, CatalogTarget::Schemas { database: y }) => id_eq(
            x,
            y,
        ),
        (CatalogTarget::Groups { schema: x }, CatalogTarget::Groups { schema: y }) => id_eq(x, y),
        (
            CatalogTarget::Objects { schema: x, group: g },
            CatalogTarget::Objects { schema: y, group: h },
        ) => *g == *h && id_eq(x, y),
        (
            CatalogTarget::RelationChildren { relation: x },
            CatalogTarget::RelationChildren { relation: y },
        ) => id_eq(x, y),
        _ => false,
    }
}

/// Whether two request keys are the same.
pub fn key_eq(a: &CatalogRequestKey, b: &CatalogRequestKey) -> (r: bool)
    ensures
        r == (a@ == b@),
{
    let cursors = match (&a.cursor, &b.cursor) {
        (Some(x), Some(y)) => str_eq(x.as_str(), y.as_str()),
        (None, None) => true,
        _ => false,
    };
    a.connection == b.connection && a.catalog_epoch == b.catalog_epoch && a.request_id
        == b.request_id && target_eq(&a.target, &b.target) && cursors
}

fn check_group_summaries(s: &Vec<CatalogGroupSummary>) -> (r: Result<(), CatalogValidationError>)
    ensures
        result_view(r) == group_dup_issue(s@, 0),
{
    let mut i: usize = 0;
    while i < s.len()
        invariant
            i <= s@.len(),
            group_dup_issue(s@, 0) == group_dup_issue(s@, i as int),
        decreases s@.len() - i,
    {
        let mut k: usize = 0;
        while k < i
            invariant
                i < s@.len(),
                k <= i,
                forall|m: int| 0 <= m < k ==> (#[trigger] s@[m]).group != s@[i as int].group,
            decreases i - k,
        {
            if s[k].group == s[i].group {
                return Err(CatalogValidationError::DuplicateGroupSummary { group: s[i].group });
            }
            k = k + 1;
        }
        i = i + 1;
    }
    Ok(())
}

fn check_entries(es: &Vec<CatalogEntry>, request: &CatalogRequest) -> (r: Result<
    (),
    CatalogValidationError,
>)
    ensures
        result_view(r) == entries_issue(es@, *request, 0),
{
    let mut i: usize = 0;
    while i < es.len()
        invariant
            i <= es@.len(),
            entries_issue(es@, *request, 0) == entries_issue(es@, *request, i as int),
        decreases es@.len() - i,
    {
        let mut k: usize = 0;
        while k < i
            invariant
                i < es@.len(),
                k <= i,
                forall|m: int| 0 <= m < k ==> (#[trigger] es@[m]).id@ != es@[i as int].id@,
            decreases i - k,
        {
            if id_eq(&es[k].id, &es[i].id) {
                return Err(CatalogValidationError::DuplicatePageEntry { id: es[i].id.clone() });
            }
            k = k + 1;
        }
        validate_page_entry(&es[i], request)?;
        i = i + 1;
    }
    Ok(())
}

impl CatalogPage {
    /// The page must answer `request`: same key, consistent cursor and
    /// completeness, a payload of the target's kind within the page size, a
    /// consistent count and progress, and entries that each belong.
    pub fn validate_for(&self, request: &CatalogRequest) -> (r: Result<(), CatalogValidationError>)
        ensures
            result_view(r) == page_issue(*self, *request),
    {
        request.validate()?;
        if !key_eq(&self.key, &request.key) {
            return Err(
                CatalogValidationError::RequestKeyMismatch {
                    expected: Box::new(request.key.clone()),
                    found: Box::new(self.key.clone()),
                },
            );
        }
        validate_cursor(self.next_cursor.as_ref())?;
        let expected_completeness = completeness_for(self.next_cursor.as_ref());
        if self.completeness != expected_completeness {
            return Err(
                CatalogValidationError::CompletenessMismatch {
                    expected: expected_completeness,
                    found: self.completeness,
                },
            );
        }
        let groups = matches!(request.key.target, CatalogTarget::Groups { .. });
        let active_payload_len = if groups {
            if self.entries.len() > 0 {
                return Err(
                    CatalogValidationError::PagePayloadMismatch {
                        target: Box::new(request.key.target.clone()),
                    },
                );
            }
            check_group_summaries(&self.group_summaries)?;
            self.group_summaries.len()
        } else {
            if self.group_summaries.len() > 0 {
                return Err(
                    CatalogValidationError::PagePayloadMismatch {
                        target: Box::new(request.key.target.clone()),
                    },
                );
            }
            self.entries.len()
        };
        if active_payload_len > request.page_size {
            return Err(
                CatalogValidationError::TooManyPageEntries {
                    found: active_payload_len,
                    max: request.page_size,
                },
            );
        }
        validate_total_count(self.total_count, active_payload_len)?;
        validate_page_progress(
            request,
            self.total_count,
            self.next_cursor.as_ref(),
            active_payload_len,
        )?;
        if !groups {
            check_entries(&self.entries, request)?;
        }
        Ok(())
    }

    /// A page of entries for `request`, validated against it.
    pub fn new(
        request: &CatalogRequest,
        entries: Vec<CatalogEntry>,
        total_count: CatalogCount,
        next_cursor: Option<CatalogCursor>,
    ) -> (r: Result<Self, CatalogValidationError>)
        ensures
            match r {
                Ok(p) => page_issue(p, *request) is None && p.key@ == request.key@ && p.entries
                    == entries && p.group_summaries@.len() == 0 && p.total_count == total_count
                    && p.next_cursor == next_cursor && p.completeness == completeness_of(
                    opt_cursor_view(next_cursor),
                ),
                Err(e) => exists|p: CatalogPage|
                    p.key@ == request.key@ && p.entries == entries && p.group_summaries@.len()
                        == 0 && p.total_count == total_count && p.next_cursor == next_cursor
                        && p.completeness == completeness_of(opt_cursor_view(next_cursor))
                        && page_issue(p, *request) == Some(e@),
            },
    {
        let completeness = completeness_for(next_cursor.as_ref());
        let page = CatalogPage {
            key: request.key.clone(),
            entries,
            group_summaries: Vec::new(),
            total_count,
            next_cursor,
            completeness,
        };
        page.validate_for(request)?;
        Ok(page)
    }

    /// A page of group summaries for a `Groups` request, validated against it.
    pub fn groups(
        request: &CatalogRequest,
        group_summaries: Vec<CatalogGroupSummary>,
        total_count: CatalogCount,
        next_cursor: Option<CatalogCursor>,
    ) -> (r: Result<Self, CatalogValidationError>)
        ensures
            !(request.key.target is Groups) ==> (r matches Err(e) && e@
                == (CatalogIssue::PagePayloadMismatch { target: request.key.target@ })),
            request.key.target is Groups ==> match r {
                Ok(p) => page_issue(p, *request) is None && p.key@ == request.key@
                    && p.entries@.len() == 0 && p.group_summaries == group_summaries
                    && p.total_count == total_count && p.next_cursor == next_cursor
                    && p.completeness == completeness_of(opt_cursor_view(next_cursor)),
                Err(e) => exists|p: CatalogPage|
                    p.key@ == request.key@ && p.entries@.len() == 0 && p.group_summaries
                        == group_summaries && p.total_count == total_count && p.next_cursor
                        == next_cursor && p.completeness == completeness_of(
                        opt_cursor_view(next_cursor),
                    ) && page_issue(p, *request) == Some(e@),
            },
    {
        if !matches!(request.key.target, CatalogTarget::Groups { .. }) {
            return Err(
                CatalogValidationError::PagePayloadMismatch {
                    target: Box::new(request.key.target.clone()),
                },
            );
        }
        let completeness = completeness_for(next_cursor.as_ref());
        let page = CatalogPage {
            key: request.key.clone(),
            entries: Vec::new(),
            group_summaries,
            total_count,
            next_cursor,
            completeness,
        };
        page.validate_for(request)?;
        Ok(page)
    }
}


/// Cuts an over-fetched, sorted row list to one page and returns the cursor
/// of its last row, or `None` when the rows fit on the page.
pub fn finalize_keyset_page<T, SortKey: Fn(&T) -> String, TieBreaker: Fn(&T) -> String>(
    rows: &mut Vec<T>,
    page_size: usize,
    normalized_sort_key: SortKey,
    native_tie_breaker: TieBreaker,
) -> (r: Result<Option<CatalogCursor>, CatalogValidationError>)
    requires
        forall|x: &T| #[trigger] normalized_sort_key.requires((x,)),
        forall|x: &T| #[trigger] native_tie_breaker.requires((x,)),
    ensures
        page_size_issue(page_size) is Some ==> (r matches Err(e) && Some(e@) == page_size_issue(
            page_size,
        )) && final(rows)@ == old(rows)@,
        page_size_issue(page_size) is None && old(rows)@.len() <= page_size ==> (r matches Ok(None))
            && final(rows)@ == old(rows)@,
        page_size_issue(page_size) is None && old(rows)@.len() > page_size ==> exists|
            s: String,
            t: String,
        |
            {
                &&& normalized_sort_key.ensures((&old(rows)@[page_size - 1],), s)
                &&& native_tie_breaker.ensures((&old(rows)@[page_size - 1],), t)
                &&& if t@.len() == 0 {
                    (r matches Err(e) && e@ == CatalogIssue::EmptyCursorTieBreaker) && final(rows)@
                        == old(rows)@
                } else if crate::cursor::utf8_len(s@) + crate::cursor::utf8_len(t@)
                    > usize::MAX {
                    (r matches Err(e) && e@ == CatalogIssue::MalformedCursor) && final(rows)@
                        == old(rows)@
                } else {
                    (r matches Ok(Some(c)) && c@ == crate::cursor::keyset_encode(s@, t@))
                        && final(rows)@ == old(rows)@.subrange(0, page_size as int)
                }
            },
{
    validate_page_size(page_size)?;
    if rows.len() <= page_size {
        return Ok(None);
    }
    let last = &rows[page_size - 1];
    let s = normalized_sort_key(last);
    let t = native_tie_breaker(last);
    let cursor = CatalogCursor::from_keyset(s.as_str(), t.as_str())?;
    rows.truncate(page_size);
    Ok(Some(cursor))
}

/// The error for a listing target that the server no longer has: a
/// configuration error coded `catalog_target_not_found` that names the
/// dialect and the kind of listing.
pub fn catalog_target_not_found(dialect: &str, target: &CatalogTarget) -> (r: crate::error::DatabaseError)
    ensures
        r.category == crate::error::ErrorCategory::Configuration,
        crate::text::opt_view(r.code) == Some("catalog_target_not_found"@),
        r.message@ == crate::text::sanitized(
            dialect@ + " catalog target was not found: "@ + target_description(*target)@,
        ),
        r.diagnostic is None,
{
    let mut text = crate::text::owned(dialect);
    crate::text::push_str(&mut text, " catalog target was not found: ");
    crate::text::push_str(&mut text, target.description());
    crate::error::DatabaseError {
        category: crate::error::ErrorCategory::Configuration,
        code: Some(crate::text::owned("catalog_target_not_found")),
        message: crate::text::sanitize_terminal_text(text.as_str()),
        diagnostic: None,
    }
}

proof fn lemma_group_dup_none(s: Seq<CatalogGroupSummary>, i: int)
    requires
        0 <= i,
        group_dup_issue(s, i) is None,
    ensures
        forall|a: int, b: int|
            #![trigger s[a], s[b]]
            0 <= a < b < s.len() && i <= b ==> s[a].group != s[b].group,
    decreases s.len() - i,
{
    if i < s.len() {
        lemma_group_dup_none(s, i + 1);
        assert forall|a: int, b: int| #![trigger s[a], s[b]] 0 <= a < b < s.len() && i <= b implies s[a].group
            != s[b].group by {
            if b == i {
                assert(!(0 <= a < i && s[a].group == s[i].group));
            }
        }
    }
}

proof fn lemma_entries_none(es: Seq<CatalogEntry>, request: CatalogRequest, i: int)
    requires
        0 <= i,
        entries_issue(es, request, i) is None,
    ensures
        forall|a: int, b: int|
            #![trigger es[a], es[b]]
            0 <= a < b < es.len() && i <= b ==> es[a].id@ != es[b].id@,
        forall|b: int| i <= b < es.len() ==> page_entry_issue(#[trigger] es[b], request) is None,
    decreases es.len() - i,
{
    if i < es.len() {
        lemma_entries_none(es, request, i + 1);
        assert forall|a: int, b: int| #![trigger es[a], es[b]] 0 <= a < b < es.len() && i <= b implies es[a].id@
            != es[b].id@ by {
            if b == i {
                assert(!(0 <= a < i && es[a].id@ == es[i].id@));
            }
        }
    }
}

/// What a page that passes `validate_for` guarantees of itself and its
/// request: the request is valid and its key is the page's; the page is
/// partial exactly when it has a continuation; the payload is of the
/// target's kind, within the page size, without a repeated group or entry
/// identity, each entry belonging to the request; a known count covers the
/// payload; a continuation follows a full page and moves past the request's
/// cursor; and on a first page an exact count exceeds the payload exactly
/// when there is a continuation, and equals it otherwise.
pub proof fn lemma_valid_page(page: CatalogPage, request: CatalogRequest)
    requires
        page_issue(page, request) is None,
    ensures
        ({
            let n = page_payload_len(page, request);
            let next = opt_cursor_view(page.next_cursor);
            &&& request_issue(request) is None
            &&& page.key@ == request.key@
            &&& page.completeness == completeness_of(next)
            &&& n <= request.page_size
            &&& request.key.target is Groups ==> page.entries@.len() == 0 && forall|a: int, b: int|
                #![trigger page.group_summaries@[a], page.group_summaries@[b]]
                0 <= a < b < page.group_summaries@.len() ==> page.group_summaries@[a].group
                    != page.group_summaries@[b].group
            &&& !(request.key.target is Groups) ==> page.group_summaries@.len() == 0 && (forall|
                a: int,
                b: int,
            |
                #![trigger page.entries@[a], page.entries@[b]]
                0 <= a < b < page.entries@.len() ==> page.entries@[a].id@ != page.entries@[b].id@)
                && forall|b: int|
                0 <= b < page.entries@.len() ==> page_entry_issue(#[trigger] page.entries@[b], request)
                    is None
            &&& match page.total_count {
                CatalogCount::Exact(c) | CatalogCount::AtLeast(c) => c >= n,
                CatalogCount::Unknown => true,
            }
            &&& next is Some ==> n == request.page_size
            &&& (request.key.cursor is None && page.total_count is Exact) ==> if next is Some {
                page.total_count->Exact_0 > n
            } else {
                page.total_count->Exact_0 == n
            }
            &&& (next is Some && request.key.cursor is Some) ==> {
                &&& keyset_parts_spec(request.key.cursor->Some_0@) is Ok
                &&& keyset_parts_spec(next->Some_0) is Ok
                &&& pair_lt(
                    keyset_parts_spec(request.key.cursor->Some_0@)->Ok_0,
                    keyset_parts_spec(next->Some_0)->Ok_0,
                )
            }
        }),
{
    if request.key.target is Groups {
        lemma_group_dup_none(page.group_summaries@, 0);
    } else {
        lemma_entries_none(page.entries@, request, 0);
    }
}

} // verus!
