//! Shape rules shared by catalog entries, targets and pages.
use vstd::prelude::*;

use crate::catalog::{
    opt_id_view, strings_eq, CatalogId, CatalogIdView, CatalogKind, CatalogMetadata,
    ConstraintMembership, ConstraintMetadata,
};
use crate::catalog_error::{result_view, CatalogIssue, CatalogValidationError};
use crate::page::CatalogTarget;
use crate::text::{is_empty_str, views};

verus! {

// ---------------------------------------------------------------------------
// Kinds and profiles
// ---------------------------------------------------------------------------

pub open spec fn kind_issue(found: CatalogKind, expected: CatalogKind, what: &'static str) -> Option<
    CatalogIssue,
> {
    if found == expected {
        None
    } else {
        Some(CatalogIssue::InvalidKind { expected: what@, found })
    }
}

pub open spec fn relation_issue(found: CatalogKind, what: &'static str) -> Option<CatalogIssue> {
    if found.is_relation() {
        None
    } else {
        Some(CatalogIssue::InvalidKind { expected: what@, found })
    }
}

pub open spec fn profile_issue(child: u128, parent: u128) -> Option<CatalogIssue> {
    if child == parent {
        None
    } else {
        Some(CatalogIssue::ProfileMismatch { child_profile_id: child, parent_profile_id: parent })
    }
}

/// `found` must be `expected`.
pub fn require_kind(found: CatalogKind, expected: CatalogKind, what: &'static str) -> (r: Result<
    (),
    CatalogValidationError,
>)
    ensures
        result_view(r) == kind_issue(found, expected, what),
{
    if found == expected {
        Ok(())
    } else {
        Err(CatalogValidationError::InvalidKind { expected: what, found })
    }
}

/// `found` must be a relation kind.
pub fn require_relation(found: CatalogKind, what: &'static str) -> (r: Result<
    (),
    CatalogValidationError,
>)
    ensures
        result_view(r) == relation_issue(found, what),
{
    if found.is_relation() {
        Ok(())
    } else {
        Err(CatalogValidationError::InvalidKind { expected: what, found })
    }
}

/// A child must be read through its parent's profile.
pub fn require_same_profile(child: &CatalogId, parent: &CatalogId) -> (r: Result<
    (),
    CatalogValidationError,
>)
    ensures
        result_view(r) == profile_issue(child.connection_id, parent.connection_id),
{
    require_profile(child, parent.connection_id)
}

/// An identity must belong to `profile_id`.
pub fn require_profile(id: &CatalogId, profile_id: u128) -> (r: Result<(), CatalogValidationError>)
    ensures
        result_view(r) == profile_issue(id.connection_id, profile_id),
{
    if id.connection_id == profile_id {
        Ok(())
    } else {
        Err(
            CatalogValidationError::ProfileMismatch {
                child_profile_id: id.connection_id,
                parent_profile_id: profile_id,
            },
        )
    }
}

// ---------------------------------------------------------------------------
// Native paths
// ---------------------------------------------------------------------------

pub open spec fn database_path_spec(id: CatalogIdView) -> Option<Seq<char>> {
    if id.path.len() == 1 && id.path[0].len() > 0 {
        Some(id.path[0])
    } else {
        None
    }
}

pub open spec fn schema_path_spec(id: CatalogIdView) -> Option<(Seq<char>, Seq<char>)> {
    if id.path.len() == 2 && id.path[0].len() > 0 && id.path[1].len() > 0 {
        Some((id.path[0], id.path[1]))
    } else {
        None
    }
}

pub open spec fn object_path_spec(id: CatalogIdView) -> Option<(Seq<char>, Seq<char>, Seq<char>)> {
    if id.path.len() >= 3 && id.path[0].len() > 0 && id.path[1].len() > 0 && id.path[2].len()
        > 0 {
        Some((id.path[0], id.path[1], id.path[2]))
    } else {
        None
    }
}

pub open spec fn database_shape_issue(id: CatalogIdView) -> CatalogIssue {
    CatalogIssue::InvalidNativePathShape { id, expected: "[database]"@ }
}

pub open spec fn schema_shape_issue(id: CatalogIdView) -> CatalogIssue {
    CatalogIssue::InvalidNativePathShape { id, expected: "[database, schema]"@ }
}

pub open spec fn object_shape_issue(id: CatalogIdView) -> CatalogIssue {
    CatalogIssue::InvalidNativePathShape { id, expected: "at least [database, schema, object]"@ }
}

/// The database of a database identity's path `[database]`.
pub fn database_path(id: &CatalogId) -> (r: Result<&str, CatalogValidationError>)
    ensures
        match r {
            Ok(d) => database_path_spec(id@) == Some(d@),
            Err(e) => database_path_spec(id@) is None && e@ == database_shape_issue(id@),
        },
{
    if id.native_path.len() == 1 && !is_empty_str(id.native_path[0].as_str()) {
        assert(views(id.native_path@)[0] == id.native_path@[0]@);
        Ok(id.native_path[0].as_str())
    } else {
        proof {
            if id.native_path@.len() == 1 {
                assert(views(id.native_path@)[0] == id.native_path@[0]@);
            }
        }
        Err(
            CatalogValidationError::InvalidNativePathShape {
                id: id.clone(),
                expected: "[database]",
            },
        )
    }
}

/// The database and schema of a schema identity's path `[database, schema]`.
pub fn schema_path(id: &CatalogId) -> (r: Result<(&str, &str), CatalogValidationError>)
    ensures
        match r {
            Ok((d, s)) => schema_path_spec(id@) == Some((d@, s@)),
            Err(e) => schema_path_spec(id@) is None && e@ == schema_shape_issue(id@),
        },
{
    let p = &id.native_path;
    proof {
        if p@.len() >= 2 {
            assert(views(p@)[0] == p@[0]@);
            assert(views(p@)[1] == p@[1]@);
        }
    }
    if p.len() == 2 && !is_empty_str(p[0].as_str()) && !is_empty_str(p[1].as_str()) {
        Ok((p[0].as_str(), p[1].as_str()))
    } else {
        Err(
            CatalogValidationError::InvalidNativePathShape {
                id: id.clone(),
                expected: "[database, schema]",
            },
        )
    }
}

/// The database, schema and object of a path that starts `[database, schema, object]`.
pub fn object_path(id: &CatalogId) -> (r: Result<(&str, &str, &str), CatalogValidationError>)
    ensures
        match r {
            Ok((d, s, o)) => object_path_spec(id@) == Some((d@, s@, o@)),
            Err(e) => object_path_spec(id@) is None && e@ == object_shape_issue(id@),
        },
{
    let p = &id.native_path;
    proof {
        if p@.len() >= 3 {
            assert(views(p@)[0] == p@[0]@);
            assert(views(p@)[1] == p@[1]@);
            assert(views(p@)[2] == p@[2]@);
        }
    }
    if p.len() >= 3 && !is_empty_str(p[0].as_str()) && !is_empty_str(p[1].as_str())
        && !is_empty_str(p[2].as_str()) {
        Ok((p[0].as_str(), p[1].as_str(), p[2].as_str()))
    } else {
        Err(
            CatalogValidationError::InvalidNativePathShape {
                id: id.clone(),
                expected: "at least [database, schema, object]",
            },
        )
    }
}

/// The database and schema of an object path.
pub fn object_namespace(id: &CatalogId) -> (r: Result<(&str, &str), CatalogValidationError>)
    ensures
        match r {
            Ok((d, s)) => object_path_spec(id@) matches Some((d2, s2, _)) && d@ == d2 && s@ == s2,
            Err(e) => object_path_spec(id@) is None && e@ == object_shape_issue(id@),
        },
{
    let (database, schema, _) = object_path(id)?;
    Ok((database, schema))
}

pub open spec fn strictly_extends(child: CatalogIdView, parent: CatalogIdView) -> bool {
    child.path.len() > parent.path.len() && child.path.subrange(0, parent.path.len() as int)
        == parent.path
}

/// Whether `child`'s path is `parent`'s path followed by at least one segment.
pub fn strictly_extends_native_path(child: &CatalogId, parent: &CatalogId) -> (r: bool)
    ensures
        r == strictly_extends(child@, parent@),
{
    let c = &child.native_path;
    let p = &parent.native_path;
    if c.len() <= p.len() {
        return false;
    }
    let mut i: usize = 0;
    while i < p.len()
        invariant
            p@.len() < c@.len(),
            i <= p@.len(),
            forall|k: int| 0 <= k < i ==> c@[k]@ == p@[k]@,
        decreases p@.len() - i,
    {
        if c[i] != p[i] {
            assert(views(c@).subrange(0, p@.len() as int)[i as int] != views(p@)[i as int]);
            return false;
        }
        i = i + 1;
    }
    assert(views(c@).subrange(0, p@.len() as int) =~= views(p@));
    true
}

// ---------------------------------------------------------------------------
// Metadata
// ---------------------------------------------------------------------------

pub open spec fn metadata_fits_kind(kind: CatalogKind, m: CatalogMetadata) -> bool {
    match (kind, m) {
        (CatalogKind::Column, CatalogMetadata::Column(_)) => true,
        (CatalogKind::Index, CatalogMetadata::Index(_)) => true,
        (
            CatalogKind::PrimaryKey,
            CatalogMetadata::Constraint(ConstraintMetadata::PrimaryKey { .. }),
        ) => true,
        (
            CatalogKind::UniqueConstraint,
            CatalogMetadata::Constraint(ConstraintMetadata::Unique { .. }),
        ) => true,
        (
            CatalogKind::ForeignKey,
            CatalogMetadata::Constraint(ConstraintMetadata::ForeignKey { .. }),
        ) => true,
        (
            CatalogKind::CheckConstraint,
            CatalogMetadata::Constraint(ConstraintMetadata::Check { .. }),
        ) => true,
        (CatalogKind::Trigger, CatalogMetadata::NoMetadata) => true,
        _ => false,
    }
}

pub open spec fn foreign_key_counts_match(m: CatalogMetadata) -> bool {
    match m {
        CatalogMetadata::Constraint(
            ConstraintMetadata::ForeignKey { columns, referenced_columns, .. },
        ) => columns@.len() == referenced_columns@.len(),
        _ => true,
    }
}

pub open spec fn metadata_issue(kind: CatalogKind, m: CatalogMetadata) -> Option<CatalogIssue> {
    if !metadata_fits_kind(kind, m) {
        Some(CatalogIssue::MetadataKindMismatch { kind })
    } else if !foreign_key_counts_match(m) {
        Some(CatalogIssue::ForeignKeyColumnCountMismatch)
    } else {
        None
    }
}

/// Relation-child metadata must fit the entry's kind, and a foreign key must
/// pair its columns one to one.
pub fn validate_metadata(kind: CatalogKind, metadata: &CatalogMetadata) -> (r: Result<
    (),
    CatalogValidationError,
>)
    ensures
        result_view(r) == metadata_issue(kind, *metadata),
{
    let fits = match (kind, metadata) {
        (CatalogKind::Column, CatalogMetadata::Column(_)) => true,
        (CatalogKind::Index, CatalogMetadata::Index(_)) => true,
        (
            CatalogKind::PrimaryKey,
            CatalogMetadata::Constraint(ConstraintMetadata::PrimaryKey { .. }),
        ) => true,
        (
            CatalogKind::UniqueConstraint,
            CatalogMetadata::Constraint(ConstraintMetadata::Unique { .. }),
        ) => true,
        (
            CatalogKind::ForeignKey,
            CatalogMetadata::Constraint(ConstraintMetadata::ForeignKey { .. }),
        ) => true,
        (
            CatalogKind::CheckConstraint,
            CatalogMetadata::Constraint(ConstraintMetadata::Check { .. }),
        ) => true,
        (CatalogKind::Trigger, CatalogMetadata::NoMetadata) => true,
        _ => false,
    };
    if !fits {
        return Err(CatalogValidationError::MetadataKindMismatch { kind });
    }
    if let CatalogMetadata::Constraint(
        ConstraintMetadata::ForeignKey { columns, referenced_columns, .. },
    ) = metadata {
        if columns.len() != referenced_columns.len() {
            return Err(CatalogValidationError::ForeignKeyColumnCountMismatch);
        }
    }
    Ok(())
}

pub open spec fn membership_kind_ok(kind: CatalogKind) -> bool {
    kind is PrimaryKey || kind is UniqueConstraint || kind is ForeignKey
}

/// The first membership (from `i` on) read through another profile or not
/// naming a key constraint.
pub open spec fn membership_issue(
    entry: CatalogIdView,
    ms: Seq<ConstraintMembership>,
    i: int,
) -> Option<CatalogIssue>
    decreases ms.len() - i,
{
    if i < 0 || i >= ms.len() {
        None
    } else if ms[i].constraint_id.connection_id != entry.connection_id {
        Some(
            CatalogIssue::ProfileMismatch {
                child_profile_id: entry.connection_id,
                parent_profile_id: ms[i].constraint_id.connection_id,
            },
        )
    } else if !membership_kind_ok(ms[i].constraint_id.kind) {
        Some(
            CatalogIssue::InvalidKind {
                expected: "column constraint membership"@,
                found: ms[i].constraint_id.kind,
            },
        )
    } else {
        membership_issue(entry, ms, i + 1)
    }
}

pub open spec fn metadata_profiles_issue(entry: CatalogIdView, m: CatalogMetadata) -> Option<
    CatalogIssue,
> {
    match m {
        CatalogMetadata::Column(c) => membership_issue(entry, c.constraint_memberships@, 0),
        _ => None,
    }
}

/// A column's constraint memberships must come from the same profile and name
/// key constraints.
pub fn validate_metadata_profiles(entry: &CatalogId, metadata: &CatalogMetadata) -> (r: Result<
    (),
    CatalogValidationError,
>)
    ensures
        result_view(r) == metadata_profiles_issue(entry@, *metadata),
{
    let column = match metadata {
        CatalogMetadata::Column(column) => column,
        _ => return Ok(()),
    };
    let ms = &column.constraint_memberships;
    let mut i: usize = 0;
    while i < ms.len()
        invariant
            i <= ms@.len(),
            membership_issue(entry@, ms@, 0) == membership_issue(entry@, ms@, i as int),
        decreases ms@.len() - i,
    {
        require_same_profile(entry, &ms[i].constraint_id)?;
        let kind = ms[i].constraint_id.kind;
        if !matches!(
            kind,
            CatalogKind::PrimaryKey | CatalogKind::UniqueConstraint | CatalogKind::ForeignKey
        ) {
            return Err(
                CatalogValidationError::InvalidKind {
                    expected: "column constraint membership",
                    found: kind,
                },
            );
        }
        i = i + 1;
    }
    Ok(())
}

/// The first membership (from `i` on) whose constraint is not under `relation`.
pub open spec fn membership_identity_issue(
    relation: CatalogIdView,
    ms: Seq<ConstraintMembership>,
    i: int,
) -> Option<CatalogIssue>
    decreases ms.len() - i,
{
    if i < 0 || i >= ms.len() {
        None
    } else if !strictly_extends(ms[i].constraint_id@, relation) {
        Some(CatalogIssue::NativeIdentityMismatch { id: ms[i].constraint_id@ })
    } else {
        membership_identity_issue(relation, ms, i + 1)
    }
}

pub open spec fn metadata_identity_issue(relation: CatalogIdView, m: CatalogMetadata) -> Option<
    CatalogIssue,
> {
    match m {
        CatalogMetadata::Column(c) => membership_identity_issue(
            relation,
            c.constraint_memberships@,
            0,
        ),
        _ => None,
    }
}

/// A column's constraints must live under its relation's native path.
pub fn validate_metadata_identity(relation: &CatalogId, metadata: &CatalogMetadata) -> (r: Result<
    (),
    CatalogValidationError,
>)
    ensures
        result_view(r) == metadata_identity_issue(relation@, *metadata),
{
    let column = match metadata {
        CatalogMetadata::Column(column) => column,
        _ => return Ok(()),
    };
    let ms = &column.constraint_memberships;
    let mut i: usize = 0;
    while i < ms.len()
        invariant
            i <= ms@.len(),
            membership_identity_issue(relation@, ms@, 0) == membership_identity_issue(
                relation@,
                ms@,
                i as int,
            ),
        decreases ms@.len() - i,
    {
        if !strictly_extends_native_path(&ms[i].constraint_id, relation) {
            return Err(
                CatalogValidationError::NativeIdentityMismatch {
                    id: ms[i].constraint_id.clone(),
                },
            );
        }
        i = i + 1;
    }
    Ok(())
}

} // verus!
