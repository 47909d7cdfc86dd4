//! Constructors that only build well-shaped catalog entries.
use vstd::prelude::*;

use crate::catalog::{
    CatalogEntry, CatalogId, CatalogKind, CatalogMetadata, OptionalMetadata, QualifiedName,
};
use crate::catalog_error::{CatalogIssue, CatalogValidationError};
use crate::rules::{
    kind_issue, metadata_issue, metadata_profiles_issue, profile_issue, relation_issue,
    require_kind, require_relation, require_same_profile, validate_metadata,
    validate_metadata_profiles,
};
use crate::text::is_empty_str;

verus! {

/// The first issue of two.
pub open spec fn first_issue(a: Option<CatalogIssue>, b: Option<CatalogIssue>) -> Option<
    CatalogIssue,
> {
    if a is Some {
        a
    } else {
        b
    }
}

pub open spec fn name_issue(name: QualifiedName) -> Option<CatalogIssue> {
    if name.object@.len() == 0 {
        Some(CatalogIssue::EmptyQualifiedObject)
    } else {
        None
    }
}

/// The view of a constructor's outcome: the issue it reports, if any.
pub open spec fn entry_issue(r: Result<CatalogEntry, CatalogValidationError>) -> Option<
    CatalogIssue,
> {
    match r {
        Ok(_) => None,
        Err(e) => Some(e@),
    }
}

/// The fields every constructor copies from its arguments.
pub open spec fn entry_fields(
    e: CatalogEntry,
    id: CatalogId,
    qualified_name: QualifiedName,
    native_kind: String,
    comment: OptionalMetadata<String>,
) -> bool {
    &&& e.kind == id.kind
    &&& e.id == id
    &&& e.qualified_name == qualified_name
    &&& e.native_kind == native_kind
    &&& e.comment == comment
}

pub open spec fn object_kind_issue(kind: CatalogKind) -> Option<CatalogIssue> {
    if kind is Function || kind is Procedure || kind is Sequence || kind is Type {
        None
    } else {
        Some(
            CatalogIssue::InvalidKind { expected: "schema-level non-relation object"@, found: kind },
        )
    }
}

pub open spec fn child_kind_issue(kind: CatalogKind) -> Option<CatalogIssue> {
    if kind.is_relation_child() {
        None
    } else {
        Some(CatalogIssue::InvalidKind { expected: "relation child"@, found: kind })
    }
}

impl CatalogEntry {
    fn assemble(
        id: CatalogId,
        qualified_name: QualifiedName,
        native_kind: String,
        comment: OptionalMetadata<String>,
        parent_id: Option<CatalogId>,
        metadata: CatalogMetadata,
        expandable: bool,
        relation_id: Option<CatalogId>,
    ) -> (r: Result<Self, CatalogValidationError>)
        ensures
            entry_issue(r) == name_issue(qualified_name),
            r matches Ok(e) ==> entry_fields(e, id, qualified_name, native_kind, comment)
                && e.parent_id == parent_id && e.metadata == metadata && e.expandable
                == expandable && e.relation_id == relation_id,
    {
        if is_empty_str(qualified_name.object.as_str()) {
            return Err(CatalogValidationError::EmptyQualifiedObject);
        }
        Ok(
            CatalogEntry {
                kind: id.kind,
                id,
                parent_id,
                native_kind,
                qualified_name,
                comment,
                metadata,
                expandable,
                relation_id,
            },
        )
    }

    /// A database entry: no parent, no owning relation, no metadata.
    pub fn database(
        id: CatalogId,
        qualified_name: QualifiedName,
        native_kind: String,
        comment: OptionalMetadata<String>,
        expandable: bool,
    ) -> (r: Result<Self, CatalogValidationError>)
        ensures
            entry_issue(r) == first_issue(
                kind_issue(id.kind, CatalogKind::Database, "database"),
                name_issue(qualified_name),
            ),
            r matches Ok(e) ==> entry_fields(e, id, qualified_name, native_kind, comment)
                && e.parent_id is None && e.metadata is NoMetadata && e.expandable == expandable
                && e.relation_id is None,
    {
        require_kind(id.kind, CatalogKind::Database, "database")?;
        Self::assemble(
            id,
            qualified_name,
            native_kind,
            comment,
            None,
            CatalogMetadata::NoMetadata,
            expandable,
            None,
        )
    }

    /// A schema entry under a database.
    pub fn schema(
        id: CatalogId,
        database: CatalogId,
        qualified_name: QualifiedName,
        native_kind: String,
        comment: OptionalMetadata<String>,
        expandable: bool,
    ) -> (r: Result<Self, CatalogValidationError>)
        ensures
            entry_issue(r) == first_issue(
                kind_issue(id.kind, CatalogKind::Schema, "schema"),
                first_issue(
                    kind_issue(database.kind, CatalogKind::Database, "database parent"),
                    first_issue(
                        profile_issue(id.connection_id, database.connection_id),
                        name_issue(qualified_name),
                    ),
                ),
            ),
            r matches Ok(e) ==> entry_fields(e, id, qualified_name, native_kind, comment)
                && e.parent_id == Some(database) && e.metadata is NoMetadata && e.expandable
                == expandable && e.relation_id is None,
    {
        require_kind(id.kind, CatalogKind::Schema, "schema")?;
        require_kind(database.kind, CatalogKind::Database, "database parent")?;
        require_same_profile(&id, &database)?;
        Self::assemble(
            id,
            qualified_name,
            native_kind,
            comment,
            Some(database),
            CatalogMetadata::NoMetadata,
            expandable,
            None,
        )
    }

    /// A table, view or materialized view under a schema; it owns itself.
    pub fn relation(
        id: CatalogId,
        schema: CatalogId,
        qualified_name: QualifiedName,
        native_kind: String,
        comment: OptionalMetadata<String>,
        expandable: bool,
    ) -> (r: Result<Self, CatalogValidationError>)
        ensures
            entry_issue(r) == first_issue(
                relation_issue(id.kind, "relation"),
                first_issue(
                    kind_issue(schema.kind, CatalogKind::Schema, "schema parent"),
                    first_issue(
                        profile_issue(id.connection_id, schema.connection_id),
                        name_issue(qualified_name),
                    ),
                ),
            ),
            r matches Ok(e) ==> entry_fields(e, id, qualified_name, native_kind, comment)
                && e.parent_id == Some(schema) && e.metadata is NoMetadata && e.expandable
                == expandable && (e.relation_id matches Some(rel) && rel@ == id@),
    {
        require_relation(id.kind, "relation")?;
        require_kind(schema.kind, CatalogKind::Schema, "schema parent")?;
        require_same_profile(&id, &schema)?;
        let relation_id = id.clone();
        Self::assemble(
            id,
            qualified_name,
            native_kind,
            comment,
            Some(schema),
            CatalogMetadata::NoMetadata,
            expandable,
            Some(relation_id),
        )
    }

    /// A function, procedure, sequence or type under a schema.
    pub fn object(
        id: CatalogId,
        schema: CatalogId,
        qualified_name: QualifiedName,
        native_kind: String,
        comment: OptionalMetadata<String>,
        expandable: bool,
    ) -> (r: Result<Self, CatalogValidationError>)
        ensures
            entry_issue(r) == first_issue(
                object_kind_issue(id.kind),
                first_issue(
                    kind_issue(schema.kind, CatalogKind::Schema, "schema parent"),
                    first_issue(
                        profile_issue(id.connection_id, schema.connection_id),
                        name_issue(qualified_name),
                    ),
                ),
            ),
            r matches Ok(e) ==> entry_fields(e, id, qualified_name, native_kind, comment)
                && e.parent_id == Some(schema) && e.metadata is NoMetadata && e.expandable
                == expandable && e.relation_id is None,
    {
        if !matches!(
            id.kind,
            CatalogKind::Function | CatalogKind::Procedure | CatalogKind::Sequence
                | CatalogKind::Type
        ) {
            return Err(
                CatalogValidationError::InvalidKind {
                    expected: "schema-level non-relation object",
                    found: id.kind,
                },
            );
        }
        require_kind(schema.kind, CatalogKind::Schema, "schema parent")?;
        require_same_profile(&id, &schema)?;
        Self::assemble(
            id,
            qualified_name,
            native_kind,
            comment,
            Some(schema),
            CatalogMetadata::NoMetadata,
            expandable,
            None,
        )
    }

    /// A trigger listed under a schema and owned by a relation.
    pub fn relation_object(
        id: CatalogId,
        schema: CatalogId,
        relation: CatalogId,
        qualified_name: QualifiedName,
        native_kind: String,
        comment: OptionalMetadata<String>,
    ) -> (r: Result<Self, CatalogValidationError>)
        ensures
            entry_issue(r) == first_issue(
                kind_issue(id.kind, CatalogKind::Trigger, "relation-owned schema object"),
                first_issue(
                    kind_issue(schema.kind, CatalogKind::Schema, "schema parent"),
                    first_issue(
                        relation_issue(relation.kind, "owning relation"),
                        first_issue(
                            profile_issue(id.connection_id, schema.connection_id),
                            first_issue(
                                profile_issue(id.connection_id, relation.connection_id),
                                name_issue(qualified_name),
                            ),
                        ),
                    ),
                ),
            ),
            r matches Ok(e) ==> entry_fields(e, id, qualified_name, native_kind, comment)
                && e.parent_id == Some(schema) && e.metadata is NoMetadata && !e.expandable
                && e.relation_id == Some(relation),
    {
        require_kind(id.kind, CatalogKind::Trigger, "relation-owned schema object")?;
        require_kind(schema.kind, CatalogKind::Schema, "schema parent")?;
        require_relation(relation.kind, "owning relation")?;
        require_same_profile(&id, &schema)?;
        require_same_profile(&id, &relation)?;
        Self::assemble(
            id,
            qualified_name,
            native_kind,
            comment,
            Some(schema),
            CatalogMetadata::NoMetadata,
            false,
            Some(relation),
        )
    }

    /// A column, index, constraint or trigger owned by a relation.
    pub fn relation_child(
        id: CatalogId,
        relation: CatalogId,
        qualified_name: QualifiedName,
        native_kind: String,
        comment: OptionalMetadata<String>,
        metadata: CatalogMetadata,
    ) -> (r: Result<Self, CatalogValidationError>)
        ensures
            entry_issue(r) == first_issue(
                child_kind_issue(id.kind),
                first_issue(
                    relation_issue(relation.kind, "owning relation"),
                    first_issue(
                        profile_issue(id.connection_id, relation.connection_id),
                        first_issue(
                            metadata_issue(id.kind, metadata),
                            first_issue(
                                metadata_profiles_issue(id@, metadata),
                                name_issue(qualified_name),
                            ),
                        ),
                    ),
                ),
            ),
            r matches Ok(e) ==> entry_fields(e, id, qualified_name, native_kind, comment)
                && (e.parent_id matches Some(p) && p@ == relation@) && e.metadata == metadata
                && !e.expandable && e.relation_id == Some(relation),
    {
        if !id.kind.is_relation_child() {
            return Err(
                CatalogValidationError::InvalidKind { expected: "relation child", found: id.kind },
            );
        }
        require_relation(relation.kind, "owning relation")?;
        require_same_profile(&id, &relation)?;
        validate_metadata(id.kind, &metadata)?;
        validate_metadata_profiles(&id, &metadata)?;
        let parent = relation.clone();
        Self::assemble(
            id,
            qualified_name,
            native_kind,
            comment,
            Some(parent),
            metadata,
            false,
            Some(relation),
        )
    }

    /// The relation that owns this entry, if any.
    pub fn owning_relation_id(&self) -> (r: Option<&CatalogId>)
        ensures
            match self.relation_id {
                Some(rel) => r == Some(&rel),
                None => r is None,
            },
    {
        self.relation_id.as_ref()
    }
}

} // verus!
