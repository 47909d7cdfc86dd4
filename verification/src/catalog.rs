//! The normalized catalog model: kinds, identities, entries and targets.
use vstd::prelude::*;

use crate::text::{clone_opt, clone_strings, is_empty_str, opt_view, views};

verus! {

/// The kind of a catalog object.
#[derive(Clone, Copy, Debug, PartialEq, Eq, Structural, Hash)]
pub enum CatalogKind {
    Database,
    Schema,
    Table,
    View,
    MaterializedView,
    Column,
    Index,
    PrimaryKey,
    UniqueConstraint,
    ForeignKey,
    CheckConstraint,
    Function,
    Procedure,
    Trigger,
    Sequence,
    Type,
}

impl CatalogKind {
    pub open spec fn spec_is_relation(self) -> bool {
        self is Table || self is View || self is MaterializedView
    }

    pub open spec fn spec_is_relation_child(self) -> bool {
        self is Column || self is Index || self is PrimaryKey || self is UniqueConstraint
            || self is ForeignKey || self is CheckConstraint || self is Trigger
    }

    /// Tables, views and materialized views.
    #[verifier::when_used_as_spec(spec_is_relation)]
    pub fn is_relation(self) -> (r: bool)
        ensures
            r == self.spec_is_relation(),
    {
        matches!(self, CatalogKind::Table | CatalogKind::View | CatalogKind::MaterializedView)
    }

    /// Columns, indexes, constraints and triggers.
    #[verifier::when_used_as_spec(spec_is_relation_child)]
    pub fn is_relation_child(self) -> (r: bool)
        ensures
            r == self.spec_is_relation_child(),
    {
        matches!(
            self,
            CatalogKind::Column | CatalogKind::Index | CatalogKind::PrimaryKey
                | CatalogKind::UniqueConstraint | CatalogKind::ForeignKey
                | CatalogKind::CheckConstraint | CatalogKind::Trigger
        )
    }
}

/// A schema-level group of objects.
#[derive(Clone, Copy, Debug, PartialEq, Eq, Structural, Hash)]
pub enum ObjectGroup {
    Tables,
    Views,
    MaterializedViews,
    Sequences,
    Functions,
    Procedures,
    Types,
    Triggers,
}

/// The kind that a group holds.
pub open spec fn group_kind(group: ObjectGroup) -> CatalogKind {
    match group {
        ObjectGroup::Tables => CatalogKind::Table,
        ObjectGroup::Views => CatalogKind::View,
        ObjectGroup::MaterializedViews => CatalogKind::MaterializedView,
        ObjectGroup::Sequences => CatalogKind::Sequence,
        ObjectGroup::Functions => CatalogKind::Function,
        ObjectGroup::Procedures => CatalogKind::Procedure,
        ObjectGroup::Types => CatalogKind::Type,
        ObjectGroup::Triggers => CatalogKind::Trigger,
    }
}

impl ObjectGroup {
    pub open spec fn spec_contains_kind(self, kind: CatalogKind) -> bool {
        group_kind(self) == kind
    }

    /// Whether objects of `kind` belong to this group.
    #[verifier::when_used_as_spec(spec_contains_kind)]
    pub fn contains_kind(self, kind: CatalogKind) -> (r: bool)
        ensures
            r == self.spec_contains_kind(kind),
    {
        matches!(
            (self, kind),
            (ObjectGroup::Tables, CatalogKind::Table) | (ObjectGroup::Views, CatalogKind::View)
                | (ObjectGroup::MaterializedViews, CatalogKind::MaterializedView)
                | (ObjectGroup::Sequences, CatalogKind::Sequence)
                | (ObjectGroup::Functions, CatalogKind::Function)
                | (ObjectGroup::Procedures, CatalogKind::Procedure)
                | (ObjectGroup::Types, CatalogKind::Type)
                | (ObjectGroup::Triggers, CatalogKind::Trigger)
        )
    }
}

/// How many objects a listing holds.
#[derive(Clone, Copy, Debug, PartialEq, Eq, Structural)]
pub enum CatalogCount {
    Exact(u64),
    AtLeast(u64),
    Unknown,
}

#[derive(Clone, Copy, Debug, PartialEq, Eq, Structural)]
pub struct CatalogGroupSummary {
    pub group: ObjectGroup,
    pub object_count: CatalogCount,
}

/// A metadata field that a dialect may not support.
#[derive(Clone, Debug, PartialEq, Eq)]
pub enum OptionalMetadata<T> {
    Unsupported,
    Supported(Option<T>),
}

impl<T> OptionalMetadata<T> {
    pub open spec fn spec_is_supported(&self) -> bool {
        self is Supported
    }

    /// Whether the dialect supports this field.
    #[verifier::when_used_as_spec(spec_is_supported)]
    pub fn is_supported(&self) -> (r: bool)
        ensures
            r == self.spec_is_supported(),
    {
        matches!(self, OptionalMetadata::Supported(_))
    }

    /// Borrows the value inside.
    pub fn as_ref(&self) -> (r: OptionalMetadata<&T>)
        ensures
            match *self {
                OptionalMetadata::Unsupported => r is Unsupported,
                OptionalMetadata::Supported(None) => r == OptionalMetadata::<&T>::Supported(None),
                OptionalMetadata::Supported(Some(v)) => r matches OptionalMetadata::Supported(
                    Some(w),
                ) && *w == v,
            },
    {
        match self {
            OptionalMetadata::Unsupported => OptionalMetadata::Unsupported,
            OptionalMetadata::Supported(value) => OptionalMetadata::Supported(value.as_ref()),
        }
    }
}

/// The parts of an object's native name.
#[derive(Debug, PartialEq, Eq)]
pub struct QualifiedName {
    pub database: Option<String>,
    pub schema: Option<String>,
    pub object: String,
}

pub struct QualifiedNameView {
    pub database: Option<Seq<char>>,
    pub schema: Option<Seq<char>>,
    pub object: Seq<char>,
}

impl View for QualifiedName {
    type V = QualifiedNameView;

    open spec fn view(&self) -> QualifiedNameView {
        QualifiedNameView {
            database: opt_view(self.database),
            schema: opt_view(self.schema),
            object: self.object@,
        }
    }
}

impl Clone for QualifiedName {
    fn clone(&self) -> (r: Self)
        ensures
            r == *self,
    {
        QualifiedName {
            database: clone_opt(&self.database),
            schema: clone_opt(&self.schema),
            object: self.object.clone(),
        }
    }
}

#[derive(Clone, Copy, Debug, Default, PartialEq, Eq, Structural)]
pub struct ColumnMetadataCapabilities {
    pub type_family: bool,
    pub default_expression: bool,
    pub identity: bool,
    pub auto_increment: bool,
    pub generated_expression: bool,
    pub hidden: bool,
    pub numeric_precision_and_scale: bool,
    pub character_length: bool,
    pub collation: bool,
    pub character_set: bool,
    pub comment: bool,
}

#[derive(Clone, Copy, Debug, PartialEq, Eq, Structural)]
pub enum NamespaceModel {
    DatabaseAndSchema,
    DatabaseIsSchema,
}

/// What a dialect's catalog can show.
#[derive(Clone, Debug, PartialEq, Eq)]
pub struct CatalogCapabilities {
    pub namespace_model: NamespaceModel,
    pub top_level_groups: Vec<ObjectGroup>,
    pub column_metadata: ColumnMetadataCapabilities,
    pub supports_lazy_children: bool,
}

#[derive(Clone, Debug, PartialEq, Eq)]
pub struct DiscoveredDatabase {
    pub name: String,
    pub schemas: Vec<String>,
}

#[derive(Clone, Debug, PartialEq, Eq)]
pub struct CatalogDiscovery {
    pub databases: Vec<DiscoveredDatabase>,
}

/// The identity of a catalog object: the profile it was read through, its
/// kind and its native path.
#[derive(Debug, PartialEq, Eq, Hash)]
pub struct CatalogId {
    pub connection_id: u128,
    pub kind: CatalogKind,
    pub native_path: Vec<String>,
}

pub struct CatalogIdView {
    pub connection_id: u128,
    pub kind: CatalogKind,
    pub path: Seq<Seq<char>>,
}

impl View for CatalogId {
    type V = CatalogIdView;

    open spec fn view(&self) -> CatalogIdView {
        CatalogIdView {
            connection_id: self.connection_id,
            kind: self.kind,
            path: views(self.native_path@),
        }
    }
}

impl Clone for CatalogId {
    fn clone(&self) -> (r: Self)
        ensures
            r@ == self@,
    {
        CatalogId {
            connection_id: self.connection_id,
            kind: self.kind,
            native_path: clone_strings(&self.native_path),
        }
    }
}

pub open spec fn opt_id_view(o: Option<CatalogId>) -> Option<CatalogIdView> {
    match o {
        Some(id) => Some(id@),
        None => None,
    }
}

impl CatalogId {
    /// A catalog identity.
    pub fn new(connection_id: u128, kind: CatalogKind, native_path: Vec<String>) -> (r: Self)
        ensures
            r.connection_id == connection_id,
            r.kind == kind,
            r.native_path == native_path,
    {
        CatalogId { connection_id, kind, native_path }
    }

    /// The profile the object was read through.
    pub fn profile_id(&self) -> (r: u128)
        ensures
            r == self.connection_id,
    {
        self.connection_id
    }
}

/// Whether two string vectors hold the same strings.
pub fn strings_eq(a: &Vec<String>, b: &Vec<String>) -> (r: bool)
    ensures
        r == (views(a@) == views(b@)),
{
    if a.len() != b.len() {
        assert(views(a@).len() != views(b@).len());
        return false;
    }
    let mut i: usize = 0;
    while i < a.len()
        invariant
            a@.len() == b@.len(),
            i <= a@.len(),
            forall|k: int| 0 <= k < i ==> a@[k]@ == b@[k]@,
        decreases a@.len() - i,
    {
        if a[i] != b[i] {
            assert(views(a@)[i as int] != views(b@)[i as int]);
            return false;
        }
        i = i + 1;
    }
    assert(views(a@) =~= views(b@));
    true
}

/// Whether two identities are the same object.
pub fn id_eq(a: &CatalogId, b: &CatalogId) -> (r: bool)
    ensures
        r == (a@ == b@),
{
    a.connection_id == b.connection_id && a.kind == b.kind && strings_eq(
        &a.native_path,
        &b.native_path,
    )
}

/// Whether two optional identities are the same.
pub fn opt_id_eq(a: &Option<CatalogId>, b: &Option<CatalogId>) -> (r: bool)
    ensures
        r == (opt_id_view(*a) == opt_id_view(*b)),
{
    match (a, b) {
        (Some(x), Some(y)) => id_eq(x, y),
        (None, None) => true,
        _ => false,
    }
}

/// A constraint that a column takes part in.
#[derive(Clone, Debug, PartialEq, Eq)]
pub struct ConstraintMembership {
    pub constraint_id: CatalogId,
    pub ordinal_position: u32,
}


/// Column metadata.
#[derive(Clone, Debug, PartialEq, Eq)]
pub struct ColumnMetadata {
    pub ordinal_position: u32,
    pub native_type: String,
    pub type_family: OptionalMetadata<String>,
    pub nullable: bool,
    pub default_expression: OptionalMetadata<String>,
    pub identity: OptionalMetadata<bool>,
    pub auto_increment: OptionalMetadata<bool>,
    pub generated_expression: OptionalMetadata<String>,
    pub hidden: OptionalMetadata<bool>,
    pub numeric_precision: OptionalMetadata<u32>,
    pub numeric_scale: OptionalMetadata<u32>,
    pub character_maximum_length: OptionalMetadata<u64>,
    pub collation: OptionalMetadata<String>,
    pub character_set: OptionalMetadata<String>,
    pub constraint_memberships: Vec<ConstraintMembership>,
}

impl ColumnMetadata {
    /// Column metadata with every optional field unsupported and no memberships.
    pub fn new(ordinal_position: u32, native_type: String, nullable: bool) -> (r: Self)
        ensures
            r.ordinal_position == ordinal_position,
            r.native_type == native_type,
            r.nullable == nullable,
            r.type_family is Unsupported,
            r.default_expression is Unsupported,
            r.identity is Unsupported,
            r.auto_increment is Unsupported,
            r.generated_expression is Unsupported,
            r.hidden is Unsupported,
            r.numeric_precision is Unsupported,
            r.numeric_scale is Unsupported,
            r.character_maximum_length is Unsupported,
            r.collation is Unsupported,
            r.character_set is Unsupported,
            r.constraint_memberships@.len() == 0,
    {
        ColumnMetadata {
            ordinal_position,
            native_type,
            type_family: OptionalMetadata::Unsupported,
            nullable,
            default_expression: OptionalMetadata::Unsupported,
            identity: OptionalMetadata::Unsupported,
            auto_increment: OptionalMetadata::Unsupported,
            generated_expression: OptionalMetadata::Unsupported,
            hidden: OptionalMetadata::Unsupported,
            numeric_precision: OptionalMetadata::Unsupported,
            numeric_scale: OptionalMetadata::Unsupported,
            character_maximum_length: OptionalMetadata::Unsupported,
            collation: OptionalMetadata::Unsupported,
            character_set: OptionalMetadata::Unsupported,
            constraint_memberships: Vec::new(),
        }
    }
}

#[derive(Clone, Debug, PartialEq, Eq)]
pub struct IndexMetadata {
    pub columns: Vec<String>,
    pub unique: bool,
}


#[derive(Clone, Debug, PartialEq, Eq)]
pub enum ConstraintMetadata {
    PrimaryKey { columns: Vec<String> },
    Unique { columns: Vec<String> },
    ForeignKey {
        columns: Vec<String>,
        referenced_relation: QualifiedName,
        referenced_columns: Vec<String>,
    },
    Check { expression: String },
}


/// Kind-specific metadata of a catalog entry.
#[derive(Clone, Debug, PartialEq, Eq)]
pub enum CatalogMetadata {
    NoMetadata,
    Column(ColumnMetadata),
    Index(IndexMetadata),
    Constraint(ConstraintMetadata),
}

/// A normalized catalog entry.
#[derive(Clone, Debug, PartialEq, Eq)]
pub struct CatalogEntry {
    pub id: CatalogId,
    pub parent_id: Option<CatalogId>,
    pub kind: CatalogKind,
    pub native_kind: String,
    pub qualified_name: QualifiedName,
    pub comment: OptionalMetadata<String>,
    pub metadata: CatalogMetadata,
    pub expandable: bool,
    pub relation_id: Option<CatalogId>,
}

/// Where a relation's DDL text came from.
#[derive(Clone, Copy, Debug, PartialEq, Eq, Structural)]
pub enum DdlProvenance {
    NativeCatalog,
    AdapterGenerated,
}

#[derive(Clone, Debug, PartialEq, Eq)]
pub struct Ddl {
    pub sql: Option<String>,
    pub provenance: DdlProvenance,
}

} // verus!
