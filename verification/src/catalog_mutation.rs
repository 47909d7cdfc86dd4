//! Requests, capabilities and plans for creating and editing catalog objects.
use vstd::prelude::*;

use crate::catalog::{
    id_eq, opt_id_view, CatalogEntry, CatalogId, CatalogIdView, CatalogKind, ObjectGroup,
    OptionalMetadata,
};
use crate::identity::{ConnectionIdentity, ExecutionTarget};
use crate::page::{target_profile, CatalogTarget};
use crate::text::{
    clone_opt, is_empty_str, join, join_strings, opt_view, owned, str_eq, trim, trim_str, views,
};

verus! {

#[derive(Clone, Copy, Debug, PartialEq, Eq, Structural)]
pub enum CatalogMutationMode {
    Create,
    Edit,
}

/// The database a catalog operation is allowed to use. A maintenance target
/// is kept apart from a console target so that maintenance work cannot
/// rewrite the user's workspace target.
#[derive(Clone, Debug, PartialEq, Eq)]
pub enum CatalogMutationTarget {
    Database(ExecutionTarget),
    Maintenance { database: String },
}

/// Why a catalog mutation is refused.
#[allow(inconsistent_fields)]
#[derive(Clone, Debug, PartialEq, Eq)]
pub enum CatalogMutationError {
    UnsupportedOperation { object_type: CatalogObjectType },
    ProfileMismatch { object_profile_id: u128, connection_profile_id: u128 },
    InvalidAnchor { reason: &'static str },
    EmptySelection,
    StaleState,
    InvalidDraft { reason: String },
    InvalidPlan { reason: String },
    NoChanges,
}

/// A mutation error with its texts seen as character sequences.
#[allow(inconsistent_fields)]
pub enum MutationIssue {
    UnsupportedOperation { object_type: CatalogObjectType },
    ProfileMismatch { object_profile_id: u128, connection_profile_id: u128 },
    InvalidAnchor { reason: Seq<char> },
    EmptySelection,
    StaleState,
    InvalidDraft { reason: Seq<char> },
    InvalidPlan { reason: Seq<char> },
    NoChanges,
}

impl View for CatalogMutationError {
    type V = MutationIssue;

    open spec fn view(&self) -> MutationIssue {
        match *self {
            CatalogMutationError::UnsupportedOperation { object_type } =>
                MutationIssue::UnsupportedOperation { object_type },
            CatalogMutationError::ProfileMismatch { object_profile_id, connection_profile_id } =>
                MutationIssue::ProfileMismatch { object_profile_id, connection_profile_id },
            CatalogMutationError::InvalidAnchor { reason } => MutationIssue::InvalidAnchor {
                reason: reason@,
            },
            CatalogMutationError::EmptySelection => MutationIssue::EmptySelection,
            CatalogMutationError::StaleState => MutationIssue::StaleState,
            CatalogMutationError::InvalidDraft { reason } => MutationIssue::InvalidDraft {
                reason: reason@,
            },
            CatalogMutationError::InvalidPlan { reason } => MutationIssue::InvalidPlan {
                reason: reason@,
            },
            CatalogMutationError::NoChanges => MutationIssue::NoChanges,
        }
    }
}

/// The issue a mutation check reports, if any.
pub open spec fn mutation_issue<T>(r: Result<T, CatalogMutationError>) -> Option<MutationIssue> {
    match r {
        Ok(_) => None,
        Err(e) => Some(e@),
    }
}

pub open spec fn anchor_issue(reason: &'static str) -> Option<MutationIssue> {
    Some(MutationIssue::InvalidAnchor { reason: reason@ })
}

pub open spec fn plan_reason(reason: &'static str) -> Option<MutationIssue> {
    Some(MutationIssue::InvalidPlan { reason: reason@ })
}

pub open spec fn profile_mismatch(object_profile_id: u128, connection_profile_id: u128) -> Option<
    MutationIssue,
> {
    Some(MutationIssue::ProfileMismatch { object_profile_id, connection_profile_id })
}

/// The database that a mutation target names.
pub open spec fn target_database(t: CatalogMutationTarget) -> Seq<char> {
    match t {
        CatalogMutationTarget::Database(target) => target.database@,
        CatalogMutationTarget::Maintenance { database } => database@,
    }
}

impl CatalogMutationTarget {
    /// A console target; its database must not be blank.
    pub fn database_target(target: ExecutionTarget) -> (r: Result<Self, CatalogMutationError>)
        ensures
            mutation_issue(r) == (if trim(target.database@).len() == 0 {
                anchor_issue("catalog mutation target database is empty")
            } else {
                None
            }),
            r is Ok ==> r->Ok_0 == CatalogMutationTarget::Database(target),
    {
        if is_empty_str(trim_str(target.database.as_str()).as_str()) {
            return Err(
                CatalogMutationError::InvalidAnchor {
                    reason: "catalog mutation target database is empty",
                },
            );
        }
        Ok(CatalogMutationTarget::Database(target))
    }

    /// A maintenance target; its database must not be blank.
    pub fn maintenance(database: String) -> (r: Result<Self, CatalogMutationError>)
        ensures
            mutation_issue(r) == (if trim(database@).len() == 0 {
                anchor_issue("maintenance target database is empty")
            } else {
                None
            }),
            r is Ok ==> r->Ok_0 == (CatalogMutationTarget::Maintenance { database }),
    {
        if is_empty_str(trim_str(database.as_str()).as_str()) {
            return Err(
                CatalogMutationError::InvalidAnchor {
                    reason: "maintenance target database is empty",
                },
            );
        }
        Ok(CatalogMutationTarget::Maintenance { database })
    }

    /// The database the target names.
    pub fn database(&self) -> (r: &str)
        ensures
            r@ == target_database(*self),
    {
        match self {
            CatalogMutationTarget::Database(target) => target.database.as_str(),
            CatalogMutationTarget::Maintenance { database } => database.as_str(),
        }
    }

    /// The execution target under `profile_id`; a maintenance target has no schema.
    pub fn execution_target(&self, profile_id: u128) -> (r: ExecutionTarget)
        ensures
            r.profile_id == profile_id,
            r.database@ == target_database(*self),
            r.schema == (match *self {
                CatalogMutationTarget::Database(target) => target.schema,
                CatalogMutationTarget::Maintenance { .. } => None,
            }),
    {
        ExecutionTarget {
            profile_id,
            database: owned(self.database()),
            schema: match self {
                CatalogMutationTarget::Database(target) => clone_opt(&target.schema),
                CatalogMutationTarget::Maintenance { .. } => None,
            },
        }
    }
}

/// Where in the catalog tree a mutation starts.
#[derive(Clone, Debug, PartialEq, Eq)]
pub enum CatalogMutationAnchor {
    Profile { profile_id: u128 },
    Catalog(CatalogId),
    Group { schema: CatalogId, group: ObjectGroup },
}

/// What a mutation creates or edits.
#[derive(Clone, Copy, Debug, PartialEq, Eq, Structural, Hash)]
pub enum CatalogObjectType {
    Catalog(CatalogKind),
    LoginRole,
    Role,
}

pub open spec fn object_type_label(t: CatalogObjectType) -> &'static str {
    match t {
        CatalogObjectType::Catalog(kind) => match kind {
            CatalogKind::Database => "Database",
            CatalogKind::Schema => "Schema",
            CatalogKind::Table => "Table",
            CatalogKind::View => "View",
            CatalogKind::MaterializedView => "Materialized View",
            CatalogKind::Column => "Column",
            CatalogKind::Index => "Index",
            CatalogKind::PrimaryKey => "Primary Key",
            CatalogKind::UniqueConstraint => "Unique",
            CatalogKind::ForeignKey => "Foreign Key",
            CatalogKind::CheckConstraint => "Check",
            CatalogKind::Function => "Function",
            CatalogKind::Procedure => "Procedure",
            CatalogKind::Trigger => "Trigger",
            CatalogKind::Sequence => "Sequence",
            CatalogKind::Type => "Type",
        },
        CatalogObjectType::LoginRole => "Login Role",
        CatalogObjectType::Role => "Role",
    }
}

impl CatalogObjectType {
    /// The name shown for this object type.
    pub fn display_label(self) -> (r: &'static str)
        ensures
            r == object_type_label(self),
    {
        match self {
            CatalogObjectType::Catalog(kind) => match kind {
                CatalogKind::Database => "Database",
                CatalogKind::Schema => "Schema",
                CatalogKind::Table => "Table",
                CatalogKind::View => "View",
                CatalogKind::MaterializedView => "Materialized View",
                CatalogKind::Column => "Column",
                CatalogKind::Index => "Index",
                CatalogKind::PrimaryKey => "Primary Key",
                CatalogKind::UniqueConstraint => "Unique",
                CatalogKind::ForeignKey => "Foreign Key",
                CatalogKind::CheckConstraint => "Check",
                CatalogKind::Function => "Function",
                CatalogKind::Procedure => "Procedure",
                CatalogKind::Trigger => "Trigger",
                CatalogKind::Sequence => "Sequence",
                CatalogKind::Type => "Type",
            },
            CatalogObjectType::LoginRole => "Login Role",
            CatalogObjectType::Role => "Role",
        }
    }
}

#[derive(Clone, Copy, Debug, PartialEq, Eq)]
pub enum CatalogMutationAvailability {
    Available,
    Unavailable { reason: &'static str },
}

#[derive(Clone, Copy, Debug, PartialEq, Eq)]
pub struct CatalogMutationOption {
    pub object_type: CatalogObjectType,
    pub availability: CatalogMutationAvailability,
}

/// What a dialect can create and edit.
#[derive(Clone, Debug, Default, PartialEq, Eq)]
pub struct CatalogMutationCapabilities {
    pub profile_create: Vec<CatalogMutationOption>,
    pub create: Vec<CatalogMutationOption>,
    pub edit: Vec<CatalogMutationOption>,
    pub view_options: ViewMutationCapabilities,
}

#[derive(Clone, Copy, Debug, PartialEq, Eq)]
pub enum ViewMutationOptionAvailability {
    Available,
    Unavailable { reason: &'static str },
}

/// A view option, with whether the server supports it.
#[derive(Clone, Debug, PartialEq, Eq)]
pub struct ViewOption<T> {
    pub availability: ViewMutationOptionAvailability,
    pub value: Option<T>,
}

impl<T> ViewOption<T> {
    /// An option the server does not support, for `reason`.
    pub fn unavailable(reason: &'static str) -> (r: Self)
        ensures
            r.availability == (ViewMutationOptionAvailability::Unavailable { reason }),
            r.value is None,
    {
        ViewOption { availability: ViewMutationOptionAvailability::Unavailable { reason }, value: None }
    }

    /// A supported option holding `value`.
    pub fn available(value: Option<T>) -> (r: Self)
        ensures
            r.availability == ViewMutationOptionAvailability::Available,
            r.value == value,
    {
        ViewOption { availability: ViewMutationOptionAvailability::Available, value }
    }
}

impl ViewMutationOptionAvailability {
    /// Whether the option is supported.
    pub fn is_available(self) -> (r: bool)
        ensures
            r == (self is Available),
    {
        matches!(self, ViewMutationOptionAvailability::Available)
    }
}

#[derive(Clone, Copy, Debug, PartialEq, Eq)]
pub struct ViewMutationCapabilities {
    pub security_barrier: ViewMutationOptionAvailability,
    pub security_invoker: ViewMutationOptionAvailability,
    pub check_option: ViewMutationOptionAvailability,
}

impl Default for ViewMutationCapabilities {
    /// Every view option is unavailable until the server version is known.
    fn default() -> (r: Self)
        ensures
            r.security_barrier == (ViewMutationOptionAvailability::Unavailable {
                reason: "server version is unknown",
            }),
            r.security_invoker == (ViewMutationOptionAvailability::Unavailable {
                reason: "server version is unknown",
            }),
            r.check_option == (ViewMutationOptionAvailability::Unavailable {
                reason: "server version is unknown",
            }),
    {
        ViewMutationCapabilities {
            security_barrier: ViewMutationOptionAvailability::Unavailable {
                reason: "server version is unknown",
            },
            security_invoker: ViewMutationOptionAvailability::Unavailable {
                reason: "server version is unknown",
            },
            check_option: ViewMutationOptionAvailability::Unavailable {
                reason: "server version is unknown",
            },
        }
    }
}

// ---------------------------------------------------------------------------
// Looking up capabilities
// ---------------------------------------------------------------------------

/// `i` is the first option in `opts` for `t`.
pub open spec fn is_first_option(opts: Seq<CatalogMutationOption>, t: CatalogObjectType, i: int) -> bool {
    &&& 0 <= i < opts.len()
    &&& opts[i].object_type == t
    &&& forall|j: int| 0 <= j < i ==> #[trigger] opts[j].object_type != t
}

/// The first option in `opts` for `t`, if any.
pub open spec fn option_for(opts: Seq<CatalogMutationOption>, t: CatalogObjectType) -> Option<
    CatalogMutationOption,
> {
    if exists|i: int| is_first_option(opts, t, i) {
        Some(opts[choose|i: int| is_first_option(opts, t, i)])
    } else {
        None
    }
}

/// Whether the first option for `t` is available.
pub open spec fn available_in(opts: Seq<CatalogMutationOption>, t: CatalogObjectType) -> bool {
    option_for(opts, t) matches Some(o) && o.availability is Available
}

/// The object types of the available options, in order.
pub open spec fn available_types(opts: Seq<CatalogMutationOption>) -> Seq<CatalogObjectType>
    decreases opts.len(),
{
    if opts.len() == 0 {
        Seq::empty()
    } else {
        let rest = available_types(opts.drop_last());
        if opts.last().availability is Available {
            rest.push(opts.last().object_type)
        } else {
            rest
        }
    }
}

/// The types in `ts` whose first option in `opts` is available, in order.
pub open spec fn filter_available(opts: Seq<CatalogMutationOption>, ts: Seq<CatalogObjectType>) -> Seq<
    CatalogObjectType,
>
    decreases ts.len(),
{
    if ts.len() == 0 {
        Seq::empty()
    } else {
        let rest = filter_available(opts, ts.drop_last());
        if available_in(opts, ts.last()) {
            rest.push(ts.last())
        } else {
            rest
        }
    }
}

/// The object types that can be created under an object of `kind`.
pub open spec fn child_types(kind: CatalogKind) -> Seq<CatalogObjectType> {
    match kind {
        CatalogKind::Database => seq![CatalogObjectType::Catalog(CatalogKind::Schema)],
        CatalogKind::Schema => seq![
            CatalogObjectType::Catalog(CatalogKind::Table),
            CatalogObjectType::Catalog(CatalogKind::View),
            CatalogObjectType::Catalog(CatalogKind::MaterializedView),
        ],
        CatalogKind::Table => seq![
            CatalogObjectType::Catalog(CatalogKind::Column),
            CatalogObjectType::Catalog(CatalogKind::Index),
            CatalogObjectType::Catalog(CatalogKind::PrimaryKey),
            CatalogObjectType::Catalog(CatalogKind::UniqueConstraint),
            CatalogObjectType::Catalog(CatalogKind::ForeignKey),
            CatalogObjectType::Catalog(CatalogKind::CheckConstraint),
        ],
        CatalogKind::MaterializedView => seq![CatalogObjectType::Catalog(CatalogKind::Index)],
        _ => Seq::empty(),
    }
}

fn child_type_list(kind: CatalogKind) -> (r: Vec<CatalogObjectType>)
    ensures
        r@ == child_types(kind),
{
    let r = match kind {
        CatalogKind::Database => vec![CatalogObjectType::Catalog(CatalogKind::Schema)],
        CatalogKind::Schema => vec![
            CatalogObjectType::Catalog(CatalogKind::Table),
            CatalogObjectType::Catalog(CatalogKind::View),
            CatalogObjectType::Catalog(CatalogKind::MaterializedView),
        ],
        CatalogKind::Table => vec![
            CatalogObjectType::Catalog(CatalogKind::Column),
            CatalogObjectType::Catalog(CatalogKind::Index),
            CatalogObjectType::Catalog(CatalogKind::PrimaryKey),
            CatalogObjectType::Catalog(CatalogKind::UniqueConstraint),
            CatalogObjectType::Catalog(CatalogKind::ForeignKey),
            CatalogObjectType::Catalog(CatalogKind::CheckConstraint),
        ],
        CatalogKind::MaterializedView => vec![CatalogObjectType::Catalog(CatalogKind::Index)],
        _ => Vec::new(),
    };
    assert(r@ =~= child_types(kind));
    r
}

/// Why a selected entry does not fit the anchor.
pub open spec fn entry_anchor_issue(anchor: CatalogMutationAnchor, entry: CatalogEntry) -> Option<
    MutationIssue,
> {
    match anchor {
        CatalogMutationAnchor::Catalog(id) => if entry.id@ != id@ {
            anchor_issue("selected entry does not match catalog anchor")
        } else {
            None
        },
        CatalogMutationAnchor::Group { schema, group } => if opt_id_view(entry.parent_id) != Some(
            schema@,
        ) || !group.spec_contains_kind(entry.kind) {
            anchor_issue("selected entry does not belong to group anchor")
        } else {
            None
        },
        CatalogMutationAnchor::Profile { .. } => None,
    }
}

pub open spec fn opt_entry_issue(anchor: CatalogMutationAnchor, entry: Option<&CatalogEntry>) -> Option<
    MutationIssue,
> {
    match entry {
        Some(e) => entry_anchor_issue(anchor, *e),
        None => None,
    }
}

/// What `create_options` gives: the creatable object types under the
/// anchor, or why the selected entry does not fit it.
pub open spec fn create_options_spec(
    caps: CatalogMutationCapabilities,
    anchor: CatalogMutationAnchor,
    entry: Option<&CatalogEntry>,
) -> Result<Seq<CatalogObjectType>, MutationIssue> {
    match anchor {
        CatalogMutationAnchor::Profile { .. } => Ok(available_types(caps.profile_create@)),
        CatalogMutationAnchor::Catalog(id) => match opt_entry_issue(anchor, entry) {
            Some(e) => Err(e),
            None => Ok(filter_available(caps.create@, child_types(id.kind))),
        },
        CatalogMutationAnchor::Group { group, .. } => match opt_entry_issue(anchor, entry) {
            Some(e) => Err(e),
            None => {
                let t = CatalogObjectType::Catalog(crate::catalog::group_kind(group));
                Ok(if available_in(caps.create@, t) { seq![t] } else { Seq::empty() })
            },
        },
    }
}

/// What `can_edit` gives.
pub open spec fn can_edit_spec(
    caps: CatalogMutationCapabilities,
    anchor: CatalogMutationAnchor,
    entry: Option<&CatalogEntry>,
) -> Result<bool, MutationIssue> {
    match anchor {
        CatalogMutationAnchor::Catalog(id) => match entry {
            None => Err(MutationIssue::EmptySelection),
            Some(e) => match entry_anchor_issue(anchor, *e) {
                Some(issue) => Err(issue),
                None => Ok(available_in(caps.edit@, CatalogObjectType::Catalog(id.kind))),
            },
        },
        _ => Ok(false),
    }
}

pub open spec fn result_seq_view(r: Result<Vec<CatalogObjectType>, CatalogMutationError>) -> Result<
    Seq<CatalogObjectType>,
    MutationIssue,
> {
    match r {
        Ok(v) => Ok(v@),
        Err(e) => Err(e@),
    }
}

pub open spec fn result_bool_view(r: Result<bool, CatalogMutationError>) -> Result<bool, MutationIssue> {
    match r {
        Ok(b) => Ok(b),
        Err(e) => Err(e@),
    }
}

pub open spec fn availability_of(o: Option<CatalogMutationOption>) -> Option<
    CatalogMutationAvailability,
> {
    match o {
        Some(o) => Some(o.availability),
        None => None,
    }
}

impl CatalogMutationCapabilities {
    /// The object types that can be created under `anchor`, in the order the
    /// capabilities list them; a selected `entry` must fit the anchor.
    pub fn create_options(&self, anchor: &CatalogMutationAnchor, entry: Option<&CatalogEntry>) -> (r:
        Result<Vec<CatalogObjectType>, CatalogMutationError>)
        ensures
            result_seq_view(r) == create_options_spec(*self, *anchor, entry),
    {
        match anchor {
            CatalogMutationAnchor::Profile { .. } => {
                let mut out: Vec<CatalogObjectType> = Vec::new();
                let mut i: usize = 0;
                while i < self.profile_create.len()
                    invariant
                        i <= self.profile_create@.len(),
                        out@ == available_types(self.profile_create@.subrange(0, i as int)),
                    decreases self.profile_create@.len() - i,
                {
                    let o = self.profile_create[i];
                    assert(self.profile_create@.subrange(0, i + 1).drop_last()
                        =~= self.profile_create@.subrange(0, i as int));
                    if let Some(t) = available_object_type(&o) {
                        out.push(t);
                    }
                    i = i + 1;
                }
                assert(self.profile_create@.subrange(0, i as int) =~= self.profile_create@);
                Ok(out)
            },
            CatalogMutationAnchor::Catalog(id) => {
                if let Some(entry) = entry {
                    validate_entry(anchor, entry)?;
                }
                let candidates = child_type_list(id.kind);
                let mut out: Vec<CatalogObjectType> = Vec::new();
                let mut i: usize = 0;
                while i < candidates.len()
                    invariant
                        i <= candidates@.len(),
                        out@ == filter_available(self.create@, candidates@.subrange(0, i as int)),
                    decreases candidates@.len() - i,
                {
                    let t = candidates[i];
                    assert(candidates@.subrange(0, i + 1).drop_last() =~= candidates@.subrange(
                        0,
                        i as int,
                    ));
                    if self.is_available(t, false) {
                        out.push(t);
                    }
                    i = i + 1;
                }
                assert(candidates@.subrange(0, i as int) =~= candidates@);
                Ok(out)
            },
            CatalogMutationAnchor::Group { group, .. } => {
                if let Some(entry) = entry {
                    validate_entry(anchor, entry)?;
                }
                let kind = match group {
                    ObjectGroup::Tables => CatalogKind::Table,
                    ObjectGroup::Views => CatalogKind::View,
                    ObjectGroup::MaterializedViews => CatalogKind::MaterializedView,
                    ObjectGroup::Sequences => CatalogKind::Sequence,
                    ObjectGroup::Functions => CatalogKind::Function,
                    ObjectGroup::Procedures => CatalogKind::Procedure,
                    ObjectGroup::Types => CatalogKind::Type,
                    ObjectGroup::Triggers => CatalogKind::Trigger,
                };
                let mut out: Vec<CatalogObjectType> = Vec::new();
                if self.is_available(CatalogObjectType::Catalog(kind), false) {
                    out.push(CatalogObjectType::Catalog(kind));
                }
                assert(out@ =~= (if available_in(self.create@, CatalogObjectType::Catalog(kind)) {
                    seq![CatalogObjectType::Catalog(kind)]
                } else {
                    Seq::empty()
                }));
                Ok(out)
            },
        }
    }

    /// Whether the object behind a catalog anchor can be edited; other
    /// anchors cannot. The selected `entry` must be given and fit the anchor.
    pub fn can_edit(&self, anchor: &CatalogMutationAnchor, entry: Option<&CatalogEntry>) -> (r:
        Result<bool, CatalogMutationError>)
        ensures
            result_bool_view(r) == can_edit_spec(*self, *anchor, entry),
    {
        let id = match anchor {
            CatalogMutationAnchor::Catalog(id) => id,
            _ => {
                return Ok(false);
            },
        };
        let entry = match entry {
            Some(entry) => entry,
            None => {
                return Err(CatalogMutationError::EmptySelection);
            },
        };
        validate_entry(anchor, entry)?;
        Ok(self.is_available(CatalogObjectType::Catalog(id.kind), true))
    }

    /// The availability of creating `object_type`, if the dialect lists it.
    pub fn create_availability(&self, object_type: CatalogObjectType) -> (r: Option<
        CatalogMutationAvailability,
    >)
        ensures
            r == availability_of(option_for(self.create@, object_type)),
    {
        match self.option(object_type, false) {
            Some(option) => Some(option.availability),
            None => None,
        }
    }

    /// The availability of editing `object_type`, if the dialect lists it.
    pub fn edit_availability(&self, object_type: CatalogObjectType) -> (r: Option<
        CatalogMutationAvailability,
    >)
        ensures
            r == availability_of(option_for(self.edit@, object_type)),
    {
        match self.option(object_type, true) {
            Some(option) => Some(option.availability),
            None => None,
        }
    }

    fn option(&self, object_type: CatalogObjectType, edit: bool) -> (r: Option<
        CatalogMutationOption,
    >)
        ensures
            r == option_for(if edit { self.edit@ } else { self.create@ }, object_type),
    {
        let opts = if edit {
            &self.edit
        } else {
            &self.create
        };
        let mut i: usize = 0;
        while i < opts.len()
            invariant
                i <= opts@.len(),
                forall|j: int| 0 <= j < i ==> #[trigger] opts@[j].object_type != object_type,
            decreases opts@.len() - i,
        {
            if opts[i].object_type == object_type {
                let ghost c = choose|k: int| is_first_option(opts@, object_type, k);
                assert(is_first_option(opts@, object_type, i as int));
                assert(c == i) by {
                    if c < i {
                        assert(opts@[c].object_type != object_type);
                    } else if c > i {
                        assert(opts@[i as int].object_type != object_type);
                    }
                };
                return Some(opts[i]);
            }
            i = i + 1;
        }
        assert(!exists|k: int| is_first_option(opts@, object_type, k));
        None
    }

    fn is_available(&self, object_type: CatalogObjectType, edit: bool) -> (r: bool)
        ensures
            r == available_in(if edit { self.edit@ } else { self.create@ }, object_type),
    {
        match self.option(object_type, edit) {
            Some(option) => matches!(option.availability, CatalogMutationAvailability::Available),
            None => false,
        }
    }
}

fn available_object_type(option: &CatalogMutationOption) -> (r: Option<CatalogObjectType>)
    ensures
        r == (if option.availability is Available {
            Some(option.object_type)
        } else {
            None
        }),
{
    if matches!(option.availability, CatalogMutationAvailability::Available) {
        Some(option.object_type)
    } else {
        None
    }
}

/// The selected entry must be the catalog anchor itself, or a child of the
/// group anchor's schema of the group's kind.
fn validate_entry(anchor: &CatalogMutationAnchor, entry: &CatalogEntry) -> (r: Result<
    (),
    CatalogMutationError,
>)
    ensures
        mutation_issue(r) == entry_anchor_issue(*anchor, *entry),
{
    match anchor {
        CatalogMutationAnchor::Catalog(id) => {
            if !id_eq(&entry.id, id) {
                return Err(
                    CatalogMutationError::InvalidAnchor {
                        reason: "selected entry does not match catalog anchor",
                    },
                );
            }
            Ok(())
        },
        CatalogMutationAnchor::Group { schema, group } => {
            let in_schema = match &entry.parent_id {
                Some(parent) => id_eq(parent, schema),
                None => false,
            };
            if !in_schema || !group.contains_kind(entry.kind) {
                return Err(
                    CatalogMutationError::InvalidAnchor {
                        reason: "selected entry does not belong to group anchor",
                    },
                );
            }
            Ok(())
        },
        CatalogMutationAnchor::Profile { .. } => Ok(()),
    }
}


// ---------------------------------------------------------------------------
// Requests
// ---------------------------------------------------------------------------

/// A request to create or edit one object under an anchor.
#[derive(Clone, Debug, PartialEq, Eq)]
pub struct CatalogMutationRequest {
    pub connection: ConnectionIdentity,
    pub request_id: u64,
    pub catalog_epoch: u64,
    pub mode: CatalogMutationMode,
    pub anchor: CatalogMutationAnchor,
    pub object_type: CatalogObjectType,
    pub current_database: Option<String>,
}

/// A request for the editable definition of one object.
#[derive(Clone, Debug, PartialEq, Eq)]
pub struct CatalogObjectDefinitionRequest {
    pub connection: ConnectionIdentity,
    pub request_id: u64,
    pub catalog_epoch: u64,
    pub object: CatalogId,
    pub target: ExecutionTarget,
}

/// Roles are addressed as databases whose path starts with `__role__`.
pub open spec fn is_role_object(object: CatalogId) -> bool {
    object.kind == CatalogKind::Database && object.native_path@.len() > 0
        && object.native_path@[0]@ == "__role__"@
}

/// The kinds whose definitions can be read.
pub open spec fn definable_kind(kind: CatalogKind) -> bool {
    !(kind is Function || kind is Procedure || kind is Trigger || kind is Type)
}

pub open spec fn object_profile_issue(object: CatalogId, profile_id: u128) -> Option<MutationIssue> {
    if object.connection_id != profile_id {
        profile_mismatch(object.connection_id, profile_id)
    } else {
        None
    }
}

pub open spec fn definition_target_issue(r: CatalogObjectDefinitionRequest) -> Option<MutationIssue> {
    if r.target.profile_id != r.connection.profile_id || r.target.database@.len() == 0 {
        profile_mismatch(r.target.profile_id, r.connection.profile_id)
    } else {
        None
    }
}

/// Why a definition request is refused.
pub open spec fn definition_request_issue(r: CatalogObjectDefinitionRequest) -> Option<MutationIssue> {
    if is_role_object(r.object) {
        if r.object.native_path@.len() != 2 {
            anchor_issue("role definition requires a role name")
        } else if object_profile_issue(r.object, r.connection.profile_id) is Some {
            object_profile_issue(r.object, r.connection.profile_id)
        } else {
            definition_target_issue(r)
        }
    } else if !definable_kind(r.object.kind) {
        anchor_issue("definition request requires a supported catalog object")
    } else if r.object.native_path@.len() == 0 {
        Some(MutationIssue::EmptySelection)
    } else if object_profile_issue(r.object, r.connection.profile_id) is Some {
        object_profile_issue(r.object, r.connection.profile_id)
    } else {
        definition_target_issue(r)
    }
}

impl CatalogObjectDefinitionRequest {
    /// Whether the object is a role rather than a database.
    pub fn is_role(&self) -> (r: bool)
        ensures
            r == is_role_object(self.object),
    {
        self.object.kind == CatalogKind::Database && self.object.native_path.len() > 0 && str_eq(
            self.object.native_path[0].as_str(),
            "__role__",
        )
    }

    /// A role needs its name; any other object must be of a definable kind
    /// and have a path; both must belong to the connection's profile, and
    /// the target must name a database of that profile.
    pub fn validate(&self) -> (r: Result<(), CatalogMutationError>)
        ensures
            mutation_issue(r) == definition_request_issue(*self),
    {
        if self.is_role() {
            if self.object.native_path.len() != 2 {
                return Err(
                    CatalogMutationError::InvalidAnchor {
                        reason: "role definition requires a role name",
                    },
                );
            }
            validate_object_profile(&self.object, self.connection.profile_id)?;
            if self.target.profile_id != self.connection.profile_id || is_empty_str(
                self.target.database.as_str(),
            ) {
                return Err(
                    CatalogMutationError::ProfileMismatch {
                        object_profile_id: self.target.profile_id,
                        connection_profile_id: self.connection.profile_id,
                    },
                );
            }
            return Ok(());
        }
        if matches!(
            self.object.kind,
            CatalogKind::Function | CatalogKind::Procedure | CatalogKind::Trigger
                | CatalogKind::Type
        ) {
            return Err(
                CatalogMutationError::InvalidAnchor {
                    reason: "definition request requires a supported catalog object",
                },
            );
        }
        if self.object.native_path.len() == 0 {
            return Err(CatalogMutationError::EmptySelection);
        }
        validate_object_profile(&self.object, self.connection.profile_id)?;
        if self.target.profile_id != self.connection.profile_id || is_empty_str(
            self.target.database.as_str(),
        ) {
            return Err(
                CatalogMutationError::ProfileMismatch {
                    object_profile_id: self.target.profile_id,
                    connection_profile_id: self.connection.profile_id,
                },
            );
        }
        Ok(())
    }
}

fn validate_object_profile(object: &CatalogId, profile_id: u128) -> (r: Result<
    (),
    CatalogMutationError,
>)
    ensures
        mutation_issue(r) == object_profile_issue(*object, profile_id),
{
    if object.profile_id() != profile_id {
        return Err(
            CatalogMutationError::ProfileMismatch {
                object_profile_id: object.profile_id(),
                connection_profile_id: profile_id,
            },
        );
    }
    Ok(())
}

/// Why a mutation request is refused.
pub open spec fn mutation_request_issue(
    connection: ConnectionIdentity,
    mode: CatalogMutationMode,
    anchor: CatalogMutationAnchor,
    object_type: CatalogObjectType,
) -> Option<MutationIssue> {
    match anchor {
        CatalogMutationAnchor::Profile { profile_id } => if profile_id != connection.profile_id {
            profile_mismatch(profile_id, connection.profile_id)
        } else if !(object_type is LoginRole || object_type is Role || object_type
            == CatalogObjectType::Catalog(CatalogKind::Database)) {
            anchor_issue("profile anchors only support profile objects")
        } else {
            None
        },
        CatalogMutationAnchor::Catalog(object) => if object_profile_issue(
            object,
            connection.profile_id,
        ) is Some {
            object_profile_issue(object, connection.profile_id)
        } else if object.native_path@.len() == 0 {
            Some(MutationIssue::EmptySelection)
        } else if mode is Edit && !(object_type is LoginRole || object_type is Role) && object_type
            != CatalogObjectType::Catalog(object.kind) {
            anchor_issue("edit object type does not match catalog anchor")
        } else {
            None
        },
        CatalogMutationAnchor::Group { schema, group } => if object_profile_issue(
            schema,
            connection.profile_id,
        ) is Some {
            object_profile_issue(schema, connection.profile_id)
        } else if schema.native_path@.len() == 0 || schema.kind != CatalogKind::Schema {
            anchor_issue("group anchor requires a schema ID")
        } else if !(object_type matches CatalogObjectType::Catalog(kind)
            && group.spec_contains_kind(kind)) {
            anchor_issue("object type is outside the selected group")
        } else {
            None
        },
    }
}

impl CatalogMutationRequest {
    /// A request whose anchor belongs to the connection's profile and admits
    /// `object_type` in `mode`.
    pub fn new(
        connection: ConnectionIdentity,
        request_id: u64,
        catalog_epoch: u64,
        mode: CatalogMutationMode,
        anchor: CatalogMutationAnchor,
        object_type: CatalogObjectType,
    ) -> (r: Result<Self, CatalogMutationError>)
        ensures
            mutation_issue(r) == mutation_request_issue(connection, mode, anchor, object_type),
            r is Ok ==> r->Ok_0 == (CatalogMutationRequest {
                connection,
                request_id,
                catalog_epoch,
                mode,
                anchor,
                object_type,
                current_database: None,
            }),
    {
        match &anchor {
            CatalogMutationAnchor::Profile { profile_id } => {
                if *profile_id != connection.profile_id {
                    return Err(
                        CatalogMutationError::ProfileMismatch {
                            object_profile_id: *profile_id,
                            connection_profile_id: connection.profile_id,
                        },
                    );
                }
                if !matches!(
                    object_type,
                    CatalogObjectType::LoginRole | CatalogObjectType::Role
                        | CatalogObjectType::Catalog(CatalogKind::Database)
                ) {
                    return Err(
                        CatalogMutationError::InvalidAnchor {
                            reason: "profile anchors only support profile objects",
                        },
                    );
                }
            },
            CatalogMutationAnchor::Catalog(object) => {
                validate_object_profile(object, connection.profile_id)?;
                if object.native_path.len() == 0 {
                    return Err(CatalogMutationError::EmptySelection);
                }
                if matches!(mode, CatalogMutationMode::Edit) && !matches!(
                    object_type,
                    CatalogObjectType::LoginRole | CatalogObjectType::Role
                ) && object_type != CatalogObjectType::Catalog(object.kind) {
                    return Err(
                        CatalogMutationError::InvalidAnchor {
                            reason: "edit object type does not match catalog anchor",
                        },
                    );
                }
            },
            CatalogMutationAnchor::Group { schema, group } => {
                validate_object_profile(schema, connection.profile_id)?;
                if schema.native_path.len() == 0 || schema.kind != CatalogKind::Schema {
                    return Err(
                        CatalogMutationError::InvalidAnchor {
                            reason: "group anchor requires a schema ID",
                        },
                    );
                }
                let in_group = match object_type {
                    CatalogObjectType::Catalog(kind) => group.contains_kind(kind),
                    _ => false,
                };
                if !in_group {
                    return Err(
                        CatalogMutationError::InvalidAnchor {
                            reason: "object type is outside the selected group",
                        },
                    );
                }
            },
        }
        Ok(
            CatalogMutationRequest {
                connection,
                request_id,
                catalog_epoch,
                mode,
                anchor,
                object_type,
                current_database: None,
            },
        )
    }

    /// The same request with `database` as the current database.
    pub fn with_current_database(self, database: String) -> (r: Self)
        ensures
            r == (CatalogMutationRequest { current_database: Some(database), ..self }),
    {
        CatalogMutationRequest { current_database: Some(database), ..self }
    }
}


// ---------------------------------------------------------------------------
// Editable definitions
// ---------------------------------------------------------------------------

#[derive(Clone, Debug, PartialEq, Eq)]
pub struct SchemaDefinition {
    pub database: String,
    pub name: String,
    pub owner: String,
    pub comment: OptionalMetadata<String>,
    pub baseline_fingerprint: String,
}

#[derive(Clone, Debug, PartialEq, Eq)]
pub struct DatabaseDefinition {
    pub name: String,
    pub owner: String,
    pub template: String,
    pub encoding: String,
    pub locale_provider: String,
    pub locale: String,
    pub collation: String,
    pub ctype: String,
    pub tablespace: String,
    pub connection_limit: i32,
    pub allow_connections: bool,
    pub is_template: bool,
    pub comment: OptionalMetadata<String>,
    pub baseline_fingerprint: String,
}

#[derive(Clone, Debug, PartialEq, Eq)]
pub struct RoleDefinition {
    pub name: String,
    pub login: bool,
    pub superuser: bool,
    pub createdb: bool,
    pub createrole: bool,
    pub inherit: bool,
    pub replication: bool,
    pub bypass_rls: bool,
    pub connection_limit: i32,
    pub valid_until: OptionalMetadata<String>,
    pub memberships: Vec<String>,
    pub comment: OptionalMetadata<String>,
    pub baseline_fingerprint: String,
}

#[derive(Clone, Debug, PartialEq, Eq)]
pub struct ColumnDefinition {
    pub name: String,
    pub ordinal_position: u32,
    pub native_type: String,
    pub nullable: bool,
    pub default_expression: OptionalMetadata<String>,
    pub identity: OptionalMetadata<bool>,
    pub generated_expression: OptionalMetadata<String>,
    pub collation: OptionalMetadata<String>,
    pub comment: OptionalMetadata<String>,
}

#[derive(Clone, Debug, PartialEq, Eq)]
pub struct TableDefinition {
    pub database: String,
    pub schema: String,
    pub name: String,
    pub owner: String,
    pub comment: OptionalMetadata<String>,
    pub columns: Vec<ColumnDefinition>,
    pub indexes: Vec<String>,
    pub constraints: Vec<String>,
    pub baseline_fingerprint: String,
}

#[derive(Clone, Debug, PartialEq, Eq)]
pub struct ViewDefinition {
    pub database: String,
    pub schema: String,
    pub name: String,
    pub owner: String,
    pub comment: OptionalMetadata<String>,
    pub query: String,
    pub output_columns: Vec<String>,
    pub security_barrier: ViewOption<bool>,
    pub security_invoker: ViewOption<bool>,
    pub check_option: ViewOption<String>,
    pub baseline_fingerprint: String,
}

#[derive(Clone, Debug, PartialEq, Eq)]
pub struct MaterializedViewDefinition {
    pub database: String,
    pub schema: String,
    pub name: String,
    pub owner: String,
    pub comment: OptionalMetadata<String>,
    pub query: String,
    pub tablespace: OptionalMetadata<String>,
    pub populated: bool,
    pub baseline_fingerprint: String,
}

#[derive(Clone, Debug, PartialEq, Eq)]
pub enum SequenceBound {
    Unset,
    Value(String),
    NoLimit,
}

#[derive(Clone, Debug, PartialEq, Eq)]
pub struct SequenceDefinition {
    pub database: String,
    pub schema: String,
    pub name: String,
    pub owner: String,
    pub comment: OptionalMetadata<String>,
    pub data_type: String,
    pub increment: String,
    pub min_value: SequenceBound,
    pub max_value: SequenceBound,
    pub start_value: String,
    pub cache: String,
    pub cycle: bool,
    pub owned_by: Option<(String, String, String)>,
    pub baseline_fingerprint: String,
}

#[derive(Clone, Debug, PartialEq, Eq)]
pub struct IndexColumnDefinition {
    pub expression: String,
    pub descending: bool,
    pub nulls_first: bool,
    pub is_expression: bool,
}

#[derive(Clone, Debug, PartialEq, Eq)]
pub struct IndexDefinition {
    pub database: String,
    pub schema: String,
    pub relation: String,
    pub relation_kind: CatalogKind,
    pub name: String,
    pub unique: bool,
    pub access_method: String,
    pub columns: Vec<IndexColumnDefinition>,
    pub include_columns: Vec<String>,
    pub predicate: OptionalMetadata<String>,
    pub tablespace: OptionalMetadata<String>,
    pub baseline_fingerprint: String,
}

#[derive(Clone, Debug, PartialEq, Eq)]
pub enum ConstraintDefinitionKind {
    PrimaryKey { columns: Vec<String> },
    Unique { columns: Vec<String> },
    ForeignKey {
        columns: Vec<String>,
        referenced_schema: String,
        referenced_relation: String,
        referenced_columns: Vec<String>,
        match_type: String,
        on_update: String,
        on_delete: String,
    },
    Check { expression: String, no_inherit: bool },
}

pub open spec fn constraint_catalog_kind(k: ConstraintDefinitionKind) -> CatalogKind {
    match k {
        ConstraintDefinitionKind::PrimaryKey { .. } => CatalogKind::PrimaryKey,
        ConstraintDefinitionKind::Unique { .. } => CatalogKind::UniqueConstraint,
        ConstraintDefinitionKind::ForeignKey { .. } => CatalogKind::ForeignKey,
        ConstraintDefinitionKind::Check { .. } => CatalogKind::CheckConstraint,
    }
}

impl ConstraintDefinitionKind {
    /// The catalog kind of a constraint of this kind.
    pub fn catalog_kind(&self) -> (r: CatalogKind)
        ensures
            r == constraint_catalog_kind(*self),
    {
        match self {
            ConstraintDefinitionKind::PrimaryKey { .. } => CatalogKind::PrimaryKey,
            ConstraintDefinitionKind::Unique { .. } => CatalogKind::UniqueConstraint,
            ConstraintDefinitionKind::ForeignKey { .. } => CatalogKind::ForeignKey,
            ConstraintDefinitionKind::Check { .. } => CatalogKind::CheckConstraint,
        }
    }
}

#[derive(Clone, Debug, PartialEq, Eq)]
pub struct ConstraintDefinition {
    pub database: String,
    pub schema: String,
    pub relation: String,
    pub relation_kind: CatalogKind,
    pub name: String,
    pub kind: ConstraintDefinitionKind,
    pub deferrable: bool,
    pub initially_deferred: bool,
    pub validated: bool,
    pub comment: OptionalMetadata<String>,
    pub baseline_fingerprint: String,
}

#[derive(Clone, Debug, PartialEq, Eq)]
pub enum CatalogObjectDefinition {
    Database(DatabaseDefinition),
    Role(RoleDefinition),
    Schema(SchemaDefinition),
    Table(TableDefinition),
    Index(IndexDefinition),
    Constraint(ConstraintDefinition),
    View(ViewDefinition),
    MaterializedView(MaterializedViewDefinition),
    Sequence(SequenceDefinition),
}

// ---------------------------------------------------------------------------
// Plans
// ---------------------------------------------------------------------------

#[derive(Clone, Copy, Debug, PartialEq, Eq, Structural)]
pub enum CatalogMutationExecutionMode {
    Transactional,
    Autocommit,
}

/// What the tree should select once the mutation has run.
#[derive(Clone, Debug, PartialEq, Eq)]
pub enum CatalogSelectionHint {
    Object(CatalogId),
    Parent(CatalogTarget),
}

#[derive(Clone, Debug, PartialEq, Eq)]
pub struct CatalogMutationNamespace {
    pub database: Option<CatalogId>,
    pub schema: Option<CatalogId>,
}

/// Which cached catalog state a mutation invalidates.
#[derive(Clone, Debug, PartialEq, Eq)]
pub struct CatalogMutationImpact {
    pub old_object_id: CatalogId,
    pub owning_relation_id: Option<CatalogId>,
    pub namespace: CatalogMutationNamespace,
    pub native_identity_changed: bool,
}

/// A validated set of statements that performs one catalog mutation.
#[derive(Clone, Debug, PartialEq, Eq)]
pub struct CatalogMutationPlan {
    pub request: CatalogMutationRequest,
    pub object_type: CatalogObjectType,
    pub execution_mode: CatalogMutationExecutionMode,
    pub refresh: Vec<CatalogTarget>,
    pub selection: CatalogSelectionHint,
    pub baseline_fingerprint: Option<String>,
    pub warnings: Vec<String>,
    pub destructive: bool,
    pub impact: CatalogMutationImpact,
    pub execution_target: Option<CatalogMutationTarget>,
    pub statements: Vec<String>,
}

/// What a plan holds, its statements as character sequences.
pub struct CatalogMutationPlanView {
    pub request: CatalogMutationRequest,
    pub object_type: CatalogObjectType,
    pub execution_mode: CatalogMutationExecutionMode,
    pub refresh: Seq<CatalogTarget>,
    pub selection: CatalogSelectionHint,
    pub baseline_fingerprint: Option<String>,
    pub warnings: Vec<String>,
    pub destructive: bool,
    pub impact: CatalogMutationImpact,
    pub execution_target: Option<CatalogMutationTarget>,
    pub statements: Seq<Seq<char>>,
}

impl View for CatalogMutationPlan {
    type V = CatalogMutationPlanView;

    open spec fn view(&self) -> CatalogMutationPlanView {
        CatalogMutationPlanView {
            request: self.request,
            object_type: self.object_type,
            execution_mode: self.execution_mode,
            refresh: self.refresh@,
            selection: self.selection,
            baseline_fingerprint: self.baseline_fingerprint,
            warnings: self.warnings,
            destructive: self.destructive,
            impact: self.impact,
            execution_target: self.execution_target,
            statements: views(self.statements@),
        }
    }
}


/// The catalog kind that selects an object of type `t`; roles live at the
/// database level.
pub open spec fn object_type_kind(t: CatalogObjectType) -> CatalogKind {
    match t {
        CatalogObjectType::Catalog(kind) => kind,
        _ => CatalogKind::Database,
    }
}

/// A target that names another profile than `profile_id`.
pub open spec fn foreign_target(t: CatalogTarget, profile_id: u128) -> bool {
    target_profile(t) matches Some(id) && id != profile_id
}

/// `i` is the first refresh target of another profile.
pub open spec fn is_first_foreign(ts: Seq<CatalogTarget>, profile_id: u128, i: int) -> bool {
    &&& 0 <= i < ts.len()
    &&& foreign_target(ts[i], profile_id)
    &&& forall|j: int| 0 <= j < i ==> !foreign_target(#[trigger] ts[j], profile_id)
}

pub open spec fn refresh_issue(ts: Seq<CatalogTarget>, profile_id: u128) -> Option<MutationIssue> {
    if exists|i: int| is_first_foreign(ts, profile_id, i) {
        let i = choose|i: int| is_first_foreign(ts, profile_id, i);
        profile_mismatch(target_profile(ts[i])->0, profile_id)
    } else {
        None
    }
}

pub open spec fn selection_issue(
    selection: CatalogSelectionHint,
    object_type: CatalogObjectType,
    profile_id: u128,
) -> Option<MutationIssue> {
    match selection {
        CatalogSelectionHint::Object(object) => if object_profile_issue(object, profile_id) is Some {
            object_profile_issue(object, profile_id)
        } else if object.kind != object_type_kind(object_type) {
            plan_reason("selection object type does not match plan")
        } else {
            None
        },
        CatalogSelectionHint::Parent(target) => if foreign_target(target, profile_id) {
            plan_reason("selection target profile does not match request")
        } else {
            None
        },
    }
}

/// Why a plan is refused: no statements or a blank one, an object type
/// other than the request's, no refresh target or one of another profile,
/// or a selection that does not fit.
pub open spec fn plan_issue(
    request: CatalogMutationRequest,
    object_type: CatalogObjectType,
    refresh: Seq<CatalogTarget>,
    selection: CatalogSelectionHint,
    statements: Seq<Seq<char>>,
) -> Option<MutationIssue> {
    let profile_id = request.connection.profile_id;
    if statements.len() == 0 || exists|i: int|
        0 <= i < statements.len() && trim(#[trigger] statements[i]).len() == 0 {
        plan_reason("plan must contain non-empty statements")
    } else if request.object_type != object_type {
        plan_reason("plan object type does not match request")
    } else if refresh.len() == 0 {
        plan_reason("plan must contain a refresh target")
    } else if refresh_issue(refresh, profile_id) is Some {
        refresh_issue(refresh, profile_id)
    } else {
        selection_issue(selection, object_type, profile_id)
    }
}

/// The object a new plan starts from: the anchor's object or schema, or the
/// profile's unnamed database.
pub open spec fn anchor_object(anchor: CatalogMutationAnchor) -> CatalogIdView {
    match anchor {
        CatalogMutationAnchor::Catalog(id) => id@,
        CatalogMutationAnchor::Group { schema, .. } => schema@,
        CatalogMutationAnchor::Profile { profile_id } => CatalogIdView {
            connection_id: profile_id,
            kind: CatalogKind::Database,
            path: seq![Seq::<char>::empty()],
        },
    }
}

impl CatalogMutationPlan {
    /// A plan that is neither destructive nor bound to an execution target,
    /// whose impact starts at the anchor's object; refused unless it validates.
    pub fn new(
        request: CatalogMutationRequest,
        object_type: CatalogObjectType,
        execution_mode: CatalogMutationExecutionMode,
        refresh: Vec<CatalogTarget>,
        selection: CatalogSelectionHint,
        baseline_fingerprint: Option<String>,
        warnings: Vec<String>,
        statements: Vec<String>,
    ) -> (r: Result<Self, CatalogMutationError>)
        ensures
            mutation_issue(r) == plan_issue(
                request,
                object_type,
                refresh@,
                selection,
                views(statements@),
            ),
            r matches Ok(p) ==> {
                &&& p@.request == request
                &&& p@.object_type == object_type
                &&& p@.execution_mode == execution_mode
                &&& p@.refresh == refresh@
                &&& p@.selection == selection
                &&& p@.baseline_fingerprint == baseline_fingerprint
                &&& p@.warnings == warnings
                &&& !p@.destructive
                &&& p@.impact.old_object_id@ == anchor_object(request.anchor)
                &&& p@.impact.owning_relation_id is None
                &&& p@.impact.namespace.database is None
                &&& p@.impact.namespace.schema is None
                &&& !p@.impact.native_identity_changed
                &&& p@.execution_target is None
                &&& p@.statements == views(statements@)
            },
    {
        let old_object_id = match &request.anchor {
            CatalogMutationAnchor::Catalog(id) => id.clone(),
            CatalogMutationAnchor::Group { schema, .. } => schema.clone(),
            CatalogMutationAnchor::Profile { profile_id } => {
                let mut path: Vec<String> = Vec::new();
                path.push(String::new());
                let id = CatalogId::new(*profile_id, CatalogKind::Database, path);
                assert(id@.path =~= seq![Seq::<char>::empty()]);
                id
            },
        };
        let plan = CatalogMutationPlan {
            request,
            object_type,
            execution_mode,
            refresh,
            selection,
            baseline_fingerprint,
            warnings,
            destructive: false,
            impact: CatalogMutationImpact {
                old_object_id,
                owning_relation_id: None,
                namespace: CatalogMutationNamespace { database: None, schema: None },
                native_identity_changed: false,
            },
            execution_target: None,
            statements,
        };
        plan.validate()?;
        Ok(plan)
    }

    /// Checks the plan as `new` does.
    pub fn validate(&self) -> (r: Result<(), CatalogMutationError>)
        ensures
            mutation_issue(r) == plan_issue(
                self@.request,
                self@.object_type,
                self@.refresh,
                self@.selection,
                self@.statements,
            ),
    {
        let ghost stmts = views(self.statements@);
        if self.statements.len() == 0 {
            return Err(
                CatalogMutationError::InvalidPlan {
                    reason: owned("plan must contain non-empty statements"),
                },
            );
        }
        let mut i: usize = 0;
        while i < self.statements.len()
            invariant
                stmts == views(self.statements@),
                i <= self.statements@.len(),
                forall|k: int| 0 <= k < i ==> trim(#[trigger] stmts[k]).len() != 0,
            decreases self.statements@.len() - i,
        {
            if is_empty_str(trim_str(self.statements[i].as_str()).as_str()) {
                assert(trim(stmts[i as int]).len() == 0);
                return Err(
                    CatalogMutationError::InvalidPlan {
                        reason: owned("plan must contain non-empty statements"),
                    },
                );
            }
            i = i + 1;
        }
        if self.request.object_type != self.object_type {
            return Err(
                CatalogMutationError::InvalidPlan {
                    reason: owned("plan object type does not match request"),
                },
            );
        }
        if self.refresh.len() == 0 {
            return Err(
                CatalogMutationError::InvalidPlan {
                    reason: owned("plan must contain a refresh target"),
                },
            );
        }
        let profile_id = self.request.connection.profile_id;
        let mut k: usize = 0;
        while k < self.refresh.len()
            invariant
                k <= self.refresh@.len(),
                forall|j: int| 0 <= j < k ==> !foreign_target(#[trigger] self.refresh@[j], profile_id),
            decreases self.refresh@.len() - k,
        {
            match self.refresh[k].profile_id() {
                Some(id) => {
                    if id != profile_id {
                        let ghost ts = self.refresh@;
                        assert(is_first_foreign(ts, profile_id, k as int));
                        let ghost c = choose|i: int| is_first_foreign(ts, profile_id, i);
                        assert(c == k) by {
                            if c < k {
                                assert(!foreign_target(ts[c], profile_id));
                            } else if c > k {
                                assert(!foreign_target(ts[k as int], profile_id));
                            }
                        };
                        return Err(
                            CatalogMutationError::ProfileMismatch {
                                object_profile_id: id,
                                connection_profile_id: profile_id,
                            },
                        );
                    }
                },
                None => {},
            }
            k = k + 1;
        }
        assert(!exists|i: int| is_first_foreign(self.refresh@, profile_id, i));
        match &self.selection {
            CatalogSelectionHint::Object(object) => {
                validate_object_profile(object, profile_id)?;
                if object.kind != self.object_type_kind() {
                    return Err(
                        CatalogMutationError::InvalidPlan {
                            reason: owned("selection object type does not match plan"),
                        },
                    );
                }
            },
            CatalogSelectionHint::Parent(target) => {
                let foreign = match target.profile_id() {
                    Some(id) => id != profile_id,
                    None => false,
                };
                if foreign {
                    return Err(
                        CatalogMutationError::InvalidPlan {
                            reason: owned("selection target profile does not match request"),
                        },
                    );
                }
            },
        }
        Ok(())
    }

    /// The same plan with `impact`.
    pub fn with_impact(self, impact: CatalogMutationImpact) -> (r: Self)
        ensures
            r@ == (CatalogMutationPlanView { impact, ..self@ }),
    {
        CatalogMutationPlan { impact, ..self }
    }

    /// The same plan, marked destructive or not.
    pub fn with_destructive(self, destructive: bool) -> (r: Self)
        ensures
            r@ == (CatalogMutationPlanView { destructive, ..self@ }),
    {
        CatalogMutationPlan { destructive, ..self }
    }

    /// The same plan bound to `target`.
    pub fn with_execution_target(self, target: CatalogMutationTarget) -> (r: Self)
        ensures
            r@ == (CatalogMutationPlanView { execution_target: Some(target), ..self@ }),
    {
        CatalogMutationPlan { execution_target: Some(target), ..self }
    }

    fn object_type_kind(&self) -> (r: CatalogKind)
        ensures
            r == object_type_kind(self.object_type),
    {
        match self.object_type {
            CatalogObjectType::Catalog(kind) => kind,
            CatalogObjectType::LoginRole | CatalogObjectType::Role => CatalogKind::Database,
        }
    }

    /// The statements, in order.
    pub fn statements(&self) -> (r: &[String])
        ensures
            views(r@) == self@.statements,
    {
        self.statements.as_slice()
    }

    /// The statements joined by newlines.
    pub fn sql(&self) -> (r: String)
        ensures
            r@ == join(self@.statements, "\n"@),
    {
        join_strings(&self.statements, "\n")
    }
}

/// The builders that set a plan's impact, destructiveness or execution
/// target keep a plan that passes `validate` passing it.
pub proof fn lemma_builders_keep_plan_valid(
    p: CatalogMutationPlanView,
    impact: CatalogMutationImpact,
    destructive: bool,
    target: CatalogMutationTarget,
)
    requires
        plan_issue(p.request, p.object_type, p.refresh, p.selection, p.statements) is None,
    ensures
        ({
            let q = CatalogMutationPlanView {
                impact,
                destructive,
                execution_target: Some(target),
                ..p
            };
            plan_issue(q.request, q.object_type, q.refresh, q.selection, q.statements) is None
        }),
{
}

} // verus!
