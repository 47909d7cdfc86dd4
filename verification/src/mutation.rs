//! Whether a relation's rows can be edited, and the edits themselves.
use vstd::prelude::*;

use crate::catalog::{
    CatalogEntry, CatalogKind, CatalogMetadata, ColumnMetadata, ConstraintMetadata,
    OptionalMetadata,
};
use crate::page::RelationDdl;
use crate::query::ResultSet;
use crate::text::{clone_strings, eq_ignore_ascii_case, eq_ignore_case, str_eq, views};
use crate::value::CellValue;

verus! {

/// The shape of a relation an edit was planned against: its name, its
/// columns (name, native type, nullable) and its primary key.
#[derive(Clone, Debug, PartialEq, Eq)]
pub struct MetadataFingerprint {
    pub relation: String,
    pub columns: Vec<(String, String, bool)>,
    pub primary_key: Vec<String>,
}

pub struct FingerprintView {
    pub relation: Seq<char>,
    pub columns: Seq<(Seq<char>, Seq<char>, bool)>,
    pub primary_key: Seq<Seq<char>>,
}

pub open spec fn column_view(c: (String, String, bool)) -> (Seq<char>, Seq<char>, bool) {
    (c.0@, c.1@, c.2)
}

impl View for MetadataFingerprint {
    type V = FingerprintView;

    open spec fn view(&self) -> FingerprintView {
        FingerprintView {
            relation: self.relation@,
            columns: self.columns@.map_values(|c: (String, String, bool)| column_view(c)),
            primary_key: views(self.primary_key@),
        }
    }
}

#[derive(Clone, Debug, PartialEq, Eq)]
pub struct EditMetadata {
    pub fingerprint: MetadataFingerprint,
    pub primary_key_columns: Vec<usize>,
}

/// Why a relation's rows cannot be edited.
#[derive(Clone, Debug, PartialEq, Eq)]
pub enum EditDisabledReason {
    ReadOnlyConnection,
    NotATable,
    SnapshotNotLive,
    MissingDdl,
    MissingPrimaryKey,
    MissingPrimaryKeyColumn(String),
    GeneratedColumn(String),
    UnsupportedRowValue,
}

#[derive(Clone, Debug, PartialEq, Eq)]
pub enum EditableRelationCapability {
    Editable(EditMetadata),
    ReadOnly(EditDisabledReason),
}

/// The fingerprint columns of the column entries, in order.
pub open spec fn fingerprint_columns(entries: Seq<CatalogEntry>) -> Seq<(Seq<char>, Seq<char>, bool)>
    decreases entries.len(),
{
    if entries.len() == 0 {
        Seq::empty()
    } else {
        let rest = fingerprint_columns(entries.drop_last());
        let e = entries.last();
        match e.metadata {
            CatalogMetadata::Column(c) => rest.push((e.qualified_name.object@, c.native_type@, c.nullable)),
            _ => rest,
        }
    }
}

/// The columns of the first primary key among `entries[i..]`.
pub open spec fn primary_key_from(entries: Seq<CatalogEntry>, i: int) -> Option<Seq<Seq<char>>>
    decreases entries.len() - i,
{
    if i < 0 || i >= entries.len() {
        None
    } else {
        match entries[i].metadata {
            CatalogMetadata::Constraint(ConstraintMetadata::PrimaryKey { columns }) => Some(
                views(columns@),
            ),
            _ => primary_key_from(entries, i + 1),
        }
    }
}

/// The fingerprint of a relation: its name, its column entries in order,
/// and the columns of its first primary key (none if it has none).
pub open spec fn fingerprint_of(ddl: RelationDdl) -> FingerprintView {
    FingerprintView {
        relation: ddl.relation.qualified_name.object@,
        columns: fingerprint_columns(ddl.children.entries@),
        primary_key: match primary_key_from(ddl.children.entries@, 0) {
            Some(k) => k,
            None => Seq::empty(),
        },
    }
}

fn first_primary_key(entries: &Vec<CatalogEntry>) -> (r: Vec<String>)
    ensures
        views(r@) == (match primary_key_from(entries@, 0) {
            Some(key) => key,
            None => Seq::empty(),
        }),
{
    let mut k: usize = 0;
    while k < entries.len()
        invariant
            k <= entries@.len(),
            primary_key_from(entries@, 0) == primary_key_from(entries@, k as int),
        decreases entries@.len() - k,
    {
        match &entries[k].metadata {
            CatalogMetadata::Constraint(ConstraintMetadata::PrimaryKey { columns }) => {
                return clone_strings(columns);
            },
            _ => {},
        }
        k = k + 1;
    }
    let r: Vec<String> = Vec::new();
    assert(views(r@) =~= Seq::<Seq<char>>::empty());
    r
}

/// The fingerprint of `ddl`, from its relation and child entries.
pub fn metadata_fingerprint(ddl: &RelationDdl) -> (r: MetadataFingerprint)
    ensures
        r@ == fingerprint_of(*ddl),
{
    let entries = &ddl.children.entries;
    let mut columns: Vec<(String, String, bool)> = Vec::new();
    let mut i: usize = 0;
    while i < entries.len()
        invariant
            i <= entries@.len(),
            columns@.map_values(|c: (String, String, bool)| column_view(c)) == fingerprint_columns(
                entries@.subrange(0, i as int),
            ),
        decreases entries@.len() - i,
    {
        let ghost before = columns@.map_values(|c: (String, String, bool)| column_view(c));
        assert(entries@.subrange(0, i + 1).drop_last() =~= entries@.subrange(0, i as int));
        let entry = &entries[i];
        match &entry.metadata {
            CatalogMetadata::Column(column) => {
                columns.push(
                    (entry.qualified_name.object.clone(), column.native_type.clone(), column.nullable),
                );
                assert(columns@.map_values(|c: (String, String, bool)| column_view(c)) =~= before.push(
                    (entry.qualified_name.object@, column.native_type@, column.nullable),
                ));
            },
            _ => {},
        }
        i = i + 1;
    }
    assert(entries@.subrange(0, i as int) =~= entries@);
    let primary_key = first_primary_key(entries);
    MetadataFingerprint {
        relation: ddl.relation.qualified_name.object.clone(),
        columns,
        primary_key,
    }
}

/// A column whose value the server computes: an identity column, one with
/// a generation expression, or a row version.
pub open spec fn is_generated_column(c: ColumnMetadata) -> bool {
    c.identity == OptionalMetadata::<bool>::Supported(Some(true)) || c.generated_expression
        is Supported && c.generated_expression->Supported_0 is Some || eq_ignore_ascii_case(
        c.native_type@,
        "rowversion"@,
    ) || eq_ignore_ascii_case(c.native_type@, "timestamp"@)
}

/// The name of the first generated column among `entries[i..]`.
pub open spec fn generated_from(entries: Seq<CatalogEntry>, i: int) -> Option<Seq<char>>
    decreases entries.len() - i,
{
    if i < 0 || i >= entries.len() {
        None
    } else {
        match entries[i].metadata {
            CatalogMetadata::Column(c) => if is_generated_column(c) {
                Some(entries[i].qualified_name.object@)
            } else {
                generated_from(entries, i + 1)
            },
            _ => generated_from(entries, i + 1),
        }
    }
}

/// `i` is the first result column named `name`.
pub open spec fn is_first_column(result: ResultSet, name: Seq<char>, i: int) -> bool {
    &&& 0 <= i < result.columns@.len()
    &&& result.columns@[i].name@ == name
    &&& forall|j: int| 0 <= j < i ==> #[trigger] result.columns@[j].name@ != name
}

pub open spec fn has_column(result: ResultSet, name: Seq<char>) -> bool {
    exists|i: int| 0 <= i < result.columns@.len() && #[trigger] result.columns@[i].name@ == name
}

/// The position of each key column in the result, or the first key
/// column that the result lacks.
pub open spec fn key_positions(key: Seq<Seq<char>>, result: ResultSet, positions: Seq<usize>) -> bool {
    &&& positions.len() == key.len()
    &&& forall|k: int| 0 <= k < key.len() ==> #[trigger] is_first_column(result, key[k], positions[k] as int)
}

pub open spec fn first_missing_key(key: Seq<Seq<char>>, result: ResultSet, k: int) -> bool {
    &&& 0 <= k < key.len()
    &&& !has_column(result, key[k])
    &&& forall|m: int| 0 <= m < k ==> has_column(result, #[trigger] key[m])
}

/// Some cell of the result could not be decoded.
pub open spec fn has_unsupported_cell(result: ResultSet) -> bool {
    exists|i: int, j: int|
        0 <= i < result.rows@.len() && 0 <= j < result.rows@[i]@.len() && (
        #[trigger] result.rows@[i]@[j]) is Unsupported
}

/// What an editable-capability check gives once the connection, kind,
/// liveness and DDL have passed.
pub open spec fn capability_from_ddl(d: RelationDdl, result: ResultSet, r: EditableRelationCapability) -> bool {
    let entries = d.children.entries@;
    let key = fingerprint_of(d).primary_key;
    match generated_from(entries, 0) {
        Some(name) => r matches EditableRelationCapability::ReadOnly(
            EditDisabledReason::GeneratedColumn(c),
        ) && c@ == name,
        None => if key.len() == 0 {
            r == EditableRelationCapability::ReadOnly(EditDisabledReason::MissingPrimaryKey)
        } else if exists|k: int| first_missing_key(key, result, k) {
            r matches EditableRelationCapability::ReadOnly(
                EditDisabledReason::MissingPrimaryKeyColumn(c),
            ) && c@ == key[choose|k: int| first_missing_key(key, result, k)]
        } else if has_unsupported_cell(result) {
            r == EditableRelationCapability::ReadOnly(EditDisabledReason::UnsupportedRowValue)
        } else {
            r matches EditableRelationCapability::Editable(m) && m.fingerprint@ == fingerprint_of(d)
                && key_positions(key, result, m.primary_key_columns@)
        },
    }
}

fn is_generated(c: &ColumnMetadata) -> (r: bool)
    ensures
        r == is_generated_column(*c),
{
    let identity = match &c.identity {
        OptionalMetadata::Supported(Some(v)) => *v,
        _ => false,
    };
    let expression = match &c.generated_expression {
        OptionalMetadata::Supported(Some(_)) => true,
        _ => false,
    };
    identity || expression || eq_ignore_case(c.native_type.as_str(), "rowversion")
        || eq_ignore_case(c.native_type.as_str(), "timestamp")
}

fn column_position(result: &ResultSet, name: &String) -> (r: Option<usize>)
    ensures
        match r {
            Some(i) => is_first_column(*result, name@, i as int),
            None => !has_column(*result, name@),
        },
{
    let mut i: usize = 0;
    while i < result.columns.len()
        invariant
            i <= result.columns@.len(),
            forall|j: int| 0 <= j < i ==> #[trigger] result.columns@[j].name@ != name@,
        decreases result.columns@.len() - i,
    {
        if str_eq(result.columns[i].name.as_str(), name.as_str()) {
            return Some(i);
        }
        i = i + 1;
    }
    None
}

fn any_unsupported(result: &ResultSet) -> (r: bool)
    ensures
        r == has_unsupported_cell(*result),
{
    let mut i: usize = 0;
    while i < result.rows.len()
        invariant
            i <= result.rows@.len(),
            forall|a: int, b: int|
                0 <= a < i && 0 <= b < result.rows@[a]@.len() ==> !((
                #[trigger] result.rows@[a]@[b]) is Unsupported),
        decreases result.rows@.len() - i,
    {
        let row = &result.rows[i];
        let mut j: usize = 0;
        while j < row.len()
            invariant
                i < result.rows@.len(),
                *row == result.rows@[i as int],
                j <= row@.len(),
                forall|b: int| 0 <= b < j ==> !((#[trigger] row@[b]) is Unsupported),
            decreases row@.len() - j,
        {
            if row[j].is_unsupported() {
                assert(result.rows@[i as int]@[j as int] is Unsupported);
                return true;
            }
            j = j + 1;
        }
        i = i + 1;
    }
    false
}

/// Whether rows of a relation can be edited in place, and how they are
/// located: the connection must be writable, the relation a live table with
/// known DDL, no column generated by the server, a primary key whose columns
/// all appear in the result, and every cell decodable.
pub fn editable_capability(
    kind: CatalogKind,
    read_only: bool,
    live: bool,
    ddl: Option<&RelationDdl>,
    result: &ResultSet,
) -> (r: EditableRelationCapability)
    ensures
        read_only ==> r == EditableRelationCapability::ReadOnly(
            EditDisabledReason::ReadOnlyConnection,
        ),
        !read_only && kind != CatalogKind::Table ==> r == EditableRelationCapability::ReadOnly(
            EditDisabledReason::NotATable,
        ),
        !read_only && kind == CatalogKind::Table && !live ==> r
            == EditableRelationCapability::ReadOnly(EditDisabledReason::SnapshotNotLive),
        !read_only && kind == CatalogKind::Table && live && ddl is None ==> r
            == EditableRelationCapability::ReadOnly(EditDisabledReason::MissingDdl),
        !read_only && kind == CatalogKind::Table && live && ddl is Some ==> capability_from_ddl(
            *ddl->0,
            *result,
            r,
        ),
{
    if read_only {
        return EditableRelationCapability::ReadOnly(EditDisabledReason::ReadOnlyConnection);
    }
    if kind != CatalogKind::Table {
        return EditableRelationCapability::ReadOnly(EditDisabledReason::NotATable);
    }
    if !live {
        return EditableRelationCapability::ReadOnly(EditDisabledReason::SnapshotNotLive);
    }
    let ddl = match ddl {
        Some(d) => d,
        None => {
            return EditableRelationCapability::ReadOnly(EditDisabledReason::MissingDdl);
        },
    };
    let fingerprint = metadata_fingerprint(ddl);
    let entries = &ddl.children.entries;
    let mut i: usize = 0;
    while i < entries.len()
        invariant
            i <= entries@.len(),
            generated_from(entries@, 0) == generated_from(entries@, i as int),
        decreases entries@.len() - i,
    {
        let entry = &entries[i];
        match &entry.metadata {
            CatalogMetadata::Column(metadata) => {
                if is_generated(metadata) {
                    return EditableRelationCapability::ReadOnly(
                        EditDisabledReason::GeneratedColumn(entry.qualified_name.object.clone()),
                    );
                }
            },
            _ => {},
        }
        i = i + 1;
    }
    let key = &fingerprint.primary_key;
    let ghost key_view = views(key@);
    if key.len() == 0 {
        return EditableRelationCapability::ReadOnly(EditDisabledReason::MissingPrimaryKey);
    }
    let mut positions: Vec<usize> = Vec::new();
    let mut k: usize = 0;
    while k < key.len()
        invariant
            key_view == views(key@),
            k <= key@.len(),
            positions@.len() == k,
            forall|m: int| 0 <= m < k ==> #[trigger] is_first_column(*result, key_view[m], positions@[m] as int),
        decreases key@.len() - k,
    {
        match column_position(result, &key[k]) {
            Some(p) => {
                positions.push(p);
            },
            None => {
                proof {
                    assert(first_missing_key(key_view, *result, k as int)) by {
                        assert forall|m: int| 0 <= m < k implies has_column(*result, #[trigger] key_view[m]) by {
                            assert(is_first_column(*result, key_view[m], positions@[m] as int));
                        }
                    }
                    let c = choose|j: int| first_missing_key(key_view, *result, j);
                    assert(c == k) by {
                        if c < k {
                            assert(is_first_column(*result, key_view[c], positions@[c] as int));
                        } else if c > k {
                            assert(has_column(*result, key_view[k as int]));
                        }
                    }
                }
                return EditableRelationCapability::ReadOnly(
                    EditDisabledReason::MissingPrimaryKeyColumn(key[k].clone()),
                );
            },
        }
        k = k + 1;
    }
    proof {
        assert forall|j: int| !first_missing_key(key_view, *result, j) by {
            if 0 <= j < key_view.len() {
                assert(is_first_column(*result, key_view[j], positions@[j] as int));
            }
        }
    }
    if any_unsupported(result) {
        return EditableRelationCapability::ReadOnly(EditDisabledReason::UnsupportedRowValue);
    }
    EditableRelationCapability::Editable(
        EditMetadata { fingerprint, primary_key_columns: positions },
    )
}

proof fn lemma_generated_from_first(entries: Seq<CatalogEntry>, k: int)
    requires
        0 <= k <= entries.len(),
    ensures
        match generated_from(entries, k) {
            Some(n) => exists|j: int|
                k <= j < entries.len() && (#[trigger] entries[j].metadata is Column)
                    && is_generated_column(entries[j].metadata->Column_0) && n
                    == entries[j].qualified_name.object@ && forall|h: int|
                    k <= h < j && (#[trigger] entries[h].metadata is Column) ==> !is_generated_column(
                        entries[h].metadata->Column_0,
                    ),
            None => forall|h: int|
                k <= h < entries.len() && (#[trigger] entries[h].metadata is Column) ==> !is_generated_column(
                    entries[h].metadata->Column_0,
                ),
        },
    decreases entries.len() - k,
{
    if k < entries.len() {
        lemma_generated_from_first(entries, k + 1);
    }
}

/// A relation with a column whose value the server computes (an identity
/// column, one with a generation expression, or a `rowversion` or
/// `timestamp` column) is read-only once the connection, kind, liveness and
/// DDL have passed, and the column it names is the first such column of the
/// DDL: a column whose flags show none of these is never named.
pub proof fn lemma_generated_columns_are_read_only(
    d: RelationDdl,
    result: ResultSet,
    r: EditableRelationCapability,
    i: int,
)
    requires
        capability_from_ddl(d, result, r),
        0 <= i < d.children.entries@.len(),
        d.children.entries@[i].metadata is Column,
        ({
            let m = d.children.entries@[i].metadata->Column_0;
            ||| m.identity == OptionalMetadata::<bool>::Supported(Some(true))
            ||| m.generated_expression is Supported && m.generated_expression->Supported_0 is Some
            ||| eq_ignore_ascii_case(m.native_type@, "rowversion"@)
            ||| eq_ignore_ascii_case(m.native_type@, "timestamp"@)
        }),
    ensures
        ({
            let entries = d.children.entries@;
            r matches EditableRelationCapability::ReadOnly(EditDisabledReason::GeneratedColumn(c))
                && exists|j: int|
                0 <= j <= i && (#[trigger] entries[j].metadata is Column) && c@
                    == entries[j].qualified_name.object@ && ({
                    let m = entries[j].metadata->Column_0;
                    ||| m.identity == OptionalMetadata::<bool>::Supported(Some(true))
                    ||| m.generated_expression is Supported && m.generated_expression->Supported_0 is Some
                    ||| eq_ignore_ascii_case(m.native_type@, "rowversion"@)
                    ||| eq_ignore_ascii_case(m.native_type@, "timestamp"@)
                }) && forall|h: int|
                    0 <= h < j && (#[trigger] entries[h].metadata is Column) ==> {
                        let m = entries[h].metadata->Column_0;
                        &&& m.identity != OptionalMetadata::<bool>::Supported(Some(true))
                        &&& !(m.generated_expression is Supported
                            && m.generated_expression->Supported_0 is Some)
                        &&& !eq_ignore_ascii_case(m.native_type@, "rowversion"@)
                        &&& !eq_ignore_ascii_case(m.native_type@, "timestamp"@)
                    }
        }),
{
    let entries = d.children.entries@;
    lemma_generated_from_first(entries, 0);
    assert(is_generated_column(entries[i].metadata->Column_0));
    let j = choose|j: int|
        0 <= j < entries.len() && (#[trigger] entries[j].metadata is Column) && is_generated_column(
            entries[j].metadata->Column_0,
        ) && generated_from(entries, 0)->Some_0 == entries[j].qualified_name.object@ && forall|h: int|
            0 <= h < j && (#[trigger] entries[h].metadata is Column) ==> !is_generated_column(
                entries[h].metadata->Column_0,
            );
    if j > i {
        assert(entries[i].metadata is Column);
    }
}

proof fn lemma_first_missing_exists(key: Seq<Seq<char>>, result: ResultSet, k: int)
    requires
        0 <= k < key.len(),
        !has_column(result, key[k]),
    ensures
        exists|f: int| first_missing_key(key, result, f),
    decreases k,
{
    if forall|m: int| 0 <= m < k ==> has_column(result, #[trigger] key[m]) {
        assert(first_missing_key(key, result, k));
    } else {
        let m = choose|m: int| 0 <= m < k && !has_column(result, #[trigger] key[m]);
        lemma_first_missing_exists(key, result, m);
    }
}

/// Once the connection, kind, liveness and DDL have passed, no column is
/// generated by the server and the DDL has a primary key, a relation's rows
/// are editable exactly when every key column appears in the result and no
/// cell is undecodable. Otherwise the first key column the result lacks is
/// named, and failing that the undecodable values are. When editable, each
/// key column is located at its first occurrence among the result columns.
pub proof fn lemma_editable_capability(d: RelationDdl, result: ResultSet, r: EditableRelationCapability)
    requires
        capability_from_ddl(d, result, r),
        generated_from(d.children.entries@, 0) is None,
        fingerprint_of(d).primary_key.len() > 0,
    ensures
        ({
            let key = fingerprint_of(d).primary_key;
            &&& (exists|k: int| 0 <= k < key.len() && !has_column(result, #[trigger] key[k])) ==> (
            r matches EditableRelationCapability::ReadOnly(
                EditDisabledReason::MissingPrimaryKeyColumn(c),
            ) && exists|k: int| first_missing_key(key, result, k) && c@ == key[k])
            &&& (forall|k: int| 0 <= k < key.len() ==> has_column(result, #[trigger] key[k]))
                ==> if has_unsupported_cell(result) {
                r == EditableRelationCapability::ReadOnly(EditDisabledReason::UnsupportedRowValue)
            } else {
                r matches EditableRelationCapability::Editable(m) && m.fingerprint@ == fingerprint_of(d)
                    && m.primary_key_columns@.len() == key.len() && forall|k: int|
                    0 <= k < key.len() ==> is_first_column(
                        result,
                        #[trigger] key[k],
                        m.primary_key_columns@[k] as int,
                    )
            }
        }),
{
    let key = fingerprint_of(d).primary_key;
    if exists|k: int| 0 <= k < key.len() && !has_column(result, #[trigger] key[k]) {
        let k = choose|k: int| 0 <= k < key.len() && !has_column(result, #[trigger] key[k]);
        lemma_first_missing_exists(key, result, k);
    } else {
        assert forall|f: int| !first_missing_key(key, result, f) by {
            if 0 <= f < key.len() {
                assert(has_column(result, key[f]));
            }
        }
        if !has_unsupported_cell(result) {
            let m = r->Editable_0;
            assert forall|k: int| 0 <= k < key.len() implies is_first_column(
                result,
                #[trigger] key[k],
                m.primary_key_columns@[k] as int,
            ) by {
                assert(is_first_column(result, key[k], m.primary_key_columns@[k] as int));
            }
        }
    }
}

/// The value written into a cell: a literal value, SQL `NULL`, or the
/// column's default.
#[derive(Clone, Debug, PartialEq, Eq)]
pub enum InputValue {
    Value(CellValue),
    Null,
    Default,
}

/// A row found by the values of some of its columns.
#[derive(Clone, Debug, PartialEq, Eq)]
pub struct RowLocator {
    pub columns: Vec<usize>,
    pub values: Vec<CellValue>,
}

#[derive(Clone, Debug, PartialEq, Eq)]
pub struct UpdateCellMutation {
    pub row: RowLocator,
    pub column: usize,
    pub original: CellValue,
    pub value: InputValue,
}

#[derive(Clone, Debug, PartialEq, Eq)]
pub struct DeleteRowMutation {
    pub row: RowLocator,
    pub original: Vec<CellValue>,
}

#[derive(Clone, Debug, PartialEq, Eq)]
pub struct InsertRowMutation {
    /// Columns supplied by the draft. Columns not listed here are omitted so
    /// generated columns and database defaults can be evaluated by the server.
    pub columns: Vec<usize>,
    pub values: Vec<InputValue>,
}

#[derive(Clone, Debug, PartialEq, Eq)]
pub enum RelationMutation {
    UpdateCell(UpdateCellMutation),
    DeleteRows(Vec<DeleteRowMutation>),
    InsertRow(InsertRowMutation),
}

#[derive(Clone, Debug, PartialEq, Eq)]
pub enum MutationResult {
    Updated { row: Vec<CellValue> },
    Deleted { rows: usize },
    Inserted { row: Vec<CellValue> },
}

/// The columns an edit changed.
#[derive(Debug, PartialEq, Eq)]
pub struct ChangedColumns(pub std::collections::BTreeSet<usize>);

} // verus!
