//! MySQL index and constraint metadata: the server reports one row per
//! column of each index or constraint; these functions group the rows and
//! check that they describe well-formed objects.
use vstd::prelude::*;

use crate::catalog::CatalogKind;
use crate::error::{internal_error, is_internal_error, DatabaseError};
use crate::text::{decimal, is_empty_str, owned, push_decimal, push_str, str_eq, trim, trim_str, views};

verus! {

/// The error code of MySQL catalog invariants.
pub open spec fn meta_code() -> Seq<char> {
    "mysql_catalog_invariant"@
}

fn meta_error(message: &str) -> (r: DatabaseError)
    ensures
        is_internal_error(r, meta_code(), message@),
{
    internal_error("mysql_catalog_invariant", message)
}

/// `prefix`, a backquoted `name`, then `suffix`.
pub open spec fn named_message(prefix: Seq<char>, name: Seq<char>, suffix: Seq<char>) -> Seq<char> {
    prefix + seq!['`'] + name + seq!['`'] + suffix
}

fn named_message_string(prefix: &str, name: &str, suffix: &str) -> (r: String)
    ensures
        r@ == named_message(prefix@, name@, suffix@),
{
    let mut s = owned(prefix);
    let mut tick = String::new();
    crate::text::push_char(&mut tick, '`');
    push_str(&mut s, tick.as_str());
    push_str(&mut s, name);
    push_str(&mut s, tick.as_str());
    push_str(&mut s, suffix);
    assert(tick@ =~= seq!['`']);
    assert(s@ =~= named_message(prefix@, name@, suffix@));
    s
}

/// `prefix`, a backquoted `name`, ` part `, the part's number, then `suffix`.
pub open spec fn part_message(prefix: Seq<char>, name: Seq<char>, ordinal: u32, suffix: Seq<char>) -> Seq<
    char,
> {
    named_message(prefix, name, " part "@) + decimal(ordinal as nat) + suffix
}

fn part_message_string(prefix: &str, name: &str, ordinal: u32, suffix: &str) -> (r: String)
    ensures
        r@ == part_message(prefix@, name@, ordinal, suffix@),
{
    let mut s = named_message_string(prefix, name, " part ");
    push_decimal(&mut s, ordinal as u64);
    push_str(&mut s, suffix);
    assert(s@ =~= part_message(prefix@, name@, ordinal, suffix@));
    s
}

// ---------------------------------------------------------------------------
// Indexes
// ---------------------------------------------------------------------------

/// One row of an index listing: one column or expression of the index.
#[derive(Debug)]
pub struct MySqlIndexPart {
    pub name: String,
    pub unique: bool,
    pub ordinal: u32,
    pub column: Option<String>,
    pub expression: Option<String>,
}

/// An index with its columns (or expressions) in order.
#[derive(Debug)]
pub struct MySqlIndexInfo {
    pub name: String,
    pub columns: Vec<String>,
    pub unique: bool,
}

/// The value of an index.
pub struct IndexInfoView {
    pub name: Seq<char>,
    pub columns: Seq<Seq<char>>,
    pub unique: bool,
}

impl View for MySqlIndexInfo {
    type V = IndexInfoView;

    open spec fn view(&self) -> IndexInfoView {
        IndexInfoView { name: self.name@, columns: views(self.columns@), unique: self.unique }
    }
}

pub open spec fn index_views(v: Seq<MySqlIndexInfo>) -> Seq<IndexInfoView> {
    v.map_values(|i: MySqlIndexInfo| i@)
}

/// Why index rows do not describe well-formed indexes.
pub enum IndexIssue {
    /// A part's ordinal is not the next one of its index.
    NotContiguous(Seq<char>),
    /// The next ordinal does not fit in 32 bits.
    OrdinalOverflow,
    /// A part has neither a column nor a non-blank expression.
    NoComponent(Seq<char>, u32),
    /// The parts of one index disagree on uniqueness.
    UniquenessChanged,
}

pub open spec fn index_issue_message(issue: IndexIssue) -> Seq<char> {
    match issue {
        IndexIssue::NotContiguous(name) => named_message(
            "MySQL index "@,
            name,
            " parts are not contiguous"@,
        ),
        IndexIssue::OrdinalOverflow => "MySQL index ordinal overflowed"@,
        IndexIssue::NoComponent(name, ordinal) => part_message(
            "MySQL index "@,
            name,
            ordinal,
            " has no column or expression"@,
        ),
        IndexIssue::UniquenessChanged => "MySQL index uniqueness changed between parts"@,
    }
}

/// What a part contributes to its index: its column, else its expression
/// when that is not blank.
pub open spec fn index_component(p: MySqlIndexPart) -> Option<Seq<char>> {
    match p.column {
        Some(c) => Some(c@),
        None => match p.expression {
            Some(e) => if trim(e@).len() > 0 {
                Some(e@)
            } else {
                None
            },
            None => None,
        },
    }
}

/// One part added to the indexes read so far; `expected` is the ordinal
/// that the last index's next part must have.
pub open spec fn index_step(acc: Seq<IndexInfoView>, expected: int, p: MySqlIndexPart) -> Result<
    (Seq<IndexInfoView>, int),
    IndexIssue,
> {
    let same = acc.len() > 0 && acc.last().name == p.name@;
    let exp = if same {
        expected
    } else {
        1
    };
    if p.ordinal != exp {
        Err(IndexIssue::NotContiguous(p.name@))
    } else if exp + 1 > u32::MAX {
        Err(IndexIssue::OrdinalOverflow)
    } else {
        match index_component(p) {
            None => Err(IndexIssue::NoComponent(p.name@, p.ordinal)),
            Some(c) => if same {
                if acc.last().unique != p.unique {
                    Err(IndexIssue::UniquenessChanged)
                } else {
                    Ok(
                        (
                            acc.drop_last().push(
                                IndexInfoView {
                                    name: acc.last().name,
                                    columns: acc.last().columns.push(c),
                                    unique: acc.last().unique,
                                },
                            ),
                            exp + 1,
                        ),
                    )
                }
            } else {
                Ok(
                    (
                        acc.push(IndexInfoView { name: p.name@, columns: seq![c], unique: p.unique }),
                        exp + 1,
                    ),
                )
            },
        }
    }
}

/// The parts read in order, each continuing the index before it when it has
/// the same name.
pub open spec fn index_fold(parts: Seq<MySqlIndexPart>) -> Result<(Seq<IndexInfoView>, int), IndexIssue>
    decreases parts.len(),
{
    if parts.len() == 0 {
        Ok((Seq::empty(), 1))
    } else {
        match index_fold(parts.drop_last()) {
            Ok((acc, expected)) => index_step(acc, expected, parts.last()),
            Err(issue) => Err(issue),
        }
    }
}

/// The indexes that `parts` describe, or the first thing wrong with them.
pub open spec fn grouped_indexes(parts: Seq<MySqlIndexPart>) -> Result<Seq<IndexInfoView>, IndexIssue> {
    match index_fold(parts) {
        Ok((acc, _)) => Ok(acc),
        Err(issue) => Err(issue),
    }
}

/// Once the parts read so far are refused, so are all of them, for the same
/// reason.
proof fn lemma_index_fold_err(parts: Seq<MySqlIndexPart>, k: int)
    requires
        0 <= k <= parts.len(),
        index_fold(parts.take(k)) is Err,
    ensures
        index_fold(parts) == index_fold(parts.take(k)),
    decreases parts.len() - k,
{
    if k < parts.len() {
        assert(parts.take(k + 1).drop_last() =~= parts.take(k));
        lemma_index_fold_err(parts, k + 1);
    } else {
        assert(parts.take(k) =~= parts);
    }
}

fn index_issue_error(issue: Ghost<IndexIssue>, message: &str) -> (r: DatabaseError)
    requires
        message@ == index_issue_message(issue@),
    ensures
        is_internal_error(r, meta_code(), index_issue_message(issue@)),
{
    meta_error(message)
}

fn index_component_of(p: &MySqlIndexPart) -> (r: Option<String>)
    ensures
        opt_string_view(r) == index_component(*p),
{
    match &p.column {
        Some(c) => Some(c.clone()),
        None => match &p.expression {
            Some(e) => {
                let t = trim_str(e.as_str());
                if is_empty_str(t.as_str()) {
                    None
                } else {
                    Some(e.clone())
                }
            },
            None => None,
        },
    }
}

pub open spec fn opt_string_view(o: Option<String>) -> Option<Seq<char>> {
    match o {
        Some(s) => Some(s@),
        None => None,
    }
}

/// Groups index rows, read in order, into indexes.
pub fn group_index_parts(parts: Vec<MySqlIndexPart>) -> (r: Result<Vec<MySqlIndexInfo>, DatabaseError>)
    ensures
        match r {
            Ok(v) => grouped_indexes(parts@) == Ok::<Seq<IndexInfoView>, IndexIssue>(index_views(v@)),
            Err(e) => grouped_indexes(parts@) is Err && is_internal_error(
                e,
                meta_code(),
                index_issue_message(grouped_indexes(parts@)->Err_0),
            ),
        },
{
    let mut indexes: Vec<MySqlIndexInfo> = Vec::new();
    let mut expected: u32 = 1;
    let mut i: usize = 0;
    assert(parts@.take(0) =~= Seq::<MySqlIndexPart>::empty());
    assert(index_views(indexes@) =~= Seq::<IndexInfoView>::empty());
    while i < parts.len()
        invariant
            i <= parts@.len(),
            index_fold(parts@.take(i as int)) == Ok::<(Seq<IndexInfoView>, int), IndexIssue>(
                (index_views(indexes@), expected as int),
            ),
        decreases parts@.len() - i,
    {
        let part = &parts[i];
        let ghost acc = index_views(indexes@);
        assert(parts@.take(i + 1).drop_last() =~= parts@.take(i as int));
        assert(parts@.take(i + 1).last() == parts@[i as int]);
        let n = indexes.len();
        let same = n > 0 && str_eq(indexes[n - 1].name.as_str(), part.name.as_str());
        assert(same == (acc.len() > 0 && acc.last().name == part.name@));
        if !same {
            expected = 1;
        }
        if part.ordinal != expected {
            let m = named_message_string("MySQL index ", part.name.as_str(), " parts are not contiguous");
            proof {
                lemma_index_fold_err(parts@, i + 1);
            }
            return Err(index_issue_error(Ghost(IndexIssue::NotContiguous(part.name@)), m.as_str()));
        }
        if expected == u32::MAX {
            proof {
                lemma_index_fold_err(parts@, i + 1);
            }
            return Err(index_issue_error(Ghost(IndexIssue::OrdinalOverflow), "MySQL index ordinal overflowed"));
        }
        expected = expected + 1;
        let component = match index_component_of(part) {
            Some(c) => c,
            None => {
                let m = part_message_string(
                    "MySQL index ",
                    part.name.as_str(),
                    part.ordinal,
                    " has no column or expression",
                );
                proof {
                    lemma_index_fold_err(parts@, i + 1);
                }
                return Err(
                    index_issue_error(
                        Ghost(IndexIssue::NoComponent(part.name@, part.ordinal)),
                        m.as_str(),
                    ),
                );
            },
        };
        if same {
            if indexes[n - 1].unique != part.unique {
                assert(acc.last().unique == indexes@[n - 1].unique);
                proof {
                    lemma_index_fold_err(parts@, i + 1);
                }
                return Err(
                    index_issue_error(
                        Ghost(IndexIssue::UniquenessChanged),
                        "MySQL index uniqueness changed between parts",
                    ),
                );
            }
            let ghost before = indexes@;
            let mut last = indexes.pop().unwrap();
            let ghost last_before = last;
            last.columns.push(component);
            indexes.push(last);
            assert(views(last.columns@) =~= views(last_before.columns@).push(component@));
            assert(index_views(indexes@) =~= acc.drop_last().push(
                IndexInfoView {
                    name: acc.last().name,
                    columns: acc.last().columns.push(component@),
                    unique: acc.last().unique,
                },
            ));
        } else {
            let mut columns: Vec<String> = Vec::new();
            columns.push(component);
            assert(views(columns@) =~= seq![component@]);
            indexes.push(MySqlIndexInfo { name: part.name.clone(), columns, unique: part.unique });
            assert(index_views(indexes@) =~= acc.push(
                IndexInfoView { name: part.name@, columns: seq![component@], unique: part.unique },
            ));
        }
        i = i + 1;
    }
    assert(parts@.take(parts@.len() as int) =~= parts@);
    Ok(indexes)
}

// ---------------------------------------------------------------------------
// Constraints
// ---------------------------------------------------------------------------

/// One row of a key or constraint listing: one column of the constraint.
#[derive(Debug)]
pub struct MySqlConstraintPart {
    pub catalog: String,
    pub schema: String,
    pub table_schema: String,
    pub table: String,
    pub name: String,
    pub kind: CatalogKind,
    pub ordinal: u32,
    pub column: String,
    pub referenced_database: Option<String>,
    pub referenced_relation: Option<String>,
    pub referenced_column: Option<String>,
    pub referenced_ordinal: Option<u32>,
}

/// A key or constraint with its columns in order, and for a foreign key
/// what it references.
#[derive(Debug)]
pub struct MySqlConstraintInfo {
    pub name: String,
    pub kind: CatalogKind,
    pub columns: Vec<String>,
    pub referenced_database: Option<String>,
    pub referenced_relation: Option<String>,
    pub referenced_columns: Vec<String>,
    pub referenced_ordinals: Vec<u32>,
}

/// The value of a constraint.
pub struct ConstraintInfoView {
    pub name: Seq<char>,
    pub kind: CatalogKind,
    pub columns: Seq<Seq<char>>,
    pub referenced_database: Option<Seq<char>>,
    pub referenced_relation: Option<Seq<char>>,
    pub referenced_columns: Seq<Seq<char>>,
    pub referenced_ordinals: Seq<u32>,
}

impl View for MySqlConstraintInfo {
    type V = ConstraintInfoView;

    open spec fn view(&self) -> ConstraintInfoView {
        ConstraintInfoView {
            name: self.name@,
            kind: self.kind,
            columns: views(self.columns@),
            referenced_database: opt_string_view(self.referenced_database),
            referenced_relation: opt_string_view(self.referenced_relation),
            referenced_columns: views(self.referenced_columns@),
            referenced_ordinals: self.referenced_ordinals@,
        }
    }
}

pub open spec fn constraint_views(v: Seq<MySqlConstraintInfo>) -> Seq<ConstraintInfoView> {
    v.map_values(|c: MySqlConstraintInfo| c@)
}

/// Why constraint rows do not describe well-formed constraints.
pub enum ConstraintIssue {
    NotContiguous(Seq<char>),
    OrdinalOverflow,
    NoReferencedColumn(Seq<char>, u32),
    NoReferencedOrdinal(Seq<char>, u32),
    UnexpectedReference(Seq<char>),
    IdentityChanged,
    CardinalityDiffers(Seq<char>),
    TooManyColumns,
    ReferencedOrdinals(Seq<char>),
}

pub open spec fn constraint_issue_message(issue: ConstraintIssue) -> Seq<char> {
    match issue {
        ConstraintIssue::NotContiguous(name) => named_message(
            "MySQL constraint "@,
            name,
            " ordinals are not contiguous"@,
        ),
        ConstraintIssue::OrdinalOverflow => "MySQL constraint ordinal overflowed"@,
        ConstraintIssue::NoReferencedColumn(name, ordinal) => part_message(
            "MySQL foreign key "@,
            name,
            ordinal,
            " has no referenced column"@,
        ),
        ConstraintIssue::NoReferencedOrdinal(name, ordinal) => part_message(
            "MySQL foreign key "@,
            name,
            ordinal,
            " has no referenced ordinal"@,
        ),
        ConstraintIssue::UnexpectedReference(name) => named_message(
            "MySQL non-foreign constraint "@,
            name,
            " unexpectedly references a column"@,
        ),
        ConstraintIssue::IdentityChanged => "MySQL constraint identity changed between parts"@,
        ConstraintIssue::CardinalityDiffers(name) => named_message(
            "MySQL foreign key "@,
            name,
            " source and referenced cardinality differ"@,
        ),
        ConstraintIssue::TooManyColumns => "MySQL foreign key has too many columns"@,
        ConstraintIssue::ReferencedOrdinals(name) => named_message(
            "MySQL foreign key "@,
            name,
            " referenced ordinals are not contiguous and unique"@,
        ),
    }
}

/// Catalog, schema, table schema, table and name: what makes rows belong to
/// one constraint.
pub open spec fn constraint_identity(p: MySqlConstraintPart) -> (Seq<char>, Seq<char>, Seq<char>, Seq<char>, Seq<char>) {
    (p.catalog@, p.schema@, p.table_schema@, p.table@, p.name@)
}

/// Whether row `i` continues the constraint of the row before it.
pub open spec fn continues_constraint(parts: Seq<MySqlConstraintPart>, i: int) -> bool {
    i > 0 && constraint_identity(parts[i - 1]) == constraint_identity(parts[i])
}

pub open spec fn opt_seq<T>(o: Option<T>) -> Seq<T> {
    match o {
        Some(x) => seq![x],
        None => Seq::empty(),
    }
}

/// One row added to the constraints read so far.
pub open spec fn constraint_step(
    acc: Seq<ConstraintInfoView>,
    expected: int,
    same: bool,
    p: MySqlConstraintPart,
) -> Result<(Seq<ConstraintInfoView>, int), ConstraintIssue> {
    let exp = if same {
        expected
    } else {
        1
    };
    if p.ordinal != exp {
        Err(ConstraintIssue::NotContiguous(p.name@))
    } else if exp + 1 > u32::MAX {
        Err(ConstraintIssue::OrdinalOverflow)
    } else if p.kind == CatalogKind::ForeignKey && p.referenced_column is None {
        Err(ConstraintIssue::NoReferencedColumn(p.name@, p.ordinal))
    } else if p.kind == CatalogKind::ForeignKey && p.referenced_ordinal is None {
        Err(ConstraintIssue::NoReferencedOrdinal(p.name@, p.ordinal))
    } else if p.kind != CatalogKind::ForeignKey && (p.referenced_column is Some
        || p.referenced_ordinal is Some) {
        Err(ConstraintIssue::UnexpectedReference(p.name@))
    } else if same && acc.len() > 0 {
        let last = acc.last();
        if last.kind != p.kind || last.referenced_database != opt_string_view(p.referenced_database)
            || last.referenced_relation != opt_string_view(p.referenced_relation) {
            Err(ConstraintIssue::IdentityChanged)
        } else {
            Ok(
                (
                    acc.drop_last().push(
                        ConstraintInfoView {
                            columns: last.columns.push(p.column@),
                            referenced_columns: last.referenced_columns + opt_seq(
                                opt_string_view(p.referenced_column),
                            ),
                            referenced_ordinals: last.referenced_ordinals + opt_seq(
                                p.referenced_ordinal,
                            ),
                            ..last
                        },
                    ),
                    exp + 1,
                ),
            )
        }
    } else {
        Ok(
            (
                acc.push(
                    ConstraintInfoView {
                        name: p.name@,
                        kind: p.kind,
                        columns: seq![p.column@],
                        referenced_database: opt_string_view(p.referenced_database),
                        referenced_relation: opt_string_view(p.referenced_relation),
                        referenced_columns: opt_seq(opt_string_view(p.referenced_column)),
                        referenced_ordinals: opt_seq(p.referenced_ordinal),
                    },
                ),
                exp + 1,
            ),
        )
    }
}

/// The rows read in order.
pub open spec fn constraint_fold(parts: Seq<MySqlConstraintPart>) -> Result<
    (Seq<ConstraintInfoView>, int),
    ConstraintIssue,
>
    decreases parts.len(),
{
    if parts.len() == 0 {
        Ok((Seq::empty(), 1))
    } else {
        match constraint_fold(parts.drop_last()) {
            Ok((acc, expected)) => constraint_step(
                acc,
                expected,
                continues_constraint(parts, parts.len() - 1),
                parts.last(),
            ),
            Err(issue) => Err(issue),
        }
    }
}

/// Whether the referenced ordinals are exactly `1..=count`, ignoring
/// repetitions.
pub open spec fn ordinals_cover(ordinals: Seq<u32>, count: int) -> bool {
    &&& forall|j: int| 0 <= j < ordinals.len() ==> 1 <= #[trigger] ordinals[j] <= count
    &&& forall|k: int| 1 <= k <= count ==> #[trigger] has_ordinal(ordinals, k)
}

/// Whether `k` occurs among `ordinals`.
pub open spec fn has_ordinal(ordinals: Seq<u32>, k: int) -> bool {
    exists|j: int| 0 <= j < ordinals.len() && ordinals[j] == k
}

/// What is wrong with a grouped foreign key, if anything.
pub open spec fn foreign_key_issue(c: ConstraintInfoView) -> Option<ConstraintIssue> {
    if c.kind != CatalogKind::ForeignKey {
        None
    } else if c.columns.len() != c.referenced_columns.len() {
        Some(ConstraintIssue::CardinalityDiffers(c.name))
    } else if c.columns.len() > u32::MAX {
        Some(ConstraintIssue::TooManyColumns)
    } else if !ordinals_cover(c.referenced_ordinals, c.columns.len() as int) {
        Some(ConstraintIssue::ReferencedOrdinals(c.name))
    } else {
        None
    }
}

/// The first grouped constraint that is wrong, in order.
pub open spec fn first_constraint_issue(cs: Seq<ConstraintInfoView>) -> Option<ConstraintIssue>
    decreases cs.len(),
{
    if cs.len() == 0 {
        None
    } else {
        match first_constraint_issue(cs.drop_last()) {
            Some(issue) => Some(issue),
            None => foreign_key_issue(cs.last()),
        }
    }
}

/// The constraints that `parts` describe, or the first thing wrong with them.
pub open spec fn grouped_constraints(parts: Seq<MySqlConstraintPart>) -> Result<
    Seq<ConstraintInfoView>,
    ConstraintIssue,
> {
    match constraint_fold(parts) {
        Ok((acc, _)) => match first_constraint_issue(acc) {
            Some(issue) => Err(issue),
            None => Ok(acc),
        },
        Err(issue) => Err(issue),
    }
}

proof fn lemma_constraint_fold_err(parts: Seq<MySqlConstraintPart>, k: int)
    requires
        0 <= k <= parts.len(),
        constraint_fold(parts.take(k)) is Err,
    ensures
        constraint_fold(parts) == constraint_fold(parts.take(k)),
    decreases parts.len() - k,
{
    if k < parts.len() {
        assert(parts.take(k + 1).drop_last() =~= parts.take(k));
        assert(continues_constraint(parts.take(k + 1), k) == continues_constraint(parts, k));
        lemma_constraint_fold_err(parts, k + 1);
    } else {
        assert(parts.take(k) =~= parts);
    }
}

fn constraint_issue_error(issue: Ghost<ConstraintIssue>, message: &str) -> (r: DatabaseError)
    requires
        message@ == constraint_issue_message(issue@),
    ensures
        is_internal_error(r, meta_code(), constraint_issue_message(issue@)),
{
    meta_error(message)
}

fn same_identity(a: &MySqlConstraintPart, b: &MySqlConstraintPart) -> (r: bool)
    ensures
        r == (constraint_identity(*a) == constraint_identity(*b)),
{
    str_eq(a.catalog.as_str(), b.catalog.as_str()) && str_eq(a.schema.as_str(), b.schema.as_str())
        && str_eq(a.table_schema.as_str(), b.table_schema.as_str()) && str_eq(
        a.table.as_str(),
        b.table.as_str(),
    ) && str_eq(a.name.as_str(), b.name.as_str())
}

fn opt_str_eq(a: &Option<String>, b: &Option<String>) -> (r: bool)
    ensures
        r == (opt_string_view(*a) == opt_string_view(*b)),
{
    match (a, b) {
        (Some(x), Some(y)) => str_eq(x.as_str(), y.as_str()),
        (None, None) => true,
        _ => false,
    }
}

fn clone_opt_string(o: &Option<String>) -> (r: Option<String>)
    ensures
        opt_string_view(r) == opt_string_view(*o),
{
    match o {
        Some(s) => Some(s.clone()),
        None => None,
    }
}

/// Whether `ordinals` are exactly `1..=count`, ignoring repetitions.
fn check_ordinals(ordinals: &Vec<u32>, count: usize) -> (r: bool)
    ensures
        r == ordinals_cover(ordinals@, count as int),
{
    let mut seen: Vec<bool> = Vec::new();
    let mut k: usize = 0;
    while k < count
        invariant
            k <= count,
            seen@.len() == k,
            forall|m: int| 0 <= m < k ==> !seen@[m],
        decreases count - k,
    {
        seen.push(false);
        k = k + 1;
    }
    let mut j: usize = 0;
    while j < ordinals.len()
        invariant
            j <= ordinals@.len(),
            seen@.len() == count,
            forall|t: int| 0 <= t < j ==> 1 <= #[trigger] ordinals@[t] <= count,
            forall|m: int| 0 <= m < count ==> (#[trigger] seen@[m] <==> exists|t: int| 0 <= t < j && ordinals@[t] == m + 1),
        decreases ordinals@.len() - j,
    {
        let o = ordinals[j];
        if o == 0 || o as usize > count {
            return false;
        }
        let ghost old_seen = seen@;
        seen.set((o - 1) as usize, true);
        assert forall|m: int| 0 <= m < count implies (#[trigger] seen@[m] <==> exists|t: int| 0 <= t < j + 1 && ordinals@[t] == m + 1) by {
            if m == o - 1 {
                assert(ordinals@[j as int] == m + 1);
            } else {
                if exists|t: int| 0 <= t < j + 1 && ordinals@[t] == m + 1 {
                    let t = choose|t: int| 0 <= t < j + 1 && ordinals@[t] == m + 1;
                    assert(t < j);
                }
                assert(seen@[m] == old_seen[m]);
            }
        }
        j = j + 1;
    }
    let mut m: usize = 0;
    while m < count
        invariant
            m <= count,
            seen@.len() == count,
            forall|q: int| 0 <= q < m ==> #[trigger] seen@[q],
        decreases count - m,
    {
        if !seen[m] {
            assert(!has_ordinal(ordinals@, m + 1));
            return false;
        }
        m = m + 1;
    }
    assert forall|kk: int| 1 <= kk <= count implies #[trigger] has_ordinal(ordinals@, kk) by {
        assert(seen@[kk - 1]);
    }
    true
}

/// Groups constraint rows, read in order, into constraints, and checks that
/// each foreign key pairs every column with a distinct referenced column.
pub fn group_constraint_parts(parts: Vec<MySqlConstraintPart>) -> (r: Result<
    Vec<MySqlConstraintInfo>,
    DatabaseError,
>)
    ensures
        match r {
            Ok(v) => grouped_constraints(parts@) == Ok::<Seq<ConstraintInfoView>, ConstraintIssue>(
                constraint_views(v@),
            ),
            Err(e) => grouped_constraints(parts@) is Err && is_internal_error(
                e,
                meta_code(),
                constraint_issue_message(grouped_constraints(parts@)->Err_0),
            ),
        },
{
    let mut constraints: Vec<MySqlConstraintInfo> = Vec::new();
    let mut expected: u32 = 1;
    let mut i: usize = 0;
    assert(parts@.take(0) =~= Seq::<MySqlConstraintPart>::empty());
    assert(constraint_views(constraints@) =~= Seq::<ConstraintInfoView>::empty());
    while i < parts.len()
        invariant
            i <= parts@.len(),
            constraint_fold(parts@.take(i as int)) == Ok::<
                (Seq<ConstraintInfoView>, int),
                ConstraintIssue,
            >((constraint_views(constraints@), expected as int)),
        decreases parts@.len() - i,
    {
        let part = &parts[i];
        let ghost acc = constraint_views(constraints@);
        assert(parts@.take(i + 1).drop_last() =~= parts@.take(i as int));
        assert(parts@.take(i + 1).last() == parts@[i as int]);
        let same = i > 0 && same_identity(&parts[i - 1], part);
        assert(same == continues_constraint(parts@.take(i + 1), i as int));
        if !same {
            expected = 1;
        }
        if part.ordinal != expected {
            let m = named_message_string("MySQL constraint ", part.name.as_str(), " ordinals are not contiguous");
            proof {
                lemma_constraint_fold_err(parts@, i + 1);
            }
            return Err(constraint_issue_error(Ghost(ConstraintIssue::NotContiguous(part.name@)), m.as_str()));
        }
        if expected == u32::MAX {
            proof {
                lemma_constraint_fold_err(parts@, i + 1);
            }
            return Err(constraint_issue_error(Ghost(ConstraintIssue::OrdinalOverflow), "MySQL constraint ordinal overflowed"));
        }
        expected = expected + 1;
        let foreign = part.kind == CatalogKind::ForeignKey;
        if foreign {
            if part.referenced_column.is_none() {
                let m = part_message_string("MySQL foreign key ", part.name.as_str(), part.ordinal, " has no referenced column");
                proof {
                    lemma_constraint_fold_err(parts@, i + 1);
                }
                return Err(constraint_issue_error(Ghost(ConstraintIssue::NoReferencedColumn(part.name@, part.ordinal)), m.as_str()));
            }
            if part.referenced_ordinal.is_none() {
                let m = part_message_string("MySQL foreign key ", part.name.as_str(), part.ordinal, " has no referenced ordinal");
                proof {
                    lemma_constraint_fold_err(parts@, i + 1);
                }
                return Err(constraint_issue_error(Ghost(ConstraintIssue::NoReferencedOrdinal(part.name@, part.ordinal)), m.as_str()));
            }
        } else if part.referenced_column.is_some() || part.referenced_ordinal.is_some() {
            let m = named_message_string("MySQL non-foreign constraint ", part.name.as_str(), " unexpectedly references a column");
            proof {
                lemma_constraint_fold_err(parts@, i + 1);
            }
            return Err(constraint_issue_error(Ghost(ConstraintIssue::UnexpectedReference(part.name@)), m.as_str()));
        }
        let n = constraints.len();
        if same && n > 0 {
            if constraints[n - 1].kind != part.kind || !opt_str_eq(
                &constraints[n - 1].referenced_database,
                &part.referenced_database,
            ) || !opt_str_eq(&constraints[n - 1].referenced_relation, &part.referenced_relation) {
                assert(acc.last() == constraints@[n - 1]@);
                proof {
                    lemma_constraint_fold_err(parts@, i + 1);
                }
                return Err(
                    constraint_issue_error(
                        Ghost(ConstraintIssue::IdentityChanged),
                        "MySQL constraint identity changed between parts",
                    ),
                );
            }
            let mut last = constraints.pop().unwrap();
            let ghost last_before = last@;
            assert(last_before == acc.last());
            last.columns.push(part.column.clone());
            match &part.referenced_column {
                Some(c) => last.referenced_columns.push(c.clone()),
                None => {},
            }
            match part.referenced_ordinal {
                Some(o) => last.referenced_ordinals.push(o),
                None => {},
            }
            assert(last@.columns =~= last_before.columns.push(part.column@));
            assert(last@.referenced_columns =~= last_before.referenced_columns + opt_seq(
                opt_string_view(part.referenced_column),
            ));
            assert(last@.referenced_ordinals =~= last_before.referenced_ordinals + opt_seq(
                part.referenced_ordinal,
            ));
            constraints.push(last);
            assert(constraint_views(constraints@) =~= acc.drop_last().push(
                ConstraintInfoView {
                    columns: last_before.columns.push(part.column@),
                    referenced_columns: last_before.referenced_columns + opt_seq(
                        opt_string_view(part.referenced_column),
                    ),
                    referenced_ordinals: last_before.referenced_ordinals + opt_seq(
                        part.referenced_ordinal,
                    ),
                    ..last_before
                },
            ));
        } else {
            let mut columns: Vec<String> = Vec::new();
            columns.push(part.column.clone());
            let mut referenced_columns: Vec<String> = Vec::new();
            match &part.referenced_column {
                Some(c) => referenced_columns.push(c.clone()),
                None => {},
            }
            let mut referenced_ordinals: Vec<u32> = Vec::new();
            match part.referenced_ordinal {
                Some(o) => referenced_ordinals.push(o),
                None => {},
            }
            let info = MySqlConstraintInfo {
                name: part.name.clone(),
                kind: part.kind,
                columns,
                referenced_database: clone_opt_string(&part.referenced_database),
                referenced_relation: clone_opt_string(&part.referenced_relation),
                referenced_columns,
                referenced_ordinals,
            };
            assert(info@.columns =~= seq![part.column@]);
            assert(info@.referenced_columns =~= opt_seq(opt_string_view(part.referenced_column)));
            assert(info@.referenced_ordinals =~= opt_seq(part.referenced_ordinal));
            constraints.push(info);
            assert(constraint_views(constraints@) =~= acc.push(info@));
        }
        i = i + 1;
    }
    assert(parts@.take(parts@.len() as int) =~= parts@);
    let ghost all = constraint_views(constraints@);
    let mut k: usize = 0;
    while k < constraints.len()
        invariant
            k <= constraints@.len(),
            all == constraint_views(constraints@),
            first_constraint_issue(all.take(k as int)) is None,
        decreases constraints@.len() - k,
    {
        let c = &constraints[k];
        assert(all.take(k + 1).drop_last() =~= all.take(k as int));
        assert(all.take(k + 1).last() == c@);
        if c.kind == CatalogKind::ForeignKey {
            let count = c.columns.len();
            if count != c.referenced_columns.len() {
                let m = named_message_string("MySQL foreign key ", c.name.as_str(), " source and referenced cardinality differ");
                proof {
                    lemma_first_issue_extends(all, k + 1);
                }
                return Err(constraint_issue_error(Ghost(ConstraintIssue::CardinalityDiffers(c.name@)), m.as_str()));
            }
            if count as u64 > u32::MAX as u64 {
                proof {
                    lemma_first_issue_extends(all, k + 1);
                }
                return Err(constraint_issue_error(Ghost(ConstraintIssue::TooManyColumns), "MySQL foreign key has too many columns"));
            }
            if !check_ordinals(&c.referenced_ordinals, count) {
                let m = named_message_string("MySQL foreign key ", c.name.as_str(), " referenced ordinals are not contiguous and unique");
                proof {
                    lemma_first_issue_extends(all, k + 1);
                }
                return Err(constraint_issue_error(Ghost(ConstraintIssue::ReferencedOrdinals(c.name@)), m.as_str()));
            }
        }
        k = k + 1;
    }
    assert(all.take(all.len() as int) =~= all);
    Ok(constraints)
}

/// Once a grouped constraint is wrong, the first issue of all of them is
/// that one.
proof fn lemma_first_issue_extends(cs: Seq<ConstraintInfoView>, k: int)
    requires
        0 <= k <= cs.len(),
        first_constraint_issue(cs.take(k)) is Some,
    ensures
        first_constraint_issue(cs) == first_constraint_issue(cs.take(k)),
    decreases cs.len() - k,
{
    if k < cs.len() {
        assert(cs.take(k + 1).drop_last() =~= cs.take(k));
        lemma_first_issue_extends(cs, k + 1);
    } else {
        assert(cs.take(k) =~= cs);
    }
}

// ---------------------------------------------------------------------------
// What grouping keeps
// ---------------------------------------------------------------------------

/// The columns of the indexes, one index after another.
pub open spec fn index_columns_flat(v: Seq<IndexInfoView>) -> Seq<Seq<char>>
    decreases v.len(),
{
    if v.len() == 0 {
        Seq::empty()
    } else {
        index_columns_flat(v.drop_last()) + v.last().columns
    }
}

/// What each part contributes, in order.
pub open spec fn index_components(parts: Seq<MySqlIndexPart>) -> Seq<Seq<char>>
    decreases parts.len(),
{
    if parts.len() == 0 {
        Seq::empty()
    } else {
        index_components(parts.drop_last()).push(
            match index_component(parts.last()) {
                Some(c) => c,
                None => Seq::empty(),
            },
        )
    }
}

proof fn lemma_index_fold_keeps(parts: Seq<MySqlIndexPart>)
    requires
        index_fold(parts) is Ok,
    ensures
        index_columns_flat(index_fold(parts)->Ok_0.0) == index_components(parts),
    decreases parts.len(),
{
    if parts.len() > 0 {
        let init = parts.drop_last();
        lemma_index_fold_keeps(init);
        let (acc, e) = index_fold(init)->Ok_0;
        let (acc2, e2) = index_fold(parts)->Ok_0;
        let p = parts.last();
        let c = index_component(p)->Some_0;
        let same = acc.len() > 0 && acc.last().name == p.name@;
        if same {
            let last = acc.last();
            assert(acc2.drop_last() =~= acc.drop_last());
            assert(acc.drop_last().push(last) =~= acc);
            assert(index_columns_flat(acc) == index_columns_flat(acc.drop_last()) + last.columns);
            assert(index_columns_flat(acc2) =~= index_columns_flat(acc.drop_last()) + last.columns.push(c));
        } else {
            assert(acc2.drop_last() =~= acc);
            assert(index_columns_flat(acc2) =~= index_columns_flat(acc) + seq![c]);
        }
    }
}

/// Grouping index rows keeps every row: read one index after another, the
/// grouped columns are the rows' columns (or expressions), in order.
pub proof fn lemma_grouped_indexes_keep_parts(parts: Seq<MySqlIndexPart>)
    requires
        grouped_indexes(parts) is Ok,
    ensures
        index_columns_flat(grouped_indexes(parts)->Ok_0) == index_components(parts),
{
    lemma_index_fold_keeps(parts);
}

/// The columns of the constraints, one constraint after another.
pub open spec fn constraint_columns_flat(v: Seq<ConstraintInfoView>) -> Seq<Seq<char>>
    decreases v.len(),
{
    if v.len() == 0 {
        Seq::empty()
    } else {
        constraint_columns_flat(v.drop_last()) + v.last().columns
    }
}

proof fn lemma_constraint_fold_keeps(parts: Seq<MySqlConstraintPart>)
    requires
        constraint_fold(parts) is Ok,
    ensures
        constraint_columns_flat(constraint_fold(parts)->Ok_0.0) == parts.map_values(
            |p: MySqlConstraintPart| p.column@,
        ),
    decreases parts.len(),
{
    if parts.len() > 0 {
        let init = parts.drop_last();
        lemma_constraint_fold_keeps(init);
        let (acc, e) = constraint_fold(init)->Ok_0;
        let (acc2, e2) = constraint_fold(parts)->Ok_0;
        let p = parts.last();
        let same = continues_constraint(parts, parts.len() - 1);
        assert(parts.map_values(|q: MySqlConstraintPart| q.column@) =~= init.map_values(
            |q: MySqlConstraintPart| q.column@,
        ).push(p.column@));
        if same && acc.len() > 0 {
            let last = acc.last();
            assert(acc2.drop_last() =~= acc.drop_last());
            assert(acc.drop_last().push(last) =~= acc);
            assert(constraint_columns_flat(acc) == constraint_columns_flat(acc.drop_last())
                + last.columns);
            assert(constraint_columns_flat(acc2) =~= constraint_columns_flat(acc.drop_last())
                + last.columns.push(p.column@));
        } else {
            assert(acc2.drop_last() =~= acc);
            assert(constraint_columns_flat(acc2) =~= constraint_columns_flat(acc) + seq![p.column@]);
        }
    }
}

/// Grouping constraint rows keeps every row: read one constraint after
/// another, the grouped columns are the rows' columns, in order.
pub proof fn lemma_grouped_constraints_keep_parts(parts: Seq<MySqlConstraintPart>)
    requires
        grouped_constraints(parts) is Ok,
    ensures
        constraint_columns_flat(grouped_constraints(parts)->Ok_0) == parts.map_values(
            |p: MySqlConstraintPart| p.column@,
        ),
{
    lemma_constraint_fold_keeps(parts);
}

} // verus!
