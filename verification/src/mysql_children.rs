//! The children of a MySQL relation built from what `information_schema`
//! reports: column metadata, and the column, index and key entries.
use vstd::prelude::*;

use crate::catalog::{
    CatalogEntry, CatalogId, CatalogKind, CatalogMetadata, ColumnMetadata, ConstraintMembership,
    ConstraintMetadata, IndexMetadata, OptionalMetadata, QualifiedName,
};
use crate::catalog_error::CatalogValidationError;
use crate::error::{internal_error, is_internal_error, DatabaseError};
use crate::mysql::empty_as_none;
use crate::mysql_meta::{MySqlConstraintInfo, MySqlIndexInfo};
use crate::page::{str_less, str_lt};
use crate::postgres::{catalog_kind_rank, kind_rank, relation_child_id};
use crate::text::{
    ascii_upper, char_is_whitespace, chars_of, contains_seq, contains_str, decimal,
    eq_ignore_ascii_case, eq_ignore_case, is_empty_str, is_whitespace, owned, push_decimal,
    push_str, str_eq, string_from_chars, sub_chars, to_ascii_upper, views,
};

verus! {

/// One row of `information_schema.columns`, as read from the server.
#[derive(Clone, Debug, PartialEq, Eq)]
pub struct MySqlColumnRow {
    pub ordinal_position: u64,
    pub column_name: String,
    pub column_type: String,
    pub data_type: String,
    pub is_nullable: String,
    pub column_default: Option<String>,
    pub extra: String,
    pub generation_expression: String,
    pub numeric_precision: Option<u64>,
    pub numeric_scale: Option<u64>,
    pub character_maximum_length: Option<i64>,
    pub collation_name: Option<String>,
    pub character_set_name: Option<String>,
    pub column_comment: Option<String>,
}

pub open spec fn child_code() -> Seq<char> {
    "mysql_catalog_invariant"@
}

/// The message when a catalog number does not fit in 32 bits.
pub open spec fn invalid_u32_message(description: Seq<char>, value: u64) -> Seq<char> {
    "invalid MySQL "@ + description + ": "@ + decimal(value as nat)
}

/// `value` as a `u32`, or why it does not fit.
pub fn checked_u32(value: u64, description: &str) -> (r: Result<u32, DatabaseError>)
    ensures
        match r {
            Ok(v) => value <= u32::MAX && v == value,
            Err(e) => value > u32::MAX && is_internal_error(
                e,
                child_code(),
                invalid_u32_message(description@, value),
            ),
        },
{
    if value <= 0xffff_ffffu64 {
        Ok(value as u32)
    } else {
        let mut m = owned("invalid MySQL ");
        push_str(&mut m, description);
        push_str(&mut m, ": ");
        push_decimal(&mut m, value);
        assert(m@ =~= invalid_u32_message(description@, value));
        Err(internal_error("mysql_catalog_invariant", m.as_str()))
    }
}

/// Whether `w` stands at position `i` of `s` as a whole word, ignoring ASCII
/// case.
pub open spec fn word_at(s: Seq<char>, w: Seq<char>, i: int) -> bool {
    &&& 0 <= i
    &&& i + w.len() <= s.len()
    &&& eq_ignore_ascii_case(s.subrange(i, i + w.len()), w)
    &&& (i == 0 || char_is_whitespace(s[i - 1]))
    &&& (i + w.len() == s.len() || char_is_whitespace(s[i + w.len()]))
}

/// Whether one of the whitespace-separated words of `s` is `w`, ignoring
/// ASCII case.
pub open spec fn has_word(s: Seq<char>, w: Seq<char>) -> bool {
    exists|i: int| word_at(s, w, i)
}

fn contains_word(s: &str, w: &str) -> (r: bool)
    requires
        w@.len() > 0,
    ensures
        r == has_word(s@, w@),
{
    let cs = chars_of(s);
    let ws = chars_of(w);
    let n = cs.len();
    let m = ws.len();
    if m > n {
        assert forall|i: int| !word_at(s@, w@, i) by {}
        return false;
    }
    let mut i: usize = 0;
    while i <= n - m
        invariant
            cs@ == s@,
            ws@ == w@,
            n == cs@.len(),
            m == ws@.len(),
            m <= n,
            i <= n - m + 1,
            forall|k: int| 0 <= k < i ==> !word_at(s@, w@, k),
        decreases n - m + 1 - i,
    {
        let before_ok = i == 0 || is_whitespace(cs[i - 1]);
        let after_ok = i + m == n || is_whitespace(cs[i + m]);
        if before_ok && after_ok {
            let sub = sub_chars(&cs, i, i + m);
            let text = string_from_chars(sub.as_slice());
            if eq_ignore_case(text.as_str(), w) {
                assert(word_at(s@, w@, i as int));
                return true;
            }
        }
        assert(!word_at(s@, w@, i as int));
        i = i + 1;
    }
    assert forall|k: int| !word_at(s@, w@, k) by {
        if 0 <= k && k + w@.len() <= s@.len() {
            assert(k < i);
        }
    }
    false
}

/// Whether the column is generated: it has a generation expression, or
/// `extra` marks it virtual or stored generated.
pub open spec fn my_generated(row: MySqlColumnRow) -> bool {
    row.generation_expression@.len() > 0 || contains_seq(ascii_upper(row.extra@), "VIRTUAL GENERATED"@)
        || contains_seq(ascii_upper(row.extra@), "STORED GENERATED"@)
}

pub open spec fn opt_nonempty(value: Option<String>) -> Option<String> {
    match value {
        Some(v) => if v@.len() == 0 {
            None
        } else {
            Some(v)
        },
        None => None,
    }
}

/// Why a column row cannot give metadata: an ordinal, precision or scale
/// that does not fit in 32 bits, or a negative length.
pub open spec fn column_row_issue(row: MySqlColumnRow) -> Option<Seq<char>> {
    if row.ordinal_position > u32::MAX {
        Some(invalid_u32_message("column ordinal"@, row.ordinal_position))
    } else if row.numeric_precision matches Some(p) && p > u32::MAX {
        Some(invalid_u32_message("numeric precision"@, row.numeric_precision->Some_0))
    } else if row.numeric_scale matches Some(p) && p > u32::MAX {
        Some(invalid_u32_message("numeric scale"@, row.numeric_scale->Some_0))
    } else if row.character_maximum_length matches Some(l) && l < 0 {
        Some("MySQL returned a negative catalog count"@)
    } else {
        None
    }
}

/// The metadata a column row gives, with `memberships` as its key
/// memberships: the defaults of generated columns are their expressions,
/// and `auto_increment` is one of the words of `extra`.
pub open spec fn my_column_metadata(
    row: MySqlColumnRow,
    memberships: Vec<ConstraintMembership>,
    m: ColumnMetadata,
) -> bool {
    let generated = my_generated(row);
    &&& m.ordinal_position == row.ordinal_position
    &&& m.native_type == row.column_type
    &&& m.type_family == OptionalMetadata::Supported(Some(row.data_type))
    &&& m.nullable == (row.is_nullable@ == "YES"@)
    &&& m.default_expression == OptionalMetadata::Supported(
        if generated {
            None
        } else {
            row.column_default
        },
    )
    &&& m.identity == OptionalMetadata::<bool>::Unsupported
    &&& m.auto_increment == OptionalMetadata::Supported(
        Some(has_word(row.extra@, "auto_increment"@)),
    )
    &&& m.generated_expression == OptionalMetadata::Supported(
        if generated {
            opt_nonempty(Some(row.generation_expression))
        } else {
            None
        },
    )
    &&& m.hidden == OptionalMetadata::<bool>::Unsupported
    &&& m.numeric_precision == OptionalMetadata::Supported(
        match row.numeric_precision {
            Some(p) => Some(p as u32),
            None => None,
        },
    )
    &&& m.numeric_scale == OptionalMetadata::Supported(
        match row.numeric_scale {
            Some(p) => Some(p as u32),
            None => None,
        },
    )
    &&& m.character_maximum_length == OptionalMetadata::Supported(
        match row.character_maximum_length {
            Some(l) => Some(l as u64),
            None => None,
        },
    )
    &&& m.collation == OptionalMetadata::Supported(row.collation_name)
    &&& m.character_set == OptionalMetadata::Supported(row.character_set_name)
    &&& m.constraint_memberships == memberships
}

fn optional_u32(value: Option<u64>, description: &str) -> (r: Result<Option<u32>, DatabaseError>)
    ensures
        match r {
            Ok(v) => (value matches Some(p) ==> p <= u32::MAX) && v == match value {
                Some(p) => Some(p as u32),
                None => None,
            },
            Err(e) => value matches Some(p) && p > u32::MAX && is_internal_error(
                e,
                child_code(),
                invalid_u32_message(description@, p),
            ),
        },
{
    match value {
        Some(p) => match checked_u32(p, description) {
            Ok(v) => Ok(Some(v)),
            Err(e) => Err(e),
        },
        None => Ok(None),
    }
}

/// The metadata of a MySQL column read from `information_schema.columns`.
pub fn mysql_column_metadata(row: &MySqlColumnRow, memberships: Vec<ConstraintMembership>) -> (r:
    Result<ColumnMetadata, DatabaseError>)
    ensures
        match r {
            Ok(m) => column_row_issue(*row) is None && my_column_metadata(*row, memberships, m),
            Err(e) => column_row_issue(*row) matches Some(msg) && is_internal_error(
                e,
                child_code(),
                msg,
            ),
        },
{
    let ordinal = match checked_u32(row.ordinal_position, "column ordinal") {
        Ok(v) => v,
        Err(e) => {
            return Err(e);
        },
    };
    let precision = match optional_u32(row.numeric_precision, "numeric precision") {
        Ok(v) => v,
        Err(e) => {
            return Err(e);
        },
    };
    let scale = match optional_u32(row.numeric_scale, "numeric scale") {
        Ok(v) => v,
        Err(e) => {
            return Err(e);
        },
    };
    let length = match row.character_maximum_length {
        Some(l) => if l < 0 {
            return Err(
                internal_error("mysql_catalog_invariant", "MySQL returned a negative catalog count"),
            );
        } else {
            Some(l as u64)
        },
        None => None,
    };
    let upper_extra = to_ascii_upper(row.extra.as_str());
    let generated = !is_empty_str(row.generation_expression.as_str()) || contains_str(
        upper_extra.as_str(),
        "VIRTUAL GENERATED",
    ) || contains_str(upper_extra.as_str(), "STORED GENERATED");
    proof {
        reveal_strlit("auto_increment");
    }
    let auto_increment = contains_word(row.extra.as_str(), "auto_increment");
    let mut metadata = ColumnMetadata::new(
        ordinal,
        row.column_type.clone(),
        str_eq(row.is_nullable.as_str(), "YES"),
    );
    metadata.type_family = OptionalMetadata::Supported(Some(row.data_type.clone()));
    metadata.default_expression = OptionalMetadata::Supported(
        if generated {
            None
        } else {
            crate::text::clone_opt(&row.column_default)
        },
    );
    metadata.identity = OptionalMetadata::Unsupported;
    metadata.auto_increment = OptionalMetadata::Supported(Some(auto_increment));
    metadata.generated_expression = OptionalMetadata::Supported(
        if generated {
            empty_as_none(Some(row.generation_expression.clone()))
        } else {
            None
        },
    );
    metadata.hidden = OptionalMetadata::Unsupported;
    metadata.numeric_precision = OptionalMetadata::Supported(precision);
    metadata.numeric_scale = OptionalMetadata::Supported(scale);
    metadata.character_maximum_length = OptionalMetadata::Supported(length);
    metadata.collation = OptionalMetadata::Supported(crate::text::clone_opt(&row.collation_name));
    metadata.character_set = OptionalMetadata::Supported(
        crate::text::clone_opt(&row.character_set_name),
    );
    metadata.constraint_memberships = memberships;
    Ok(metadata)
}

// ---------------------------------------------------------------------------
// Keys
// ---------------------------------------------------------------------------

pub open spec fn columns_view(v: Vec<String>) -> Seq<Seq<char>> {
    crate::text::views(v@)
}

/// The metadata of a grouped key: its columns, and for a foreign key what
/// it references; a foreign key must name the referenced database and
/// relation, and only keys are expected.
pub open spec fn my_constraint_metadata(c: MySqlConstraintInfo) -> Result<CatalogMetadata, Seq<char>> {
    match c.kind {
        CatalogKind::PrimaryKey => Ok(
            CatalogMetadata::Constraint(ConstraintMetadata::PrimaryKey { columns: c.columns }),
        ),
        CatalogKind::UniqueConstraint => Ok(
            CatalogMetadata::Constraint(ConstraintMetadata::Unique { columns: c.columns }),
        ),
        CatalogKind::ForeignKey => match c.referenced_database {
            None => Err("foreign key has no referenced database"@),
            Some(db) => match c.referenced_relation {
                None => Err("foreign key has no referenced relation"@),
                Some(rel) => Ok(
                    CatalogMetadata::Constraint(
                        ConstraintMetadata::ForeignKey {
                            columns: c.columns,
                            referenced_relation: QualifiedName {
                                database: Some(db),
                                schema: Some(db),
                                object: rel,
                            },
                            referenced_columns: c.referenced_columns,
                        },
                    ),
                ),
            },
        },
        _ => Err("unexpected MySQL constraint kind"@),
    }
}

/// The catalog metadata of a grouped MySQL key.
pub fn mysql_constraint_metadata(c: MySqlConstraintInfo) -> (r: Result<CatalogMetadata, DatabaseError>)
    ensures
        match r {
            Ok(m) => my_constraint_metadata(c) == Ok::<CatalogMetadata, Seq<char>>(m),
            Err(e) => my_constraint_metadata(c) matches Err(msg) && is_internal_error(
                e,
                child_code(),
                msg,
            ),
        },
{
    let ghost c0 = c;
    let MySqlConstraintInfo {
        name,
        kind,
        columns,
        referenced_database,
        referenced_relation,
        referenced_columns,
        referenced_ordinals,
    } = c;
    match kind {
        CatalogKind::PrimaryKey => Ok(
            CatalogMetadata::Constraint(ConstraintMetadata::PrimaryKey { columns }),
        ),
        CatalogKind::UniqueConstraint => Ok(
            CatalogMetadata::Constraint(ConstraintMetadata::Unique { columns }),
        ),
        CatalogKind::ForeignKey => {
            let db = match referenced_database {
                Some(db) => db,
                None => {
                    return Err(
                        internal_error(
                            "mysql_catalog_invariant",
                            "foreign key has no referenced database",
                        ),
                    );
                },
            };
            let rel = match referenced_relation {
                Some(rel) => rel,
                None => {
                    return Err(
                        internal_error(
                            "mysql_catalog_invariant",
                            "foreign key has no referenced relation",
                        ),
                    );
                },
            };
            let schema = db.clone();
            Ok(
                CatalogMetadata::Constraint(
                    ConstraintMetadata::ForeignKey {
                        columns,
                        referenced_relation: QualifiedName {
                            database: Some(db),
                            schema: Some(schema),
                            object: rel,
                        },
                        referenced_columns,
                    },
                ),
            )
        },
        _ => Err(internal_error("mysql_catalog_invariant", "unexpected MySQL constraint kind")),
    }
}

// ---------------------------------------------------------------------------
// Key memberships of columns
// ---------------------------------------------------------------------------

/// `Vec<String>`'s order: element by element, a prefix first.
pub open spec fn path_lt(a: Seq<Seq<char>>, b: Seq<Seq<char>>) -> bool
    decreases a.len(),
{
    if a.len() == 0 {
        b.len() > 0
    } else if b.len() == 0 {
        false
    } else if str_lt(a[0], b[0]) {
        true
    } else if str_lt(b[0], a[0]) {
        false
    } else {
        path_lt(a.drop_first(), b.drop_first())
    }
}

fn path_less(a: &Vec<String>, b: &Vec<String>) -> (r: bool)
    ensures
        r == path_lt(views(a@), views(b@)),
{
    let ghost va = views(a@);
    let ghost vb = views(b@);
    let mut i: usize = 0;
    assert(va.subrange(0, va.len() as int) =~= va);
    assert(vb.subrange(0, vb.len() as int) =~= vb);
    while i < a.len() && i < b.len()
        invariant
            va == views(a@),
            vb == views(b@),
            i <= a@.len(),
            i <= b@.len(),
            path_lt(va, vb) == path_lt(
                va.subrange(i as int, va.len() as int),
                vb.subrange(i as int, vb.len() as int),
            ),
        decreases a@.len() - i,
    {
        let x = &a[i];
        let y = &b[i];
        let ghost sa = va.subrange(i as int, va.len() as int);
        let ghost sb = vb.subrange(i as int, vb.len() as int);
        assert(sa[0] == x@ && sb[0] == y@);
        if str_less(x.as_str(), y.as_str()) {
            return true;
        }
        if str_less(y.as_str(), x.as_str()) {
            return false;
        }
        assert(sa.drop_first() =~= va.subrange(i + 1, va.len() as int));
        assert(sb.drop_first() =~= vb.subrange(i + 1, vb.len() as int));
        i = i + 1;
    }
    i >= a.len() && i < b.len()
}

/// A key membership by value: the key's identity and the column's position.
pub type MembershipView = (crate::catalog::CatalogIdView, u32);

pub open spec fn membership_view(m: ConstraintMembership) -> MembershipView {
    (m.constraint_id@, m.ordinal_position)
}

pub open spec fn memberships_view(s: Seq<ConstraintMembership>) -> Seq<MembershipView> {
    s.map_values(|m: ConstraintMembership| membership_view(m))
}

/// The order of a column's key memberships: by key kind, then position in
/// the key, then the key's native path.
pub open spec fn membership_lt(a: MembershipView, b: MembershipView) -> bool {
    let ra = kind_rank(a.0.kind);
    let rb = kind_rank(b.0.kind);
    ra < rb || (ra == rb && (a.1 < b.1 || (a.1 == b.1 && path_lt(a.0.path, b.0.path))))
}

pub open spec fn insert_membership(s: Seq<MembershipView>, x: MembershipView) -> Seq<MembershipView>
    decreases s.len(),
{
    if s.len() == 0 || !membership_lt(x, s.last()) {
        s.push(x)
    } else {
        insert_membership(s.drop_last(), x).push(s.last())
    }
}

/// `s` stably sorted by `membership_lt`, as `sort_by` orders it.
pub open spec fn sorted_memberships(s: Seq<MembershipView>) -> Seq<MembershipView>
    decreases s.len(),
{
    if s.len() == 0 {
        Seq::empty()
    } else {
        insert_membership(sorted_memberships(s.drop_last()), s.last())
    }
}

proof fn lemma_insert_membership_at(s: Seq<MembershipView>, x: MembershipView, j: int)
    requires
        0 <= j <= s.len(),
        forall|k: int| j <= k < s.len() ==> membership_lt(x, #[trigger] s[k]),
        j == 0 || !membership_lt(x, s[j - 1]),
    ensures
        insert_membership(s, x) == s.insert(j, x),
    decreases s.len(),
{
    if j == s.len() {
        assert(s.push(x) =~= s.insert(j, x));
    } else {
        let init = s.drop_last();
        assert forall|k: int| j <= k < init.len() implies membership_lt(x, #[trigger] init[k]) by {
            assert(init[k] == s[k]);
        }
        if j > 0 {
            assert(init[j - 1] == s[j - 1]);
        }
        assert(membership_lt(x, s[s.len() - 1]));
        lemma_insert_membership_at(init, x, j);
        assert(init.insert(j, x).push(s.last()) =~= s.insert(j, x));
    }
}

fn membership_less(a: &ConstraintMembership, b: &ConstraintMembership) -> (r: bool)
    ensures
        r == membership_lt(membership_view(*a), membership_view(*b)),
{
    let ra = catalog_kind_rank(a.constraint_id.kind);
    let rb = catalog_kind_rank(b.constraint_id.kind);
    ra < rb || (ra == rb && (a.ordinal_position < b.ordinal_position || (a.ordinal_position
        == b.ordinal_position && path_less(&a.constraint_id.native_path, &b.constraint_id.native_path))))
}

pub(crate) fn sort_memberships(v: Vec<ConstraintMembership>) -> (r: Vec<ConstraintMembership>)
    ensures
        memberships_view(r@) == sorted_memberships(memberships_view(v@)),
{
    let ghost ov = v@;
    let ghost orig = memberships_view(v@);
    let n = v.len();
    let mut rest = v;
    let mut out: Vec<ConstraintMembership> = Vec::new();
    let mut consumed: usize = 0;
    while rest.len() > 0
        invariant
            consumed + rest@.len() == ov.len(),
            ov.len() == n,
            orig == memberships_view(ov),
            rest@ == ov.subrange(consumed as int, ov.len() as int),
            memberships_view(out@) == sorted_memberships(orig.subrange(0, consumed as int)),
        decreases rest@.len(),
    {
        let x = rest.remove(0);
        assert(x == ov[consumed as int]);
        assert(membership_view(x) == orig[consumed as int]);
        assert(orig.subrange(0, consumed + 1).drop_last() =~= orig.subrange(0, consumed as int));
        let ghost outv = memberships_view(out@);
        let mut j: usize = out.len();
        while j > 0 && membership_less(&x, &out[j - 1])
            invariant
                j <= out@.len(),
                outv == memberships_view(out@),
                forall|k: int| j <= k < out@.len() ==> membership_lt(membership_view(x), #[trigger] outv[k]),
            decreases j,
        {
            j = j - 1;
        }
        proof {
            lemma_insert_membership_at(outv, membership_view(x), j as int);
        }
        out.insert(j, x);
        assert(memberships_view(out@) =~= outv.insert(j as int, membership_view(x)));
        consumed = consumed + 1;
        assert(rest@ =~= ov.subrange(consumed as int, ov.len() as int));
    }
    assert(orig.subrange(0, consumed as int) =~= orig);
    out
}

/// The memberships a key gives `name` among its first `n` columns.
pub open spec fn key_hits(id: CatalogId, columns: Seq<String>, name: Seq<char>, n: int) -> Seq<
    MembershipView,
>
    decreases n,
{
    if n <= 0 {
        Seq::empty()
    } else if columns[n - 1]@ == name {
        key_hits(id, columns, name, n - 1).push((id@, n as u32))
    } else {
        key_hits(id, columns, name, n - 1)
    }
}

/// The memberships the keys give `name`, key after key.
pub open spec fn raw_memberships(keys: Seq<(CatalogId, Vec<String>)>, name: Seq<char>) -> Seq<
    MembershipView,
>
    decreases keys.len(),
{
    if keys.len() == 0 {
        Seq::empty()
    } else {
        raw_memberships(keys.drop_last(), name) + key_hits(
            keys.last().0,
            keys.last().1@,
            name,
            keys.last().1@.len() as int,
        )
    }
}

/// Whether some key has more columns than a `u32` position can number.
pub open spec fn key_too_long(keys: Seq<(CatalogId, Vec<String>)>) -> bool {
    exists|k: int| 0 <= k < keys.len() && #[trigger] keys[k].1@.len() > u32::MAX
}

/// Whether every key has few enough columns for a `u32` position.
pub fn keys_fit(keys: &Vec<(CatalogId, Vec<String>)>) -> (r: bool)
    ensures
        r == !key_too_long(keys@),
{
    let mut k: usize = 0;
    while k < keys.len()
        invariant
            k <= keys@.len(),
            forall|q: int| 0 <= q < k ==> #[trigger] keys@[q].1@.len() <= u32::MAX,
        decreases keys@.len() - k,
    {
        if keys[k].1.len() as u64 > 0xffff_ffffu64 {
            return false;
        }
        k = k + 1;
    }
    true
}

/// The keys a column named `name` takes part in, with its position in each,
/// in the order of the keys.
pub fn raw_column_memberships(keys: &Vec<(CatalogId, Vec<String>)>, name: &str) -> (r: Vec<
    ConstraintMembership,
>)
    requires
        !key_too_long(keys@),
    ensures
        memberships_view(r@) == raw_memberships(keys@, name@),
{
    let mut raw: Vec<ConstraintMembership> = Vec::new();
    let mut q: usize = 0;
    assert(keys@.subrange(0, 0) =~= Seq::<(CatalogId, Vec<String>)>::empty());
    while q < keys.len()
        invariant
            q <= keys@.len(),
            forall|t: int| 0 <= t < keys@.len() ==> #[trigger] keys@[t].1@.len() <= u32::MAX,
            memberships_view(raw@) == raw_memberships(keys@.subrange(0, q as int), name@),
        decreases keys@.len() - q,
    {
        let id = &keys[q].0;
        let cols = &keys[q].1;
        let ghost before = memberships_view(raw@);
        assert(keys@.subrange(0, q + 1).drop_last() =~= keys@.subrange(0, q as int));
        assert(keys@.subrange(0, q + 1).last() == keys@[q as int]);
        let mut j: usize = 0;
        assert(before + key_hits(*id, cols@, name@, 0) =~= before);
        while j < cols.len()
            invariant
                j <= cols@.len(),
                cols@.len() <= u32::MAX,
                memberships_view(raw@) == before + key_hits(*id, cols@, name@, j as int),
            decreases cols@.len() - j,
        {
            if str_eq(cols[j].as_str(), name) {
                let ghost mid = memberships_view(raw@);
                let m = ConstraintMembership { constraint_id: id.clone(), ordinal_position: (j + 1) as u32 };
                raw.push(m);
                assert(memberships_view(raw@) =~= mid.push(membership_view(m)));
                assert(memberships_view(raw@) =~= before + key_hits(*id, cols@, name@, j + 1));
            } else {
                assert(key_hits(*id, cols@, name@, j + 1) == key_hits(*id, cols@, name@, j as int));
            }
            j = j + 1;
        }
        q = q + 1;
    }
    assert(keys@.subrange(0, q as int) =~= keys@);
    raw
}

/// The keys a column takes part in, with its position in each, sorted by key
/// kind, position and key path; refused when a key has more columns than a
/// `u32` position can number.
pub fn column_memberships(keys: &Vec<(CatalogId, Vec<String>)>, name: &str) -> (r: Result<
    Vec<ConstraintMembership>,
    DatabaseError,
>)
    ensures
        match r {
            Ok(ms) => !key_too_long(keys@) && memberships_view(ms@) == sorted_memberships(
                raw_memberships(keys@, name@),
            ),
            Err(e) => key_too_long(keys@) && is_internal_error(
                e,
                child_code(),
                "MySQL constraint has too many columns"@,
            ),
        },
{
    if !keys_fit(keys) {
        return Err(
            internal_error("mysql_catalog_invariant", "MySQL constraint has too many columns"),
        );
    }
    Ok(sort_memberships(raw_column_memberships(keys, name)))
}

} // verus!
