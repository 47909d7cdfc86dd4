//! The children of a PostgreSQL relation: the metadata of its keys and
//! columns built from what the system catalogs return.
use vstd::prelude::*;

use crate::catalog::{
    CatalogId, CatalogKind, CatalogMetadata, ColumnMetadata, ConstraintMembership,
    ConstraintMetadata, OptionalMetadata, QualifiedName,
};
use crate::error::{internal_error, is_internal_error, DatabaseError};
use crate::mysql_children::{
    key_too_long, keys_fit, memberships_view, raw_column_memberships, raw_memberships,
    sort_memberships, sorted_memberships,
};
use crate::postgres::pg_code;
use crate::text::{is_empty_str, owned};

verus! {

fn catalog_internal(message: &str) -> (r: DatabaseError)
    ensures
        is_internal_error(r, pg_code(), message@),
{
    internal_error("postgres_catalog_invariant", message)
}

/// A key or check constraint of a PostgreSQL relation, as read from
/// `pg_constraint`.
#[derive(Clone, Debug, PartialEq, Eq)]
pub struct PgConstraintInfo {
    pub oid: i64,
    pub name: String,
    pub kind: CatalogKind,
    pub columns: Vec<String>,
    pub referenced_schema: Option<String>,
    pub referenced_relation: Option<String>,
    pub referenced_columns: Vec<String>,
    pub check_expression: Option<String>,
    pub comment: Option<String>,
}

/// The metadata of a constraint in the database `database`, or the message
/// of what it lacks.
pub open spec fn pg_constraint_metadata(c: PgConstraintInfo, database: String) -> Result<
    CatalogMetadata,
    Seq<char>,
> {
    match c.kind {
        CatalogKind::PrimaryKey => Ok(
            CatalogMetadata::Constraint(ConstraintMetadata::PrimaryKey { columns: c.columns }),
        ),
        CatalogKind::UniqueConstraint => Ok(
            CatalogMetadata::Constraint(ConstraintMetadata::Unique { columns: c.columns }),
        ),
        CatalogKind::ForeignKey => match c.referenced_relation {
            Some(relation) => Ok(
                CatalogMetadata::Constraint(
                    ConstraintMetadata::ForeignKey {
                        columns: c.columns,
                        referenced_relation: QualifiedName {
                            database: Some(database),
                            schema: c.referenced_schema,
                            object: relation,
                        },
                        referenced_columns: c.referenced_columns,
                    },
                ),
            ),
            None => Err("foreign key has no referenced relation"@),
        },
        CatalogKind::CheckConstraint => match c.check_expression {
            Some(expression) => Ok(
                CatalogMetadata::Constraint(ConstraintMetadata::Check { expression }),
            ),
            None => Err("check constraint has no expression"@),
        },
        _ => Err("unexpected PostgreSQL constraint kind"@),
    }
}

/// The catalog metadata of a PostgreSQL constraint.
pub fn postgres_constraint_metadata(c: PgConstraintInfo, database: String) -> (r: Result<
    CatalogMetadata,
    DatabaseError,
>)
    ensures
        match pg_constraint_metadata(c, database) {
            Ok(m) => r == Ok::<CatalogMetadata, DatabaseError>(m),
            Err(msg) => r matches Err(e) && is_internal_error(e, pg_code(), msg),
        },
{
    let PgConstraintInfo {
        kind,
        columns,
        referenced_schema,
        referenced_relation,
        referenced_columns,
        check_expression,
        ..
    } = c;
    match kind {
        CatalogKind::PrimaryKey => Ok(
            CatalogMetadata::Constraint(ConstraintMetadata::PrimaryKey { columns }),
        ),
        CatalogKind::UniqueConstraint => Ok(
            CatalogMetadata::Constraint(ConstraintMetadata::Unique { columns }),
        ),
        CatalogKind::ForeignKey => match referenced_relation {
            Some(relation) => Ok(
                CatalogMetadata::Constraint(
                    ConstraintMetadata::ForeignKey {
                        columns,
                        referenced_relation: QualifiedName {
                            database: Some(database),
                            schema: referenced_schema,
                            object: relation,
                        },
                        referenced_columns,
                    },
                ),
            ),
            None => Err(catalog_internal("foreign key has no referenced relation")),
        },
        CatalogKind::CheckConstraint => match check_expression {
            Some(expression) => Ok(
                CatalogMetadata::Constraint(ConstraintMetadata::Check { expression }),
            ),
            None => Err(catalog_internal("check constraint has no expression")),
        },
        _ => Err(catalog_internal("unexpected PostgreSQL constraint kind")),
    }
}

/// The keys a column named `name` takes part in, with its position in
/// each, sorted by key kind, position and key path; refused when a key has
/// more columns than a `u32` position can number.
pub fn postgres_column_memberships(keys: &Vec<(CatalogId, Vec<String>)>, name: &str) -> (r:
    Result<Vec<ConstraintMembership>, DatabaseError>)
    ensures
        match r {
            Ok(ms) => !key_too_long(keys@) && memberships_view(ms@) == sorted_memberships(
                raw_memberships(keys@, name@),
            ),
            Err(e) => key_too_long(keys@) && is_internal_error(
                e,
                pg_code(),
                "PostgreSQL constraint has too many columns"@,
            ),
        },
{
    if !keys_fit(keys) {
        return Err(catalog_internal("PostgreSQL constraint has too many columns"));
    }
    Ok(sort_memberships(raw_column_memberships(keys, name)))
}

/// One row of the column listing of a PostgreSQL relation.
#[derive(Clone, Debug, PartialEq, Eq)]
pub struct PgColumnRow {
    pub ordinal: i32,
    pub name: String,
    pub native_type: String,
    pub type_family: String,
    pub nullable: bool,
    pub expression: Option<String>,
    pub identity_kind: String,
    pub generated_kind: String,
    pub character_length: Option<i64>,
    pub collation: Option<String>,
}

/// What is wrong with a column row: a negative ordinal or a negative
/// character length.
pub open spec fn pg_column_row_issue(row: PgColumnRow) -> Option<Seq<char>> {
    if row.ordinal < 0 {
        Some("invalid PostgreSQL column ordinal"@)
    } else if row.character_length matches Some(l) && l < 0 {
        Some("invalid PostgreSQL character length"@)
    } else {
        None
    }
}

/// Whether `m` is the metadata of the column `row` lists: the expression is
/// the default of a plain column and the generation expression of a
/// generated one; the column is an identity when its identity kind is set.
pub open spec fn pg_column_metadata(
    row: PgColumnRow,
    memberships: Vec<ConstraintMembership>,
    m: ColumnMetadata,
) -> bool {
    let plain = row.generated_kind@.len() == 0;
    &&& m.ordinal_position == row.ordinal as u32
    &&& m.native_type == row.native_type
    &&& m.nullable == row.nullable
    &&& m.type_family == OptionalMetadata::Supported(Some(row.type_family))
    &&& m.default_expression == OptionalMetadata::Supported(
        if plain {
            row.expression
        } else {
            None
        },
    )
    &&& m.identity == OptionalMetadata::Supported(Some(row.identity_kind@.len() != 0))
    &&& m.auto_increment is Unsupported
    &&& m.generated_expression == OptionalMetadata::Supported(
        if plain {
            None
        } else {
            row.expression
        },
    )
    &&& m.hidden is Unsupported
    &&& m.numeric_precision is Unsupported
    &&& m.numeric_scale is Unsupported
    &&& m.character_maximum_length == OptionalMetadata::Supported(
        match row.character_length {
            Some(l) => Some(l as u64),
            None => None,
        },
    )
    &&& m.collation == OptionalMetadata::Supported(row.collation)
    &&& m.character_set is Unsupported
    &&& m.constraint_memberships == memberships
}

/// The metadata of a PostgreSQL column.
pub fn postgres_column_metadata(row: PgColumnRow, memberships: Vec<ConstraintMembership>) -> (r:
    Result<ColumnMetadata, DatabaseError>)
    ensures
        match r {
            Ok(m) => pg_column_row_issue(row) is None && pg_column_metadata(row, memberships, m),
            Err(e) => pg_column_row_issue(row) matches Some(msg) && is_internal_error(
                e,
                pg_code(),
                msg,
            ),
        },
{
    if row.ordinal < 0 {
        return Err(catalog_internal("invalid PostgreSQL column ordinal"));
    }
    let length = match row.character_length {
        Some(l) => if l < 0 {
            return Err(catalog_internal("invalid PostgreSQL character length"));
        } else {
            Some(l as u64)
        },
        None => None,
    };
    let plain = is_empty_str(row.generated_kind.as_str());
    let identity = !is_empty_str(row.identity_kind.as_str());
    let PgColumnRow { ordinal, native_type, type_family, nullable, expression, collation, .. } =
        row;
    let mut m = ColumnMetadata::new(ordinal as u32, native_type, nullable);
    m.type_family = OptionalMetadata::Supported(Some(type_family));
    if plain {
        m.default_expression = OptionalMetadata::Supported(expression);
        m.generated_expression = OptionalMetadata::Supported(None);
    } else {
        m.default_expression = OptionalMetadata::Supported(None);
        m.generated_expression = OptionalMetadata::Supported(expression);
    }
    m.identity = OptionalMetadata::Supported(Some(identity));
    m.character_maximum_length = OptionalMetadata::Supported(length);
    m.collation = OptionalMetadata::Supported(collation);
    m.constraint_memberships = memberships;
    Ok(m)
}

} // verus!
