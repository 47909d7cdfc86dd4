//! The children of a SQL Server relation: where the relation lives, and the
//! metadata of its columns and keys built from what the catalog views return.
use vstd::prelude::*;

use crate::catalog::{
    CatalogId, CatalogKind, CatalogMetadata, ColumnMetadata, ConstraintMembership,
    ConstraintMetadata, OptionalMetadata, QualifiedName,
};
use crate::error::{internal_error, is_internal_error, DatabaseError, ErrorCategory};
use crate::mssql::{ms_code, ms_not_found};
use crate::mysql_children::{
    key_too_long, keys_fit, memberships_view, raw_column_memberships, raw_memberships,
};
use crate::page::{catalog_target_not_found, target_description, CatalogTarget};
use crate::text::{opt_view, owned, parse_i32, parse_i32_spec, sanitized, str_eq};

verus! {

fn not_found(target: &CatalogTarget) -> (r: DatabaseError)
    ensures
        ms_not_found(*target, r),
{
    proof {
        reveal_strlit("SQL Server");
        reveal_strlit(" catalog target was not found: ");
        reveal_strlit("SQL Server catalog target was not found: ");
        assert("SQL Server"@ + " catalog target was not found: "@
            =~= "SQL Server catalog target was not found: "@);
    }
    catalog_target_not_found("SQL Server", target)
}

/// Where a SQL Server relation lives, read from its identity: database,
/// schema, name and object id. The identity must have four path parts, the
/// last a number, belong to `profile_id` and be a relation.
pub open spec fn ms_relation_locator(relation: CatalogId, profile_id: u128) -> Option<
    (Seq<char>, Seq<char>, Seq<char>, i32),
> {
    let path = relation@.path;
    if path.len() == 4 {
        match parse_i32_spec(path[3]) {
            Some(object_id) => if relation.connection_id == profile_id
                && relation.kind.spec_is_relation() {
                Some((path[0], path[1], path[2], object_id))
            } else {
                None
            },
            None => None,
        }
    } else {
        None
    }
}

/// Where the relation whose children are asked for lives; a relation of
/// another profile, of another kind or with a malformed path is not found.
pub fn mssql_relation_locator(relation: &CatalogId, profile_id: u128, target: &CatalogTarget) -> (r:
    Result<(String, String, String, i32), DatabaseError>)
    ensures
        match ms_relation_locator(*relation, profile_id) {
            Some((database, schema, name, object_id)) => r matches Ok((d, s, n, o)) && d@
                == database && s@ == schema && n@ == name && o == object_id,
            None => r matches Err(e) && ms_not_found(*target, e),
        },
{
    if relation.native_path.len() != 4 {
        return Err(not_found(target));
    }
    let object_id = match parse_i32(relation.native_path[3].as_str()) {
        Some(v) => v,
        None => {
            return Err(not_found(target));
        },
    };
    if relation.profile_id() != profile_id || !relation.kind.is_relation() {
        return Err(not_found(target));
    }
    Ok(
        (
            relation.native_path[0].clone(),
            relation.native_path[1].clone(),
            relation.native_path[2].clone(),
            object_id,
        ),
    )
}

/// The relation kind of a `sys.objects` type code: `U` a table, `V` a view.
pub open spec fn ms_object_kind(object_type: Option<Seq<char>>) -> Option<CatalogKind> {
    match object_type {
        Some(t) => if t == "U"@ {
            Some(CatalogKind::Table)
        } else if t == "V"@ {
            Some(CatalogKind::View)
        } else {
            None
        },
        None => None,
    }
}

/// Checks that the object the server found for a relation is a table or
/// view of the kind that the relation's identity names.
pub fn mssql_check_relation_type(
    relation: &CatalogId,
    object_type: Option<String>,
    target: &CatalogTarget,
) -> (r: Result<(), DatabaseError>)
    ensures
        r is Ok <==> ms_object_kind(opt_view(object_type)) == Some(relation.kind),
        r matches Err(e) ==> ms_not_found(*target, e),
{
    proof {
        reveal_strlit("U");
        reveal_strlit("V");
    }
    let expected = match &object_type {
        Some(t) => if str_eq(t.as_str(), "U") {
            CatalogKind::Table
        } else if str_eq(t.as_str(), "V") {
            CatalogKind::View
        } else {
            return Err(not_found(target));
        },
        None => {
            return Err(not_found(target));
        },
    };
    if relation.kind != expected {
        return Err(not_found(target));
    }
    Ok(())
}

/// The catalog kind of a key-constraint type code: `PK`, `UQ`, `F` or `C`.
pub open spec fn ms_constraint_kind(native: Seq<char>) -> Option<CatalogKind> {
    if native == "PK"@ {
        Some(CatalogKind::PrimaryKey)
    } else if native == "UQ"@ {
        Some(CatalogKind::UniqueConstraint)
    } else if native == "F"@ {
        Some(CatalogKind::ForeignKey)
    } else if native == "C"@ {
        Some(CatalogKind::CheckConstraint)
    } else {
        None
    }
}

/// The catalog kind of a key-constraint type code; other codes are skipped.
pub fn mssql_constraint_kind(native: &str) -> (r: Option<CatalogKind>)
    ensures
        r == ms_constraint_kind(native@),
{
    proof {
        reveal_strlit("PK");
        reveal_strlit("UQ");
        reveal_strlit("F");
        reveal_strlit("C");
    }
    if str_eq(native, "PK") {
        Some(CatalogKind::PrimaryKey)
    } else if str_eq(native, "UQ") {
        Some(CatalogKind::UniqueConstraint)
    } else if str_eq(native, "F") {
        Some(CatalogKind::ForeignKey)
    } else if str_eq(native, "C") {
        Some(CatalogKind::CheckConstraint)
    } else {
        None
    }
}

/// The columns that a column of a relation shares with its keys, in the
/// order the keys are given; refused when a key has more columns than a
/// `u32` position can number.
pub fn mssql_column_memberships(keys: &Vec<(CatalogId, Vec<String>)>, name: &str) -> (r: Result<
    Vec<ConstraintMembership>,
    DatabaseError,
>)
    ensures
        match r {
            Ok(ms) => !key_too_long(keys@) && memberships_view(ms@) == raw_memberships(
                keys@,
                name@,
            ),
            Err(e) => key_too_long(keys@) && is_internal_error(
                e,
                ms_code(),
                "SQL Server constraint has too many columns"@,
            ),
        },
{
    if !keys_fit(keys) {
        return Err(internal_error("sql_server_decode", "SQL Server constraint has too many columns"));
    }
    Ok(raw_column_memberships(keys, name))
}

/// The referenced side of a SQL Server foreign key.
#[derive(Clone, Debug, PartialEq, Eq)]
pub struct MsSqlForeignKey {
    pub referenced_schema: String,
    pub referenced_relation: String,
    pub source_columns: Vec<String>,
    pub referenced_columns: Vec<String>,
}

/// The metadata of a key of `kind` whose columns are `columns`, in the
/// database `database`; a foreign key takes its columns from `foreign` where
/// it lists any, and a check constraint its expression from `check`.
pub open spec fn ms_constraint_metadata(
    kind: CatalogKind,
    columns: Vec<String>,
    foreign: Option<MsSqlForeignKey>,
    check: Option<String>,
    database: String,
) -> Result<CatalogMetadata, Seq<char>> {
    match kind {
        CatalogKind::PrimaryKey => Ok(
            CatalogMetadata::Constraint(ConstraintMetadata::PrimaryKey { columns }),
        ),
        CatalogKind::UniqueConstraint => Ok(
            CatalogMetadata::Constraint(ConstraintMetadata::Unique { columns }),
        ),
        CatalogKind::ForeignKey => match foreign {
            Some(f) => Ok(
                CatalogMetadata::Constraint(
                    ConstraintMetadata::ForeignKey {
                        columns: if f.source_columns@.len() == 0 {
                            columns
                        } else {
                            f.source_columns
                        },
                        referenced_relation: QualifiedName {
                            database: Some(database),
                            schema: Some(f.referenced_schema),
                            object: f.referenced_relation,
                        },
                        referenced_columns: f.referenced_columns,
                    },
                ),
            ),
            None => Err("foreign key has no referenced relation"@),
        },
        _ => match check {
            Some(expression) => Ok(
                CatalogMetadata::Constraint(ConstraintMetadata::Check { expression }),
            ),
            None => Err("check constraint has no expression"@),
        },
    }
}

/// The metadata of a SQL Server key constraint.
pub fn mssql_constraint_metadata(
    kind: CatalogKind,
    columns: Vec<String>,
    foreign: Option<MsSqlForeignKey>,
    check: Option<String>,
    database: String,
) -> (r: Result<CatalogMetadata, DatabaseError>)
    requires
        kind == CatalogKind::PrimaryKey || kind == CatalogKind::UniqueConstraint || kind
            == CatalogKind::ForeignKey || kind == CatalogKind::CheckConstraint,
    ensures
        match ms_constraint_metadata(kind, columns, foreign, check, database) {
            Ok(m) => r == Ok::<CatalogMetadata, DatabaseError>(m),
            Err(msg) => r matches Err(e) && is_internal_error(e, ms_code(), msg),
        },
{
    match kind {
        CatalogKind::PrimaryKey => Ok(
            CatalogMetadata::Constraint(ConstraintMetadata::PrimaryKey { columns }),
        ),
        CatalogKind::UniqueConstraint => Ok(
            CatalogMetadata::Constraint(ConstraintMetadata::Unique { columns }),
        ),
        CatalogKind::ForeignKey => match foreign {
            Some(f) => {
                let MsSqlForeignKey {
                    referenced_schema,
                    referenced_relation,
                    source_columns,
                    referenced_columns,
                } = f;
                let columns = if source_columns.len() == 0 {
                    columns
                } else {
                    source_columns
                };
                Ok(
                    CatalogMetadata::Constraint(
                        ConstraintMetadata::ForeignKey {
                            columns,
                            referenced_relation: QualifiedName {
                                database: Some(database),
                                schema: Some(referenced_schema),
                                object: referenced_relation,
                            },
                            referenced_columns,
                        },
                    ),
                )
            },
            None => Err(internal_error("sql_server_decode", "foreign key has no referenced relation")),
        },
        _ => match check {
            Some(expression) => Ok(
                CatalogMetadata::Constraint(ConstraintMetadata::Check { expression }),
            ),
            None => Err(internal_error("sql_server_decode", "check constraint has no expression")),
        },
    }
}

/// One row of the column listing of a SQL Server relation.
#[derive(Clone, Debug, PartialEq, Eq)]
pub struct MsSqlColumnRow {
    pub column_id: i32,
    pub name: String,
    pub data_type: String,
    pub is_nullable: Option<bool>,
    pub is_identity: Option<bool>,
    pub is_computed: Option<bool>,
    pub default_expression: Option<String>,
    pub computed_expression: Option<String>,
    pub rowversion: Option<bool>,
}

pub open spec fn flag(value: Option<bool>) -> bool {
    match value {
        Some(b) => b,
        None => false,
    }
}

/// Whether `m` is the metadata of the column that `row` lists: a flag the
/// server left out counts as false; a computed column shows its expression
/// and no default; a rowversion column is hidden.
pub open spec fn ms_column_metadata(
    row: MsSqlColumnRow,
    memberships: Vec<ConstraintMembership>,
    m: ColumnMetadata,
) -> bool {
    let computed = flag(row.is_computed);
    let identity = flag(row.is_identity);
    &&& m.ordinal_position == row.column_id as u32
    &&& m.native_type == row.data_type
    &&& m.nullable == flag(row.is_nullable)
    &&& m.type_family == OptionalMetadata::Supported(Some(row.data_type))
    &&& m.identity == OptionalMetadata::Supported(Some(identity))
    &&& m.auto_increment == OptionalMetadata::Supported(Some(identity))
    &&& m.default_expression == OptionalMetadata::Supported(
        if computed {
            None
        } else {
            row.default_expression
        },
    )
    &&& m.generated_expression == OptionalMetadata::Supported(
        if computed {
            row.computed_expression
        } else {
            None
        },
    )
    &&& m.hidden == OptionalMetadata::Supported(Some(flag(row.rowversion)))
    &&& m.numeric_precision is Unsupported
    &&& m.numeric_scale is Unsupported
    &&& m.character_maximum_length is Unsupported
    &&& m.collation is Unsupported
    &&& m.character_set is Unsupported
    &&& m.constraint_memberships == memberships
}

fn flag_value(value: Option<bool>) -> (r: bool)
    ensures
        r == flag(value),
{
    match value {
        Some(b) => b,
        None => false,
    }
}

/// The metadata of a SQL Server column.
pub fn mssql_column_metadata(row: MsSqlColumnRow, memberships: Vec<ConstraintMembership>) -> (r:
    ColumnMetadata)
    ensures
        ms_column_metadata(row, memberships, r),
{
    let computed = flag_value(row.is_computed);
    let identity = flag_value(row.is_identity);
    let hidden = flag_value(row.rowversion);
    let nullable = flag_value(row.is_nullable);
    let MsSqlColumnRow { column_id, data_type, default_expression, computed_expression, .. } = row;
    let family = data_type.clone();
    let mut m = ColumnMetadata::new(column_id as u32, data_type, nullable);
    m.type_family = OptionalMetadata::Supported(Some(family));
    m.identity = OptionalMetadata::Supported(Some(identity));
    m.auto_increment = OptionalMetadata::Supported(Some(identity));
    m.default_expression = OptionalMetadata::Supported(
        if computed {
            None
        } else {
            default_expression
        },
    );
    m.generated_expression = OptionalMetadata::Supported(
        if computed {
            computed_expression
        } else {
            None
        },
    );
    m.hidden = OptionalMetadata::Supported(Some(hidden));
    m.constraint_memberships = memberships;
    m
}

} // verus!
