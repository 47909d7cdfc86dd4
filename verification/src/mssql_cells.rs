//! How a SQL Server value is read into a cell: the type names the
//! workspace shows and which reading each column type and value take.
use vstd::prelude::*;

use crate::mssql::{bounded_preview, bounded_preview_spec};
use crate::text::owned;
use crate::value::CellValue;

verus! {

/// The column types a SQL Server result reports.
#[derive(Clone, Copy, Debug, PartialEq, Eq, Structural)]
pub enum MsSqlColumnType {
    Null,
    Bit,
    Int1,
    Int2,
    Int4,
    Int8,
    Datetime4,
    Float4,
    Float8,
    Money,
    Datetime,
    Money4,
    Guid,
    Intn,
    Bitn,
    Decimaln,
    Numericn,
    Floatn,
    Datetimen,
    Daten,
    Timen,
    Datetime2,
    DatetimeOffsetn,
    BigVarBin,
    BigVarChar,
    BigBinary,
    BigChar,
    NVarchar,
    NChar,
    Xml,
    Udt,
    Text,
    Image,
    NText,
    SSVariant,
}

/// The SQL name shown for a column type.
pub open spec fn ms_type_name(t: MsSqlColumnType) -> &'static str {
    match t {
        MsSqlColumnType::Null => "null",
        MsSqlColumnType::Bit => "bit",
        MsSqlColumnType::Int1 => "tinyint",
        MsSqlColumnType::Int2 => "smallint",
        MsSqlColumnType::Int4 => "int",
        MsSqlColumnType::Int8 => "bigint",
        MsSqlColumnType::Datetime4 => "smalldatetime",
        MsSqlColumnType::Float4 => "real",
        MsSqlColumnType::Float8 => "float",
        MsSqlColumnType::Money => "money",
        MsSqlColumnType::Datetime => "datetime",
        MsSqlColumnType::Money4 => "smallmoney",
        MsSqlColumnType::Guid => "uniqueidentifier",
        MsSqlColumnType::Intn => "bigint",
        MsSqlColumnType::Bitn => "bit",
        MsSqlColumnType::Decimaln => "decimal",
        MsSqlColumnType::Numericn => "numeric",
        MsSqlColumnType::Floatn => "float",
        MsSqlColumnType::Datetimen => "datetime",
        MsSqlColumnType::Daten => "date",
        MsSqlColumnType::Timen => "time",
        MsSqlColumnType::Datetime2 => "datetime2",
        MsSqlColumnType::DatetimeOffsetn => "datetimeoffset",
        MsSqlColumnType::BigVarBin => "varbinary",
        MsSqlColumnType::BigVarChar => "varchar",
        MsSqlColumnType::BigBinary => "binary",
        MsSqlColumnType::BigChar => "char",
        MsSqlColumnType::NVarchar => "nvarchar",
        MsSqlColumnType::NChar => "nchar",
        MsSqlColumnType::Xml => "xml",
        MsSqlColumnType::Udt => "udt",
        MsSqlColumnType::Text => "text",
        MsSqlColumnType::Image => "image",
        MsSqlColumnType::NText => "ntext",
        MsSqlColumnType::SSVariant => "sql_variant",
    }
}

/// The SQL name shown for a column type.
pub fn mssql_column_type_name(t: MsSqlColumnType) -> (r: &'static str)
    ensures
        r == ms_type_name(t),
{
    match t {
        MsSqlColumnType::Null => "null",
        MsSqlColumnType::Bit => "bit",
        MsSqlColumnType::Int1 => "tinyint",
        MsSqlColumnType::Int2 => "smallint",
        MsSqlColumnType::Int4 => "int",
        MsSqlColumnType::Int8 => "bigint",
        MsSqlColumnType::Datetime4 => "smalldatetime",
        MsSqlColumnType::Float4 => "real",
        MsSqlColumnType::Float8 => "float",
        MsSqlColumnType::Money => "money",
        MsSqlColumnType::Datetime => "datetime",
        MsSqlColumnType::Money4 => "smallmoney",
        MsSqlColumnType::Guid => "uniqueidentifier",
        MsSqlColumnType::Intn => "bigint",
        MsSqlColumnType::Bitn => "bit",
        MsSqlColumnType::Decimaln => "decimal",
        MsSqlColumnType::Numericn => "numeric",
        MsSqlColumnType::Floatn => "float",
        MsSqlColumnType::Datetimen => "datetime",
        MsSqlColumnType::Daten => "date",
        MsSqlColumnType::Timen => "time",
        MsSqlColumnType::Datetime2 => "datetime2",
        MsSqlColumnType::DatetimeOffsetn => "datetimeoffset",
        MsSqlColumnType::BigVarBin => "varbinary",
        MsSqlColumnType::BigVarChar => "varchar",
        MsSqlColumnType::BigBinary => "binary",
        MsSqlColumnType::BigChar => "char",
        MsSqlColumnType::NVarchar => "nvarchar",
        MsSqlColumnType::NChar => "nchar",
        MsSqlColumnType::Xml => "xml",
        MsSqlColumnType::Udt => "udt",
        MsSqlColumnType::Text => "text",
        MsSqlColumnType::Image => "image",
        MsSqlColumnType::NText => "ntext",
        MsSqlColumnType::SSVariant => "sql_variant",
    }
}

/// The shapes a SQL Server value arrives in.
#[derive(Clone, Copy, Debug, PartialEq, Eq, Structural)]
pub enum MsSqlValueKind {
    U8,
    I16,
    I32,
    I64,
    F32,
    F64,
    Bit,
    String,
    Guid,
    Binary,
    Numeric,
    Xml,
    DateTime,
    SmallDateTime,
    Time,
    Date,
    DateTime2,
    DateTimeOffset,
}

/// How a value is read into a cell.
#[derive(Clone, Copy, Debug, PartialEq, Eq, Structural)]
pub enum MsSqlDecode {
    Null,
    /// Money, whose exact value the driver does not give.
    MoneyUnavailable,
    Boolean,
    Unsigned,
    Integer,
    Float,
    Numeric,
    Text,
    Xml,
    Bytes,
    Guid,
    Date,
    Time,
    DateTime,
    DateTimeOffset,
    /// Shown as an unsupported cell with a preview of the value.
    Unsupported,
}

pub open spec fn is_string_type(t: MsSqlColumnType) -> bool {
    t == MsSqlColumnType::BigVarChar || t == MsSqlColumnType::BigChar || t == MsSqlColumnType::NVarchar
        || t == MsSqlColumnType::NChar || t == MsSqlColumnType::Text || t == MsSqlColumnType::NText
}

pub open spec fn is_binary_type(t: MsSqlColumnType) -> bool {
    t == MsSqlColumnType::BigVarBin || t == MsSqlColumnType::BigBinary || t == MsSqlColumnType::Image
}

pub open spec fn is_datetime_type(t: MsSqlColumnType) -> bool {
    t == MsSqlColumnType::Datetime || t == MsSqlColumnType::Datetime4 || t == MsSqlColumnType::Datetimen
        || t == MsSqlColumnType::Datetime2
}

/// How a value of shape `v` in a column of type `t` is read: a null is
/// null; user-defined and variant columns are unsupported; money is shown
/// as unavailable; numbers and bits by their shape; text, XML, bytes and
/// identifiers only from columns of their own types; dates and times by the
/// column type; anything else unsupported.
pub open spec fn ms_decode(t: MsSqlColumnType, v: MsSqlValueKind, is_null: bool) -> MsSqlDecode {
    if is_null {
        MsSqlDecode::Null
    } else if t == MsSqlColumnType::Udt || t == MsSqlColumnType::SSVariant {
        MsSqlDecode::Unsupported
    } else if t == MsSqlColumnType::Money || t == MsSqlColumnType::Money4 {
        MsSqlDecode::MoneyUnavailable
    } else if v == MsSqlValueKind::Bit {
        MsSqlDecode::Boolean
    } else if v == MsSqlValueKind::U8 {
        MsSqlDecode::Unsigned
    } else if v == MsSqlValueKind::I16 || v == MsSqlValueKind::I32 || v == MsSqlValueKind::I64 {
        MsSqlDecode::Integer
    } else if v == MsSqlValueKind::F32 || v == MsSqlValueKind::F64 {
        MsSqlDecode::Float
    } else if v == MsSqlValueKind::Numeric {
        MsSqlDecode::Numeric
    } else if is_string_type(t) && v == MsSqlValueKind::String {
        MsSqlDecode::Text
    } else if t == MsSqlColumnType::Xml && v == MsSqlValueKind::Xml {
        MsSqlDecode::Xml
    } else if is_binary_type(t) && v == MsSqlValueKind::Binary {
        MsSqlDecode::Bytes
    } else if t == MsSqlColumnType::Guid && v == MsSqlValueKind::Guid {
        MsSqlDecode::Guid
    } else if t == MsSqlColumnType::Daten {
        MsSqlDecode::Date
    } else if t == MsSqlColumnType::Timen {
        MsSqlDecode::Time
    } else if is_datetime_type(t) {
        MsSqlDecode::DateTime
    } else if t == MsSqlColumnType::DatetimeOffsetn && v == MsSqlValueKind::DateTimeOffset {
        MsSqlDecode::DateTimeOffset
    } else {
        MsSqlDecode::Unsupported
    }
}

/// How a value of shape `v`, null or not, in a column of type `t` is read.
pub fn mssql_decode_plan(t: MsSqlColumnType, v: MsSqlValueKind, is_null: bool) -> (r: MsSqlDecode)
    ensures
        r == ms_decode(t, v, is_null),
{
    if is_null {
        return MsSqlDecode::Null;
    }
    match t {
        MsSqlColumnType::Udt | MsSqlColumnType::SSVariant => {
            return MsSqlDecode::Unsupported;
        },
        MsSqlColumnType::Money | MsSqlColumnType::Money4 => {
            return MsSqlDecode::MoneyUnavailable;
        },
        _ => {},
    }
    match v {
        MsSqlValueKind::Bit => {
            return MsSqlDecode::Boolean;
        },
        MsSqlValueKind::U8 => {
            return MsSqlDecode::Unsigned;
        },
        MsSqlValueKind::I16 | MsSqlValueKind::I32 | MsSqlValueKind::I64 => {
            return MsSqlDecode::Integer;
        },
        MsSqlValueKind::F32 | MsSqlValueKind::F64 => {
            return MsSqlDecode::Float;
        },
        MsSqlValueKind::Numeric => {
            return MsSqlDecode::Numeric;
        },
        _ => {},
    }
    match (t, v) {
        (
            MsSqlColumnType::BigVarChar
            | MsSqlColumnType::BigChar
            | MsSqlColumnType::NVarchar
            | MsSqlColumnType::NChar
            | MsSqlColumnType::Text
            | MsSqlColumnType::NText,
            MsSqlValueKind::String,
        ) => MsSqlDecode::Text,
        (MsSqlColumnType::Xml, MsSqlValueKind::Xml) => MsSqlDecode::Xml,
        (
            MsSqlColumnType::BigVarBin | MsSqlColumnType::BigBinary | MsSqlColumnType::Image,
            MsSqlValueKind::Binary,
        ) => MsSqlDecode::Bytes,
        (MsSqlColumnType::Guid, MsSqlValueKind::Guid) => MsSqlDecode::Guid,
        (MsSqlColumnType::Daten, _) => MsSqlDecode::Date,
        (MsSqlColumnType::Timen, _) => MsSqlDecode::Time,
        (
            MsSqlColumnType::Datetime
            | MsSqlColumnType::Datetime4
            | MsSqlColumnType::Datetimen
            | MsSqlColumnType::Datetime2,
            _,
        ) => MsSqlDecode::DateTime,
        (MsSqlColumnType::DatetimeOffsetn, MsSqlValueKind::DateTimeOffset) => {
            MsSqlDecode::DateTimeOffset
        },
        _ => MsSqlDecode::Unsupported,
    }
}

/// The cell for a money value, whose exact amount the driver does not give.
pub fn mssql_money_cell(t: MsSqlColumnType) -> (r: CellValue)
    ensures
        r matches CellValue::Unsupported { data_type, preview } && data_type@ == ms_type_name(t)@
            && preview@ == "exact value unavailable from Tiberius"@,
{
    CellValue::Unsupported {
        data_type: owned(mssql_column_type_name(t)),
        preview: owned("exact value unavailable from Tiberius"),
    }
}

/// The cell for a value the workspace cannot show: the column type's name
/// and a short, terminal-safe preview of `text`.
pub fn mssql_unsupported_cell(t: MsSqlColumnType, text: &str) -> (r: CellValue)
    ensures
        r matches CellValue::Unsupported { data_type, preview } && data_type@ == ms_type_name(t)@
            && preview@ == bounded_preview_spec(text@),
{
    CellValue::Unsupported { data_type: owned(mssql_column_type_name(t)), preview: bounded_preview(text) }
}

} // verus!
