use lazydb::mssql_cells::{
    mssql_column_type_name, mssql_decode_plan, mssql_money_cell, mssql_unsupported_cell,
    MsSqlColumnType, MsSqlDecode, MsSqlValueKind,
};
use lazydb::value::CellValue;

#[test]
fn column_types_show_their_sql_names() {
    assert_eq!(mssql_column_type_name(MsSqlColumnType::Intn), "bigint");
    assert_eq!(mssql_column_type_name(MsSqlColumnType::Bitn), "bit");
    assert_eq!(mssql_column_type_name(MsSqlColumnType::Datetime4), "smalldatetime");
    assert_eq!(mssql_column_type_name(MsSqlColumnType::SSVariant), "sql_variant");
    assert_eq!(mssql_column_type_name(MsSqlColumnType::Guid), "uniqueidentifier");
}

#[test]
fn decode_plans_follow_column_type_then_value_shape() {
    assert_eq!(mssql_decode_plan(MsSqlColumnType::Udt, MsSqlValueKind::Binary, true), MsSqlDecode::Null);
    assert_eq!(mssql_decode_plan(MsSqlColumnType::Udt, MsSqlValueKind::Binary, false), MsSqlDecode::Unsupported);
    assert_eq!(mssql_decode_plan(MsSqlColumnType::Money, MsSqlValueKind::Numeric, false), MsSqlDecode::MoneyUnavailable);
    assert_eq!(mssql_decode_plan(MsSqlColumnType::Intn, MsSqlValueKind::I32, false), MsSqlDecode::Integer);
    assert_eq!(mssql_decode_plan(MsSqlColumnType::Int1, MsSqlValueKind::U8, false), MsSqlDecode::Unsigned);
    assert_eq!(mssql_decode_plan(MsSqlColumnType::Floatn, MsSqlValueKind::F32, false), MsSqlDecode::Float);
    assert_eq!(mssql_decode_plan(MsSqlColumnType::Decimaln, MsSqlValueKind::Numeric, false), MsSqlDecode::Numeric);
    assert_eq!(mssql_decode_plan(MsSqlColumnType::NVarchar, MsSqlValueKind::String, false), MsSqlDecode::Text);
    assert_eq!(mssql_decode_plan(MsSqlColumnType::Xml, MsSqlValueKind::String, false), MsSqlDecode::Unsupported);
    assert_eq!(mssql_decode_plan(MsSqlColumnType::Xml, MsSqlValueKind::Xml, false), MsSqlDecode::Xml);
    assert_eq!(mssql_decode_plan(MsSqlColumnType::Image, MsSqlValueKind::Binary, false), MsSqlDecode::Bytes);
    assert_eq!(mssql_decode_plan(MsSqlColumnType::Guid, MsSqlValueKind::Guid, false), MsSqlDecode::Guid);
    assert_eq!(mssql_decode_plan(MsSqlColumnType::Daten, MsSqlValueKind::Date, false), MsSqlDecode::Date);
    assert_eq!(mssql_decode_plan(MsSqlColumnType::Timen, MsSqlValueKind::Time, false), MsSqlDecode::Time);
    assert_eq!(mssql_decode_plan(MsSqlColumnType::Datetime2, MsSqlValueKind::DateTime2, false), MsSqlDecode::DateTime);
    assert_eq!(
        mssql_decode_plan(MsSqlColumnType::DatetimeOffsetn, MsSqlValueKind::DateTimeOffset, false),
        MsSqlDecode::DateTimeOffset
    );
    assert_eq!(mssql_decode_plan(MsSqlColumnType::DatetimeOffsetn, MsSqlValueKind::String, false), MsSqlDecode::Unsupported);
}

#[test]
fn unsupported_cells_name_the_type_and_preview_the_value() {
    assert_eq!(
        mssql_money_cell(MsSqlColumnType::Money4),
        CellValue::Unsupported {
            data_type: "smallmoney".into(),
            preview: "exact value unavailable from Tiberius".into(),
        }
    );
    let long = "v".repeat(100);
    match mssql_unsupported_cell(MsSqlColumnType::Udt, &long) {
        CellValue::Unsupported { data_type, preview } => {
            assert_eq!(data_type, "udt");
            assert_eq!(preview.len(), 64);
        }
        other => panic!("unexpected {other:?}"),
    }
}

#[test]
fn nulls_and_unsupported_values_are_safe() {
    assert_eq!(
        mssql_decode_plan(MsSqlColumnType::Int4, MsSqlValueKind::I32, true),
        MsSqlDecode::Null
    );
    assert_eq!(
        mssql_decode_plan(MsSqlColumnType::Udt, MsSqlValueKind::Binary, false),
        MsSqlDecode::Unsupported
    );
    let long = "AB".repeat(100);
    let CellValue::Unsupported { data_type, preview } =
        mssql_unsupported_cell(MsSqlColumnType::Udt, &long)
    else {
        panic!("UDT should be unsupported")
    };
    assert_eq!(data_type, "udt");
    assert_eq!(preview.chars().count(), lazydb::mssql::UNSUPPORTED_PREVIEW_LEN);

    assert_eq!(
        mssql_decode_plan(MsSqlColumnType::SSVariant, MsSqlValueKind::I32, false),
        MsSqlDecode::Unsupported
    );
    assert!(matches!(
        mssql_unsupported_cell(MsSqlColumnType::SSVariant, "I32(Some(42))"),
        CellValue::Unsupported { data_type, preview }
            if data_type == "sql_variant" && preview == "I32(Some(42))"
    ));

    assert_eq!(
        mssql_decode_plan(MsSqlColumnType::Money, MsSqlValueKind::F64, false),
        MsSqlDecode::MoneyUnavailable
    );
    assert_eq!(
        mssql_money_cell(MsSqlColumnType::Money),
        CellValue::Unsupported {
            data_type: "money".to_owned(),
            preview: "exact value unavailable from Tiberius".to_owned(),
        }
    );
}

#[test]
fn tiberius_errors_are_sanitized_and_transport_errors_are_network_errors() {
    let error = lazydb::mssql::mssql_driver_error(
        lazydb::mssql::MsSqlErrorSource::Transport,
        None,
        "An error occured during the attempt of performing I/O: timed out\r\u{1b}[31m",
        lazydb::error::ErrorCategory::Sql,
    );
    assert_eq!(error.category, lazydb::error::ErrorCategory::Network);
    assert_eq!(error.code, None);
    assert_eq!(
        error.message,
        "An error occured during the attempt of performing I/O: timed out<CR><ESC>[31m"
    );
    let error = lazydb::mssql::mssql_driver_error(
        lazydb::mssql::MsSqlErrorSource::Server(2627),
        Some(2627),
        "Violation of PRIMARY KEY constraint",
        lazydb::error::ErrorCategory::Sql,
    );
    assert_eq!(error.category, lazydb::error::ErrorCategory::Constraint);
    assert_eq!(error.code.as_deref(), Some("2627"));
    let error = lazydb::mssql::mssql_driver_error(
        lazydb::mssql::MsSqlErrorSource::Other,
        None,
        "bad",
        lazydb::error::ErrorCategory::Internal,
    );
    assert_eq!(error.category, lazydb::error::ErrorCategory::Internal);
}
