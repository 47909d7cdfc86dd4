use lazydb::catalog::IndexMetadata;
use lazydb::error::ErrorCategory;
use lazydb::mssql::{
    mssql_null_safe_predicate, quote_identifier, quote_literal, reconstructed_index_sql,
    server_error_category, validate_insert_mutation,
};
use lazydb::mutation::{InputValue, InsertRowMutation};
use lazydb::value::CellValue;

#[test]
fn null_safe_predicates_use_numbered_tds_parameters() {
    assert_eq!(
        mssql_null_safe_predicate("[name]", 3),
        "(([name] = @P3) OR ([name] IS NULL AND @P4 IS NULL))"
    );
}

#[test]
fn insert_rejects_duplicate_columns_and_unsupported_values() {
    let duplicate = InsertRowMutation {
        columns: vec![1, 1],
        values: vec![InputValue::Null, InputValue::Null],
    };
    assert!(validate_insert_mutation(&duplicate, 2).is_err());

    let unsupported = InsertRowMutation {
        columns: vec![0],
        values: vec![InputValue::Value(CellValue::Unsupported {
            data_type: "sql_variant".into(),
            preview: "value".into(),
        })],
    };
    assert!(validate_insert_mutation(&unsupported, 1).is_err());
}

#[test]
fn quotes_sql_server_identifiers_and_literals() {
    assert_eq!(quote_identifier("a]b"), "[a]]b]");
    assert_eq!(quote_identifier(""), "[]");
    assert_eq!(quote_literal("O'Brien"), "N'O''Brien'");
}

#[test]
fn reconstructs_safe_index_ddl_from_catalog_metadata() {
    let sql = reconstructed_index_sql(
        "[dbo].[orders]",
        "ix]orders",
        &IndexMetadata {
            columns: vec!["customer]id".to_owned(), "created_at".to_owned()],
            unique: true,
        },
    );
    assert_eq!(
        sql,
        "CREATE UNIQUE INDEX [ix]]orders] ON [dbo].[orders] ([customer]]id], [created_at])"
    );
}

#[test]
fn server_error_numbers_have_stable_categories() {
    for code in [2601, 2627, 547] {
        assert_eq!(server_error_category(code), ErrorCategory::Constraint);
    }
    assert_eq!(server_error_category(18456), ErrorCategory::Authentication);
    for code in [229, 230] {
        assert_eq!(server_error_category(code), ErrorCategory::Permission);
    }
    assert_eq!(server_error_category(1205), ErrorCategory::Sql);
    assert_eq!(server_error_category(102), ErrorCategory::Sql);
}
