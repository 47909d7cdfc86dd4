use lazydb::catalog::{CatalogId, CatalogKind};
use lazydb::mssql::{
    bounded_preview, database_name, format_numeric, mssql_mutation_error, schema_names,
};
use lazydb::mysql::unsupported_catalog_version;
use lazydb::page::CatalogTarget;
use lazydb::scope::{
    search_schemas, selected_search_databases, CatalogScope, CatalogSelection, DatabaseSelection,
};
use lazydb::text::{parse_i32, parse_i64, signed_decimal_string};

#[test]
fn numerics_are_written_exactly_from_coefficient_and_scale() {
    assert_eq!(format_numeric(12345, 2), "123.45");
    assert_eq!(format_numeric(-12, 3), "-0.012");
    assert_eq!(format_numeric(-5, 1), "-0.5");
    assert_eq!(format_numeric(7, 0), "7");
    assert_eq!(format_numeric(-7, 0), "-7");
    assert_eq!(format_numeric(100, 2), "1.00");
    assert_eq!(format_numeric(0, 2), "0.00");
}

#[test]
fn unsupported_previews_are_safe_and_short() {
    let long = "a".repeat(70);
    assert_eq!(bounded_preview(&long), "a".repeat(64));
    assert_eq!(bounded_preview("x\ry"), "x<CR>y");
    assert_eq!(bounded_preview(""), "");
}

#[test]
fn sql_server_mutation_errors_explain_common_refusals() {
    assert_eq!(
        mssql_mutation_error("update", "Cannot update identity column 'id'.").0,
        "SQL Server update relation mutation identity columns cannot be edited explicitly: Cannot update identity column 'id'."
    );
    assert_eq!(
        mssql_mutation_error("insert", "The column \"c\" cannot be modified because it is either a COMPUTED column").0,
        "SQL Server insert relation mutation computed columns cannot be edited explicitly: The column \"c\" cannot be modified because it is either a COMPUTED column"
    );
    assert_eq!(
        mssql_mutation_error("insert", "Cannot insert an explicit value into a timestamp column.").0,
        "SQL Server insert relation mutation rowversion columns cannot be edited explicitly: Cannot insert an explicit value into a timestamp column."
    );
    assert_eq!(
        mssql_mutation_error("delete", "deadlock\r").0,
        "SQL Server delete relation mutation mutation failed: deadlock<CR>"
    );
}

#[test]
fn sql_server_targets_name_their_database_and_schema() {
    let database = CatalogId::new(1, CatalogKind::Database, vec!["sales".into()]);
    let target = CatalogTarget::Schemas { database: database.clone() };
    assert_eq!(database_name(&database, &target).unwrap(), "sales");
    let schema = CatalogId::new(1, CatalogKind::Schema, vec!["sales".into(), "dbo".into()]);
    let target = CatalogTarget::Groups { schema: schema.clone() };
    assert_eq!(schema_names(&schema, &target).unwrap(), ("sales".to_string(), "dbo".to_string()));
    let error = database_name(&schema, &target).unwrap_err();
    assert_eq!(error.message, "SQL Server catalog target was not found: groups");
    let empty = CatalogId::new(1, CatalogKind::Database, vec!["".into()]);
    assert!(database_name(&empty, &target).is_err());
}

#[test]
fn old_mysql_servers_are_refused_with_the_reported_version() {
    let error = unsupported_catalog_version("5.7.44");
    assert_eq!(error.code.as_deref(), Some("mysql_catalog_version_unsupported"));
    assert_eq!(
        error.message,
        "MySQL catalog pages require Oracle MySQL 8.0.13 or newer; server reported 5.7.44"
    );
}

#[test]
fn search_scopes_name_their_databases_and_schemas() {
    let scope = CatalogScope {
        databases: CatalogSelection::Selected(vec![
            DatabaseSelection { name: "app".into(), schemas: CatalogSelection::All },
            DatabaseSelection {
                name: "crm".into(),
                schemas: CatalogSelection::Selected(vec!["public".into(), "audit".into()]),
            },
        ]),
    };
    assert_eq!(selected_search_databases(&scope), Some(vec!["app", "crm"]));
    assert_eq!(search_schemas(&scope, "app"), None);
    assert_eq!(search_schemas(&scope, "crm"), Some(vec!["public".into(), "audit".into()]));
    assert_eq!(search_schemas(&scope, "other"), Some(vec![]));
    let everything = CatalogScope { databases: CatalogSelection::All };
    assert_eq!(selected_search_databases(&everything), None);
    assert_eq!(search_schemas(&everything, "app"), None);
}

#[test]
fn integers_parse_and_print_as_std_does() {
    assert_eq!(parse_i32("+12"), Some(12));
    assert_eq!(parse_i32("-2147483648"), Some(i32::MIN));
    assert_eq!(parse_i32("2147483647"), Some(i32::MAX));
    assert_eq!(parse_i32("2147483648"), None);
    assert_eq!(parse_i32("-"), None);
    assert_eq!(parse_i32("-+1"), None);
    assert_eq!(parse_i32(" 1"), None);
    assert_eq!(parse_i64("-9223372036854775808"), Some(i64::MIN));
    assert_eq!(parse_i64("9223372036854775808"), None);
    assert_eq!(signed_decimal_string(-42), "-42");
    assert_eq!(signed_decimal_string(0), "0");
    assert_eq!(signed_decimal_string(i64::MIN), "-9223372036854775808");
    for text in ["0", "17", "-17", "+17", "007"] {
        assert_eq!(parse_i32(text), text.parse::<i32>().ok());
        assert_eq!(parse_i64(text), text.parse::<i64>().ok());
    }
}
