use lazydb::catalog::{CatalogId, CatalogKind, NamespaceModel, ObjectGroup, OptionalMetadata};
use lazydb::catalog_mutation::{CatalogMutationError, CatalogObjectType};
use lazydb::connection::{
    catalog_capabilities_for, catalog_mutation_execution_refusal, catalog_mutation_refusal,
    monitor_metadata_without_server, monitor_snapshot_refusal, mssql_session_action,
    mssql_session_after, oracle_catalog_capabilities, process_list_refusal, MsSqlSession,
    SessionAction, SessionRequest,
};
use lazydb::error::ErrorCategory;
use lazydb::mssql_pages::{
    mssql_database_entries, mssql_object_entry, mssql_object_page_sql, mssql_object_types,
    mssql_schema_entries, mssql_schema_page_sql, mssql_trigger_entry, mssql_trigger_page_sql,
};
use lazydb::scope::{CatalogScope, CatalogSelection, DatabaseSelection};
use lazydb::server::DatabaseKind;

#[test]
fn capabilities_follow_the_database_kind() {
    assert!(catalog_capabilities_for(DatabaseKind::Sqlite).is_none());
    let pg = catalog_capabilities_for(DatabaseKind::Postgres).unwrap();
    assert_eq!(pg.namespace_model, NamespaceModel::DatabaseAndSchema);
    assert!(pg.top_level_groups.contains(&ObjectGroup::MaterializedViews));
    assert!(pg.supports_lazy_children);
    let maria = catalog_capabilities_for(DatabaseKind::MariaDb).unwrap();
    assert_eq!(maria, catalog_capabilities_for(DatabaseKind::MySql).unwrap());
    assert_eq!(maria.namespace_model, NamespaceModel::DatabaseIsSchema);
    assert!(maria.column_metadata.auto_increment);
    let ms = catalog_capabilities_for(DatabaseKind::SqlServer).unwrap();
    assert!(!ms.supports_lazy_children);
    assert!(ms.top_level_groups.contains(&ObjectGroup::Triggers));
    let oracle = oracle_catalog_capabilities();
    assert_eq!(
        oracle.top_level_groups,
        vec![ObjectGroup::Tables, ObjectGroup::Views, ObjectGroup::Sequences]
    );
    assert!(!oracle.column_metadata.identity);
    assert_eq!(catalog_capabilities_for(DatabaseKind::Oracle).unwrap(), oracle);
}

#[test]
fn catalog_mutations_are_refused_outside_postgres() {
    let object_type = CatalogObjectType::Catalog(CatalogKind::Table);
    assert_eq!(catalog_mutation_refusal(DatabaseKind::Postgres, object_type), None);
    for kind in [
        DatabaseKind::MySql,
        DatabaseKind::MariaDb,
        DatabaseKind::SqlServer,
        DatabaseKind::Oracle,
        DatabaseKind::Sqlite,
    ] {
        assert_eq!(
            catalog_mutation_refusal(kind, object_type),
            Some(CatalogMutationError::UnsupportedOperation { object_type })
        );
        let error = catalog_mutation_execution_refusal(kind).unwrap();
        assert_eq!(error.category, ErrorCategory::Configuration);
        let expected = if kind == DatabaseKind::Oracle {
            "catalog mutation is not supported for Oracle"
        } else {
            "catalog mutation is not supported for this database"
        };
        assert_eq!(error.message, expected);
    }
    assert!(catalog_mutation_execution_refusal(DatabaseKind::Postgres).is_none());
}

#[test]
fn monitoring_refusals_name_the_engine() {
    let error = monitor_snapshot_refusal(DatabaseKind::SqlServer).unwrap();
    assert_eq!(error.category, ErrorCategory::Unsupported);
    assert_eq!(error.code.as_deref(), Some("sql_server_dashboard_unsupported"));
    assert_eq!(error.message, "SQL Server dashboard metrics are not supported");
    assert!(monitor_snapshot_refusal(DatabaseKind::Postgres).is_none());
    assert_eq!(
        monitor_snapshot_refusal(DatabaseKind::Sqlite).unwrap().code.as_deref(),
        Some("monitoring_unsupported")
    );
    let meta = monitor_metadata_without_server(DatabaseKind::Oracle).unwrap().unwrap();
    assert_eq!(meta.version, None);
    assert_eq!(meta.max_connections, None);
    assert!(monitor_metadata_without_server(DatabaseKind::SqlServer).unwrap().is_err());
    assert!(monitor_metadata_without_server(DatabaseKind::MySql).is_none());
    let error = process_list_refusal(DatabaseKind::Oracle).unwrap();
    assert_eq!(error.code.as_deref(), Some("oracle_process_list_unsupported"));
    assert_eq!(error.message, "Oracle process metrics are not implemented yet");
    assert!(process_list_refusal(DatabaseKind::MariaDb).is_none());
}

#[test]
fn sql_server_session_transitions() {
    let open = MsSqlSession { client_open: true, depth: 0 };
    match mssql_session_action(open, SessionRequest::Begin) {
        SessionAction::Run(statements) => {
            assert_eq!(statements, vec!["SET XACT_ABORT ON", "BEGIN TRANSACTION"])
        }
        other => panic!("unexpected action {other:?}"),
    }
    let begun = mssql_session_after(open, SessionRequest::Begin);
    assert_eq!(begun, MsSqlSession { client_open: true, depth: 1 });
    assert_eq!(mssql_session_action(open, SessionRequest::Commit), SessionAction::Nothing);
    assert_eq!(mssql_session_action(open, SessionRequest::Rollback), SessionAction::Nothing);
    match mssql_session_action(begun, SessionRequest::Rollback) {
        SessionAction::Run(statements) => assert_eq!(statements, vec!["ROLLBACK TRANSACTION"]),
        other => panic!("unexpected action {other:?}"),
    }
    assert_eq!(mssql_session_action(begun, SessionRequest::Cancel), SessionAction::CloseClient);
    let cancelled = mssql_session_after(begun, SessionRequest::Cancel);
    assert_eq!(cancelled, MsSqlSession { client_open: false, depth: 0 });
    match mssql_session_action(cancelled, SessionRequest::Cancel) {
        SessionAction::Fail(error) => {
            assert_eq!(error.0, "SQL Server transaction client is closed")
        }
        other => panic!("unexpected action {other:?}"),
    }
    assert_eq!(
        mssql_session_after(begun, SessionRequest::Commit),
        MsSqlSession { client_open: true, depth: 0 }
    );
}

#[test]
fn sql_server_page_statements_quote_their_names() {
    assert_eq!(mssql_object_types(ObjectGroup::Tables), Some("'U'"));
    assert_eq!(mssql_object_types(ObjectGroup::Triggers), None);
    assert_eq!(
        mssql_schema_page_sql("ap]p"),
        "SELECT [name] FROM [ap]]p].sys.schemas WHERE [name] NOT IN ('guest','INFORMATION_SCHEMA','sys') AND [is_ms_shipped] = 0 ORDER BY [name] COLLATE Latin1_General_100_BIN2"
    );
    let sql = mssql_object_page_sql("app", "o'neil", "'U'");
    assert!(sql.starts_with("SELECT o.[name], o.[object_id], o.[type_desc]"));
    assert!(sql.contains("FROM [app].sys.objects o JOIN [app].sys.schemas s"));
    assert!(sql.contains("WHERE s.[name] = N'o''neil' AND o.[type] IN ('U')"));
    let sql = mssql_trigger_page_sql("app", "dbo");
    assert!(sql.contains("FROM [app].sys.triggers tr JOIN [app].sys.objects parent"));
    assert!(sql.ends_with("ORDER BY tr.[name] COLLATE Latin1_General_100_BIN2, tr.[object_id]"));
}

#[test]
fn sql_server_page_entries() {
    let schema = CatalogId::new(7, CatalogKind::Schema, vec!["app".into(), "dbo".into()]);
    let table = mssql_object_entry(
        7, &schema, "app", "dbo", ObjectGroup::Tables, "users", 42, "USER_TABLE", None,
    )
    .unwrap();
    assert_eq!(table.kind, CatalogKind::Table);
    assert_eq!(table.id.native_path, vec!["app", "dbo", "users", "42"]);
    assert_eq!(table.native_kind, "user_table");
    assert!(table.expandable);
    assert_eq!(table.relation_id.as_ref(), Some(&table.id));
    let function = mssql_object_entry(
        7, &schema, "app", "dbo", ObjectGroup::Functions, "f", -3, "SQL_SCALAR_FUNCTION",
        Some("doc".into()),
    )
    .unwrap();
    assert_eq!(function.kind, CatalogKind::Function);
    assert_eq!(function.id.native_path[3], "-3");
    assert!(!function.expandable);
    assert_eq!(function.comment, OptionalMetadata::Supported(Some("doc".into())));
    let trigger =
        mssql_trigger_entry(7, &schema, "app", "dbo", "audit", 9, "v", 5, "V", None).unwrap();
    assert_eq!(trigger.kind, CatalogKind::Trigger);
    let relation = trigger.relation_id.unwrap();
    assert_eq!(relation.kind, CatalogKind::View);
    assert_eq!(relation.native_path, vec!["app", "dbo", "v", "5"]);
    assert!(mssql_object_entry(
        8, &schema, "app", "dbo", ObjectGroup::Tables, "users", 1, "USER_TABLE", None
    )
    .is_err());

    let scope = CatalogScope {
        databases: CatalogSelection::Selected(vec![DatabaseSelection {
            name: "app".into(),
            schemas: CatalogSelection::Selected(vec!["dbo".into()]),
        }]),
    };
    let databases =
        mssql_database_entries(7, vec!["app".into(), "".into(), "other".into()], &scope);
    assert_eq!(databases.len(), 1);
    assert_eq!(databases[0].id.native_path, vec!["app"]);
    let schemas = mssql_schema_entries(7, "app", vec!["dbo".into(), "sales".into()], &scope);
    assert_eq!(schemas.len(), 1);
    assert_eq!(schemas[0].id.native_path, vec!["app", "dbo"]);
    assert_eq!(schemas[0].kind, CatalogKind::Schema);
}

#[test]
fn dashboard_and_process_metrics_have_stable_unsupported_errors() {
    let dashboard = monitor_snapshot_refusal(DatabaseKind::SqlServer).unwrap();
    assert_eq!(dashboard.category, ErrorCategory::Unsupported);
    assert_eq!(dashboard.code.as_deref(), Some("sql_server_dashboard_unsupported"));
    assert_eq!(dashboard.message, "SQL Server dashboard metrics are not supported");

    let metadata = monitor_metadata_without_server(DatabaseKind::SqlServer).unwrap().unwrap_err();
    assert_eq!(metadata.code.as_deref(), Some("sql_server_dashboard_unsupported"));

    let processes = process_list_refusal(DatabaseKind::SqlServer).unwrap();
    assert_eq!(processes.category, ErrorCategory::Unsupported);
    assert_eq!(processes.code.as_deref(), Some("sql_server_process_metrics_unsupported"));
    assert_eq!(processes.message, "SQL Server process metrics are not supported");
}
