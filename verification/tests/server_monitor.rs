use std::time::Duration;

use lazydb::catalog::{CatalogId, CatalogKind, ObjectGroup};
use lazydb::error::ErrorCategory;
use lazydb::monitor::{
    monitor_metadata, process_row, process_snapshot, MonitorMetadata, MonitorVisibility,
    ProcessRecord, MAX_PROCESS_ROWS,
};
use lazydb::page::CatalogTarget;
use lazydb::server::{
    check_mysql_page_target, check_postgres_page_target, mssql_decode_error, mssql_server_info,
    mysql_server_info, postgres_server_info, unsupported_catalog_target, DatabaseKind,
};

fn schema() -> CatalogId {
    CatalogId::new(1, CatalogKind::Schema, vec!["app".into(), "app".into()])
}

fn objects(group: ObjectGroup) -> CatalogTarget {
    CatalogTarget::Objects { schema: schema(), group }
}

fn record(pid: i32) -> ProcessRecord {
    ProcessRecord {
        pid,
        user_name: Some("alice".into()),
        database_name: Some("app".into()),
        client: "local".into(),
        application_name: None,
        state: Some("active".into()),
        wait: None,
        elapsed: Duration::from_secs(3),
        query: Some("SELECT 1".into()),
    }
}

#[test]
fn unsupported_targets_name_the_target_and_the_kind() {
    let error = unsupported_catalog_target(DatabaseKind::SqlServer, &objects(ObjectGroup::Types));
    assert_eq!(error.category, ErrorCategory::Unsupported);
    assert_eq!(error.code.as_deref(), Some("catalog_target_unsupported"));
    assert_eq!(error.message, "objects catalog target is not implemented for SqlServer");
    assert!(error.diagnostic.is_none());
    let error = unsupported_catalog_target(
        DatabaseKind::MariaDb,
        &CatalogTarget::RelationChildren { relation: schema() },
    );
    assert_eq!(error.message, "relation children catalog target is not implemented for MariaDb");
}

#[test]
fn mysql_refuses_groups_it_does_not_have() {
    for group in [ObjectGroup::MaterializedViews, ObjectGroup::Sequences, ObjectGroup::Types] {
        let error = check_mysql_page_target(&objects(group)).unwrap_err();
        assert_eq!(error.message, "objects catalog target is not implemented for MySql");
    }
    for group in [ObjectGroup::Tables, ObjectGroup::Views, ObjectGroup::Triggers] {
        assert!(check_mysql_page_target(&objects(group)).is_ok());
    }
    assert!(check_mysql_page_target(&CatalogTarget::Databases).is_ok());
}

#[test]
fn postgres_refuses_the_trigger_group_only() {
    let error = check_postgres_page_target(&objects(ObjectGroup::Triggers)).unwrap_err();
    assert_eq!(error.message, "objects catalog target is not implemented for Postgres");
    assert!(check_postgres_page_target(&objects(ObjectGroup::Types)).is_ok());
}

#[test]
fn probes_report_the_server() {
    let info = postgres_server_info("PostgreSQL 16.2".into(), "app".into());
    assert_eq!(info.kind, DatabaseKind::Postgres);
    assert_eq!(info.database, "app");
    let info = mysql_server_info("8.0.36".into(), None);
    assert_eq!(info.kind, DatabaseKind::MySql);
    assert_eq!(info.database, "");
    assert!(info.current_user.is_none());
    let info = mssql_server_info("16.0.1000.6".into(), "master".into()).unwrap();
    assert_eq!(info.kind, DatabaseKind::SqlServer);
    assert_eq!(info.version, "16.0.1000.6");
}

#[test]
fn sql_server_before_2012_is_refused() {
    let error = mssql_server_info("10.50.1600.1".into(), "master".into()).unwrap_err();
    assert_eq!(error.category, ErrorCategory::Unsupported);
    assert_eq!(error.code.as_deref(), Some("sql_server_version_unsupported"));
    assert_eq!(
        error.message,
        "SQL Server 2012 or newer is required; server version is 10.50.1600.1"
    );
    assert!(mssql_server_info("11.0.2100.60".into(), "master".into()).is_ok());
    let error = mssql_decode_error("unexpected\rrow count");
    assert_eq!(error.code.as_deref(), Some("sql_server_decode"));
    assert_eq!(error.message, "unexpected<CR>row count");
}

#[test]
fn monitor_metadata_drops_a_negative_limit() {
    let metadata = monitor_metadata(Some("16.2".into()), 100);
    assert_eq!(metadata.version.as_deref(), Some("16.2"));
    assert_eq!(metadata.max_connections, Some(100));
    assert_eq!(monitor_metadata(None, -1).max_connections, None);
    assert_eq!(MonitorMetadata::default(), MonitorMetadata { version: None, max_connections: None });
    assert_eq!(MonitorVisibility::default(), MonitorVisibility::Unknown);
}

#[test]
fn process_rows_are_made_safe_for_the_terminal() {
    let mut raw = record(42);
    raw.user_name = None;
    raw.query = Some("SELECT '\u{1b}[31m'".into());
    let row = process_row(raw);
    assert_eq!(row.id, 42);
    assert_eq!(row.user, "");
    assert_eq!(row.query.as_deref(), Some("SELECT '<ESC>[31m'"));
    assert_eq!(row.client, "local");
    assert_eq!(row.elapsed, Duration::from_secs(3));
    assert_eq!(process_row(record(-1)).id, u64::MAX);
}

#[test]
fn process_snapshots_keep_the_first_rows_and_say_when_rows_were_left_out() {
    let records: Vec<ProcessRecord> = (0..(MAX_PROCESS_ROWS as i32 + 1)).map(record).collect();
    let snapshot = process_snapshot(records);
    assert_eq!(snapshot.rows.len(), MAX_PROCESS_ROWS);
    assert!(snapshot.truncated);
    assert_eq!(snapshot.rows[0].id, 0);
    assert_eq!(snapshot.rows[MAX_PROCESS_ROWS - 1].id, (MAX_PROCESS_ROWS - 1) as u64);
    assert_eq!(snapshot.visibility, MonitorVisibility::Unknown);

    let snapshot = process_snapshot(vec![record(7), record(8)]);
    assert_eq!(snapshot.rows.len(), 2);
    assert!(!snapshot.truncated);
    assert_eq!(snapshot.rows[1].user, "alice");
}
