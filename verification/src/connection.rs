//! What a connection decides by the kind of database alone: its catalog's
//! capabilities, which catalog changes it plans, the operations it refuses,
//! and the transaction state of a SQL Server session.
use vstd::prelude::*;

use crate::catalog::{
    CatalogCapabilities, CatalogEntry, ColumnMetadataCapabilities, NamespaceModel, ObjectGroup,
};
use crate::catalog_drop::{is_unsupported, unsupported, CatalogDropError};
use crate::catalog_mutation::{CatalogMutationError, CatalogObjectType};
use crate::error::{DatabaseError, ErrorCategory};
use crate::monitor::MonitorMetadata;
use crate::mssql::mssql_catalog_capabilities;
use crate::mysql::mysql_catalog_capabilities;
use crate::postgres::postgres_catalog_capabilities;
use crate::server::DatabaseKind;
use crate::text::{opt_view, owned};
use crate::transaction::TransactionError;

verus! {

/// The namespace model of each kind whose catalog the library describes.
pub open spec fn kind_namespace(kind: DatabaseKind) -> NamespaceModel {
    match kind {
        DatabaseKind::MySql | DatabaseKind::MariaDb => NamespaceModel::DatabaseIsSchema,
        _ => NamespaceModel::DatabaseAndSchema,
    }
}

/// The top-level groups each kind's catalog lists.
pub open spec fn kind_groups(kind: DatabaseKind) -> Seq<ObjectGroup> {
    match kind {
        DatabaseKind::Postgres => seq![
            ObjectGroup::Tables,
            ObjectGroup::Views,
            ObjectGroup::MaterializedViews,
            ObjectGroup::Sequences,
            ObjectGroup::Functions,
            ObjectGroup::Procedures,
            ObjectGroup::Types,
        ],
        DatabaseKind::MySql | DatabaseKind::MariaDb => seq![
            ObjectGroup::Tables,
            ObjectGroup::Views,
            ObjectGroup::Functions,
            ObjectGroup::Procedures,
            ObjectGroup::Triggers,
        ],
        DatabaseKind::SqlServer => seq![
            ObjectGroup::Tables,
            ObjectGroup::Views,
            ObjectGroup::Functions,
            ObjectGroup::Procedures,
            ObjectGroup::Sequences,
            ObjectGroup::Triggers,
        ],
        _ => seq![ObjectGroup::Tables, ObjectGroup::Views, ObjectGroup::Sequences],
    }
}

/// The column metadata each kind's catalog reads.
pub open spec fn kind_column_caps(kind: DatabaseKind) -> ColumnMetadataCapabilities {
    match kind {
        DatabaseKind::Postgres => ColumnMetadataCapabilities {
            type_family: true,
            default_expression: true,
            identity: true,
            auto_increment: false,
            generated_expression: true,
            hidden: false,
            numeric_precision_and_scale: false,
            character_length: true,
            collation: true,
            character_set: false,
            comment: true,
        },
        DatabaseKind::MySql | DatabaseKind::MariaDb => ColumnMetadataCapabilities {
            type_family: true,
            default_expression: true,
            identity: false,
            auto_increment: true,
            generated_expression: true,
            hidden: false,
            numeric_precision_and_scale: true,
            character_length: true,
            collation: true,
            character_set: true,
            comment: true,
        },
        DatabaseKind::SqlServer => ColumnMetadataCapabilities {
            type_family: true,
            default_expression: true,
            identity: true,
            auto_increment: false,
            generated_expression: true,
            hidden: false,
            numeric_precision_and_scale: true,
            character_length: true,
            collation: true,
            character_set: false,
            comment: false,
        },
        _ => ColumnMetadataCapabilities {
            type_family: true,
            default_expression: true,
            identity: false,
            auto_increment: false,
            generated_expression: false,
            hidden: false,
            numeric_precision_and_scale: true,
            character_length: true,
            collation: false,
            character_set: false,
            comment: true,
        },
    }
}

/// What the Oracle catalog shows: tables, views and sequences under
/// databases and schemas, with the column metadata its dictionary gives.
pub fn oracle_catalog_capabilities() -> (r: CatalogCapabilities)
    ensures
        r.namespace_model == kind_namespace(DatabaseKind::Oracle),
        r.top_level_groups@ == kind_groups(DatabaseKind::Oracle),
        r.column_metadata == kind_column_caps(DatabaseKind::Oracle),
        r.supports_lazy_children,
{
    let groups = vec![ObjectGroup::Tables, ObjectGroup::Views, ObjectGroup::Sequences];
    CatalogCapabilities {
        namespace_model: NamespaceModel::DatabaseAndSchema,
        top_level_groups: groups,
        column_metadata: ColumnMetadataCapabilities {
            type_family: true,
            default_expression: true,
            identity: false,
            auto_increment: false,
            generated_expression: false,
            hidden: false,
            numeric_precision_and_scale: true,
            character_length: true,
            collation: false,
            character_set: false,
            comment: true,
        },
        supports_lazy_children: true,
    }
}

/// The catalog capabilities of a kind of database: MariaDB shares MySQL's.
/// SQLite's catalog is described by its own adapter, which this library
/// does not hold, so it has `None`.
pub fn catalog_capabilities_for(kind: DatabaseKind) -> (r: Option<CatalogCapabilities>)
    ensures
        r is None <==> kind == DatabaseKind::Sqlite,
        r matches Some(c) ==> c.namespace_model == kind_namespace(kind) && c.top_level_groups@
            == kind_groups(kind) && c.column_metadata == kind_column_caps(kind)
            && c.supports_lazy_children == (kind != DatabaseKind::SqlServer),
{
    match kind {
        DatabaseKind::Postgres => Some(postgres_catalog_capabilities()),
        DatabaseKind::MySql | DatabaseKind::MariaDb => Some(mysql_catalog_capabilities()),
        DatabaseKind::Oracle => Some(oracle_catalog_capabilities()),
        DatabaseKind::SqlServer => Some(mssql_catalog_capabilities()),
        DatabaseKind::Sqlite => None,
    }
}

/// Catalog changes are planned for PostgreSQL only; every other kind
/// refuses the change for its object type.
pub fn catalog_mutation_refusal(kind: DatabaseKind, object_type: CatalogObjectType) -> (r: Option<
    CatalogMutationError,
>)
    ensures
        kind == DatabaseKind::Postgres ==> r is None,
        kind != DatabaseKind::Postgres ==> r == Some(
            CatalogMutationError::UnsupportedOperation { object_type },
        ),
{
    match kind {
        DatabaseKind::Postgres => None,
        _ => Some(CatalogMutationError::UnsupportedOperation { object_type }),
    }
}

/// The error for running a planned catalog change on a kind that does not
/// run them: every kind but PostgreSQL, with its own words for Oracle.
pub fn catalog_mutation_execution_refusal(kind: DatabaseKind) -> (r: Option<DatabaseError>)
    ensures
        kind == DatabaseKind::Postgres ==> r is None,
        kind != DatabaseKind::Postgres ==> (r matches Some(e) && e.category
            == ErrorCategory::Configuration && e.code is None && e.diagnostic is None
            && e.message@ == if kind == DatabaseKind::Oracle {
            "catalog mutation is not supported for Oracle"@
        } else {
            "catalog mutation is not supported for this database"@
        }),
{
    let message = match kind {
        DatabaseKind::Postgres => {
            return None;
        },
        DatabaseKind::Oracle => "catalog mutation is not supported for Oracle",
        _ => "catalog mutation is not supported for this database",
    };
    Some(
        DatabaseError {
            category: ErrorCategory::Configuration,
            code: None,
            message: owned(message),
            diagnostic: None,
        },
    )
}

/// The drop planning of Oracle, which plans no drop.
pub fn oracle_catalog_drop(entry: &CatalogEntry) -> (r: CatalogDropError)
    ensures
        is_unsupported(r, entry.kind, "Oracle catalog drops are not implemented yet"@),
{
    unsupported(entry.kind, "Oracle catalog drops are not implemented yet")
}

fn unsupported_error(code: &str, message: &str) -> (r: DatabaseError)
    ensures
        r.category == ErrorCategory::Unsupported,
        opt_view(r.code) == Some(code@),
        r.message@ == message@,
        r.diagnostic is None,
{
    DatabaseError {
        category: ErrorCategory::Unsupported,
        code: Some(owned(code)),
        message: owned(message),
        diagnostic: None,
    }
}

/// Whether `e` is an unsupported-operation error with `code` and `message`.
pub open spec fn is_unsupported_error(e: DatabaseError, code: Seq<char>, message: Seq<char>) -> bool {
    &&& e.category == ErrorCategory::Unsupported
    &&& opt_view(e.code) == Some(code)
    &&& e.message@ == message
    &&& e.diagnostic is None
}

/// The error for a monitor snapshot on a kind that has none: Oracle's is
/// not written yet, SQLite has no server, SQL Server's metrics are not
/// read. The other kinds take their snapshot.
pub fn monitor_snapshot_refusal(kind: DatabaseKind) -> (r: Option<DatabaseError>)
    ensures
        match kind {
            DatabaseKind::Oracle => r matches Some(e) && is_unsupported_error(
                e,
                "oracle_monitoring_unsupported"@,
                "Oracle monitoring is not implemented yet"@,
            ),
            DatabaseKind::Sqlite => r matches Some(e) && is_unsupported_error(
                e,
                "monitoring_unsupported"@,
                "SQLite does not expose server monitoring metrics"@,
            ),
            DatabaseKind::SqlServer => r matches Some(e) && is_unsupported_error(
                e,
                "sql_server_dashboard_unsupported"@,
                "SQL Server dashboard metrics are not supported"@,
            ),
            _ => r is None,
        },
{
    match kind {
        DatabaseKind::Oracle => Some(
            unsupported_error("oracle_monitoring_unsupported", "Oracle monitoring is not implemented yet"),
        ),
        DatabaseKind::Sqlite => Some(
            unsupported_error(
                "monitoring_unsupported",
                "SQLite does not expose server monitoring metrics",
            ),
        ),
        DatabaseKind::SqlServer => Some(
            unsupported_error(
                "sql_server_dashboard_unsupported",
                "SQL Server dashboard metrics are not supported",
            ),
        ),
        _ => None,
    }
}

/// The monitor metadata a kind answers without asking its server: Oracle
/// and SQLite report none; SQL Server refuses; the others ask.
pub fn monitor_metadata_without_server(kind: DatabaseKind) -> (r: Option<
    Result<MonitorMetadata, DatabaseError>,
>)
    ensures
        match kind {
            DatabaseKind::Oracle | DatabaseKind::Sqlite => r matches Some(Ok(m))
                && m.version is None && m.max_connections is None,
            DatabaseKind::SqlServer => r matches Some(Err(e)) && is_unsupported_error(
                e,
                "sql_server_dashboard_unsupported"@,
                "SQL Server dashboard metrics are not supported"@,
            ),
            _ => r is None,
        },
{
    match kind {
        DatabaseKind::Oracle | DatabaseKind::Sqlite => Some(
            Ok(MonitorMetadata { version: None, max_connections: None }),
        ),
        DatabaseKind::SqlServer => Some(
            Err(
                unsupported_error(
                    "sql_server_dashboard_unsupported",
                    "SQL Server dashboard metrics are not supported",
                ),
            ),
        ),
        _ => None,
    }
}

/// The error for a process list on a kind that has none.
pub fn process_list_refusal(kind: DatabaseKind) -> (r: Option<DatabaseError>)
    ensures
        match kind {
            DatabaseKind::Oracle => r matches Some(e) && is_unsupported_error(
                e,
                "oracle_process_list_unsupported"@,
                "Oracle process metrics are not implemented yet"@,
            ),
            DatabaseKind::Sqlite => r matches Some(e) && is_unsupported_error(
                e,
                "process_list_unsupported"@,
                "SQLite does not expose a server process list"@,
            ),
            DatabaseKind::SqlServer => r matches Some(e) && is_unsupported_error(
                e,
                "sql_server_process_metrics_unsupported"@,
                "SQL Server process metrics are not supported"@,
            ),
            _ => r is None,
        },
{
    match kind {
        DatabaseKind::Oracle => Some(
            unsupported_error(
                "oracle_process_list_unsupported",
                "Oracle process metrics are not implemented yet",
            ),
        ),
        DatabaseKind::Sqlite => Some(
            unsupported_error("process_list_unsupported", "SQLite does not expose a server process list"),
        ),
        DatabaseKind::SqlServer => Some(
            unsupported_error(
                "sql_server_process_metrics_unsupported",
                "SQL Server process metrics are not supported",
            ),
        ),
        _ => None,
    }
}

/// The transaction state of a SQL Server session: whether its transport is
/// still open, and how many transactions are open on it.
#[derive(Clone, Copy, Debug, PartialEq, Eq, Structural)]
pub struct MsSqlSession {
    pub client_open: bool,
    pub depth: usize,
}

/// What the worker asks of a SQL Server session.
#[derive(Clone, Copy, Debug, PartialEq, Eq, Structural)]
pub enum SessionRequest {
    Begin,
    Commit,
    Rollback,
    Cancel,
}

/// What a session does for a request.
#[derive(Debug, PartialEq, Eq)]
pub enum SessionAction {
    /// Nothing: there is no transaction to end.
    Nothing,
    /// Run these statements in order, stopping at the first that fails.
    Run(Vec<String>),
    /// Drop the transport: the driver has no way to interrupt a request.
    CloseClient,
    /// Refuse the request.
    Fail(TransactionError),
}

/// The statements of each request that runs any.
pub open spec fn session_statements(request: SessionRequest) -> Seq<Seq<char>> {
    match request {
        SessionRequest::Begin => seq!["SET XACT_ABORT ON"@, "BEGIN TRANSACTION"@],
        SessionRequest::Commit => seq!["COMMIT TRANSACTION"@],
        _ => seq!["ROLLBACK TRANSACTION"@],
    }
}

/// What a SQL Server session does for `request`: committing or rolling back
/// with no open transaction does nothing; anything else on a closed
/// transport is refused; cancelling drops the transport; the rest run
/// their statements.
pub fn mssql_session_action(session: MsSqlSession, request: SessionRequest) -> (r: SessionAction)
    ensures
        if (request == SessionRequest::Commit || request == SessionRequest::Rollback)
            && session.depth == 0 {
            r is Nothing
        } else if !session.client_open {
            r matches SessionAction::Fail(e) && e.0@ == "SQL Server transaction client is closed"@
        } else if request == SessionRequest::Cancel {
            r is CloseClient
        } else {
            r matches SessionAction::Run(v) && crate::text::views(v@) == session_statements(request)
        },
{
    match request {
        SessionRequest::Commit | SessionRequest::Rollback => {
            if session.depth == 0 {
                return SessionAction::Nothing;
            }
        },
        _ => {},
    }
    if !session.client_open {
        return SessionAction::Fail(TransactionError(owned("SQL Server transaction client is closed")));
    }
    let mut statements: Vec<String> = Vec::new();
    match request {
        SessionRequest::Cancel => {
            return SessionAction::CloseClient;
        },
        SessionRequest::Begin => {
            statements.push(owned("SET XACT_ABORT ON"));
            statements.push(owned("BEGIN TRANSACTION"));
        },
        SessionRequest::Commit => {
            statements.push(owned("COMMIT TRANSACTION"));
        },
        SessionRequest::Rollback => {
            statements.push(owned("ROLLBACK TRANSACTION"));
        },
    }
    assert(crate::text::views(statements@) =~= session_statements(request));
    SessionAction::Run(statements)
}

/// The session after the action for `request` succeeded: a transaction is
/// open after beginning, none after committing, rolling back or
/// cancelling, and the transport is gone after cancelling. A failed action
/// leaves the session as it was.
pub fn mssql_session_after(session: MsSqlSession, request: SessionRequest) -> (r: MsSqlSession)
    ensures
        r == match request {
            SessionRequest::Begin => MsSqlSession { client_open: session.client_open, depth: 1 },
            SessionRequest::Cancel => MsSqlSession { client_open: false, depth: 0 },
            _ => MsSqlSession { client_open: session.client_open, depth: 0 },
        },
{
    match request {
        SessionRequest::Begin => MsSqlSession { client_open: session.client_open, depth: 1 },
        SessionRequest::Cancel => MsSqlSession { client_open: false, depth: 0 },
        _ => MsSqlSession { client_open: session.client_open, depth: 0 },
    }
}

} // verus!
