//! The database kinds, what a probe reports of a server, and the errors that
//! say a kind does not serve a catalog target.
use vstd::prelude::*;

use crate::catalog::ObjectGroup;
use crate::error::{DatabaseError, ErrorCategory};
use crate::mssql::{ms_supported_version, supports_server_version};
use crate::page::{target_description, CatalogTarget};
use crate::text::{opt_view, owned, push_str, sanitize_terminal_text, sanitized};

verus! {

/// The database engines a connection can speak to.
#[derive(Clone, Copy, Debug, PartialEq, Eq, Structural)]
pub enum DatabaseKind {
    Postgres,
    MySql,
    MariaDb,
    Oracle,
    Sqlite,
    SqlServer,
}

/// The name of a kind as `Debug` prints it.
pub open spec fn kind_name(kind: DatabaseKind) -> &'static str {
    match kind {
        DatabaseKind::Postgres => "Postgres",
        DatabaseKind::MySql => "MySql",
        DatabaseKind::MariaDb => "MariaDb",
        DatabaseKind::Oracle => "Oracle",
        DatabaseKind::Sqlite => "Sqlite",
        DatabaseKind::SqlServer => "SqlServer",
    }
}

impl DatabaseKind {
    /// The kind's name, as `Debug` prints it.
    pub fn name(&self) -> (r: &'static str)
        ensures
            r == kind_name(*self),
    {
        match self {
            DatabaseKind::Postgres => "Postgres",
            DatabaseKind::MySql => "MySql",
            DatabaseKind::MariaDb => "MariaDb",
            DatabaseKind::Oracle => "Oracle",
            DatabaseKind::Sqlite => "Sqlite",
            DatabaseKind::SqlServer => "SqlServer",
        }
    }
}

/// What a probe learns of the server behind a connection.
#[derive(Clone, Debug, PartialEq, Eq)]
pub struct ServerInfo {
    pub kind: DatabaseKind,
    pub version: String,
    pub database: String,
    pub current_user: Option<String>,
}

/// The message of the error for a target that a kind does not serve.
pub open spec fn unsupported_target_message(kind: DatabaseKind, target: CatalogTarget) -> Seq<char> {
    target_description(target)@ + " catalog target is not implemented for "@ + kind_name(kind)@
}

/// The error for a catalog target that `kind` does not serve.
pub fn unsupported_catalog_target(kind: DatabaseKind, target: &CatalogTarget) -> (r: DatabaseError)
    ensures
        r.category == ErrorCategory::Unsupported,
        opt_view(r.code) == Some("catalog_target_unsupported"@),
        r.message@ == unsupported_target_message(kind, *target),
        r.diagnostic is None,
{
    let mut message = owned(target.description());
    push_str(&mut message, " catalog target is not implemented for ");
    push_str(&mut message, kind.name());
    DatabaseError {
        category: ErrorCategory::Unsupported,
        code: Some(owned("catalog_target_unsupported")),
        message,
        diagnostic: None,
    }
}

/// Whether a page of `target` is one that the MySQL catalog does not serve:
/// materialized views, sequences and types do not exist there.
pub open spec fn mysql_refuses_target(target: CatalogTarget) -> bool {
    match target {
        CatalogTarget::Objects { group, .. } => group == ObjectGroup::MaterializedViews
            || group == ObjectGroup::Sequences || group == ObjectGroup::Types,
        _ => false,
    }
}

/// Refuses, before any query, a MySQL catalog page of a group that MySQL
/// does not have.
pub fn check_mysql_page_target(target: &CatalogTarget) -> (r: Result<(), DatabaseError>)
    ensures
        r is Ok <==> !mysql_refuses_target(*target),
        r matches Err(e) ==> e.category == ErrorCategory::Unsupported && opt_view(e.code)
            == Some("catalog_target_unsupported"@) && e.message@ == unsupported_target_message(
            DatabaseKind::MySql,
            *target,
        ) && e.diagnostic is None,
{
    let refused = match target {
        CatalogTarget::Objects { group, .. } => match group {
            ObjectGroup::MaterializedViews | ObjectGroup::Sequences | ObjectGroup::Types => true,
            _ => false,
        },
        _ => false,
    };
    if refused {
        Err(unsupported_catalog_target(DatabaseKind::MySql, target))
    } else {
        Ok(())
    }
}

/// Whether a page of `target` is one that the PostgreSQL catalog does not
/// serve: triggers are listed under their relations only.
pub open spec fn postgres_refuses_target(target: CatalogTarget) -> bool {
    match target {
        CatalogTarget::Objects { group, .. } => group == ObjectGroup::Triggers,
        _ => false,
    }
}

/// Refuses, before any query, a PostgreSQL catalog page of the trigger group.
pub fn check_postgres_page_target(target: &CatalogTarget) -> (r: Result<(), DatabaseError>)
    ensures
        r is Ok <==> !postgres_refuses_target(*target),
        r matches Err(e) ==> e.category == ErrorCategory::Unsupported && opt_view(e.code)
            == Some("catalog_target_unsupported"@) && e.message@ == unsupported_target_message(
            DatabaseKind::Postgres,
            *target,
        ) && e.diagnostic is None,
{
    let refused = match target {
        CatalogTarget::Objects { group: ObjectGroup::Triggers, .. } => true,
        _ => false,
    };
    if refused {
        Err(unsupported_catalog_target(DatabaseKind::Postgres, target))
    } else {
        Ok(())
    }
}

/// What a PostgreSQL probe reports.
pub fn postgres_server_info(version: String, database: String) -> (r: ServerInfo)
    ensures
        r == (ServerInfo { kind: DatabaseKind::Postgres, version, database, current_user: None }),
{
    ServerInfo { kind: DatabaseKind::Postgres, version, database, current_user: None }
}

/// What a MySQL probe reports: a session without a default database
/// reports the empty name.
pub fn mysql_server_info(version: String, database: Option<String>) -> (r: ServerInfo)
    ensures
        r.kind == DatabaseKind::MySql,
        r.version == version,
        r.database@ == match database {
            Some(d) => d@,
            None => Seq::<char>::empty(),
        },
        r.current_user is None,
{
    let database = match database {
        Some(d) => d,
        None => String::new(),
    };
    ServerInfo { kind: DatabaseKind::MySql, version, database, current_user: None }
}

/// An error for a SQL Server reply that could not be read.
pub fn mssql_decode_error(message: &str) -> (r: DatabaseError)
    ensures
        r.category == ErrorCategory::Internal,
        opt_view(r.code) == Some("sql_server_decode"@),
        r.message@ == sanitized(message@),
        r.diagnostic is None,
{
    DatabaseError {
        category: ErrorCategory::Internal,
        code: Some(owned("sql_server_decode")),
        message: sanitize_terminal_text(message),
        diagnostic: None,
    }
}

/// The message for a SQL Server older than 2012.
pub open spec fn mssql_old_version_message(version: Seq<char>) -> Seq<char> {
    sanitized("SQL Server 2012 or newer is required; server version is "@ + version)
}

/// What a SQL Server probe reports of the product version and database
/// that the server gave: refused below SQL Server 2012.
pub fn mssql_server_info(version: String, database: String) -> (r: Result<ServerInfo, DatabaseError>)
    ensures
        r is Ok <==> ms_supported_version(version@),
        r matches Ok(info) ==> info == (ServerInfo {
            kind: DatabaseKind::SqlServer,
            version,
            database,
            current_user: None,
        }),
        r matches Err(e) ==> e.category == ErrorCategory::Unsupported && opt_view(e.code)
            == Some("sql_server_version_unsupported"@) && e.message@ == mssql_old_version_message(
            version@,
        ) && e.diagnostic is None,
{
    if !supports_server_version(version.as_str()) {
        let mut message = owned("SQL Server 2012 or newer is required; server version is ");
        push_str(&mut message, version.as_str());
        return Err(
            DatabaseError {
                category: ErrorCategory::Unsupported,
                code: Some(owned("sql_server_version_unsupported")),
                message: sanitize_terminal_text(message.as_str()),
                diagnostic: None,
            },
        );
    }
    Ok(ServerInfo { kind: DatabaseKind::SqlServer, version, database, current_user: None })
}

} // verus!
