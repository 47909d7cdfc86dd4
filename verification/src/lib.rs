//! Catalog, DDL and mutation-planning logic for a terminal database workspace.
#![allow(unused_imports)]
#![verifier::loop_isolation(false)]

pub mod text;
pub mod scope;
pub mod catalog;
pub mod identity;
pub mod catalog_error;
pub mod cursor;
pub mod page;
pub mod rules;
pub mod entry;
pub mod catalog_drop;
pub mod catalog_mutation;
pub mod ddl;
pub mod error;
pub mod value;
pub mod query;
pub mod mutation;
pub mod sort;
pub mod transaction;
pub mod postgres;
pub mod row_edit;
pub mod mssql;
pub mod mysql;
pub mod mysql_meta;
pub mod mysql_edit;
pub mod paginate;
pub mod mysql_children;
pub mod server;
pub mod monitor;
pub mod mssql_children;
pub mod object_page;
pub mod postgres_children;
pub mod mssql_search;
pub mod mysql_search;
pub mod postgres_search;
pub mod mssql_cells;
pub mod mssql_pages;
pub mod connection;
pub mod edit_run;
pub mod mssql_child_page;
pub mod preview;
