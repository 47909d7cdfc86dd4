use lazydb::catalog::{CatalogKind, CatalogMetadata, IndexMetadata};
use lazydb::catalog_error::CatalogValidationError;
use lazydb::mssql_search::{
    mssql_database_candidate, mssql_search_candidate, mssql_search_child, mssql_search_hit,
    rank_mssql_candidates, search_rank, MsSqlSearchCandidate, MsSqlSearchChildRow, MsSqlSearchRow,
};

fn row(kind: &str, name: &str) -> MsSqlSearchRow {
    MsSqlSearchRow {
        kind: kind.into(),
        schema: "dbo".into(),
        name: name.into(),
        native_kind: "user_table".into(),
        relation_kind: "table".into(),
        relation_name: "Orders".into(),
        relation_id: Some(5),
        object_id: Some(2),
    }
}

fn candidate(kind: &str, name: &str) -> MsSqlSearchCandidate {
    mssql_search_candidate(row(kind, name), "sales", "orders").unwrap()
}

#[test]
fn search_ranks_exact_then_prefix_then_other_matches() {
    assert_eq!(search_rank("Orders", "orders"), 0);
    assert_eq!(search_rank("OrdersArchive", "ORD"), 1);
    assert_eq!(search_rank("old_orders", "orders"), 2);
    assert_eq!(mssql_database_candidate("Sales", "sal").rank, 1);
    assert_eq!(mssql_database_candidate("Sales", "sal").path, "Sales");
}

#[test]
fn search_rows_become_candidates() {
    let c = candidate("table", "Orders");
    assert_eq!(c.kind, CatalogKind::Table);
    assert_eq!(c.rank, 0);
    assert_eq!(c.path, "sales.dbo.Orders");
    assert_eq!(c.relation_kind, CatalogKind::Table);
    assert_eq!((c.relation_id, c.object_id), (5, 2));
    let mut view = row("view", "OrdersView");
    view.relation_kind = "view".into();
    view.relation_id = None;
    let c = mssql_search_candidate(view, "sales", "orders").unwrap();
    assert_eq!(c.relation_kind, CatalogKind::View);
    assert_eq!(c.relation_id, 0);
    assert_eq!(c.rank, 1);
    let error = mssql_search_candidate(row("synonym", "s"), "sales", "orders").unwrap_err();
    assert_eq!(error.message, "unsupported SQL Server search kind synonym");
    assert_eq!(error.code.as_deref(), Some("sql_server_decode"));
}

#[test]
fn search_candidates_sort_by_rank_then_path_and_cut_at_the_limit() {
    let candidates = vec![
        candidate("table", "my_orders"),
        candidate("table", "orders"),
        candidate("table", "Orders_2"),
        candidate("column", "orders_id"),
    ];
    let (sorted, truncated) = rank_mssql_candidates(candidates, 3);
    assert!(truncated);
    let names: Vec<(&str, CatalogKind)> =
        sorted.iter().map(|c| (c.name.as_str(), c.kind)).collect();
    assert_eq!(
        names,
        vec![
            ("orders", CatalogKind::Table),
            ("Orders_2", CatalogKind::Table),
            ("orders_id", CatalogKind::Column),
        ]
    );
    let (all, truncated) = rank_mssql_candidates(vec![candidate("table", "x")], 3);
    assert!(!truncated);
    assert_eq!(all.len(), 1);
}

#[test]
fn search_hits_carry_their_ancestors() {
    let hit = mssql_search_hit(3, candidate("table", "Orders"), None).unwrap();
    assert_eq!(hit.entry.id.native_path, vec!["sales", "dbo", "Orders", "2"]);
    assert!(hit.entry.expandable);
    assert_eq!(hit.ancestors.len(), 2);
    assert_eq!(hit.ancestors[0].id.native_path, vec!["sales"]);
    assert_eq!(hit.ancestors[1].id.native_path, vec!["sales", "dbo"]);

    let hit = mssql_search_hit(3, candidate("procedure", "load"), None).unwrap();
    assert!(!hit.entry.expandable);
    assert!(hit.entry.relation_id.is_none());

    let hit = mssql_search_hit(3, mssql_database_candidate("sales", "x"), None).unwrap();
    assert!(hit.ancestors.is_empty());
    assert_eq!(hit.entry.kind, CatalogKind::Database);

    let hit = mssql_search_hit(3, candidate("schema", "dbo"), None).unwrap();
    assert_eq!(hit.entry.kind, CatalogKind::Schema);
    assert_eq!(hit.ancestors.len(), 1);
}

#[test]
fn child_hits_use_the_loaded_child_or_a_placeholder() {
    let hit = mssql_search_hit(3, candidate("column", "total"), None).unwrap();
    assert_eq!(hit.ancestors.len(), 3);
    assert_eq!(hit.ancestors[2].id.native_path, vec!["sales", "dbo", "Orders", "5"]);
    assert_eq!(hit.entry.id.native_path, vec!["sales", "dbo", "Orders", "5", "2"]);
    match &hit.entry.metadata {
        CatalogMetadata::Column(column) => {
            assert_eq!(column.ordinal_position, 0);
            assert_eq!(column.native_type, "unknown");
        }
        other => panic!("unexpected metadata {other:?}"),
    }
    let loaded = hit.entry.clone();
    let mut renamed = loaded.clone();
    renamed.native_kind = "column".into();
    let hit = mssql_search_hit(3, candidate("column", "total"), Some(renamed.clone())).unwrap();
    assert_eq!(hit.entry, renamed);
}

#[test]
fn search_hits_refuse_empty_names() {
    let mut c = candidate("table", "Orders");
    c.schema = String::new();
    assert_eq!(
        mssql_search_hit(3, c, None).unwrap_err(),
        CatalogValidationError::EmptyQualifiedObject
    );
    let c = candidate("column", "");
    assert_eq!(
        mssql_search_hit(3, c, None).unwrap_err(),
        CatalogValidationError::EmptyQualifiedObject
    );
}

#[test]
fn search_children_rows_become_child_entries() {
    let child = MsSqlSearchChildRow {
        kind: "index".into(),
        relation_id: 5,
        relation_name: "Orders".into(),
        schema: "dbo".into(),
        identity: Some(1),
        name: "PK_Orders".into(),
        ordinal: None,
        data_type: None,
        is_nullable: None,
        is_unique: Some(true),
    };
    let entry = mssql_search_child(3, "sales", child.clone()).unwrap().unwrap();
    assert_eq!(entry.id.native_path, vec!["sales", "dbo", "Orders", "5", "1"]);
    assert_eq!(entry.relation_id.unwrap().kind, CatalogKind::Table);
    assert_eq!(entry.metadata, CatalogMetadata::Index(IndexMetadata { columns: vec![], unique: true }));
    let mut other = child;
    other.kind = "default_constraint".into();
    assert!(mssql_search_child(3, "sales", other).is_none());
}
