use lazydb::catalog::{CatalogEntry, CatalogId, CatalogKind, OptionalMetadata, QualifiedName};
use lazydb::catalog_error::CatalogValidationError;
use lazydb::mssql_search::CatalogSearchHit;
use lazydb::mysql_search::{
    mysql_candidate_id, mysql_finish_hits, mysql_lower_case_table_names, mysql_search_hit,
    mysql_search_relation_entry, mysql_search_sql, MySqlHydratedRelation, MySqlSearchCandidate,
    SearchHitError, SEARCH_SQL_HEAD, SEARCH_SQL_TAIL,
};

fn candidate(kind: CatalogKind, name: &str) -> MySqlSearchCandidate {
    MySqlSearchCandidate {
        kind,
        database: "shop".into(),
        name: name.into(),
        relation_name: None,
        relation_type: None,
        native_identity: name.into(),
        comment: None,
    }
}

fn orders() -> MySqlHydratedRelation {
    let entry =
        mysql_search_relation_entry(4, "shop", "orders", Some("BASE TABLE"), None).unwrap();
    let column = CatalogEntry::relation_child(
        CatalogId::new(4, CatalogKind::Column, vec!["shop".into(), "shop".into(), "orders".into(), "2".into()]),
        entry.id.clone(),
        QualifiedName { database: Some("shop".into()), schema: Some("shop".into()), object: "total".into() },
        "column".into(),
        OptionalMetadata::Supported(None),
        lazydb::catalog::CatalogMetadata::Column(lazydb::catalog::ColumnMetadata::new(2, "int".into(), false)),
    )
    .unwrap();
    MySqlHydratedRelation { entry, children: Some(vec![column]) }
}

fn hit(id: &str) -> CatalogSearchHit {
    let entry = mysql_search_relation_entry(4, "shop", id, Some("VIEW"), None).unwrap();
    CatalogSearchHit { entry, ancestors: vec![] }
}

#[test]
fn search_statements_keep_to_the_scope() {
    assert_eq!(mysql_search_sql(&None), format!("{SEARCH_SQL_HEAD}TRUE{SEARCH_SQL_TAIL}"));
    assert_eq!(mysql_search_sql(&Some(vec![])), format!("{SEARCH_SQL_HEAD}FALSE{SEARCH_SQL_TAIL}"));
    let sql = mysql_search_sql(&Some(vec!["a", "b"]));
    assert!(sql.contains("WHERE BINARY database_name IN (?,?)\n  AND database_name NOT IN"));
    assert!(SEARCH_SQL_TAIL.ends_with("LIMIT 101\n"));
}

#[test]
fn lower_case_table_names_must_be_zero_to_two() {
    assert_eq!(mysql_lower_case_table_names("1").unwrap(), 1);
    let error = mysql_lower_case_table_names("3").unwrap_err();
    assert_eq!(error.message, "MySQL returned unsupported lower_case_table_names value 3");
    let error = mysql_lower_case_table_names("-1").unwrap_err();
    assert_eq!(error.message, "MySQL returned unsupported lower_case_table_names value -1");
    let error = mysql_lower_case_table_names("one").unwrap_err();
    assert_eq!(error.message, "MySQL returned an invalid lower_case_table_names value");
    assert_eq!(error.code.as_deref(), Some("mysql_catalog_invariant"));
}

#[test]
fn candidates_name_their_identity() {
    assert_eq!(mysql_candidate_id(4, &candidate(CatalogKind::Database, "shop")).native_path, vec!["shop"]);
    assert_eq!(
        mysql_candidate_id(4, &candidate(CatalogKind::Schema, "shop")).native_path,
        vec!["shop", "shop"]
    );
    let mut routine = candidate(CatalogKind::Function, "total");
    routine.native_identity = "total_2".into();
    assert_eq!(
        mysql_candidate_id(4, &routine).native_path,
        vec!["shop", "shop", "total", "total_2"]
    );
}

#[test]
fn search_hits_hang_under_database_schema_and_relation() {
    let h = mysql_search_hit(4, candidate(CatalogKind::Database, "shop"), None).unwrap();
    assert!(h.ancestors.is_empty());
    assert_eq!(h.entry.comment, OptionalMetadata::Unsupported);
    let h = mysql_search_hit(4, candidate(CatalogKind::Schema, "shop"), None).unwrap();
    assert_eq!(h.ancestors.len(), 1);
    assert_eq!(h.entry.id.native_path, vec!["shop", "shop"]);

    let mut table = candidate(CatalogKind::Table, "orders");
    table.relation_type = Some("BASE TABLE".into());
    table.comment = Some("".into());
    let h = mysql_search_hit(4, table, None).unwrap();
    assert_eq!(h.entry.native_kind, "BASE TABLE");
    assert_eq!(h.entry.comment, OptionalMetadata::Supported(None));
    assert_eq!(h.ancestors.len(), 2);

    let mut column = candidate(CatalogKind::Column, "total");
    column.relation_name = Some("orders".into());
    column.native_identity = "2".into();
    let h = mysql_search_hit(4, column, Some(orders())).unwrap();
    assert_eq!(h.entry.qualified_name.object, "total");
    assert_eq!(h.ancestors.len(), 3);
    assert_eq!(h.ancestors[2].id.native_path, vec!["shop", "shop", "orders"]);

    let mut trigger = candidate(CatalogKind::Trigger, "audit");
    trigger.relation_name = Some("orders".into());
    let h = mysql_search_hit(4, trigger, Some(orders())).unwrap();
    assert_eq!(h.entry.relation_id.unwrap().native_path, vec!["shop", "shop", "orders"]);
    assert_eq!(h.entry.native_kind, "trigger");

    let h = mysql_search_hit(4, candidate(CatalogKind::Procedure, "load"), None).unwrap();
    assert_eq!(h.entry.native_kind, "procedure");
    assert!(!h.entry.expandable);
}

#[test]
fn search_hits_report_what_was_not_loaded() {
    let mut column = candidate(CatalogKind::Column, "total");
    column.relation_name = Some("orders".into());
    match mysql_search_hit(4, column.clone(), None).unwrap_err() {
        SearchHitError::Database(e) => assert_eq!(e.message, "MySQL search relation was not hydrated"),
        other => panic!("unexpected {other:?}"),
    }
    let mut bare = orders();
    bare.children = None;
    match mysql_search_hit(4, column.clone(), Some(bare)).unwrap_err() {
        SearchHitError::Database(e) => {
            assert_eq!(e.message, "MySQL search child metadata was not loaded")
        }
        other => panic!("unexpected {other:?}"),
    }
    column.native_identity = "9".into();
    match mysql_search_hit(4, column, Some(orders())).unwrap_err() {
        SearchHitError::Database(e) => assert_eq!(e.message, "MySQL search child was not hydrated"),
        other => panic!("unexpected {other:?}"),
    }
    let mut table = candidate(CatalogKind::Table, "orders");
    table.relation_type = Some("SYSTEM VIEW".into());
    match mysql_search_hit(4, table, None).unwrap_err() {
        SearchHitError::Database(e) => assert_eq!(e.message, "unexpected MySQL search relation type"),
        other => panic!("unexpected {other:?}"),
    }
    let mut nameless = candidate(CatalogKind::Database, "");
    nameless.database = String::new();
    assert_eq!(
        mysql_search_hit(4, nameless, None).unwrap_err(),
        SearchHitError::Invalid(CatalogValidationError::EmptyQualifiedObject)
    );
}

#[test]
fn repeated_hits_are_dropped_before_the_page_is_cut() {
    let hits = vec![hit("a"), hit("a"), hit("b"), hit("a"), hit("c")];
    let (kept, truncated) = mysql_finish_hits(hits.clone(), 10);
    let names: Vec<&str> = kept.iter().map(|h| h.entry.qualified_name.object.as_str()).collect();
    assert_eq!(names, vec!["a", "b", "a", "c"]);
    assert!(!truncated);
    let (kept, truncated) = mysql_finish_hits(hits, 2);
    assert_eq!(kept.len(), 2);
    assert!(truncated);
}
