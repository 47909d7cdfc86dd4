use lazydb::catalog::{CatalogEntry, CatalogId, CatalogKind, CatalogMetadata, OptionalMetadata, QualifiedName};
use lazydb::catalog_error::CatalogValidationError;
use lazydb::mysql_search::SearchHitError;
use lazydb::postgres_search::{
    postgres_candidate_relation_id, postgres_search_hit, postgres_search_kind,
    postgres_search_limit, postgres_search_relation, PgSearchCandidate,
};

fn candidate(kind: CatalogKind) -> PgSearchCandidate {
    PgSearchCandidate {
        kind,
        database: "app".into(),
        schema: Some("public".into()),
        name: "orders".into(),
        oid: Some(16384),
        relation_kind: None,
        relation_name: None,
        relation_oid: None,
        comment: Some("all orders".into()),
        relation_comment: None,
        database_comment: None,
        schema_comment: Some("default".into()),
    }
}

fn index_candidate() -> PgSearchCandidate {
    let mut c = candidate(CatalogKind::Index);
    c.name = "orders_pkey".into();
    c.oid = Some(16390);
    c.relation_kind = Some("r".into());
    c.relation_name = Some("orders".into());
    c.relation_oid = Some(16384);
    c
}

fn loaded_index() -> CatalogEntry {
    let relation = postgres_candidate_relation_id(5, &index_candidate()).unwrap();
    let mut path = relation.native_path.clone();
    path.push("16390".into());
    CatalogEntry::relation_child(
        CatalogId::new(5, CatalogKind::Index, path),
        relation,
        QualifiedName { database: Some("app".into()), schema: Some("public".into()), object: "orders_pkey".into() },
        "index".into(),
        OptionalMetadata::Supported(None),
        CatalogMetadata::Index(lazydb::catalog::IndexMetadata { columns: vec!["id".into()], unique: true }),
    )
    .unwrap()
}

#[test]
fn search_rows_name_known_kinds() {
    assert_eq!(postgres_search_kind("materialized_view").unwrap(), CatalogKind::MaterializedView);
    assert_eq!(postgres_search_kind("check_constraint").unwrap(), CatalogKind::CheckConstraint);
    let error = postgres_search_kind("trigger").unwrap_err();
    assert_eq!(error.message, "unexpected PostgreSQL search catalog kind");
    assert_eq!(postgres_search_limit(100).unwrap(), 101);
}

#[test]
fn child_candidates_name_their_relation() {
    let id = postgres_candidate_relation_id(5, &index_candidate()).unwrap();
    assert_eq!(id.kind, CatalogKind::Table);
    assert_eq!(id.native_path, vec!["app", "public", "orders", "16384"]);
    let mut incomplete = index_candidate();
    incomplete.relation_kind = Some("S".into());
    assert!(postgres_candidate_relation_id(5, &incomplete).is_none());
    assert!(postgres_candidate_relation_id(5, &candidate(CatalogKind::Table)).is_none());
    let (database, schema, oid) = postgres_search_relation(&id).unwrap();
    assert_eq!((database.as_str(), schema.as_str(), oid), ("app", "public", 16384));
    let short = CatalogId::new(5, CatalogKind::Table, vec!["app".into()]);
    assert_eq!(
        postgres_search_relation(&short).unwrap_err().message,
        "invalid PostgreSQL search relation identity"
    );
}

#[test]
fn top_level_hits_carry_comments_and_oids() {
    let hit = postgres_search_hit(5, "app", candidate(CatalogKind::Table), None).unwrap();
    assert_eq!(hit.entry.id.native_path, vec!["app", "public", "orders", "16384"]);
    assert_eq!(hit.entry.comment, OptionalMetadata::Supported(Some("all orders".into())));
    assert!(hit.entry.expandable);
    assert_eq!(hit.ancestors.len(), 2);
    assert_eq!(hit.ancestors[1].comment, OptionalMetadata::Supported(Some("default".into())));
    let hit = postgres_search_hit(5, "app", candidate(CatalogKind::Function), None).unwrap();
    assert!(!hit.entry.expandable);
    assert_eq!(hit.entry.native_kind, "function");
    let hit = postgres_search_hit(5, "app", candidate(CatalogKind::Database), None).unwrap();
    assert!(hit.ancestors.is_empty());
}

#[test]
fn child_hits_need_the_loaded_child() {
    let hit = postgres_search_hit(5, "app", index_candidate(), Some(loaded_index())).unwrap();
    assert_eq!(hit.entry, loaded_index());
    assert_eq!(hit.ancestors.len(), 3);
    assert_eq!(hit.ancestors[2].native_kind, "table");
    match postgres_search_hit(5, "app", index_candidate(), None).unwrap_err() {
        SearchHitError::Database(e) => {
            assert_eq!(e.message, "PostgreSQL search child disappeared during hydration")
        }
        other => panic!("unexpected {other:?}"),
    }
    let mut other = index_candidate();
    other.oid = Some(1);
    assert!(postgres_search_hit(5, "app", other, Some(loaded_index())).is_err());
}

#[test]
fn incomplete_candidates_are_refused() {
    let mut no_schema = candidate(CatalogKind::Table);
    no_schema.schema = None;
    match postgres_search_hit(5, "app", no_schema, None).unwrap_err() {
        SearchHitError::Database(e) => assert_eq!(e.message, "PostgreSQL search object has no schema"),
        other => panic!("unexpected {other:?}"),
    }
    let mut no_oid = candidate(CatalogKind::View);
    no_oid.oid = None;
    match postgres_search_hit(5, "app", no_oid, None).unwrap_err() {
        SearchHitError::Database(e) => assert_eq!(e.message, "PostgreSQL search object has no OID"),
        other => panic!("unexpected {other:?}"),
    }
    let mut half = index_candidate();
    half.relation_oid = None;
    match postgres_search_hit(5, "app", half, None).unwrap_err() {
        SearchHitError::Database(e) => {
            assert_eq!(e.message, "incomplete PostgreSQL search relation identity")
        }
        other => panic!("unexpected {other:?}"),
    }
    assert_eq!(
        postgres_search_hit(5, "", candidate(CatalogKind::Table), None).unwrap_err(),
        SearchHitError::Invalid(CatalogValidationError::EmptyQualifiedObject)
    );
}
