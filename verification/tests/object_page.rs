use lazydb::catalog::{CatalogEntry, CatalogId, CatalogKind, ObjectGroup, OptionalMetadata};
use lazydb::catalog_error::CatalogValidationError;
use lazydb::object_page::{
    finalize_mysql_object_page, finalize_postgres_object_page, mysql_object_count_sql,
    mysql_object_entry, mysql_object_page_sql, mysql_object_source, postgres_cursor_oid,
    postgres_object_count_sql, postgres_object_entry, postgres_object_page_sql,
    postgres_object_source,
};

fn my_schema() -> CatalogId {
    CatalogId::new(9, CatalogKind::Schema, vec!["shop".into(), "shop".into()])
}

fn pg_schema() -> CatalogId {
    CatalogId::new(9, CatalogKind::Schema, vec!["app".into(), "public".into()])
}

fn my_table(name: &str) -> CatalogEntry {
    let source = mysql_object_source(ObjectGroup::Tables).unwrap();
    mysql_object_entry(9, &my_schema(), "shop", &source, name.into(), name.into(), None, None)
        .unwrap()
}

fn pg_table(name: &str, oid: i64) -> CatalogEntry {
    let source = postgres_object_source(ObjectGroup::Tables).unwrap();
    postgres_object_entry(9, &pg_schema(), "app", "public", &source, oid, name.into(), None)
        .unwrap()
}

#[test]
fn mysql_object_sources_cover_the_groups_mysql_has() {
    for group in [ObjectGroup::MaterializedViews, ObjectGroup::Sequences, ObjectGroup::Types] {
        assert!(mysql_object_source(group).is_none());
    }
    let routines = mysql_object_source(ObjectGroup::Procedures).unwrap();
    assert_eq!(routines.kind, CatalogKind::Procedure);
    assert_eq!(routines.tie_column, "specific_name");
}

#[test]
fn mysql_object_statements_filter_by_schema_and_order_bytewise() {
    let tables = mysql_object_source(ObjectGroup::Tables).unwrap();
    assert_eq!(
        mysql_object_count_sql(&tables),
        "SELECT CAST(COUNT(*) AS SIGNED) FROM information_schema.tables WHERE BINARY table_schema=BINARY ? AND table_type='BASE TABLE'"
    );
    assert_eq!(
        mysql_object_page_sql(&tables, false),
        "SELECT table_name AS name, table_name AS native_identity, table_comment AS comment, NULL AS owner_name FROM information_schema.tables WHERE BINARY table_schema=BINARY ? AND table_type='BASE TABLE' ORDER BY BINARY table_name, BINARY table_name LIMIT ?"
    );
    let functions = mysql_object_source(ObjectGroup::Functions).unwrap();
    assert_eq!(
        mysql_object_page_sql(&functions, true),
        "SELECT routine_name AS name, specific_name AS native_identity, routine_comment AS comment, NULL AS owner_name FROM information_schema.routines WHERE BINARY routine_schema=BINARY ? AND routine_type='FUNCTION' AND (BINARY routine_name > BINARY ? OR (BINARY routine_name = BINARY ? AND BINARY specific_name > BINARY ?)) ORDER BY BINARY routine_name, BINARY specific_name LIMIT ?"
    );
}

#[test]
fn mysql_object_entries_follow_their_kind() {
    let table = my_table("orders");
    assert_eq!(table.id.native_path, vec!["shop", "shop", "orders"]);
    assert!(table.expandable);
    assert_eq!(table.relation_id.as_ref().unwrap().native_path, table.id.native_path);
    assert_eq!(table.comment, OptionalMetadata::Supported(None));

    let functions = mysql_object_source(ObjectGroup::Functions).unwrap();
    let function = mysql_object_entry(
        9,
        &my_schema(),
        "shop",
        &functions,
        "total".into(),
        "total_v2".into(),
        Some("sums".into()),
        None,
    )
    .unwrap();
    assert_eq!(function.id.native_path, vec!["shop", "shop", "total", "total_v2"]);
    assert!(!function.expandable);
    assert!(function.relation_id.is_none());
    assert_eq!(function.comment, OptionalMetadata::Supported(Some("sums".into())));
    assert_eq!(function.native_kind, "function");
    assert_eq!(function.qualified_name.schema.as_deref(), Some("shop"));

    let triggers = mysql_object_source(ObjectGroup::Triggers).unwrap();
    let trigger = mysql_object_entry(
        9,
        &my_schema(),
        "shop",
        &triggers,
        "audit".into(),
        "audit".into(),
        None,
        Some(("orders".into(), CatalogKind::Table)),
    )
    .unwrap();
    let owner = trigger.relation_id.unwrap();
    assert_eq!(owner.kind, CatalogKind::Table);
    assert_eq!(owner.native_path, vec!["shop", "shop", "orders"]);
    assert_eq!(trigger.comment, OptionalMetadata::Unsupported);
}

#[test]
fn mysql_object_entries_refuse_a_bad_parent_or_name() {
    let tables = mysql_object_source(ObjectGroup::Tables).unwrap();
    let database = CatalogId::new(9, CatalogKind::Database, vec!["shop".into()]);
    let error =
        mysql_object_entry(9, &database, "shop", &tables, "t".into(), "t".into(), None, None)
            .unwrap_err();
    assert_eq!(
        error,
        CatalogValidationError::InvalidKind { expected: "schema parent", found: CatalogKind::Database }
    );
    let error =
        mysql_object_entry(4, &my_schema(), "shop", &tables, "t".into(), "t".into(), None, None)
            .unwrap_err();
    assert_eq!(
        error,
        CatalogValidationError::ProfileMismatch { child_profile_id: 4, parent_profile_id: 9 }
    );
    let error =
        mysql_object_entry(9, &my_schema(), "shop", &tables, "".into(), "".into(), None, None)
            .unwrap_err();
    assert_eq!(error, CatalogValidationError::EmptyQualifiedObject);
}

#[test]
fn mysql_object_pages_end_at_the_page_size() {
    let mut entries = vec![my_table("a"), my_table("b"), my_table("c")];
    let cursor = finalize_mysql_object_page(&mut entries, 2).unwrap().unwrap();
    assert_eq!(entries.len(), 2);
    assert_eq!(cursor.keyset_parts().unwrap(), ("b", "b"));
    let mut entries = vec![my_table("a")];
    assert!(finalize_mysql_object_page(&mut entries, 2).unwrap().is_none());
    assert_eq!(entries.len(), 1);
}

#[test]
fn postgres_object_statements_join_the_namespace() {
    let types = postgres_object_source(ObjectGroup::Types).unwrap();
    assert_eq!(
        postgres_object_count_sql(&types),
        "SELECT COUNT(*)::bigint FROM pg_type c JOIN pg_namespace n ON n.oid=c.typnamespace WHERE n.nspname=$1 AND c.typtype IN ('e','d') AND c.typisdefined AND c.typelem=0"
    );
    let tables = postgres_object_source(ObjectGroup::Tables).unwrap();
    assert_eq!(
        postgres_object_page_sql(&tables, false),
        "SELECT c.oid::bigint AS oid, c.relname AS name, obj_description(c.oid, 'pg_class') AS comment FROM pg_class c JOIN pg_namespace n ON n.oid=c.relnamespace WHERE n.nspname=$1 AND c.relkind IN ('r','p') ORDER BY c.relname COLLATE \"C\", c.oid LIMIT $2"
    );
    assert_eq!(
        postgres_object_page_sql(&tables, true),
        "SELECT c.oid::bigint AS oid, c.relname AS name, obj_description(c.oid, 'pg_class') AS comment FROM pg_class c JOIN pg_namespace n ON n.oid=c.relnamespace WHERE n.nspname=$1 AND c.relkind IN ('r','p') AND ((c.relname COLLATE \"C\") > ($2 COLLATE \"C\") OR (c.relname COLLATE \"C\") = ($2 COLLATE \"C\") AND c.oid > $3::oid) ORDER BY c.relname COLLATE \"C\", c.oid LIMIT $4"
    );
    assert!(postgres_object_source(ObjectGroup::Triggers).is_none());
    assert!(!postgres_object_source(ObjectGroup::Sequences).unwrap().expandable);
}

#[test]
fn postgres_cursor_oids_must_be_integers() {
    assert_eq!(postgres_cursor_oid("16384"), Ok(16384));
    assert_eq!(postgres_cursor_oid("-5"), Ok(-5));
    assert_eq!(postgres_cursor_oid("00000000000000016384"), Ok(16384));
    assert_eq!(postgres_cursor_oid("16384x"), Err(CatalogValidationError::MalformedCursor));
    assert_eq!(postgres_cursor_oid(""), Err(CatalogValidationError::MalformedCursor));
}

#[test]
fn postgres_object_entries_end_with_the_oid() {
    let table = pg_table("orders", 16384);
    assert_eq!(table.id.native_path, vec!["app", "public", "orders", "16384"]);
    assert!(table.expandable);
    let sequences = postgres_object_source(ObjectGroup::Sequences).unwrap();
    let sequence = postgres_object_entry(
        9,
        &pg_schema(),
        "app",
        "public",
        &sequences,
        16390,
        "orders_id_seq".into(),
        Some("ids".into()),
    )
    .unwrap();
    assert!(!sequence.expandable);
    assert!(sequence.relation_id.is_none());
    assert_eq!(sequence.comment, OptionalMetadata::Supported(Some("ids".into())));
}

#[test]
fn postgres_object_cursors_pad_the_oid() {
    let mut entries = vec![pg_table("a", 7), pg_table("b", 16384), pg_table("c", 9)];
    let cursor = finalize_postgres_object_page(&mut entries, 2).unwrap().unwrap();
    assert_eq!(entries.len(), 2);
    assert_eq!(cursor.keyset_parts().unwrap(), ("b", "00000000000000016384"));
}
