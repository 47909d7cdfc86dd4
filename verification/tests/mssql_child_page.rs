use lazydb::catalog::{CatalogId, CatalogKind, CatalogMetadata, ColumnMetadata, IndexMetadata};
use lazydb::mssql_child_page::{
    group_row_ids, mssql_check_definition_sql, mssql_child_column_sql, mssql_child_id,
    mssql_child_trigger_sql, mssql_column_entry, mssql_constraint_entry, mssql_constraint_sql,
    mssql_constraints, mssql_foreign_key_sql, mssql_foreign_keys, mssql_index_entry,
    mssql_index_sql, mssql_indexes, mssql_member_keys, mssql_relation_trigger_entry,
    mssql_relation_type_sql, mssql_take_foreign_key, MsSqlConstraintRow, MsSqlForeignKeyRow,
    MsSqlIndexRow, RowGroup,
};
use lazydb::mssql_children::{mssql_constraint_metadata, MsSqlForeignKey};

fn relation() -> CatalogId {
    CatalogId::new(
        3,
        CatalogKind::Table,
        vec!["app".into(), "dbo".into(), "orders".into(), "77".into()],
    )
}

#[test]
fn child_statements_quote_the_database_and_render_ids() {
    assert_eq!(
        mssql_relation_type_sql("app", "dbo", "o'rders", 77),
        "SELECT o.[type] FROM [app].sys.objects o JOIN [app].sys.schemas s ON s.[schema_id] = o.[schema_id] WHERE o.[object_id] = 77 AND s.[name] = N'dbo' AND o.[name] = N'o''rders' AND o.[is_ms_shipped] = 0"
    );
    assert_eq!(
        mssql_check_definition_sql("a]b", -5),
        "SELECT [definition] FROM [a]]b].sys.check_constraints WHERE [object_id] = -5"
    );
    assert_eq!(
        mssql_child_trigger_sql("app", 77),
        "SELECT [name], [object_id] FROM [app].sys.triggers WHERE [parent_id] = 77 AND [is_ms_shipped] = 0 ORDER BY [name] COLLATE Latin1_General_100_BIN2, [object_id]"
    );
    let index = mssql_index_sql("app", 77);
    assert!(index.contains("FROM [app].sys.indexes i JOIN [app].sys.index_columns ic"));
    assert!(index.contains("WHERE i.[object_id] = 77 AND i.[index_id] > 0"));
    let constraints = mssql_constraint_sql("app", 77);
    assert_eq!(constraints.matches("= 77").count(), 3);
    assert!(constraints.ends_with("ORDER BY [type], [constraint_id], [key_ordinal]"));
    assert!(mssql_foreign_key_sql("app", 77).contains("WHERE fk.[parent_object_id] = 77 ORDER BY"));
    assert!(mssql_child_column_sql("app", 77).ends_with("WHERE c.[object_id] = 77 ORDER BY c.[column_id]"));
}

#[test]
fn rows_group_by_id_in_first_appearance_order() {
    assert_eq!(
        group_row_ids(&vec![5, 2, 5, 9, 2]),
        vec![
            RowGroup { id: 5, rows: vec![0, 2] },
            RowGroup { id: 2, rows: vec![1, 4] },
            RowGroup { id: 9, rows: vec![3] },
        ]
    );
    assert!(group_row_ids(&vec![]).is_empty());
}

#[test]
fn index_rows_become_indexes() {
    let row = |id: i32, name: &str, unique: bool, column: &str| MsSqlIndexRow {
        index_id: id,
        name: name.into(),
        is_unique: unique,
        column_name: column.into(),
    };
    let indexes = mssql_indexes(&vec![
        row(1, "pk_orders", true, "id"),
        row(2, "ix_customer", false, "customer_id"),
        row(2, "ix_customer", false, "placed_at"),
    ]);
    assert_eq!(indexes.len(), 2);
    assert_eq!(indexes[1].columns, vec!["customer_id", "placed_at"]);
    assert!(!indexes[1].unique);
    let entry = mssql_index_entry(&relation(), "app", "dbo", indexes[1].clone()).unwrap();
    assert_eq!(entry.kind, CatalogKind::Index);
    assert_eq!(entry.id.native_path, vec!["app", "dbo", "orders", "77", "2"]);
    assert_eq!(entry.native_kind, "index");
    assert_eq!(
        entry.metadata,
        CatalogMetadata::Index(IndexMetadata {
            columns: vec!["customer_id".into(), "placed_at".into()],
            unique: false,
        })
    );
}

#[test]
fn constraints_and_foreign_keys_group_and_choose_their_columns() {
    let row = |id: i32, kind: &str, name: &str, column: Option<&str>| MsSqlConstraintRow {
        constraint_id: id,
        kind: kind.into(),
        name: name.into(),
        column_name: column.map(str::to_owned),
    };
    let constraints = mssql_constraints(&vec![
        row(10, "C", "ck_total", None),
        row(20, "F", "fk_customer", Some("customer_id")),
        row(30, "PK", "pk_orders", Some("id")),
        row(40, "D", "df_other", None),
    ]);
    assert_eq!(constraints.len(), 4);
    assert!(constraints[0].columns.is_empty());
    let keys = mssql_member_keys(&relation(), &constraints);
    assert_eq!(keys.len(), 2);
    assert_eq!(keys[0].0.kind, CatalogKind::ForeignKey);
    assert_eq!(keys[0].0.native_path[4], "20");
    assert_eq!(keys[1].1, vec!["id"]);

    let fk_row = |id: i32, source: &str, target: &str| MsSqlForeignKeyRow {
        constraint_id: id,
        referenced_schema: "sales".into(),
        referenced_relation: "customers".into(),
        source_column: source.into(),
        referenced_column: target.into(),
    };
    let mut foreign = mssql_foreign_keys(&vec![fk_row(20, "customer_id", "id"), fk_row(20, "region", "region")]);
    assert_eq!(foreign.len(), 1);
    assert_eq!(foreign[0].1.source_columns, vec!["customer_id", "region"]);
    assert!(mssql_take_foreign_key(&mut foreign, 99).is_none());
    let key: MsSqlForeignKey = mssql_take_foreign_key(&mut foreign, 20).unwrap();
    assert!(foreign.is_empty());
    let metadata = mssql_constraint_metadata(
        CatalogKind::ForeignKey,
        constraints[1].columns.clone(),
        Some(key),
        None,
        "app".into(),
    )
    .unwrap();
    let id = mssql_child_id(&relation(), CatalogKind::ForeignKey, 20);
    let entry = mssql_constraint_entry(&relation(), "app", "dbo", id, "fk_customer", metadata).unwrap();
    assert_eq!(entry.native_kind, "constraint");
    assert_eq!(entry.qualified_name.object, "fk_customer");
}

#[test]
fn column_and_trigger_children() {
    let metadata = ColumnMetadata::new(1, "int".into(), false);
    let column = mssql_column_entry(&relation(), "app", "dbo", 1, "id", Some("key".into()), metadata)
        .unwrap();
    assert_eq!(column.id.native_path, vec!["app", "dbo", "orders", "77", "1"]);
    assert_eq!(column.kind, CatalogKind::Column);
    assert!(mssql_column_entry(
        &relation(),
        "app",
        "dbo",
        2,
        "",
        None,
        ColumnMetadata::new(2, "int".into(), true)
    )
    .is_err());
    let trigger =
        mssql_relation_trigger_entry(&relation(), "app", "dbo", "orders", 77, "tr_audit", 501)
            .unwrap();
    assert_eq!(trigger.id.native_path, vec!["app", "dbo", "orders", "77", "501"]);
    assert_eq!(trigger.native_kind, "trigger");
    assert_eq!(trigger.relation_id.unwrap().native_path, relation().native_path);
}
