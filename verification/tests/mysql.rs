use lazydb::catalog::{CatalogId, CatalogKind, DdlProvenance};
use lazydb::error::ErrorCategory;
use lazydb::mysql::{
    assemble_relation_ddl, relation_kind, relation_path, search_catalog_kind, PROBE_SQL,
};
use lazydb::mysql_meta::{
    group_constraint_parts, group_index_parts, MySqlConstraintPart, MySqlIndexPart,
};
use uuid::Uuid;

fn test_primary(name: &str, ordinal: u32, column: &str) -> MySqlConstraintPart {
    MySqlConstraintPart {
        catalog: "def".to_owned(),
        schema: "app".to_owned(),
        table_schema: "app".to_owned(),
        table: "child".to_owned(),
        name: name.to_owned(),
        kind: CatalogKind::PrimaryKey,
        ordinal,
        column: column.to_owned(),
        referenced_database: None,
        referenced_relation: None,
        referenced_column: None,
        referenced_ordinal: None,
    }
}

fn test_foreign(
    name: &str,
    ordinal: u32,
    column: &str,
    referenced_column: Option<&str>,
    referenced_ordinal: Option<u32>,
) -> MySqlConstraintPart {
    MySqlConstraintPart {
        kind: CatalogKind::ForeignKey,
        referenced_database: Some("app".to_owned()),
        referenced_relation: Some("parent".to_owned()),
        referenced_column: referenced_column.map(str::to_owned),
        referenced_ordinal,
        ..test_primary(name, ordinal, column)
    }
}

#[test]
fn probe_query_avoids_the_reserved_database_alias() {
    assert!(PROBE_SQL.contains("AS current_database"));
    assert!(!PROBE_SQL.contains("AS database"));
}

#[test]
fn relation_path_rejects_a_trailing_native_suffix() {
    let id = CatalogId::new(
        Uuid::new_v4().as_u128(),
        CatalogKind::Table,
        vec!["app".to_owned(), "app".to_owned(), "users".to_owned(), "forged".to_owned()],
    );
    assert!(relation_path(&id).is_none());
}

#[test]
fn search_kind_mapping_is_limited_to_supported_mysql_catalog_kinds() {
    for native in [
        "database",
        "schema",
        "table",
        "view",
        "function",
        "procedure",
        "trigger",
        "column",
        "index",
        "primary_key",
        "unique_constraint",
        "foreign_key",
    ] {
        assert!(search_catalog_kind(native).is_ok(), "missing {native}");
    }
    for unsupported in ["materialized_view", "sequence", "check_constraint", "type"] {
        assert!(search_catalog_kind(unsupported).is_err());
    }
    assert_eq!(
        relation_kind(Some("BASE TABLE")).unwrap(),
        CatalogKind::Table
    );
    assert_eq!(relation_kind(Some("VIEW")).unwrap(), CatalogKind::View);
    assert!(relation_kind(Some("SYSTEM VIEW")).is_err());
}

#[test]
fn relation_ddl_assembles_the_native_object_once_and_sorts_triggers() {
    let main_sql = "CREATE TABLE `users` (`id` bigint PRIMARY KEY) COMMENT='accounts'";
    let (sql, provenance) = assemble_relation_ddl(
        main_sql.to_owned(),
        vec![
            (
                "users_zeta".to_owned(),
                "CREATE TRIGGER `users_zeta` BEFORE UPDATE ON `users` FOR EACH ROW SET NEW.`id` = OLD.`id`".to_owned(),
            ),
            (
                "users_alpha".to_owned(),
                "CREATE TRIGGER `users_alpha` BEFORE INSERT ON `users` FOR EACH ROW SET NEW.`id` = COALESCE(NEW.`id`, 1)".to_owned(),
            ),
        ],
    )
    .unwrap();

    assert_eq!(sql.matches(main_sql).count(), 1);
    assert!(sql.starts_with("-- Object\n\n"));
    assert!(sql.contains("\n\n-- Triggers\n\n"));
    assert!(sql.find("users_alpha").unwrap() < sql.find("users_zeta").unwrap());
    assert_eq!(provenance, DdlProvenance::AdapterGenerated);
}

#[test]
fn relation_ddl_without_triggers_preserves_native_provenance() {
    let (sql, provenance) =
        assemble_relation_ddl("CREATE VIEW `active_users` AS SELECT 1".to_owned(), vec![])
            .unwrap();

    assert_eq!(sql, "-- Object\n\nCREATE VIEW `active_users` AS SELECT 1;");
    assert_eq!(provenance, DdlProvenance::NativeCatalog);
}

#[test]
fn relation_ddl_requires_a_main_show_create_statement() {
    let error = assemble_relation_ddl("  ".to_owned(), vec![]).unwrap_err();

    assert_eq!(error.category, ErrorCategory::Internal);
    assert!(error.message.contains("no SHOW CREATE statement"));
}

#[test]
fn functional_index_parts_require_a_column_or_nonempty_expression() {
    let parts = vec![MySqlIndexPart {
        name: "idx_lower".to_owned(),
        unique: false,
        ordinal: 1,
        column: None,
        expression: Some("lower(`code`)".to_owned()),
    }];
    assert_eq!(
        group_index_parts(parts).unwrap()[0].columns,
        ["lower(`code`)"].map(str::to_owned)
    );

    let invalid = vec![MySqlIndexPart {
        name: "idx_invalid".to_owned(),
        unique: false,
        ordinal: 1,
        column: None,
        expression: None,
    }];
    assert!(
        group_index_parts(invalid)
            .unwrap_err()
            .message
            .contains("no column or expression")
    );
}

#[test]
fn constraint_parts_require_contiguous_ordinals_and_complete_fk_pairing() {
    let gap = vec![test_primary("PRIMARY", 2, "id")];
    assert!(
        group_constraint_parts(gap)
            .unwrap_err()
            .message
            .contains("contiguous")
    );

    let missing_reference = vec![test_foreign("child_fk", 1, "parent_id", None, Some(1))];
    assert!(
        group_constraint_parts(missing_reference)
            .unwrap_err()
            .message
            .contains("referenced column")
    );
}
