use lazydb::catalog::{
    CatalogId, CatalogKind, CatalogMetadata, ConstraintMembership, ConstraintMetadata,
    OptionalMetadata, QualifiedName,
};
use lazydb::mssql_children::{
    mssql_check_relation_type, mssql_column_memberships, mssql_column_metadata,
    mssql_constraint_kind, mssql_constraint_metadata, mssql_relation_locator, MsSqlColumnRow,
    MsSqlForeignKey,
};
use lazydb::page::CatalogTarget;
use lazydb::postgres_children::{
    postgres_column_memberships, postgres_column_metadata, postgres_constraint_metadata,
    PgColumnRow, PgConstraintInfo,
};

fn ms_relation(kind: CatalogKind, object_id: &str) -> CatalogId {
    CatalogId::new(
        7,
        kind,
        vec!["sales".into(), "dbo".into(), "orders".into(), object_id.into()],
    )
}

fn children(relation: &CatalogId) -> CatalogTarget {
    CatalogTarget::RelationChildren { relation: relation.clone() }
}

fn ms_column() -> MsSqlColumnRow {
    MsSqlColumnRow {
        column_id: 3,
        name: "total".into(),
        data_type: "decimal".into(),
        is_nullable: Some(true),
        is_identity: None,
        is_computed: Some(false),
        default_expression: Some("((0))".into()),
        computed_expression: None,
        rowversion: None,
    }
}

fn pg_column() -> PgColumnRow {
    PgColumnRow {
        ordinal: 2,
        name: "email".into(),
        native_type: "character varying(20)".into(),
        type_family: "S".into(),
        nullable: false,
        expression: Some("''::text".into()),
        identity_kind: "".into(),
        generated_kind: "".into(),
        character_length: Some(20),
        collation: Some("pg_catalog.default".into()),
    }
}

fn pg_constraint(kind: CatalogKind) -> PgConstraintInfo {
    PgConstraintInfo {
        oid: 100,
        name: "k".into(),
        kind,
        columns: vec!["a".into()],
        referenced_schema: Some("public".into()),
        referenced_relation: Some("users".into()),
        referenced_columns: vec!["id".into()],
        check_expression: None,
        comment: None,
    }
}

#[test]
fn sql_server_relations_are_located_by_their_path() {
    let relation = ms_relation(CatalogKind::Table, "1205579333");
    let (database, schema, name, object_id) =
        mssql_relation_locator(&relation, 7, &children(&relation)).unwrap();
    assert_eq!((database.as_str(), schema.as_str(), name.as_str()), ("sales", "dbo", "orders"));
    assert_eq!(object_id, 1205579333);
    assert_eq!(
        mssql_relation_locator(&ms_relation(CatalogKind::View, "-12"), 7, &children(&relation))
            .unwrap()
            .3,
        -12
    );
}

#[test]
fn sql_server_relations_outside_the_profile_or_malformed_are_not_found() {
    let relation = ms_relation(CatalogKind::Table, "12");
    for (candidate, profile) in [
        (ms_relation(CatalogKind::Table, "12x"), 7),
        (ms_relation(CatalogKind::Table, "4294967296"), 7),
        (ms_relation(CatalogKind::Index, "12"), 7),
        (relation.clone(), 8),
        (CatalogId::new(7, CatalogKind::Table, vec!["sales".into()]), 7),
    ] {
        let error = mssql_relation_locator(&candidate, profile, &children(&relation)).unwrap_err();
        assert_eq!(error.code.as_deref(), Some("catalog_target_not_found"));
        assert_eq!(error.message, "SQL Server catalog target was not found: relation children");
    }
}

#[test]
fn sql_server_object_types_must_match_the_relation_kind() {
    let table = ms_relation(CatalogKind::Table, "12");
    let view = ms_relation(CatalogKind::View, "12");
    assert!(mssql_check_relation_type(&table, Some("U".into()), &children(&table)).is_ok());
    assert!(mssql_check_relation_type(&view, Some("V".into()), &children(&view)).is_ok());
    assert!(mssql_check_relation_type(&table, Some("V".into()), &children(&table)).is_err());
    assert!(mssql_check_relation_type(&table, Some("P".into()), &children(&table)).is_err());
    assert!(mssql_check_relation_type(&table, None, &children(&table)).is_err());
}

#[test]
fn sql_server_constraint_codes_map_to_kinds() {
    assert_eq!(mssql_constraint_kind("PK"), Some(CatalogKind::PrimaryKey));
    assert_eq!(mssql_constraint_kind("UQ"), Some(CatalogKind::UniqueConstraint));
    assert_eq!(mssql_constraint_kind("F"), Some(CatalogKind::ForeignKey));
    assert_eq!(mssql_constraint_kind("C"), Some(CatalogKind::CheckConstraint));
    assert_eq!(mssql_constraint_kind("D"), None);
}

#[test]
fn sql_server_foreign_keys_name_the_referenced_relation() {
    let foreign = MsSqlForeignKey {
        referenced_schema: "crm".into(),
        referenced_relation: "customers".into(),
        source_columns: vec![],
        referenced_columns: vec!["id".into()],
    };
    let metadata = mssql_constraint_metadata(
        CatalogKind::ForeignKey,
        vec!["customer_id".into()],
        Some(foreign),
        None,
        "sales".into(),
    )
    .unwrap();
    assert_eq!(
        metadata,
        CatalogMetadata::Constraint(ConstraintMetadata::ForeignKey {
            columns: vec!["customer_id".into()],
            referenced_relation: QualifiedName {
                database: Some("sales".into()),
                schema: Some("crm".into()),
                object: "customers".into(),
            },
            referenced_columns: vec!["id".into()],
        })
    );
    let error =
        mssql_constraint_metadata(CatalogKind::ForeignKey, vec![], None, None, "sales".into())
            .unwrap_err();
    assert_eq!(error.message, "foreign key has no referenced relation");
    let error =
        mssql_constraint_metadata(CatalogKind::CheckConstraint, vec![], None, None, "sales".into())
            .unwrap_err();
    assert_eq!(error.message, "check constraint has no expression");
    assert_eq!(error.code.as_deref(), Some("sql_server_decode"));
}

#[test]
fn sql_server_column_metadata_separates_defaults_from_computed_expressions() {
    let metadata = mssql_column_metadata(ms_column(), vec![]);
    assert_eq!(metadata.ordinal_position, 3);
    assert!(metadata.nullable);
    assert_eq!(metadata.type_family, OptionalMetadata::Supported(Some("decimal".into())));
    assert_eq!(metadata.default_expression, OptionalMetadata::Supported(Some("((0))".into())));
    assert_eq!(metadata.generated_expression, OptionalMetadata::Supported(None));
    assert_eq!(metadata.identity, OptionalMetadata::Supported(Some(false)));
    assert_eq!(metadata.hidden, OptionalMetadata::Supported(Some(false)));
    assert_eq!(metadata.collation, OptionalMetadata::Unsupported);

    let mut computed = ms_column();
    computed.is_computed = Some(true);
    computed.computed_expression = Some("([a]+[b])".into());
    computed.rowversion = Some(true);
    let metadata = mssql_column_metadata(computed, vec![]);
    assert_eq!(metadata.default_expression, OptionalMetadata::Supported(None));
    assert_eq!(metadata.generated_expression, OptionalMetadata::Supported(Some("([a]+[b])".into())));
    assert_eq!(metadata.hidden, OptionalMetadata::Supported(Some(true)));
}

#[test]
fn sql_server_memberships_keep_the_key_order() {
    let foreign = CatalogId::new(7, CatalogKind::ForeignKey, vec!["f".into()]);
    let primary = CatalogId::new(7, CatalogKind::PrimaryKey, vec!["p".into()]);
    let keys = vec![
        (foreign.clone(), vec!["b".into(), "a".into()]),
        (primary.clone(), vec!["a".into()]),
    ];
    let memberships = mssql_column_memberships(&keys, "a").unwrap();
    assert_eq!(
        memberships,
        vec![
            ConstraintMembership { constraint_id: foreign, ordinal_position: 2 },
            ConstraintMembership { constraint_id: primary, ordinal_position: 1 },
        ]
    );
    assert!(mssql_column_memberships(&keys, "zzz").unwrap().is_empty());
}

#[test]
fn postgres_memberships_are_sorted_by_key_kind() {
    let foreign = CatalogId::new(7, CatalogKind::ForeignKey, vec!["f".into()]);
    let primary = CatalogId::new(7, CatalogKind::PrimaryKey, vec!["p".into()]);
    let keys = vec![
        (foreign.clone(), vec!["b".into(), "a".into()]),
        (primary.clone(), vec!["a".into()]),
    ];
    let memberships = postgres_column_memberships(&keys, "a").unwrap();
    assert_eq!(
        memberships,
        vec![
            ConstraintMembership { constraint_id: primary, ordinal_position: 1 },
            ConstraintMembership { constraint_id: foreign, ordinal_position: 2 },
        ]
    );
}

#[test]
fn postgres_constraints_need_what_their_kind_names() {
    assert_eq!(
        postgres_constraint_metadata(pg_constraint(CatalogKind::ForeignKey), "app".into()).unwrap(),
        CatalogMetadata::Constraint(ConstraintMetadata::ForeignKey {
            columns: vec!["a".into()],
            referenced_relation: QualifiedName {
                database: Some("app".into()),
                schema: Some("public".into()),
                object: "users".into(),
            },
            referenced_columns: vec!["id".into()],
        })
    );
    let error = postgres_constraint_metadata(pg_constraint(CatalogKind::CheckConstraint), "app".into())
        .unwrap_err();
    assert_eq!(error.message, "check constraint has no expression");
    assert_eq!(error.code.as_deref(), Some("postgres_catalog_invariant"));
    let error =
        postgres_constraint_metadata(pg_constraint(CatalogKind::Index), "app".into()).unwrap_err();
    assert_eq!(error.message, "unexpected PostgreSQL constraint kind");
    let mut missing = pg_constraint(CatalogKind::ForeignKey);
    missing.referenced_relation = None;
    let error = postgres_constraint_metadata(missing, "app".into()).unwrap_err();
    assert_eq!(error.message, "foreign key has no referenced relation");
}

#[test]
fn postgres_column_metadata_reads_defaults_identity_and_length() {
    let metadata = postgres_column_metadata(pg_column(), vec![]).unwrap();
    assert_eq!(metadata.ordinal_position, 2);
    assert!(!metadata.nullable);
    assert_eq!(metadata.default_expression, OptionalMetadata::Supported(Some("''::text".into())));
    assert_eq!(metadata.generated_expression, OptionalMetadata::Supported(None));
    assert_eq!(metadata.identity, OptionalMetadata::Supported(Some(false)));
    assert_eq!(metadata.auto_increment, OptionalMetadata::Unsupported);
    assert_eq!(metadata.character_maximum_length, OptionalMetadata::Supported(Some(20)));

    let mut generated = pg_column();
    generated.generated_kind = "s".into();
    generated.identity_kind = "a".into();
    let metadata = postgres_column_metadata(generated, vec![]).unwrap();
    assert_eq!(metadata.default_expression, OptionalMetadata::Supported(None));
    assert_eq!(metadata.generated_expression, OptionalMetadata::Supported(Some("''::text".into())));
    assert_eq!(metadata.identity, OptionalMetadata::Supported(Some(true)));
}

#[test]
fn postgres_column_rows_with_negative_numbers_are_refused() {
    let mut row = pg_column();
    row.ordinal = -1;
    let error = postgres_column_metadata(row, vec![]).unwrap_err();
    assert_eq!(error.message, "invalid PostgreSQL column ordinal");
    let mut row = pg_column();
    row.character_length = Some(-4);
    let error = postgres_column_metadata(row, vec![]).unwrap_err();
    assert_eq!(error.message, "invalid PostgreSQL character length");
}
