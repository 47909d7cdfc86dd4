use lazydb::postgres::{
    assemble_relation_ddl, column_definition, postgres_delete_sql, quote_identifier,
    quote_literal, PgDdlColumn, PgDdlRelation,
};

#[test]
fn ddl_quoting_escapes_postgres_identifiers_and_literals() {
    assert_eq!(quote_identifier("odd\"name"), "\"odd\"\"name\"");
    assert_eq!(quote_literal("owner's note"), "'owner''s note'");
}

#[test]
fn delete_sql_has_a_complete_where_clause_for_row_locators() {
    let columns = vec![
        ("id".to_owned(), "integer".to_owned(), false),
        ("name".to_owned(), "text".to_owned(), true),
    ];
    let sql = postgres_delete_sql("\"public\".\"users\"", &columns, &[0]).unwrap();

    assert_eq!(
        sql,
        "DELETE FROM \"public\".\"users\" WHERE \"id\" IS NOT DISTINCT FROM $1::integer AND \"id\" IS NOT DISTINCT FROM $2::integer AND \"name\" IS NOT DISTINCT FROM $3::text"
    );
    assert!(postgres_delete_sql("\"public\".\"users\"", &columns, &[]).is_err());
}

#[test]
fn delete_sql_casts_nullable_bigint_parameters() {
    let columns = vec![
        ("id".to_owned(), "bigint".to_owned(), false),
        ("dept_id".to_owned(), "bigint".to_owned(), true),
        (
            "manager".to_owned(),
            "character varying(30)".to_owned(),
            true,
        ),
    ];
    let sql = postgres_delete_sql("\"tools\".\"sys_user\"", &columns, &[0]).unwrap();

    assert!(sql.contains("\"id\" IS NOT DISTINCT FROM $1::bigint"));
    assert!(sql.contains("\"dept_id\" IS NOT DISTINCT FROM $3::bigint"));
    assert!(sql.contains("\"manager\" IS NOT DISTINCT FROM $4"));
}

#[test]
fn column_definition_uses_exactly_one_generated_identity_or_default_clause() {
    let base = PgDdlColumn {
        name: "id".to_owned(),
        native_type: "bigint".to_owned(),
        default_expression: Some("nextval('ignored')".to_owned()),
        not_null: true,
        identity_kind: "d".to_owned(),
        generated_kind: String::new(),
    };
    assert_eq!(
        column_definition(&base).unwrap(),
        "\"id\" bigint GENERATED BY DEFAULT AS IDENTITY NOT NULL"
    );

    let generated = PgDdlColumn {
        name: "slug".to_owned(),
        native_type: "text".to_owned(),
        default_expression: Some("lower(name)".to_owned()),
        not_null: false,
        identity_kind: String::new(),
        generated_kind: "s".to_owned(),
    };
    assert_eq!(
        column_definition(&generated).unwrap(),
        "\"slug\" text GENERATED ALWAYS AS (lower(name)) STORED"
    );

    let defaulted = PgDdlColumn {
        name: "active".to_owned(),
        native_type: "boolean".to_owned(),
        default_expression: Some("true".to_owned()),
        not_null: false,
        identity_kind: String::new(),
        generated_kind: String::new(),
    };
    assert_eq!(
        column_definition(&defaulted).unwrap(),
        "\"active\" boolean DEFAULT true"
    );
}

#[test]
fn assembles_table_constraints_comments_indexes_and_triggers_in_sections() {
    let ddl = assemble_relation_ddl(PgDdlRelation {
        schema: "odd schema".to_owned(),
        name: "accounts".to_owned(),
        relation_kind: "r".to_owned(),
        persistence: "p".to_owned(),
        view_definition: None,
        materialized_populated: true,
        partition_key: None,
        partition_parent: None,
        partition_bound: None,
        columns: vec![PgDdlColumn {
            name: "id".to_owned(),
            native_type: "integer".to_owned(),
            default_expression: None,
            not_null: true,
            identity_kind: String::new(),
            generated_kind: String::new(),
        }],
        constraints: vec![("accounts_pk".to_owned(), "PRIMARY KEY (id)".to_owned())],
        relation_comment: Some("owner's table".to_owned()),
        column_comments: vec![("id".to_owned(), "primary key".to_owned())],
        indexes: vec![("accounts_live_idx".to_owned(), "CREATE INDEX accounts_live_idx ON \"odd schema\".accounts (id)".to_owned())],
        triggers: vec![("audit".to_owned(), "CREATE TRIGGER audit AFTER UPDATE ON \"odd schema\".accounts EXECUTE FUNCTION audit_row()".to_owned())],
    })
    .unwrap();

    assert!(ddl.contains("-- Table\n\nCREATE TABLE \"odd schema\".\"accounts\" (\n  \"id\" integer NOT NULL,\n  CONSTRAINT \"accounts_pk\" PRIMARY KEY (id)\n);"));
    assert!(ddl.contains(
        "-- Comments\n\nCOMMENT ON TABLE \"odd schema\".\"accounts\" IS 'owner''s table';"
    ));
    assert!(
        ddl.contains("COMMENT ON COLUMN \"odd schema\".\"accounts\".\"id\" IS 'primary key';")
    );
    assert!(ddl.contains("-- Indexes\n\nCREATE INDEX accounts_live_idx"));
    assert!(ddl.contains("-- Triggers\n\nCREATE TRIGGER audit"));
}

#[test]
fn assembles_view_and_omits_empty_optional_sections() {
    let ddl = assemble_relation_ddl(PgDdlRelation {
        schema: "public".to_owned(),
        name: "active_accounts".to_owned(),
        relation_kind: "v".to_owned(),
        persistence: "p".to_owned(),
        view_definition: Some(" SELECT id FROM accounts ".to_owned()),
        materialized_populated: true,
        partition_key: None,
        partition_parent: None,
        partition_bound: None,
        columns: vec![],
        constraints: vec![],
        relation_comment: None,
        column_comments: vec![],
        indexes: vec![],
        triggers: vec![],
    })
    .unwrap();

    assert_eq!(
        ddl,
        "-- View\n\nCREATE VIEW \"public\".\"active_accounts\" AS\nSELECT id FROM accounts;"
    );
    assert!(!ddl.contains("-- Comments"));
    assert!(!ddl.contains("-- Indexes"));
    assert!(!ddl.contains("-- Triggers"));
}

#[test]
fn rejects_a_missing_main_view_definition() {
    let error = assemble_relation_ddl(PgDdlRelation {
        schema: "public".to_owned(),
        name: "missing_definition".to_owned(),
        relation_kind: "v".to_owned(),
        persistence: "p".to_owned(),
        view_definition: Some("  ".to_owned()),
        materialized_populated: true,
        partition_key: None,
        partition_parent: None,
        partition_bound: None,
        columns: vec![],
        constraints: vec![],
        relation_comment: None,
        column_comments: vec![],
        indexes: vec![],
        triggers: vec![],
    })
    .unwrap_err();

    assert!(error.message.contains("has no main view definition"));
}
