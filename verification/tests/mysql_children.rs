use lazydb::catalog::{
    CatalogId, CatalogKind, CatalogMetadata, ConstraintMetadata, OptionalMetadata, QualifiedName,
};
use lazydb::mysql::{mysql_decode_plan, MySqlDecode};
use lazydb::mysql_children::{
    checked_u32, column_memberships, mysql_column_metadata, mysql_constraint_metadata,
    MySqlColumnRow,
};
use lazydb::mysql_meta::MySqlConstraintInfo;

fn row() -> MySqlColumnRow {
    MySqlColumnRow {
        ordinal_position: 1,
        column_name: "id".into(),
        column_type: "bigint unsigned".into(),
        data_type: "bigint".into(),
        is_nullable: "NO".into(),
        column_default: Some("0".into()),
        extra: "DEFAULT_GENERATED auto_increment".into(),
        generation_expression: String::new(),
        numeric_precision: Some(20),
        numeric_scale: Some(0),
        character_maximum_length: None,
        collation_name: None,
        character_set_name: None,
        column_comment: None,
    }
}

#[test]
fn auto_increment_is_a_whole_word_of_extra() {
    let metadata = mysql_column_metadata(&row(), vec![]).unwrap();
    assert_eq!(metadata.auto_increment, OptionalMetadata::Supported(Some(true)));
    assert_eq!(metadata.default_expression, OptionalMetadata::Supported(Some("0".into())));
    assert_eq!(metadata.generated_expression, OptionalMetadata::Supported(None));
    assert!(!metadata.nullable);
    assert_eq!(metadata.numeric_precision, OptionalMetadata::Supported(Some(20)));

    let mut not_a_word = row();
    not_a_word.extra = "xauto_increment".into();
    let metadata = mysql_column_metadata(&not_a_word, vec![]).unwrap();
    assert_eq!(metadata.auto_increment, OptionalMetadata::Supported(Some(false)));

    let mut upper = row();
    upper.extra = "AUTO_INCREMENT".into();
    let metadata = mysql_column_metadata(&upper, vec![]).unwrap();
    assert_eq!(metadata.auto_increment, OptionalMetadata::Supported(Some(true)));
}

#[test]
fn generated_columns_have_an_expression_and_no_default() {
    let mut generated = row();
    generated.extra = "VIRTUAL GENERATED".into();
    generated.generation_expression = "(`a` + 1)".into();
    let metadata = mysql_column_metadata(&generated, vec![]).unwrap();
    assert_eq!(metadata.default_expression, OptionalMetadata::Supported(None));
    assert_eq!(
        metadata.generated_expression,
        OptionalMetadata::Supported(Some("(`a` + 1)".into()))
    );
}

#[test]
fn column_numbers_must_fit() {
    let mut huge = row();
    huge.ordinal_position = 1 << 32;
    assert_eq!(
        mysql_column_metadata(&huge, vec![]).unwrap_err().message,
        "invalid MySQL column ordinal: 4294967296"
    );
    let mut negative = row();
    negative.character_maximum_length = Some(-1);
    assert_eq!(
        mysql_column_metadata(&negative, vec![]).unwrap_err().message,
        "MySQL returned a negative catalog count"
    );
    assert_eq!(checked_u32(7, "x").unwrap(), 7);
}

#[test]
fn foreign_keys_need_their_referenced_relation() {
    let fk = MySqlConstraintInfo {
        name: "fk".into(),
        kind: CatalogKind::ForeignKey,
        columns: vec!["parent_id".into()],
        referenced_database: Some("app".into()),
        referenced_relation: Some("parent".into()),
        referenced_columns: vec!["id".into()],
        referenced_ordinals: vec![1],
    };
    assert_eq!(
        mysql_constraint_metadata(fk).unwrap(),
        CatalogMetadata::Constraint(ConstraintMetadata::ForeignKey {
            columns: vec!["parent_id".into()],
            referenced_relation: QualifiedName {
                database: Some("app".into()),
                schema: Some("app".into()),
                object: "parent".into(),
            },
            referenced_columns: vec!["id".into()],
        })
    );
    let no_relation = MySqlConstraintInfo {
        name: "fk".into(),
        kind: CatalogKind::ForeignKey,
        columns: vec![],
        referenced_database: Some("app".into()),
        referenced_relation: None,
        referenced_columns: vec![],
        referenced_ordinals: vec![],
    };
    assert_eq!(
        mysql_constraint_metadata(no_relation).unwrap_err().message,
        "foreign key has no referenced relation"
    );
    let check = MySqlConstraintInfo {
        name: "c".into(),
        kind: CatalogKind::CheckConstraint,
        columns: vec![],
        referenced_database: None,
        referenced_relation: None,
        referenced_columns: vec![],
        referenced_ordinals: vec![],
    };
    assert_eq!(
        mysql_constraint_metadata(check).unwrap_err().message,
        "unexpected MySQL constraint kind"
    );
}

#[test]
fn column_memberships_are_ordered_by_key_kind_then_position() {
    let key = |kind, name: &str| {
        CatalogId::new(1, kind, vec!["app".into(), "app".into(), "t".into(), name.into()])
    };
    let keys = vec![
        (key(CatalogKind::UniqueConstraint, "uq"), vec!["email".to_owned(), "id".to_owned()]),
        (key(CatalogKind::PrimaryKey, "PRIMARY"), vec!["id".to_owned()]),
        (key(CatalogKind::UniqueConstraint, "alpha"), vec!["email".to_owned(), "id".to_owned()]),
    ];
    let memberships = column_memberships(&keys, "id").unwrap();
    let summary: Vec<(CatalogKind, u32, String)> = memberships
        .iter()
        .map(|m| {
            (
                m.constraint_id.kind,
                m.ordinal_position,
                m.constraint_id.native_path.last().cloned().unwrap_or_default(),
            )
        })
        .collect();
    assert_eq!(
        summary,
        vec![
            (CatalogKind::PrimaryKey, 1, "PRIMARY".to_owned()),
            (CatalogKind::UniqueConstraint, 2, "alpha".to_owned()),
            (CatalogKind::UniqueConstraint, 2, "uq".to_owned()),
        ]
    );
    assert!(column_memberships(&keys, "nobody").unwrap().is_empty());
}

#[test]
fn mysql_type_names_choose_the_decoding() {
    assert_eq!(mysql_decode_plan("int unsigned"), ("INT UNSIGNED".to_owned(), MySqlDecode::Unsigned));
    assert_eq!(mysql_decode_plan("year").1, MySqlDecode::Unsigned);
    assert_eq!(mysql_decode_plan("BIGINT").1, MySqlDecode::Integer);
    assert_eq!(mysql_decode_plan("double").1, MySqlDecode::Float);
    assert_eq!(mysql_decode_plan("datetime").1, MySqlDecode::DateTime);
    assert_eq!(mysql_decode_plan("varbinary").1, MySqlDecode::Bytes);
    assert_eq!(mysql_decode_plan("enum").1, MySqlDecode::Text);
    assert_eq!(mysql_decode_plan("json").1, MySqlDecode::Fallback);
}
