use lazydb::catalog::CatalogKind;
use lazydb::mysql_meta::{
    group_constraint_parts, group_index_parts, MySqlConstraintPart, MySqlIndexPart,
};

fn part(name: &str, ordinal: u32, column: &str, unique: bool) -> MySqlIndexPart {
    MySqlIndexPart {
        name: name.into(),
        unique,
        ordinal,
        column: Some(column.into()),
        expression: None,
    }
}

fn key(name: &str, kind: CatalogKind, ordinal: u32, column: &str) -> MySqlConstraintPart {
    MySqlConstraintPart {
        catalog: "def".into(),
        schema: "app".into(),
        table_schema: "app".into(),
        table: "child".into(),
        name: name.into(),
        kind,
        ordinal,
        column: column.into(),
        referenced_database: None,
        referenced_relation: None,
        referenced_column: None,
        referenced_ordinal: None,
    }
}

fn fk(ordinal: u32, column: &str, referenced: &str, referenced_ordinal: u32) -> MySqlConstraintPart {
    MySqlConstraintPart {
        referenced_database: Some("app".into()),
        referenced_relation: Some("parent".into()),
        referenced_column: Some(referenced.into()),
        referenced_ordinal: Some(referenced_ordinal),
        ..key("fk", CatalogKind::ForeignKey, ordinal, column)
    }
}

#[test]
fn index_parts_group_into_indexes_in_order() {
    let indexes = group_index_parts(vec![
        part("a", 1, "x", true),
        part("a", 2, "y", true),
        part("b", 1, "z", false),
    ])
    .unwrap();
    assert_eq!(indexes.len(), 2);
    assert_eq!(indexes[0].name, "a");
    assert_eq!(indexes[0].columns, ["x", "y"]);
    assert!(indexes[0].unique);
    assert_eq!(indexes[1].columns, ["z"]);
    assert!(!indexes[1].unique);
}

#[test]
fn index_parts_must_agree_and_be_contiguous() {
    assert_eq!(
        group_index_parts(vec![part("a", 1, "x", true), part("a", 2, "y", false)])
            .unwrap_err()
            .message,
        "MySQL index uniqueness changed between parts"
    );
    assert_eq!(
        group_index_parts(vec![part("a", 1, "x", true), part("a", 3, "y", true)])
            .unwrap_err()
            .message,
        "MySQL index `a` parts are not contiguous"
    );
    let blank = MySqlIndexPart {
        name: "f".into(),
        unique: false,
        ordinal: 1,
        column: None,
        expression: Some("  ".into()),
    };
    assert_eq!(
        group_index_parts(vec![blank]).unwrap_err().message,
        "MySQL index `f` part 1 has no column or expression"
    );
}

#[test]
fn foreign_key_parts_pair_each_column_with_a_referenced_column() {
    let keys = group_constraint_parts(vec![
        key("PRIMARY", CatalogKind::PrimaryKey, 1, "id"),
        fk(1, "a", "x", 2),
        fk(2, "b", "y", 1),
    ])
    .unwrap();
    assert_eq!(keys.len(), 2);
    assert_eq!(keys[1].columns, ["a", "b"]);
    assert_eq!(keys[1].referenced_columns, ["x", "y"]);
    assert_eq!(keys[1].referenced_ordinals, [2, 1]);
}

#[test]
fn foreign_key_referenced_ordinals_must_cover_every_column() {
    assert_eq!(
        group_constraint_parts(vec![fk(1, "a", "x", 1), fk(2, "b", "y", 1)])
            .unwrap_err()
            .message,
        "MySQL foreign key `fk` referenced ordinals are not contiguous and unique"
    );
    let mut odd = key("u", CatalogKind::UniqueConstraint, 1, "a");
    odd.referenced_ordinal = Some(1);
    assert_eq!(
        group_constraint_parts(vec![odd]).unwrap_err().message,
        "MySQL non-foreign constraint `u` unexpectedly references a column"
    );
    let mut missing = fk(1, "a", "x", 1);
    missing.referenced_ordinal = None;
    assert_eq!(
        group_constraint_parts(vec![missing]).unwrap_err().message,
        "MySQL foreign key `fk` part 1 has no referenced ordinal"
    );
}
