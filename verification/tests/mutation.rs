use lazydb::catalog::{
    CatalogCount, CatalogEntry, CatalogId, CatalogKind, CatalogMetadata, ColumnMetadata,
    ConstraintMetadata, DdlProvenance, OptionalMetadata, QualifiedName,
};
use lazydb::identity::ConnectionIdentity;
use lazydb::mutation::{
    editable_capability, metadata_fingerprint, EditDisabledReason, EditMetadata,
    EditableRelationCapability, InputValue, MetadataFingerprint,
};
use lazydb::page::{CatalogPage, CatalogRequest, CatalogRequestKey, CatalogTarget, RelationDdl};
use lazydb::query::{ColumnMeta, ResultSet};
use lazydb::scope::{CatalogScope, CatalogSelection, DatabaseSelection};
use lazydb::value::CellValue;
use uuid::Uuid;

fn path(parts: &[&str]) -> Vec<String> {
    parts.iter().map(|p| p.to_string()).collect()
}

fn relation_ddl_with_primary_key() -> RelationDdl {
    let profile_id = Uuid::new_v4().as_u128();
    let relation_id = CatalogId::new(profile_id, CatalogKind::Table, path(&["db", "public", "users"]));
    let schema_id = CatalogId::new(profile_id, CatalogKind::Schema, path(&["db", "public"]));
    let qualified_name = QualifiedName {
        database: Some("db".into()),
        schema: Some("public".into()),
        object: "users".into(),
    };
    let relation = CatalogEntry::relation(
        relation_id.clone(),
        schema_id,
        qualified_name.clone(),
        "table".to_owned(),
        OptionalMetadata::Unsupported,
        true,
    )
    .unwrap();
    let entries = vec![
        CatalogEntry::relation_child(
            CatalogId::new(profile_id, CatalogKind::Column, path(&["db", "public", "users", "id"])),
            relation_id.clone(),
            QualifiedName {
                object: "id".into(),
                ..qualified_name.clone()
            },
            "integer".to_owned(),
            OptionalMetadata::Unsupported,
            CatalogMetadata::Column(ColumnMetadata::new(1, "integer".to_owned(), false)),
        )
        .unwrap(),
        CatalogEntry::relation_child(
            CatalogId::new(profile_id, CatalogKind::Column, path(&["db", "public", "users", "name"])),
            relation_id.clone(),
            QualifiedName {
                object: "name".into(),
                ..qualified_name.clone()
            },
            "text".to_owned(),
            OptionalMetadata::Unsupported,
            CatalogMetadata::Column(ColumnMetadata::new(2, "text".to_owned(), true)),
        )
        .unwrap(),
        CatalogEntry::relation_child(
            CatalogId::new(
                profile_id,
                CatalogKind::PrimaryKey,
                path(&["db", "public", "users", "users_pkey"]),
            ),
            relation_id.clone(),
            QualifiedName {
                object: "users_pkey".into(),
                ..qualified_name
            },
            "primary_key".to_owned(),
            OptionalMetadata::Unsupported,
            CatalogMetadata::Constraint(ConstraintMetadata::PrimaryKey {
                columns: vec!["id".into()],
            }),
        )
        .unwrap(),
    ];
    let request = CatalogRequest {
        key: CatalogRequestKey {
            connection: ConnectionIdentity {
                profile_id,
                generation: 1,
            },
            catalog_epoch: 1,
            request_id: 1,
            target: CatalogTarget::RelationChildren {
                relation: relation_id,
            },
            cursor: None,
        },
        scope: CatalogScope {
            databases: CatalogSelection::Selected(vec![DatabaseSelection {
                name: "db".to_owned(),
                schemas: CatalogSelection::All,
            }]),
        },
        page_size: 100,
    };
    let children = CatalogPage::new(&request, entries, CatalogCount::Exact(3), None).unwrap();
    RelationDdl {
        relation,
        children,
        sql: "CREATE TABLE users (id integer PRIMARY KEY, name text)".into(),
        provenance: DdlProvenance::NativeCatalog,
    }
}

fn users_result() -> ResultSet {
    ResultSet {
        columns: vec![
            ColumnMeta {
                name: "id".into(),
                data_type: "integer".into(),
            },
            ColumnMeta {
                name: "name".into(),
                data_type: "text".into(),
            },
        ],
        rows: vec![vec![CellValue::Integer(1), CellValue::Text("Ada".into())]],
        affected_rows: 0,
    }
}

#[test]
fn input_values_keep_literal_and_sql_values_distinct() {
    assert_ne!(
        InputValue::Value(CellValue::Text("NULL".into())),
        InputValue::Null
    );
    assert_ne!(
        InputValue::Value(CellValue::Text("DEFAULT".into())),
        InputValue::Default
    );
}

#[test]
fn metadata_fingerprint_is_ordered_and_comparable() {
    let left = MetadataFingerprint {
        relation: "users".into(),
        columns: vec![("id".into(), "integer".into(), false)],
        primary_key: vec!["id".into()],
    };
    assert_eq!(left, left.clone());
}

#[test]
fn relation_ddl_metadata_fingerprint_preserves_columns_and_primary_key() {
    let ddl = relation_ddl_with_primary_key();

    assert_eq!(
        metadata_fingerprint(&ddl),
        MetadataFingerprint {
            relation: "users".into(),
            columns: vec![
                ("id".into(), "integer".into(), false),
                ("name".into(), "text".into(), true),
            ],
            primary_key: vec!["id".into()],
        }
    );
}

#[test]
fn relation_with_primary_key_metadata_is_editable() {
    let ddl = relation_ddl_with_primary_key();
    let result = users_result();

    assert_eq!(
        editable_capability(CatalogKind::Table, false, true, Some(&ddl), &result),
        EditableRelationCapability::Editable(EditMetadata {
            fingerprint: metadata_fingerprint(&ddl),
            primary_key_columns: vec![0],
        })
    );
}

#[test]
fn editing_is_refused_in_the_documented_order() {
    let ddl = relation_ddl_with_primary_key();
    let result = users_result();
    assert_eq!(
        editable_capability(CatalogKind::Table, true, true, Some(&ddl), &result),
        EditableRelationCapability::ReadOnly(EditDisabledReason::ReadOnlyConnection)
    );
    assert_eq!(
        editable_capability(CatalogKind::View, false, true, Some(&ddl), &result),
        EditableRelationCapability::ReadOnly(EditDisabledReason::NotATable)
    );
    assert_eq!(
        editable_capability(CatalogKind::Table, false, false, Some(&ddl), &result),
        EditableRelationCapability::ReadOnly(EditDisabledReason::SnapshotNotLive)
    );
    assert_eq!(
        editable_capability(CatalogKind::Table, false, true, None, &result),
        EditableRelationCapability::ReadOnly(EditDisabledReason::MissingDdl)
    );
}

#[test]
fn edit_capability_names_missing_key_columns_before_unsupported_cells() {
    let ddl = relation_ddl_with_primary_key();
    let mut result = users_result();
    result.rows[0][1] = CellValue::Unsupported {
        data_type: "geometry".into(),
        preview: "<geometry>".into(),
    };
    assert_eq!(
        editable_capability(CatalogKind::Table, false, true, Some(&ddl), &result),
        EditableRelationCapability::ReadOnly(EditDisabledReason::UnsupportedRowValue)
    );
    result.columns[0].name = "identifier".into();
    assert_eq!(
        editable_capability(CatalogKind::Table, false, true, Some(&ddl), &result),
        EditableRelationCapability::ReadOnly(EditDisabledReason::MissingPrimaryKeyColumn(
            "id".into()
        ))
    );
    let mut reordered = users_result();
    reordered.columns.swap(0, 1);
    reordered.columns.push(ColumnMeta { name: "id".into(), data_type: "integer".into() });
    assert_eq!(
        editable_capability(CatalogKind::Table, false, true, Some(&ddl), &reordered),
        EditableRelationCapability::Editable(EditMetadata {
            fingerprint: metadata_fingerprint(&ddl),
            primary_key_columns: vec![1],
        })
    );
}
