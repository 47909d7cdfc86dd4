use lazydb::catalog::{CatalogEntry, CatalogId, CatalogKind, CatalogMetadata, OptionalMetadata, QualifiedName};
use lazydb::catalog_drop::{CatalogDropError, CatalogDropRequest};
use lazydb::identity::ConnectionIdentity;
use lazydb::mysql::plan_mysql_catalog_drop;

const PROFILE: u128 = 11;

fn path(parts: &[&str]) -> Vec<String> {
    parts.iter().map(|p| p.to_string()).collect()
}

fn entry(kind: CatalogKind, id_path: &[&str], object: &str, relation: Option<CatalogId>) -> CatalogEntry {
    CatalogEntry {
        id: CatalogId::new(PROFILE, kind, path(id_path)),
        parent_id: None,
        kind,
        native_kind: "x".to_owned(),
        qualified_name: QualifiedName {
            database: Some("app".into()),
            schema: Some("app".into()),
            object: object.into(),
        },
        comment: OptionalMetadata::Unsupported,
        metadata: CatalogMetadata::NoMetadata,
        expandable: false,
        relation_id: relation,
    }
}

fn request(e: &CatalogEntry) -> CatalogDropRequest {
    CatalogDropRequest::new(
        ConnectionIdentity { profile_id: PROFILE, generation: 1 },
        e.id.clone(),
        1,
    )
}

fn users_id() -> CatalogId {
    CatalogId::new(PROFILE, CatalogKind::Table, path(&["app", "app", "users"]))
}

#[test]
fn mysql_drops_tables_views_and_databases_by_qualified_name() {
    let table = entry(CatalogKind::Table, &["app", "app", "users"], "users", None);
    let plan = plan_mysql_catalog_drop(request(&table), &table).unwrap();
    assert_eq!(plan.sql(), "DROP TABLE `app`.`users`");
    assert!(plan.validate().is_ok());

    let database = entry(CatalogKind::Database, &["app"], "app", None);
    let plan = plan_mysql_catalog_drop(request(&database), &database).unwrap();
    assert_eq!(plan.sql(), "DROP DATABASE `app`");
}

#[test]
fn mysql_drops_keys_and_indexes_through_their_table() {
    let index = entry(CatalogKind::Index, &["app", "app", "users", "by_name"], "by_name", Some(users_id()));
    let plan = plan_mysql_catalog_drop(request(&index), &index).unwrap();
    assert_eq!(plan.sql(), "ALTER TABLE `app`.`users` DROP INDEX `by_name`");

    let primary = entry(CatalogKind::PrimaryKey, &["app", "app", "users", "PRIMARY"], "PRIMARY", Some(users_id()));
    let plan = plan_mysql_catalog_drop(request(&primary), &primary).unwrap();
    assert_eq!(plan.sql(), "ALTER TABLE `app`.`users` DROP PRIMARY KEY");

    let foreign = entry(CatalogKind::ForeignKey, &["app", "app", "users", "fk`x"], "fk`x", Some(users_id()));
    let plan = plan_mysql_catalog_drop(request(&foreign), &foreign).unwrap();
    assert_eq!(plan.sql(), "ALTER TABLE `app`.`users` DROP FOREIGN KEY `fk``x`");
}

#[test]
fn mysql_drops_triggers_and_routines() {
    let trigger = entry(CatalogKind::Trigger, &["app", "app", "audit"], "audit", Some(users_id()));
    let plan = plan_mysql_catalog_drop(request(&trigger), &trigger).unwrap();
    assert_eq!(plan.sql(), "DROP TRIGGER `app`.`audit`");

    let routine = entry(CatalogKind::Function, &["app", "app", "f", "f()"], "f", None);
    let plan = plan_mysql_catalog_drop(request(&routine), &routine).unwrap();
    assert_eq!(plan.sql(), "DROP FUNCTION `app`.`f`");
}

#[test]
fn mysql_refuses_ambiguous_or_inconsistent_drop_targets() {
    let sequence = entry(CatalogKind::Sequence, &["app", "app", "s"], "s", None);
    assert_eq!(
        plan_mysql_catalog_drop(request(&sequence), &sequence),
        Err(CatalogDropError::Unsupported {
            kind: CatalogKind::Sequence,
            reason: "MySQL catalog metadata does not provide an unambiguous drop target".into(),
        })
    );
    let index = entry(CatalogKind::Index, &["app", "app", "users", "i"], "i", None);
    assert_eq!(
        plan_mysql_catalog_drop(request(&index), &index),
        Err(CatalogDropError::Unsupported {
            kind: CatalogKind::Index,
            reason: "catalog entry has no owning MySQL relation identity".into(),
        })
    );
    let mismatch = entry(CatalogKind::Table, &["app", "other", "users"], "users", None);
    assert_eq!(
        plan_mysql_catalog_drop(request(&mismatch), &mismatch),
        Err(CatalogDropError::Unsupported {
            kind: CatalogKind::Table,
            reason: "catalog entry has an inconsistent MySQL object identity".into(),
        })
    );
    let routine = entry(CatalogKind::Procedure, &["app", "app", "p"], "p", None);
    assert_eq!(
        plan_mysql_catalog_drop(request(&routine), &routine),
        Err(CatalogDropError::Unsupported {
            kind: CatalogKind::Procedure,
            reason: "catalog entry has no unambiguous MySQL routine identity".into(),
        })
    );
}
