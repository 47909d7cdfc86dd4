use lazydb::catalog::{CatalogId, CatalogKind};
use lazydb::mutation::{
    DeleteRowMutation, InputValue, InsertRowMutation, MetadataFingerprint, RelationMutation,
    RowLocator, UpdateCellMutation,
};
use lazydb::mysql_edit::{plan_mysql_mutation, InsertLookup, MySqlMutationPlan};
use lazydb::row_edit::BoundStatement;
use lazydb::transaction::TransactionError;
use lazydb::value::CellValue;

fn users() -> CatalogId {
    CatalogId::new(
        7,
        CatalogKind::Table,
        vec!["app".to_owned(), "app".to_owned(), "users".to_owned()],
    )
}

fn fingerprint() -> MetadataFingerprint {
    MetadataFingerprint {
        relation: "users".into(),
        columns: vec![
            ("id".into(), "bigint".into(), false),
            ("name".into(), "varchar(20)".into(), true),
        ],
        primary_key: vec!["id".into()],
    }
}

fn text(s: &str) -> CellValue {
    CellValue::Text(s.to_owned())
}

const ID_PRED: &str = "((`id` = ?) OR (`id` IS NULL AND ? IS NULL))";
const NAME_PRED: &str = "((`name` = ?) OR (`name` IS NULL AND ? IS NULL))";

#[test]
fn mysql_delete_matches_locator_and_every_original_value() {
    let plan = plan_mysql_mutation(
        &users(),
        &fingerprint(),
        &RelationMutation::DeleteRows(vec![DeleteRowMutation {
            row: RowLocator { columns: vec![0], values: vec![CellValue::Integer(1)] },
            original: vec![CellValue::Integer(1), text("Ada")],
        }]),
    )
    .unwrap();
    let sql = format!("DELETE FROM `app`.`users` WHERE {ID_PRED} AND {ID_PRED} AND {NAME_PRED}");
    assert_eq!(
        plan,
        MySqlMutationPlan::Delete {
            statements: vec![Ok(BoundStatement {
                sql,
                binds: vec![
                    CellValue::Integer(1),
                    CellValue::Integer(1),
                    CellValue::Integer(1),
                    CellValue::Integer(1),
                    text("Ada"),
                    text("Ada"),
                ],
            })],
        }
    );
}

#[test]
fn mysql_delete_rows_are_refused_one_by_one() {
    let plan = plan_mysql_mutation(
        &users(),
        &fingerprint(),
        &RelationMutation::DeleteRows(vec![
            DeleteRowMutation {
                row: RowLocator { columns: vec![0], values: vec![] },
                original: vec![CellValue::Integer(1), text("Ada")],
            },
            DeleteRowMutation {
                row: RowLocator { columns: vec![5], values: vec![CellValue::Integer(1)] },
                original: vec![CellValue::Integer(1), text("Ada")],
            },
            DeleteRowMutation {
                row: RowLocator { columns: vec![0], values: vec![CellValue::Integer(1)] },
                original: vec![
                    CellValue::Integer(1),
                    CellValue::Unsupported { data_type: "GEOMETRY".into(), preview: "?".into() },
                ],
            },
        ]),
    )
    .unwrap();
    let MySqlMutationPlan::Delete { statements } = plan else {
        panic!("expected a delete plan");
    };
    assert_eq!(
        statements[0],
        Err(TransactionError("MySQL delete mutation is malformed".into()))
    );
    assert_eq!(
        statements[1],
        Err(TransactionError("MySQL row locator column is out of range".into()))
    );
    assert_eq!(
        statements[2],
        Err(TransactionError("MySQL cannot bind an unsupported cell value".into()))
    );
}

#[test]
fn mysql_insert_reads_back_by_the_generated_id_when_the_key_is_omitted() {
    let plan = plan_mysql_mutation(
        &users(),
        &fingerprint(),
        &RelationMutation::InsertRow(InsertRowMutation {
            columns: vec![1],
            values: vec![InputValue::Value(text("Bob"))],
        }),
    )
    .unwrap();
    assert_eq!(
        plan,
        MySqlMutationPlan::Insert {
            insert: BoundStatement {
                sql: "INSERT INTO `app`.`users` (`name`) VALUES (?)".into(),
                binds: vec![text("Bob")],
            },
            lookup: Ok(InsertLookup::LastInsertId(
                "SELECT * FROM `app`.`users` WHERE `id` = ?".into()
            )),
        }
    );
}

#[test]
fn mysql_insert_reads_back_by_the_given_key() {
    let plan = plan_mysql_mutation(
        &users(),
        &fingerprint(),
        &RelationMutation::InsertRow(InsertRowMutation {
            columns: vec![0, 1],
            values: vec![InputValue::Value(CellValue::Integer(7)), InputValue::Default],
        }),
    )
    .unwrap();
    assert_eq!(
        plan,
        MySqlMutationPlan::Insert {
            insert: BoundStatement {
                sql: "INSERT INTO `app`.`users` (`id`, `name`) VALUES (?, DEFAULT)".into(),
                binds: vec![CellValue::Integer(7)],
            },
            lookup: Ok(InsertLookup::Bound(BoundStatement {
                sql: "SELECT * FROM `app`.`users` WHERE `id` = ?".into(),
                binds: vec![CellValue::Integer(7)],
            })),
        }
    );

    let null_key = plan_mysql_mutation(
        &users(),
        &fingerprint(),
        &RelationMutation::InsertRow(InsertRowMutation {
            columns: vec![0],
            values: vec![InputValue::Null],
        }),
    )
    .unwrap();
    let MySqlMutationPlan::Insert { insert, lookup } = null_key else {
        panic!("expected an insert plan");
    };
    assert_eq!(insert.binds, vec![CellValue::Null]);
    assert_eq!(
        lookup,
        Ok(InsertLookup::Bound(BoundStatement {
            sql: "SELECT * FROM `app`.`users` WHERE `id` IS NULL".into(),
            binds: vec![],
        }))
    );
}

#[test]
fn mysql_empty_insert_and_malformed_insert() {
    let plan = plan_mysql_mutation(
        &users(),
        &fingerprint(),
        &RelationMutation::InsertRow(InsertRowMutation { columns: vec![], values: vec![] }),
    )
    .unwrap();
    let MySqlMutationPlan::Insert { insert, .. } = plan else {
        panic!("expected an insert plan");
    };
    assert_eq!(insert.sql, "INSERT INTO `app`.`users` () VALUES ()");

    assert_eq!(
        plan_mysql_mutation(
            &users(),
            &fingerprint(),
            &RelationMutation::InsertRow(InsertRowMutation {
                columns: vec![2],
                values: vec![InputValue::Null],
            }),
        ),
        Err(TransactionError("MySQL insert mutation is malformed".into()))
    );
}

#[test]
fn mysql_insert_without_a_primary_key_cannot_be_read_back() {
    let mut no_key = fingerprint();
    no_key.primary_key = vec![];
    let plan = plan_mysql_mutation(
        &users(),
        &no_key,
        &RelationMutation::InsertRow(InsertRowMutation {
            columns: vec![1],
            values: vec![InputValue::Null],
        }),
    )
    .unwrap();
    let MySqlMutationPlan::Insert { lookup, .. } = plan else {
        panic!("expected an insert plan");
    };
    assert_eq!(lookup, Err(TransactionError("MySQL inserted row has no primary key".into())));
}

#[test]
fn mysql_update_checks_the_original_value_and_reads_back_by_key() {
    let plan = plan_mysql_mutation(
        &users(),
        &fingerprint(),
        &RelationMutation::UpdateCell(UpdateCellMutation {
            row: RowLocator { columns: vec![0], values: vec![CellValue::Integer(1)] },
            column: 1,
            original: text("Ada"),
            value: InputValue::Value(text("Bea")),
        }),
    )
    .unwrap();
    let predicates = format!("{ID_PRED} AND {NAME_PRED}");
    assert_eq!(
        plan,
        MySqlMutationPlan::Update {
            update: BoundStatement {
                sql: format!("UPDATE `app`.`users` SET `name` = ? WHERE {predicates}"),
                binds: vec![
                    text("Bea"),
                    CellValue::Integer(1),
                    CellValue::Integer(1),
                    text("Ada"),
                    text("Ada"),
                ],
            },
            original_check: BoundStatement {
                sql: format!("SELECT 1 FROM `app`.`users` WHERE {predicates}"),
                binds: vec![CellValue::Integer(1), CellValue::Integer(1), text("Ada"), text("Ada")],
            },
            select: BoundStatement {
                sql: "SELECT * FROM `app`.`users` WHERE `id` = ?".into(),
                binds: vec![CellValue::Integer(1)],
            },
        }
    );
}

#[test]
fn mysql_update_of_the_key_reads_back_by_the_new_value() {
    let plan = plan_mysql_mutation(
        &users(),
        &fingerprint(),
        &RelationMutation::UpdateCell(UpdateCellMutation {
            row: RowLocator { columns: vec![0], values: vec![CellValue::Integer(1)] },
            column: 0,
            original: CellValue::Integer(1),
            value: InputValue::Default,
        }),
    )
    .unwrap();
    let MySqlMutationPlan::Update { update, select, .. } = plan else {
        panic!("expected an update plan");
    };
    assert!(update.sql.starts_with("UPDATE `app`.`users` SET `id` = DEFAULT WHERE "));
    assert_eq!(select.binds, vec![CellValue::Integer(1)]);
}

#[test]
fn mysql_update_and_path_refusals() {
    let not_key = plan_mysql_mutation(
        &users(),
        &fingerprint(),
        &RelationMutation::UpdateCell(UpdateCellMutation {
            row: RowLocator { columns: vec![1], values: vec![text("Ada")] },
            column: 1,
            original: text("Ada"),
            value: InputValue::Null,
        }),
    );
    assert_eq!(
        not_key,
        Err(TransactionError(
            "MySQL row locator must contain the primary key columns in order".into()
        ))
    );
    let out_of_range = plan_mysql_mutation(
        &users(),
        &fingerprint(),
        &RelationMutation::UpdateCell(UpdateCellMutation {
            row: RowLocator { columns: vec![0], values: vec![CellValue::Integer(1)] },
            column: 9,
            original: text("Ada"),
            value: InputValue::Null,
        }),
    );
    assert_eq!(out_of_range, Err(TransactionError("MySQL update column is out of range".into())));
    let short = CatalogId::new(7, CatalogKind::Table, vec!["app".to_owned(), "users".to_owned()]);
    assert_eq!(
        plan_mysql_mutation(&short, &fingerprint(), &RelationMutation::DeleteRows(vec![])),
        Err(TransactionError(
            "MySQL relation has no canonical database, schema, and table path".into()
        ))
    );
}
