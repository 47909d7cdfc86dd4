use lazydb::edit_run::{
    mssql_edit_step, mssql_savepoint_name, mysql_edit_step, postgres_edit_step, EditAction,
    EditEvent, EditStage,
};
use lazydb::mssql::MsSqlMutationPlan;
use lazydb::mutation::MutationResult;
use lazydb::mysql_edit::{InsertLookup, MySqlMutationPlan};
use lazydb::row_edit::{BoundStatement, MutationPlan};
use lazydb::transaction::TransactionError;
use lazydb::value::CellValue;

fn statement(sql: &str) -> BoundStatement {
    BoundStatement { sql: sql.into(), binds: vec![CellValue::Integer(1)] }
}

fn executed(rows_affected: u64) -> EditEvent {
    EditEvent::Executed { rows_affected, last_insert_id: 0 }
}

fn fail(message: &str) -> EditAction {
    EditAction::Fail(TransactionError(message.into()))
}

#[test]
fn postgres_deletes_stop_at_the_first_conflict() {
    let plan = MutationPlan::Delete {
        statements: vec![
            Ok(statement("DELETE a")),
            Ok(statement("DELETE b")),
            Err(TransactionError("bad row".into())),
        ],
    };
    let (stage, action) = postgres_edit_step(&plan, EditStage::Start, EditEvent::Started);
    assert_eq!(stage, EditStage::Statement(0));
    assert_eq!(action, EditAction::Execute(statement("DELETE a")));
    let (stage, action) = postgres_edit_step(&plan, stage, executed(1));
    assert_eq!(stage, EditStage::Statement(1));
    assert_eq!(action, EditAction::Execute(statement("DELETE b")));
    let (stage, action) = postgres_edit_step(&plan, stage, executed(0));
    assert_eq!(stage, EditStage::Finished);
    assert_eq!(action, fail("PostgreSQL relation mutation conflict"));
    let (_, action) = postgres_edit_step(&plan, EditStage::Statement(1), executed(1));
    assert_eq!(action, fail("bad row"));

    let plan = MutationPlan::Delete { statements: vec![Ok(statement("DELETE a"))] };
    let (stage, _) = postgres_edit_step(&plan, EditStage::Start, EditEvent::Started);
    let (stage, action) = postgres_edit_step(&plan, stage, executed(1));
    assert_eq!(stage, EditStage::Finished);
    assert_eq!(action, EditAction::Done(MutationResult::Deleted { rows: 1 }));
}

#[test]
fn postgres_update_reads_the_row_back() {
    let plan = MutationPlan::Update { update: statement("UPDATE"), select: Ok(statement("SELECT")) };
    let (stage, action) = postgres_edit_step(&plan, EditStage::Start, EditEvent::Started);
    assert_eq!(action, EditAction::Execute(statement("UPDATE")));
    assert_eq!(postgres_edit_step(&plan, stage, executed(2)).1, fail("PostgreSQL relation mutation conflict"));
    let (stage, action) = postgres_edit_step(&plan, stage, executed(1));
    assert_eq!(stage, EditStage::Read);
    assert_eq!(action, EditAction::FetchOptional(statement("SELECT")));
    assert_eq!(
        postgres_edit_step(&plan, stage, EditEvent::Fetched(vec![])).1,
        fail("PostgreSQL relation mutation conflict")
    );
    let row = vec![CellValue::Integer(1), CellValue::Text("x".into())];
    let (stage, action) = postgres_edit_step(&plan, stage, EditEvent::Fetched(vec![row.clone()]));
    assert_eq!(stage, EditStage::Finished);
    assert_eq!(action, EditAction::Done(MutationResult::Updated { row }));
    assert_eq!(
        postgres_edit_step(&plan, EditStage::Read, EditEvent::DriverFailed("boom".into())).1,
        fail("boom")
    );
    assert_eq!(
        postgres_edit_step(&plan, EditStage::Finished, executed(1)).1,
        fail("row edit step is out of order")
    );
}

#[test]
fn mysql_update_that_changes_nothing_checks_the_original_row() {
    let plan = MySqlMutationPlan::Update {
        update: statement("UPDATE"),
        original_check: statement("CHECK"),
        select: statement("SELECT"),
    };
    let (stage, _) = mysql_edit_step(&plan, EditStage::Start, EditEvent::Started);
    assert_eq!(
        mysql_edit_step(&plan, stage, executed(2)).1,
        fail("MySQL relation mutation matched multiple rows")
    );
    let (stage, action) = mysql_edit_step(&plan, stage, executed(0));
    assert_eq!(stage, EditStage::Check);
    assert_eq!(action, EditAction::FetchOptional(statement("CHECK")));
    assert_eq!(
        mysql_edit_step(&plan, stage, EditEvent::Fetched(vec![])).1,
        fail("MySQL relation mutation conflict")
    );
    let (stage, action) =
        mysql_edit_step(&plan, stage, EditEvent::Fetched(vec![vec![CellValue::Integer(1)]]));
    assert_eq!(stage, EditStage::Read);
    assert_eq!(action, EditAction::FetchOptional(statement("SELECT")));
}

#[test]
fn mysql_insert_reads_back_by_generated_id() {
    let plan = MySqlMutationPlan::Insert {
        insert: statement("INSERT"),
        lookup: Ok(InsertLookup::LastInsertId("SELECT BY ID".into())),
    };
    let (stage, _) = mysql_edit_step(&plan, EditStage::Start, EditEvent::Started);
    let (stage, action) = mysql_edit_step(
        &plan,
        stage,
        EditEvent::Executed { rows_affected: 1, last_insert_id: 42 },
    );
    assert_eq!(stage, EditStage::Read);
    assert_eq!(
        action,
        EditAction::FetchOne(BoundStatement {
            sql: "SELECT BY ID".into(),
            binds: vec![CellValue::Unsigned(42)],
        })
    );
    let row = vec![CellValue::Unsigned(42)];
    assert_eq!(
        mysql_edit_step(&plan, stage, EditEvent::Fetched(vec![row.clone()])).1,
        EditAction::Done(MutationResult::Inserted { row })
    );
}

#[test]
fn sql_server_savepoint_names_are_hexadecimal() {
    assert_eq!(
        mssql_savepoint_name(0x0123456789abcdef_fedcba9876543210),
        "lazydb_relation_0123456789abcdeffedcba9876543210"
    );
    assert_eq!(mssql_savepoint_name(0), format!("lazydb_relation_{}", "0".repeat(32)));
}

#[test]
fn sql_server_update_conflicts_roll_back_to_the_savepoint() {
    let plan = MsSqlMutationPlan::Update { statement: Ok(statement("UPDATE OUTPUT")) };
    let (stage, action) = mssql_edit_step(&plan, 255, EditStage::Start, EditEvent::Started);
    assert_eq!(stage, EditStage::Savepoint);
    let name = format!("lazydb_relation_{}ff", "0".repeat(30));
    assert_eq!(
        action,
        EditAction::Execute(BoundStatement { sql: format!("SAVE TRANSACTION [{name}]"), binds: vec![] })
    );
    let (stage, action) = mssql_edit_step(&plan, 255, stage, executed(0));
    assert_eq!(stage, EditStage::Read);
    assert_eq!(action, EditAction::FetchAll(statement("UPDATE OUTPUT")));
    assert_eq!(
        mssql_edit_step(&plan, 255, stage, EditEvent::Fetched(vec![])).1,
        EditAction::RollbackAndFail {
            sql: format!("ROLLBACK TRANSACTION [{name}]"),
            error: TransactionError(
                "SQL Server relation mutation conflict: update matched no row".into()
            ),
        }
    );
    let two = vec![vec![CellValue::Null], vec![CellValue::Null]];
    match mssql_edit_step(&plan, 255, stage, EditEvent::Fetched(two)).1 {
        EditAction::RollbackAndFail { error, .. } => assert_eq!(
            error.0,
            "SQL Server relation mutation conflict: update matched multiple rows"
        ),
        other => panic!("unexpected action {other:?}"),
    }
    match mssql_edit_step(&plan, 255, stage, EditEvent::DriverFailed("Cannot update identity column".into())).1 {
        EditAction::Fail(error) => assert!(error
            .0
            .starts_with("SQL Server update relation mutation identity columns cannot be edited explicitly")),
        other => panic!("unexpected action {other:?}"),
    }
}

#[test]
fn sql_server_insert_needs_exactly_one_output_row() {
    let plan = MsSqlMutationPlan::Insert { statement: statement("INSERT OUTPUT") };
    let (stage, action) = mssql_edit_step(&plan, 1, EditStage::Start, EditEvent::Started);
    assert_eq!(action, EditAction::FetchAll(statement("INSERT OUTPUT")));
    assert_eq!(
        mssql_edit_step(&plan, 1, stage, EditEvent::Fetched(vec![])).1,
        fail("SQL Server insert returned no inserted row (possibly an INSTEAD OF trigger)")
    );
    let plan = MsSqlMutationPlan::Delete { statements: vec![Ok(statement("DELETE"))] };
    let (stage, _) = mssql_edit_step(&plan, 1, EditStage::Start, EditEvent::Started);
    let (stage, action) = mssql_edit_step(&plan, 1, stage, executed(0));
    assert_eq!(stage, EditStage::Statement(0));
    assert_eq!(action, EditAction::Execute(statement("DELETE")));
    match mssql_edit_step(&plan, 1, stage, executed(3)).1 {
        EditAction::RollbackAndFail { error, .. } => assert_eq!(
            error.0,
            "SQL Server relation mutation conflict: delete matched no row or multiple rows"
        ),
        other => panic!("unexpected action {other:?}"),
    }
}
