//! Carrying out a planned row edit, one statement at a time.
//!
//! The runner owns the connection: it performs each action it is handed and
//! reports what came back. The step functions here decide, from the plan,
//! where the edit stands and what came back, whether the edit goes on,
//! succeeds, or stops on a conflict: a statement that changed no row or
//! more than one, or a row that can no longer be read back.
use vstd::prelude::*;

use crate::mssql::{ms_mutation_detail, mssql_mutation_error, MsSqlMutationPlan, MsSqlMutationPlanView};
use crate::mutation::MutationResult;
use crate::mysql_edit::{InsertLookup, InsertLookupView, MySqlMutationPlan, MySqlMutationPlanView};
use crate::row_edit::{statement_view, BoundStatement, MutationPlan, MutationPlanView, StatementView};
use crate::text::{owned, push_char, push_str, sanitized};
use crate::transaction::{transaction_error, TransactionError};
use crate::value::{cells_view, CellValue, CellView};

verus! {

/// Where a row edit stands.
#[derive(Clone, Copy, Debug, PartialEq, Eq, Structural)]
pub enum EditStage {
    /// Nothing has run yet.
    Start,
    /// The savepoint statement is running.
    Savepoint,
    /// The statement at this position of the plan is running.
    Statement(usize),
    /// The check that the original row still exists is running.
    Check,
    /// The query that reads the edited row back is running.
    Read,
    /// The edit is over.
    Finished,
}

/// What the runner reports.
#[derive(Debug, PartialEq, Eq)]
pub enum EditEvent {
    /// The edit is to begin.
    Started,
    /// A statement ran: how many rows it changed, and the id the server
    /// generated for an insert (read only by MySQL inserts).
    Executed { rows_affected: u64, last_insert_id: u64 },
    /// A query ran and returned these rows.
    Fetched(Vec<Vec<CellValue>>),
    /// The driver failed with this message.
    DriverFailed(String),
}

pub enum EditEventView {
    Started,
    Executed(u64, u64),
    Fetched(Seq<Seq<CellView>>),
    DriverFailed(Seq<char>),
}

impl View for EditEvent {
    type V = EditEventView;

    open spec fn view(&self) -> EditEventView {
        match *self {
            EditEvent::Started => EditEventView::Started,
            EditEvent::Executed { rows_affected, last_insert_id } => EditEventView::Executed(
                rows_affected,
                last_insert_id,
            ),
            EditEvent::Fetched(rows) => EditEventView::Fetched(
                rows@.map_values(|r: Vec<CellValue>| cells_view(r@)),
            ),
            EditEvent::DriverFailed(m) => EditEventView::DriverFailed(m@),
        }
    }
}

/// What the runner is to do next.
#[derive(Debug, PartialEq, Eq)]
pub enum EditAction {
    /// Run the statement and report how many rows it changed.
    Execute(BoundStatement),
    /// Run the query and report its one row; a missing row is a driver
    /// failure.
    FetchOne(BoundStatement),
    /// Run the query and report its first row, if it has one.
    FetchOptional(BoundStatement),
    /// Run the query and report all its rows.
    FetchAll(BoundStatement),
    /// Run `sql`, whatever it gives, then fail with `error`.
    RollbackAndFail { sql: String, error: TransactionError },
    /// The edit succeeded.
    Done(MutationResult),
    /// The edit failed.
    Fail(TransactionError),
}

pub enum EditActionView {
    Execute(StatementView),
    FetchOne(StatementView),
    FetchOptional(StatementView),
    FetchAll(StatementView),
    RollbackAndFail(Seq<char>, Seq<char>),
    Deleted(usize),
    Inserted(Seq<CellView>),
    Updated(Seq<CellView>),
    Fail(Seq<char>),
}

impl View for EditAction {
    type V = EditActionView;

    open spec fn view(&self) -> EditActionView {
        match *self {
            EditAction::Execute(s) => EditActionView::Execute(statement_view(s)),
            EditAction::FetchOne(s) => EditActionView::FetchOne(statement_view(s)),
            EditAction::FetchOptional(s) => EditActionView::FetchOptional(statement_view(s)),
            EditAction::FetchAll(s) => EditActionView::FetchAll(statement_view(s)),
            EditAction::RollbackAndFail { sql, error } => EditActionView::RollbackAndFail(
                sql@,
                error.0@,
            ),
            EditAction::Done(MutationResult::Deleted { rows }) => EditActionView::Deleted(rows),
            EditAction::Done(MutationResult::Inserted { row }) => EditActionView::Inserted(
                cells_view(row@),
            ),
            EditAction::Done(MutationResult::Updated { row }) => EditActionView::Updated(
                cells_view(row@),
            ),
            EditAction::Fail(e) => EditActionView::Fail(e.0@),
        }
    }
}

pub type StepView = (EditStage, EditActionView);

pub open spec fn step_of(r: (EditStage, EditAction)) -> StepView {
    (r.0, r.1@)
}

/// The answer to an event that does not belong to the stage.
pub open spec fn out_of_order() -> StepView {
    (EditStage::Finished, EditActionView::Fail("row edit step is out of order"@))
}

pub open spec fn fail_with(message: Seq<char>) -> StepView {
    (EditStage::Finished, EditActionView::Fail(message))
}

/// The next delete of a plan, from position `i`: the rows are all deleted
/// once no statement is left; a statement that could not be planned stops
/// the edit.
pub open spec fn delete_issue(statements: Seq<Result<StatementView, Seq<char>>>, i: int) -> StepView {
    if i >= statements.len() {
        (EditStage::Finished, EditActionView::Deleted(statements.len() as usize))
    } else {
        match statements[i] {
            Err(e) => fail_with(e),
            Ok(s) => (EditStage::Statement(i as usize), EditActionView::Execute(s)),
        }
    }
}

/// After the delete at position `i` changed `n` rows: exactly one goes on
/// to the next row, anything else is a conflict.
pub open spec fn delete_after(
    statements: Seq<Result<StatementView, Seq<char>>>,
    i: int,
    n: u64,
    conflict: StepView,
) -> StepView {
    if i >= statements.len() {
        out_of_order()
    } else if n != 1 {
        conflict
    } else {
        delete_issue(statements, i + 1)
    }
}

pub open spec fn pg_conflict() -> Seq<char> {
    "PostgreSQL relation mutation conflict"@
}

pub open spec fn no_row_read_back() -> Seq<char> {
    "row edit read back no row"@
}

/// One step of a PostgreSQL row edit.
pub open spec fn pg_edit_step(plan: MutationPlanView, stage: EditStage, event: EditEventView) -> StepView {
    match event {
        EditEventView::DriverFailed(m) => fail_with(m),
        _ => match plan {
            MutationPlanView::Delete(statements) => match stage {
                EditStage::Start => if event is Started {
                    delete_issue(statements, 0)
                } else {
                    out_of_order()
                },
                EditStage::Statement(i) => match event {
                    EditEventView::Executed(n, _) => delete_after(
                        statements,
                        i as int,
                        n,
                        fail_with(pg_conflict()),
                    ),
                    _ => out_of_order(),
                },
                _ => out_of_order(),
            },
            MutationPlanView::Insert(s) => match stage {
                EditStage::Start => if event is Started {
                    (EditStage::Read, EditActionView::FetchOne(s))
                } else {
                    out_of_order()
                },
                EditStage::Read => match event {
                    EditEventView::Fetched(rows) => if rows.len() > 0 {
                        (EditStage::Finished, EditActionView::Inserted(rows[0]))
                    } else {
                        fail_with(no_row_read_back())
                    },
                    _ => out_of_order(),
                },
                _ => out_of_order(),
            },
            MutationPlanView::Update(u, select) => match stage {
                EditStage::Start => if event is Started {
                    (EditStage::Statement(0), EditActionView::Execute(u))
                } else {
                    out_of_order()
                },
                EditStage::Statement(_) => match event {
                    EditEventView::Executed(n, _) => if n != 1 {
                        fail_with(pg_conflict())
                    } else {
                        match select {
                            Err(e) => fail_with(e),
                            Ok(s) => (EditStage::Read, EditActionView::FetchOptional(s)),
                        }
                    },
                    _ => out_of_order(),
                },
                EditStage::Read => match event {
                    EditEventView::Fetched(rows) => if rows.len() > 0 {
                        (EditStage::Finished, EditActionView::Updated(rows[0]))
                    } else {
                        fail_with(pg_conflict())
                    },
                    _ => out_of_order(),
                },
                _ => out_of_order(),
            },
        },
    }
}

fn clone_statement(s: &BoundStatement) -> (r: BoundStatement)
    ensures
        statement_view(r) == statement_view(*s),
{
    let mut binds: Vec<CellValue> = Vec::new();
    crate::postgres::append_cells(&mut binds, &s.binds);
    assert(cells_view(binds@) =~= cells_view(s.binds@));
    BoundStatement { sql: s.sql.clone(), binds }
}

fn fail_step(message: &str) -> (r: (EditStage, EditAction))
    ensures
        step_of(r) == fail_with(message@),
{
    (EditStage::Finished, EditAction::Fail(transaction_error(message)))
}

fn out_of_order_step() -> (r: (EditStage, EditAction))
    ensures
        step_of(r) == out_of_order(),
{
    fail_step("row edit step is out of order")
}

fn delete_issue_step(statements: &Vec<Result<BoundStatement, TransactionError>>, i: usize) -> (r: (
    EditStage,
    EditAction,
))
    ensures
        step_of(r) == delete_issue(
            statements@.map_values(|r: Result<BoundStatement, TransactionError>| crate::row_edit::step_view(r)),
            i as int,
        ),
{
    if i >= statements.len() {
        return (EditStage::Finished, EditAction::Done(MutationResult::Deleted { rows: statements.len() }));
    }
    match &statements[i] {
        Err(e) => (EditStage::Finished, EditAction::Fail(TransactionError(e.0.clone()))),
        Ok(s) => (EditStage::Statement(i), EditAction::Execute(clone_statement(s))),
    }
}

fn first_row(rows: Vec<Vec<CellValue>>) -> (r: Vec<CellValue>)
    requires
        rows@.len() > 0,
    ensures
        cells_view(r@) == cells_view(rows@[0]@),
{
    let mut rows = rows;
    rows.remove(0)
}

/// One step of a PostgreSQL row edit: deletes must each change exactly one
/// row; an insert reads back the row it returns; an update must change
/// exactly one row, which is then read back by its locator.
pub fn postgres_edit_step(plan: &MutationPlan, stage: EditStage, event: EditEvent) -> (r: (
    EditStage,
    EditAction,
))
    ensures
        step_of(r) == pg_edit_step(plan@, stage, event@),
{
    match event {
        EditEvent::DriverFailed(m) => {
            return (EditStage::Finished, EditAction::Fail(TransactionError(m)));
        },
        _ => {},
    }
    match plan {
        MutationPlan::Delete { statements } => match stage {
            EditStage::Start => match event {
                EditEvent::Started => delete_issue_step(statements, 0),
                _ => out_of_order_step(),
            },
            EditStage::Statement(i) => match event {
                EditEvent::Executed { rows_affected, last_insert_id: _ } => {
                    if i >= statements.len() {
                        out_of_order_step()
                    } else if rows_affected != 1 {
                        fail_step("PostgreSQL relation mutation conflict")
                    } else {
                        delete_issue_step(statements, i + 1)
                    }
                },
                _ => out_of_order_step(),
            },
            _ => out_of_order_step(),
        },
        MutationPlan::Insert { statement } => match stage {
            EditStage::Start => match event {
                EditEvent::Started => (EditStage::Read, EditAction::FetchOne(clone_statement(statement))),
                _ => out_of_order_step(),
            },
            EditStage::Read => match event {
                EditEvent::Fetched(rows) => {
                    if rows.len() > 0 {
                        let row = first_row(rows);
                        (EditStage::Finished, EditAction::Done(MutationResult::Inserted { row }))
                    } else {
                        fail_step("row edit read back no row")
                    }
                },
                _ => out_of_order_step(),
            },
            _ => out_of_order_step(),
        },
        MutationPlan::Update { update, select } => match stage {
            EditStage::Start => match event {
                EditEvent::Started => (EditStage::Statement(0), EditAction::Execute(clone_statement(update))),
                _ => out_of_order_step(),
            },
            EditStage::Statement(_) => match event {
                EditEvent::Executed { rows_affected, last_insert_id: _ } => {
                    if rows_affected != 1 {
                        fail_step("PostgreSQL relation mutation conflict")
                    } else {
                        match select {
                            Err(e) => (EditStage::Finished, EditAction::Fail(TransactionError(e.0.clone()))),
                            Ok(s) => (EditStage::Read, EditAction::FetchOptional(clone_statement(s))),
                        }
                    }
                },
                _ => out_of_order_step(),
            },
            EditStage::Read => match event {
                EditEvent::Fetched(rows) => {
                    if rows.len() > 0 {
                        let row = first_row(rows);
                        (EditStage::Finished, EditAction::Done(MutationResult::Updated { row }))
                    } else {
                        fail_step("PostgreSQL relation mutation conflict")
                    }
                },
                _ => out_of_order_step(),
            },
            _ => out_of_order_step(),
        },
    }
}

pub open spec fn my_conflict() -> Seq<char> {
    "MySQL relation mutation conflict"@
}

/// One step of a MySQL row edit.
pub open spec fn my_edit_step(plan: MySqlMutationPlanView, stage: EditStage, event: EditEventView) -> StepView {
    match event {
        EditEventView::DriverFailed(m) => fail_with(m),
        _ => match plan {
            MySqlMutationPlanView::Delete(statements) => match stage {
                EditStage::Start => if event is Started {
                    delete_issue(statements, 0)
                } else {
                    out_of_order()
                },
                EditStage::Statement(i) => match event {
                    EditEventView::Executed(n, _) => delete_after(
                        statements,
                        i as int,
                        n,
                        fail_with(my_conflict()),
                    ),
                    _ => out_of_order(),
                },
                _ => out_of_order(),
            },
            MySqlMutationPlanView::Insert(insert, lookup) => match stage {
                EditStage::Start => if event is Started {
                    (EditStage::Statement(0), EditActionView::Execute(insert))
                } else {
                    out_of_order()
                },
                EditStage::Statement(_) => match event {
                    EditEventView::Executed(_, id) => match lookup {
                        Err(e) => fail_with(e),
                        Ok(InsertLookupView::Bound(s)) => (EditStage::Read, EditActionView::FetchOne(s)),
                        Ok(InsertLookupView::LastInsertId(sql)) => (
                            EditStage::Read,
                            EditActionView::FetchOne((sql, seq![CellView::Unsigned(id)])),
                        ),
                    },
                    _ => out_of_order(),
                },
                EditStage::Read => match event {
                    EditEventView::Fetched(rows) => if rows.len() > 0 {
                        (EditStage::Finished, EditActionView::Inserted(rows[0]))
                    } else {
                        fail_with(no_row_read_back())
                    },
                    _ => out_of_order(),
                },
                _ => out_of_order(),
            },
            MySqlMutationPlanView::Update(update, check, select) => match stage {
                EditStage::Start => if event is Started {
                    (EditStage::Statement(0), EditActionView::Execute(update))
                } else {
                    out_of_order()
                },
                EditStage::Statement(_) => match event {
                    EditEventView::Executed(n, _) => if n > 1 {
                        fail_with("MySQL relation mutation matched multiple rows"@)
                    } else if n == 0 {
                        (EditStage::Check, EditActionView::FetchOptional(check))
                    } else {
                        (EditStage::Read, EditActionView::FetchOptional(select))
                    },
                    _ => out_of_order(),
                },
                EditStage::Check => match event {
                    EditEventView::Fetched(rows) => if rows.len() > 0 {
                        (EditStage::Read, EditActionView::FetchOptional(select))
                    } else {
                        fail_with(my_conflict())
                    },
                    _ => out_of_order(),
                },
                EditStage::Read => match event {
                    EditEventView::Fetched(rows) => if rows.len() > 0 {
                        (EditStage::Finished, EditActionView::Updated(rows[0]))
                    } else {
                        fail_with(my_conflict())
                    },
                    _ => out_of_order(),
                },
                _ => out_of_order(),
            },
        },
    }
}

/// One step of a MySQL row edit: deletes must each change exactly one row;
/// an insert reads its row back by the generated id or by the values it
/// wrote; an update may change no row only when the row still holds what
/// was read (MySQL counts an update that writes the same value as
/// changing nothing), and the row is then read back.
pub fn mysql_edit_step(plan: &MySqlMutationPlan, stage: EditStage, event: EditEvent) -> (r: (
    EditStage,
    EditAction,
))
    ensures
        step_of(r) == my_edit_step(plan@, stage, event@),
{
    match event {
        EditEvent::DriverFailed(m) => {
            return (EditStage::Finished, EditAction::Fail(TransactionError(m)));
        },
        _ => {},
    }
    match plan {
        MySqlMutationPlan::Delete { statements } => match stage {
            EditStage::Start => match event {
                EditEvent::Started => delete_issue_step(statements, 0),
                _ => out_of_order_step(),
            },
            EditStage::Statement(i) => match event {
                EditEvent::Executed { rows_affected, last_insert_id: _ } => {
                    if i >= statements.len() {
                        out_of_order_step()
                    } else if rows_affected != 1 {
                        fail_step("MySQL relation mutation conflict")
                    } else {
                        delete_issue_step(statements, i + 1)
                    }
                },
                _ => out_of_order_step(),
            },
            _ => out_of_order_step(),
        },
        MySqlMutationPlan::Insert { insert, lookup } => match stage {
            EditStage::Start => match event {
                EditEvent::Started => (EditStage::Statement(0), EditAction::Execute(clone_statement(insert))),
                _ => out_of_order_step(),
            },
            EditStage::Statement(_) => match event {
                EditEvent::Executed { rows_affected: _, last_insert_id } => match lookup {
                    Err(e) => (EditStage::Finished, EditAction::Fail(TransactionError(e.0.clone()))),
                    Ok(InsertLookup::Bound(s)) => (EditStage::Read, EditAction::FetchOne(clone_statement(s))),
                    Ok(InsertLookup::LastInsertId(sql)) => {
                        let binds = vec![CellValue::Unsigned(last_insert_id)];
                        assert(cells_view(binds@) =~= seq![CellView::Unsigned(last_insert_id)]);
                        (EditStage::Read, EditAction::FetchOne(BoundStatement { sql: sql.clone(), binds }))
                    },
                },
                _ => out_of_order_step(),
            },
            EditStage::Read => match event {
                EditEvent::Fetched(rows) => {
                    if rows.len() > 0 {
                        let row = first_row(rows);
                        (EditStage::Finished, EditAction::Done(MutationResult::Inserted { row }))
                    } else {
                        fail_step("row edit read back no row")
                    }
                },
                _ => out_of_order_step(),
            },
            _ => out_of_order_step(),
        },
        MySqlMutationPlan::Update { update, original_check, select } => match stage {
            EditStage::Start => match event {
                EditEvent::Started => (EditStage::Statement(0), EditAction::Execute(clone_statement(update))),
                _ => out_of_order_step(),
            },
            EditStage::Statement(_) => match event {
                EditEvent::Executed { rows_affected, last_insert_id: _ } => {
                    if rows_affected > 1 {
                        fail_step("MySQL relation mutation matched multiple rows")
                    } else if rows_affected == 0 {
                        (EditStage::Check, EditAction::FetchOptional(clone_statement(original_check)))
                    } else {
                        (EditStage::Read, EditAction::FetchOptional(clone_statement(select)))
                    }
                },
                _ => out_of_order_step(),
            },
            EditStage::Check => match event {
                EditEvent::Fetched(rows) => {
                    if rows.len() > 0 {
                        (EditStage::Read, EditAction::FetchOptional(clone_statement(select)))
                    } else {
                        fail_step("MySQL relation mutation conflict")
                    }
                },
                _ => out_of_order_step(),
            },
            EditStage::Read => match event {
                EditEvent::Fetched(rows) => {
                    if rows.len() > 0 {
                        let row = first_row(rows);
                        (EditStage::Finished, EditAction::Done(MutationResult::Updated { row }))
                    } else {
                        fail_step("MySQL relation mutation conflict")
                    }
                },
                _ => out_of_order_step(),
            },
            _ => out_of_order_step(),
        },
    }
}

/// The lower-case hexadecimal digit of `d`.
pub open spec fn hex_digit(d: int) -> char {
    seq!['0', '1', '2', '3', '4', '5', '6', '7', '8', '9', 'a', 'b', 'c', 'd', 'e', 'f'][d]
}

/// The `k`-th four bits of `id`, counted from the most significant.
pub open spec fn nibble(id: u128, k: int) -> int {
    ((id >> ((124 - 4 * k) as u128)) & 15u128) as int
}

/// The name of the savepoint a SQL Server row edit rolls back to: a fixed
/// prefix, then the 32 lower-case hexadecimal digits of `id`.
pub open spec fn ms_savepoint_name(id: u128) -> Seq<char> {
    "lazydb_relation_"@ + Seq::new(32, |k: int| hex_digit(nibble(id, k)))
}

/// The name of the savepoint of a SQL Server row edit whose random id is
/// `id`.
pub fn mssql_savepoint_name(id: u128) -> (r: String)
    ensures
        r@ == ms_savepoint_name(id),
{
    let digits = vec!['0', '1', '2', '3', '4', '5', '6', '7', '8', '9', 'a', 'b', 'c', 'd', 'e', 'f'];
    let mut name = owned("lazydb_relation_");
    let ghost prefix = name@;
    let mut k: usize = 0;
    while k < 32
        invariant
            k <= 32,
            digits@ == seq!['0', '1', '2', '3', '4', '5', '6', '7', '8', '9', 'a', 'b', 'c', 'd', 'e', 'f'],
            prefix == "lazydb_relation_"@,
            name@ == prefix + Seq::new(k as nat, |j: int| hex_digit(nibble(id, j))),
        decreases 32 - k,
    {
        let shift: u128 = (124 - 4 * k) as u128;
        let d: u128 = (id >> shift) & 15u128;
        assert(d < 16) by (bit_vector)
            requires
                d == (id >> shift) & 15u128,
        ;
        assert(d as int == nibble(id, k as int));
        push_char(&mut name, digits[d as usize]);
        k = k + 1;
        assert(name@ =~= prefix + Seq::new(k as nat, |j: int| hex_digit(nibble(id, j))));
    }
    name
}

/// The statement that sets the savepoint of a SQL Server row edit.
pub open spec fn ms_save_sql(id: u128) -> Seq<char> {
    "SAVE TRANSACTION ["@ + ms_savepoint_name(id) + "]"@
}

/// The statement that rolls a SQL Server row edit back to its savepoint.
pub open spec fn ms_rollback_sql(id: u128) -> Seq<char> {
    "ROLLBACK TRANSACTION ["@ + ms_savepoint_name(id) + "]"@
}

/// The error of a SQL Server row edit whose driver failed with `m`.
pub open spec fn ms_driver_failure(operation: Seq<char>, m: Seq<char>) -> Seq<char> {
    sanitized("SQL Server "@ + operation + " relation mutation "@ + ms_mutation_detail(m) + ": "@ + m)
}

pub open spec fn ms_operation(plan: MsSqlMutationPlanView) -> Seq<char> {
    match plan {
        MsSqlMutationPlanView::Delete(_) => "delete"@,
        MsSqlMutationPlanView::Insert(_) => "insert"@,
        MsSqlMutationPlanView::Update(_) => "update"@,
    }
}

/// One step of a SQL Server row edit whose savepoint id is `savepoint`.
pub open spec fn ms_edit_step(
    plan: MsSqlMutationPlanView,
    savepoint: u128,
    stage: EditStage,
    event: EditEventView,
) -> StepView {
    let save = (ms_save_sql(savepoint), Seq::<CellView>::empty());
    let rollback = |message: Seq<char>|
        (EditStage::Finished, EditActionView::RollbackAndFail(ms_rollback_sql(savepoint), message));
    match event {
        EditEventView::DriverFailed(m) => fail_with(ms_driver_failure(ms_operation(plan), m)),
        _ => match plan {
            MsSqlMutationPlanView::Delete(statements) => match stage {
                EditStage::Start => if event is Started {
                    (EditStage::Savepoint, EditActionView::Execute(save))
                } else {
                    out_of_order()
                },
                EditStage::Savepoint => if event is Executed {
                    delete_issue(statements, 0)
                } else {
                    out_of_order()
                },
                EditStage::Statement(i) => match event {
                    EditEventView::Executed(n, _) => delete_after(
                        statements,
                        i as int,
                        n,
                        rollback(
                            "SQL Server relation mutation conflict: delete matched no row or multiple rows"@,
                        ),
                    ),
                    _ => out_of_order(),
                },
                _ => out_of_order(),
            },
            MsSqlMutationPlanView::Insert(s) => match stage {
                EditStage::Start => if event is Started {
                    (EditStage::Read, EditActionView::FetchAll(s))
                } else {
                    out_of_order()
                },
                EditStage::Read => match event {
                    EditEventView::Fetched(rows) => if rows.len() == 1 {
                        (EditStage::Finished, EditActionView::Inserted(rows[0]))
                    } else if rows.len() == 0 {
                        fail_with(
                            "SQL Server insert returned no inserted row (possibly an INSTEAD OF trigger)"@,
                        )
                    } else {
                        fail_with("SQL Server insert returned multiple rows unexpectedly"@)
                    },
                    _ => out_of_order(),
                },
                _ => out_of_order(),
            },
            MsSqlMutationPlanView::Update(statement) => match stage {
                EditStage::Start => if event is Started {
                    (EditStage::Savepoint, EditActionView::Execute(save))
                } else {
                    out_of_order()
                },
                EditStage::Savepoint => if event is Executed {
                    match statement {
                        Err(e) => fail_with(e),
                        Ok(s) => (EditStage::Read, EditActionView::FetchAll(s)),
                    }
                } else {
                    out_of_order()
                },
                EditStage::Read => match event {
                    EditEventView::Fetched(rows) => if rows.len() == 1 {
                        (EditStage::Finished, EditActionView::Updated(rows[0]))
                    } else if rows.len() == 0 {
                        rollback("SQL Server relation mutation conflict: update matched no row"@)
                    } else {
                        rollback("SQL Server relation mutation conflict: update matched multiple rows"@)
                    },
                    _ => out_of_order(),
                },
                _ => out_of_order(),
            },
        },
    }
}

fn bracketed(head: &str, name: &String) -> (r: String)
    ensures
        r@ == head@ + name@ + "]"@,
{
    let mut s = owned(head);
    push_str(&mut s, name.as_str());
    push_str(&mut s, "]");
    s
}

fn ms_rollback_step(name: &String, message: &str) -> (r: (EditStage, EditAction))
    ensures
        step_of(r) == (
            EditStage::Finished,
            EditActionView::RollbackAndFail("ROLLBACK TRANSACTION ["@ + name@ + "]"@, message@),
        ),
{
    (
        EditStage::Finished,
        EditAction::RollbackAndFail {
            sql: bracketed("ROLLBACK TRANSACTION [", name),
            error: transaction_error(message),
        },
    )
}

/// One step of a SQL Server row edit whose savepoint id is `savepoint`:
/// deletes and updates first set the savepoint; each delete must change
/// exactly one row, and an update must output exactly one row, or the edit
/// rolls back to the savepoint; an insert must output exactly one row.
/// A driver failure is explained by the kind of column that refused the
/// edit.
pub fn mssql_edit_step(
    plan: &MsSqlMutationPlan,
    savepoint: u128,
    stage: EditStage,
    event: EditEvent,
) -> (r: (EditStage, EditAction))
    ensures
        step_of(r) == ms_edit_step(plan@, savepoint, stage, event@),
{
    let operation = match plan {
        MsSqlMutationPlan::Delete { .. } => "delete",
        MsSqlMutationPlan::Insert { .. } => "insert",
        MsSqlMutationPlan::Update { .. } => "update",
    };
    match event {
        EditEvent::DriverFailed(m) => {
            return (EditStage::Finished, EditAction::Fail(mssql_mutation_error(operation, m.as_str())));
        },
        _ => {},
    }
    let name = mssql_savepoint_name(savepoint);
    let ghost save_view = (ms_save_sql(savepoint), Seq::<CellView>::empty());
    match plan {
        MsSqlMutationPlan::Delete { statements } => match stage {
            EditStage::Start => match event {
                EditEvent::Started => {
                    let save = BoundStatement { sql: bracketed("SAVE TRANSACTION [", &name), binds: Vec::new() };
                    assert(statement_view(save) =~= save_view);
                    (EditStage::Savepoint, EditAction::Execute(save))
                },
                _ => out_of_order_step(),
            },
            EditStage::Savepoint => match event {
                EditEvent::Executed { .. } => delete_issue_step(statements, 0),
                _ => out_of_order_step(),
            },
            EditStage::Statement(i) => match event {
                EditEvent::Executed { rows_affected, last_insert_id: _ } => {
                    if i >= statements.len() {
                        out_of_order_step()
                    } else if rows_affected != 1 {
                        ms_rollback_step(
                            &name,
                            "SQL Server relation mutation conflict: delete matched no row or multiple rows",
                        )
                    } else {
                        delete_issue_step(statements, i + 1)
                    }
                },
                _ => out_of_order_step(),
            },
            _ => out_of_order_step(),
        },
        MsSqlMutationPlan::Insert { statement } => match stage {
            EditStage::Start => match event {
                EditEvent::Started => (EditStage::Read, EditAction::FetchAll(clone_statement(statement))),
                _ => out_of_order_step(),
            },
            EditStage::Read => match event {
                EditEvent::Fetched(rows) => {
                    if rows.len() == 1 {
                        let row = first_row(rows);
                        (EditStage::Finished, EditAction::Done(MutationResult::Inserted { row }))
                    } else if rows.len() == 0 {
                        fail_step(
                            "SQL Server insert returned no inserted row (possibly an INSTEAD OF trigger)",
                        )
                    } else {
                        fail_step("SQL Server insert returned multiple rows unexpectedly")
                    }
                },
                _ => out_of_order_step(),
            },
            _ => out_of_order_step(),
        },
        MsSqlMutationPlan::Update { statement } => match stage {
            EditStage::Start => match event {
                EditEvent::Started => {
                    let save = BoundStatement { sql: bracketed("SAVE TRANSACTION [", &name), binds: Vec::new() };
                    assert(statement_view(save) =~= save_view);
                    (EditStage::Savepoint, EditAction::Execute(save))
                },
                _ => out_of_order_step(),
            },
            EditStage::Savepoint => match event {
                EditEvent::Executed { .. } => match statement {
                    Err(e) => (EditStage::Finished, EditAction::Fail(TransactionError(e.0.clone()))),
                    Ok(s) => (EditStage::Read, EditAction::FetchAll(clone_statement(s))),
                },
                _ => out_of_order_step(),
            },
            EditStage::Read => match event {
                EditEvent::Fetched(rows) => {
                    if rows.len() == 1 {
                        let row = first_row(rows);
                        (EditStage::Finished, EditAction::Done(MutationResult::Updated { row }))
                    } else if rows.len() == 0 {
                        ms_rollback_step(&name, "SQL Server relation mutation conflict: update matched no row")
                    } else {
                        ms_rollback_step(
                            &name,
                            "SQL Server relation mutation conflict: update matched multiple rows",
                        )
                    }
                },
                _ => out_of_order_step(),
            },
            _ => out_of_order_step(),
        },
    }
}

} // verus!
