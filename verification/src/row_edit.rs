//! Statements that carry out a row edit, planned before they run.
use vstd::prelude::*;

use crate::transaction::TransactionError;
use crate::value::{cells_view, CellValue, CellView};

verus! {

/// A statement with the values bound to its parameters, in order.
#[derive(Clone, Debug, PartialEq, Eq)]
pub struct BoundStatement {
    pub sql: String,
    pub binds: Vec<CellValue>,
}

/// The statements of a row edit, in the order they run:
/// - `Delete`: one statement per row, each of which must delete exactly one
///   row; a row that cannot be deleted stops the edit there.
/// - `Insert`: one statement returning the inserted row.
/// - `Update`: a statement that must change exactly one row, then a query
///   that reads it back, or why it cannot be read back.
#[derive(Debug, PartialEq, Eq)]
pub enum MutationPlan {
    Delete { statements: Vec<Result<BoundStatement, TransactionError>> },
    Insert { statement: BoundStatement },
    Update { update: BoundStatement, select: Result<BoundStatement, TransactionError> },
}

/// A bound statement by value.
pub type StatementView = (Seq<char>, Seq<CellView>);

pub open spec fn statement_view(s: BoundStatement) -> StatementView {
    (s.sql@, cells_view(s.binds@))
}

pub open spec fn step_view(r: Result<BoundStatement, TransactionError>) -> Result<
    StatementView,
    Seq<char>,
> {
    match r {
        Ok(s) => Ok(statement_view(s)),
        Err(e) => Err(e.0@),
    }
}

/// A plan by value.
pub enum MutationPlanView {
    Delete(Seq<Result<StatementView, Seq<char>>>),
    Insert(StatementView),
    Update(StatementView, Result<StatementView, Seq<char>>),
}

impl View for MutationPlan {
    type V = MutationPlanView;

    open spec fn view(&self) -> MutationPlanView {
        match *self {
            MutationPlan::Delete { statements } => MutationPlanView::Delete(
                statements@.map_values(|r: Result<BoundStatement, TransactionError>| step_view(r)),
            ),
            MutationPlan::Insert { statement } => MutationPlanView::Insert(
                statement_view(statement),
            ),
            MutationPlan::Update { update, select } => MutationPlanView::Update(
                statement_view(update),
                step_view(select),
            ),
        }
    }
}

pub open spec fn plan_view(r: Result<MutationPlan, TransactionError>) -> Result<
    MutationPlanView,
    Seq<char>,
> {
    match r {
        Ok(p) => Ok(p@),
        Err(e) => Err(e.0@),
    }
}

} // verus!
