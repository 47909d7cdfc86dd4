//! Query results, their statistics and the row budget that bounds them.
use vstd::prelude::*;

use std::time::Duration;

use crate::value::CellValue;

verus! {

/// The most rows a relation preview shows.
pub const RELATION_PREVIEW_LIMIT: usize = 500;

#[derive(Clone, Debug, PartialEq, Eq)]
pub struct ColumnMeta {
    pub name: String,
    pub data_type: String,
}

/// The columns and rows of one statement's result.
#[derive(Clone, Debug, Default, PartialEq, Eq)]
pub struct ResultSet {
    pub columns: Vec<ColumnMeta>,
    pub rows: Vec<Vec<CellValue>>,
    pub affected_rows: u64,
}

/// The length of a `Duration`, in nanoseconds.
pub uninterp spec fn duration_nanos(d: Duration) -> u128;

/// The longest `Duration`: `u64::MAX` seconds and 999 999 999 nanoseconds.
pub open spec fn max_duration_nanos() -> int {
    18446744073709551615int * 1000000000int + 999999999int
}

/// `Duration::checked_add`: the sum, or `None` where it would exceed the
/// longest `Duration`. A `Duration` holds whole seconds in a `u64` and the
/// nanoseconds below one second, so it measures up to `max_duration_nanos`.
#[verifier::external_body]
fn duration_checked_add(a: Duration, b: Duration) -> (r: Option<Duration>)
    ensures
        duration_nanos(a) + duration_nanos(b) <= max_duration_nanos() <==> r is Some,
        r matches Some(d) ==> duration_nanos(d) == duration_nanos(a) + duration_nanos(b),
{
    a.checked_add(b)
}

/// How long a statement took to start answering and to deliver its rows.
#[derive(Debug, PartialEq, Eq)]
pub struct QueryStats {
    pub execution: Duration,
    pub fetch: Duration,
    pub row_count: usize,
    pub fetched_row_count: usize,
    pub truncated: bool,
}

impl Clone for QueryStats {
    fn clone(&self) -> (r: Self)
        ensures
            r == *self,
    {
        QueryStats {
            execution: self.execution,
            fetch: self.fetch,
            row_count: self.row_count,
            fetched_row_count: self.fetched_row_count,
            truncated: self.truncated,
        }
    }
}

impl QueryStats {
    /// Statistics for a result of `row_count` rows, all of them kept.
    pub fn new(execution: Duration, fetch: Duration, row_count: usize) -> (r: Self)
        ensures
            r == (QueryStats {
                execution,
                fetch,
                row_count,
                fetched_row_count: row_count,
                truncated: false,
            }),
    {
        QueryStats { execution, fetch, row_count, fetched_row_count: row_count, truncated: false }
    }

    /// Execution and fetch time together.
    pub fn total(&self) -> (r: Duration)
        requires
            duration_nanos(self.execution) + duration_nanos(self.fetch) <= max_duration_nanos(),
        ensures
            duration_nanos(r) == duration_nanos(self.execution) + duration_nanos(self.fetch),
    {
        match duration_checked_add(self.execution, self.fetch) {
            Some(d) => d,
            None => self.execution,
        }
    }

    /// Execution and fetch time together, or `None` where the sum is longer
    /// than the longest `Duration`.
    pub fn checked_total(&self) -> (r: Option<Duration>)
        ensures
            r is Some <==> duration_nanos(self.execution) + duration_nanos(self.fetch)
                <= max_duration_nanos(),
            r matches Some(d) ==> duration_nanos(d) == duration_nanos(self.execution)
                + duration_nanos(self.fetch),
    {
        duration_checked_add(self.execution, self.fetch)
    }
}

/// The most rows and bytes a query result may keep.
#[derive(Clone, Copy, Debug, PartialEq, Eq, Structural)]
pub struct QueryBudget {
    pub max_rows: usize,
    pub max_bytes: usize,
}

impl QueryBudget {
    /// A budget that keeps everything.
    pub fn unbounded() -> (r: Self)
        ensures
            r.max_rows == usize::MAX,
            r.max_bytes == usize::MAX,
    {
        QueryBudget { max_rows: usize::MAX, max_bytes: usize::MAX }
    }
}

/// The results of running a script, and how it went.
#[derive(Clone, Debug, PartialEq, Eq)]
pub struct QueryOutcome {
    pub result_sets: Vec<ResultSet>,
    pub stats: QueryStats,
}

impl QueryOutcome {
    /// The outcome of a statement that produced `result_set`.
    pub fn from_result_set(result_set: ResultSet, execution: Duration, fetch: Duration) -> (r: Self)
        ensures
            r.result_sets@ == seq![result_set],
            r.stats == (QueryStats {
                execution,
                fetch,
                row_count: result_set.rows@.len() as usize,
                fetched_row_count: result_set.rows@.len() as usize,
                truncated: false,
            }),
    {
        let row_count = result_set.rows.len();
        let mut result_sets: Vec<ResultSet> = Vec::new();
        result_sets.push(result_set);
        QueryOutcome { result_sets, stats: QueryStats::new(execution, fetch, row_count) }
    }
}


/// A result set with its vectors seen as sequences.
pub struct ResultSetView {
    pub columns: Seq<ColumnMeta>,
    pub rows: Seq<Vec<CellValue>>,
    pub affected_rows: u64,
}

impl View for ResultSet {
    type V = ResultSetView;

    open spec fn view(&self) -> ResultSetView {
        ResultSetView { columns: self.columns@, rows: self.rows@, affected_rows: self.affected_rows }
    }
}

/// The number of rows the result sets hold together.
pub open spec fn total_rows(sets: Seq<ResultSetView>) -> nat
    decreases sets.len(),
{
    if sets.len() == 0 {
        0
    } else {
        total_rows(sets.drop_last()) + sets.last().rows.len()
    }
}

pub open spec fn saturating_add(a: usize, b: usize) -> usize {
    if a + b > usize::MAX {
        usize::MAX
    } else {
        (a + b) as usize
    }
}

pub open spec fn views_of(sets: Seq<ResultSet>) -> Seq<ResultSetView> {
    sets.map_values(|r: ResultSet| r@)
}

/// `Duration::saturating_sub`: the difference, or zero where it would be
/// negative.
#[verifier::external_body]
fn duration_saturating_sub(a: Duration, b: Duration) -> (r: Duration)
    ensures
        duration_nanos(r) == (if duration_nanos(a) >= duration_nanos(b) {
            duration_nanos(a) - duration_nanos(b)
        } else {
            0
        }),
{
    a.saturating_sub(b)
}

/// Collects the rows and results of a statement stream, keeping rows while
/// the budget allows and counting every row the stream delivers.
pub struct QueryOutcomeAccumulator {
    result_sets: Vec<ResultSet>,
    current: Option<ResultSet>,
    budget: QueryBudget,
    retained_rows: usize,
    retained_bytes: usize,
    fetched_rows: usize,
    truncated: bool,
}

/// What an accumulator holds.
pub struct AccumulatorView {
    pub result_sets: Seq<ResultSetView>,
    pub current: Option<ResultSetView>,
    pub budget: QueryBudget,
    pub retained_rows: usize,
    pub retained_bytes: usize,
    pub fetched_rows: usize,
    pub truncated: bool,
}

pub open spec fn current_rows(c: Option<ResultSetView>) -> nat {
    match c {
        Some(r) => r.rows.len(),
        None => 0,
    }
}

/// The rows held are no more than the rows kept, which stay within the budget.
pub open spec fn accumulator_wf(v: AccumulatorView) -> bool {
    &&& total_rows(v.result_sets) + current_rows(v.current) <= v.retained_rows
    &&& v.retained_rows <= v.budget.max_rows
    &&& v.budget.max_bytes != usize::MAX ==> v.retained_bytes <= v.budget.max_bytes
}

/// Whether a row of `row_bytes` bytes still fits the budget.
pub open spec fn fits(v: AccumulatorView, row_bytes: usize) -> bool {
    let bytes = if v.budget.max_bytes == usize::MAX { 0 } else { row_bytes };
    v.retained_rows < v.budget.max_rows && (v.budget.max_bytes == usize::MAX || saturating_add(
        v.retained_bytes,
        bytes,
    ) <= v.budget.max_bytes)
}

/// The accumulator after one row event. The first row opens a result with
/// its columns; once a row did not fit, no later row is kept.
pub open spec fn row_step(
    v: AccumulatorView,
    columns: Seq<ColumnMeta>,
    row: Vec<CellValue>,
    row_bytes: usize,
) -> AccumulatorView {
    let fetched = saturating_add(v.fetched_rows, 1);
    let cur = match v.current {
        Some(c) => c,
        None => ResultSetView { columns, rows: Seq::empty(), affected_rows: 0 },
    };
    if v.truncated {
        AccumulatorView { fetched_rows: fetched, current: Some(cur), ..v }
    } else if !fits(v, row_bytes) {
        AccumulatorView { fetched_rows: fetched, current: Some(cur), truncated: true, ..v }
    } else {
        let bytes = if v.budget.max_bytes == usize::MAX { 0 } else { row_bytes };
        AccumulatorView {
            fetched_rows: fetched,
            current: Some(ResultSetView { rows: cur.rows.push(row), ..cur }),
            retained_rows: (v.retained_rows + 1) as usize,
            retained_bytes: saturating_add(v.retained_bytes, bytes),
            ..v
        }
    }
}

/// The accumulator after a statement finished with `affected_rows`.
pub open spec fn done_step(v: AccumulatorView, affected_rows: u64) -> AccumulatorView {
    let cur = match v.current {
        Some(c) => c,
        None => ResultSetView { columns: Seq::empty(), rows: Seq::empty(), affected_rows: 0 },
    };
    AccumulatorView {
        result_sets: v.result_sets.push(ResultSetView { affected_rows, ..cur }),
        current: None,
        ..v
    }
}

/// The result sets an accumulator finishes with.
pub open spec fn finished_sets(v: AccumulatorView) -> Seq<ResultSetView> {
    match v.current {
        Some(c) => v.result_sets.push(c),
        None => v.result_sets,
    }
}

proof fn lemma_total_rows_push(sets: Seq<ResultSetView>, r: ResultSetView)
    ensures
        total_rows(sets.push(r)) == total_rows(sets) + r.rows.len(),
{
    assert(sets.push(r).drop_last() =~= sets);
}

proof fn lemma_total_rows_prefix(sets: Seq<ResultSetView>, i: int)
    requires
        0 <= i <= sets.len(),
    ensures
        total_rows(sets.subrange(0, i)) <= total_rows(sets),
    decreases sets.len() - i,
{
    if i < sets.len() {
        lemma_total_rows_prefix(sets, i + 1);
        assert(sets.subrange(0, i + 1).drop_last() =~= sets.subrange(0, i));
    } else {
        assert(sets.subrange(0, i) =~= sets);
    }
}

pub open spec fn opt_result_view(c: Option<ResultSet>) -> Option<ResultSetView> {
    match c {
        Some(c) => Some(c@),
        None => None,
    }
}

impl View for QueryOutcomeAccumulator {
    type V = AccumulatorView;

    closed spec fn view(&self) -> AccumulatorView {
        AccumulatorView {
            result_sets: views_of(self.result_sets@),
            current: opt_result_view(self.current),
            budget: self.budget,
            retained_rows: self.retained_rows,
            retained_bytes: self.retained_bytes,
            fetched_rows: self.fetched_rows,
            truncated: self.truncated,
        }
    }
}

fn sat_add(a: usize, b: usize) -> (r: usize)
    ensures
        r == saturating_add(a, b),
{
    if a > usize::MAX - b {
        usize::MAX
    } else {
        a + b
    }
}

impl QueryOutcomeAccumulator {
    #[verifier::type_invariant]
    spec fn within_budget(self) -> bool {
        accumulator_wf(self@)
    }

    /// An empty accumulator under `budget`.
    pub fn with_budget(budget: QueryBudget) -> (r: Self)
        ensures
            r@ == (AccumulatorView {
                result_sets: Seq::empty(),
                current: None,
                budget,
                retained_rows: 0,
                retained_bytes: 0,
                fetched_rows: 0,
                truncated: false,
            }),
    {
        let ghost empty: Seq<ResultSet> = Seq::empty();
        assert(views_of(empty) =~= Seq::<ResultSetView>::empty());
        QueryOutcomeAccumulator {
            result_sets: Vec::new(),
            current: None,
            budget,
            retained_rows: 0,
            retained_bytes: 0,
            fetched_rows: 0,
            truncated: false,
        }
    }

    /// One row of the current statement, of `row_bytes` bytes when
    /// serialized; the caller measures the bytes only under a byte budget.
    pub fn row(&mut self, columns: Vec<ColumnMeta>, row: Vec<CellValue>, row_bytes: usize)
        ensures
            final(self)@ == row_step(old(self)@, columns@, row, row_bytes),
    {
        let mut me = QueryOutcomeAccumulator::with_budget(self.budget);
        std::mem::swap(self, &mut me);
        proof {
            use_type_invariant(&me);
        }
        let ghost v = me@;
        let QueryOutcomeAccumulator {
            result_sets,
            current,
            budget,
            retained_rows,
            retained_bytes,
            fetched_rows,
            truncated,
        } = me;
        let fetched_rows = sat_add(fetched_rows, 1);
        let mut cur = match current {
            Some(c) => c,
            None => ResultSet { columns, rows: Vec::new(), affected_rows: 0 },
        };
        let bytes = if budget.max_bytes == usize::MAX {
            0
        } else {
            row_bytes
        };
        let retain = !truncated && retained_rows < budget.max_rows && (budget.max_bytes
            == usize::MAX || sat_add(retained_bytes, bytes) <= budget.max_bytes);
        if retain {
            cur.rows.push(row);
            *self = QueryOutcomeAccumulator {
                result_sets,
                current: Some(cur),
                budget,
                retained_rows: retained_rows + 1,
                retained_bytes: sat_add(retained_bytes, bytes),
                fetched_rows,
                truncated,
            };
        } else {
            *self = QueryOutcomeAccumulator {
                result_sets,
                current: Some(cur),
                budget,
                retained_rows,
                retained_bytes,
                fetched_rows,
                truncated: true,
            };
        }
    }

    /// The current statement finished, having affected `affected_rows` rows.
    pub fn done(&mut self, affected_rows: u64)
        ensures
            final(self)@ == done_step(old(self)@, affected_rows),
    {
        let mut me = QueryOutcomeAccumulator::with_budget(self.budget);
        std::mem::swap(self, &mut me);
        proof {
            use_type_invariant(&me);
        }
        let QueryOutcomeAccumulator {
            mut result_sets,
            current,
            budget,
            retained_rows,
            retained_bytes,
            fetched_rows,
            truncated,
        } = me;
        let ghost before = views_of(result_sets@);
        let mut result = match current {
            Some(c) => c,
            None => ResultSet { columns: Vec::new(), rows: Vec::new(), affected_rows: 0 },
        };
        result.affected_rows = affected_rows;
        let ghost pushed = result@;
        proof {
            lemma_total_rows_push(before, pushed);
        }
        result_sets.push(result);
        assert(views_of(result_sets@) =~= before.push(pushed));
        *self = QueryOutcomeAccumulator {
            result_sets,
            current: None,
            budget,
            retained_rows,
            retained_bytes,
            fetched_rows,
            truncated,
        };
    }

    /// The outcome: the finished results and the current one, the rows
    /// kept and fetched, and whether any were dropped. Execution lasts until
    /// the first event, or the whole `total` when there was none; fetch is
    /// the rest of `total`.
    pub fn finish(self, first_event: Option<Duration>, total: Duration) -> (r: QueryOutcome)
        ensures
            views_of(r.result_sets@) == finished_sets(self@),
            r.stats.row_count == total_rows(finished_sets(self@)),
            r.stats.row_count <= self@.budget.max_rows,
            r.stats.fetched_row_count == self@.fetched_rows,
            r.stats.truncated == self@.truncated,
            r.stats.execution == (match first_event {
                Some(d) => d,
                None => total,
            }),
            duration_nanos(r.stats.fetch) == (if duration_nanos(total) >= duration_nanos(
                r.stats.execution,
            ) {
                duration_nanos(total) - duration_nanos(r.stats.execution)
            } else {
                0
            }),
    {
        proof {
            use_type_invariant(&self);
        }
        let ghost v = self@;
        let QueryOutcomeAccumulator {
            mut result_sets,
            current,
            budget,
            retained_rows,
            retained_bytes,
            fetched_rows,
            truncated,
        } = self;
        let ghost before = views_of(result_sets@);
        match current {
            Some(c) => {
                let ghost pushed = c@;
                result_sets.push(c);
                proof {
                    assert(views_of(result_sets@) =~= before.push(pushed));
                    lemma_total_rows_push(before, pushed);
                }
            },
            None => {},
        }
        let ghost all = views_of(result_sets@);
        assert(all == finished_sets(v));
        let mut row_count: usize = 0;
        let mut i: usize = 0;
        while i < result_sets.len()
            invariant
                all == views_of(result_sets@),
                total_rows(all) <= retained_rows,
                i <= result_sets@.len(),
                row_count == total_rows(all.subrange(0, i as int)),
            decreases result_sets@.len() - i,
        {
            proof {
                assert(all.subrange(0, i + 1).drop_last() =~= all.subrange(0, i as int));
                lemma_total_rows_prefix(all, i + 1);
            }
            row_count = row_count + result_sets[i].rows.len();
            i = i + 1;
        }
        assert(all.subrange(0, i as int) =~= all);
        let execution = match first_event {
            Some(d) => d,
            None => total,
        };
        let fetch = duration_saturating_sub(total, execution);
        QueryOutcome {
            result_sets,
            stats: QueryStats {
                execution,
                fetch,
                row_count,
                fetched_row_count: fetched_rows,
                truncated,
            },
        }
    }
}

/// Rows are only ever kept while the budget allows: after any row event the
/// rows held stay within the row budget, and an accumulator that has
/// dropped a row keeps no later row.
pub proof fn lemma_row_budget_holds(
    v: AccumulatorView,
    columns: Seq<ColumnMeta>,
    row: Vec<CellValue>,
    row_bytes: usize,
)
    requires
        accumulator_wf(v),
    ensures
        accumulator_wf(row_step(v, columns, row, row_bytes)),
        total_rows(finished_sets(row_step(v, columns, row, row_bytes))) <= v.budget.max_rows,
        v.truncated ==> row_step(v, columns, row, row_bytes).retained_rows == v.retained_rows,
        v.truncated ==> row_step(v, columns, row, row_bytes).truncated,
        row_step(v, columns, row, row_bytes).fetched_rows == saturating_add(v.fetched_rows, 1),
{
    let w = row_step(v, columns, row, row_bytes);
    match w.current {
        Some(c) => lemma_total_rows_push(w.result_sets, c),
        None => {},
    }
}

} // verus!
