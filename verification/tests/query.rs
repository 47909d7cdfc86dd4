use std::time::Duration;

use lazydb::query::{ColumnMeta, QueryBudget, QueryOutcomeAccumulator, QueryStats};
use lazydb::value::CellValue;

/// The size of a cell as JSON, written as serde writes an externally
/// tagged enum value: `{"Variant":value}`.
fn cell_bytes(cell: &CellValue) -> usize {
    let value = match cell {
        CellValue::Null => serde_json::Value::String("Null".to_owned()),
        CellValue::Text(text) => {
            let mut map = serde_json::Map::new();
            map.insert("Text".to_owned(), serde_json::Value::String(text.clone()));
            serde_json::Value::Object(map)
        }
        other => panic!("unexpected cell {other:?}"),
    };
    serde_json::to_vec(&value).map(|bytes| bytes.len()).unwrap_or(0)
}

fn row_bytes(row: &[CellValue]) -> usize {
    row.iter().map(cell_bytes).fold(0usize, usize::saturating_add)
}

fn text_columns() -> Vec<ColumnMeta> {
    vec![ColumnMeta {
        name: "value".into(),
        data_type: "TEXT".into(),
    }]
}

#[test]
fn tracks_execution_and_fetch_separately() {
    let stats = QueryStats::new(Duration::from_millis(24), Duration::from_millis(352), 1);

    assert_eq!(stats.execution, Duration::from_millis(24));
    assert_eq!(stats.fetch, Duration::from_millis(352));
    assert_eq!(stats.total(), Duration::from_millis(376));
    assert_eq!(stats.row_count, 1);
    assert_eq!(stats.fetched_row_count, 1);
    assert!(!stats.truncated);
}

#[test]
fn accumulator_retains_a_shared_row_budget_but_consumes_all_events() {
    let mut accumulator = QueryOutcomeAccumulator::with_budget(QueryBudget {
        max_rows: 2,
        max_bytes: usize::MAX,
    });
    let columns = text_columns();
    for value in ["one", "two", "three"] {
        accumulator.row(columns.clone(), vec![CellValue::Text(value.into())], 0);
    }
    accumulator.done(0);
    let outcome = accumulator.finish(Some(Duration::ZERO), Duration::ZERO);

    assert_eq!(outcome.result_sets[0].rows.len(), 2);
    assert_eq!(outcome.stats.row_count, 2);
    assert_eq!(outcome.stats.fetched_row_count, 3);
    assert!(outcome.stats.truncated);
}

#[test]
fn accumulator_applies_byte_budget_to_a_contiguous_prefix() {
    let mut accumulator = QueryOutcomeAccumulator::with_budget(QueryBudget {
        max_rows: usize::MAX,
        max_bytes: 25,
    });
    let columns = text_columns();
    let first = vec![CellValue::Text("12345".into())];
    let bytes = row_bytes(&first);
    accumulator.row(columns.clone(), first, bytes);
    let second = vec![CellValue::Text("67890".into())];
    let bytes = row_bytes(&second);
    accumulator.row(columns, second, bytes);
    let outcome = accumulator.finish(Some(Duration::ZERO), Duration::ZERO);

    assert_eq!(outcome.result_sets[0].rows.len(), 1);
    assert_eq!(outcome.stats.fetched_row_count, 2);
    assert!(outcome.stats.truncated);
}

#[test]
fn byte_budget_exhaustion_does_not_resume_in_later_results() {
    let mut accumulator = QueryOutcomeAccumulator::with_budget(QueryBudget {
        max_rows: 10,
        max_bytes: 25,
    });
    let columns = text_columns();
    let big = vec![CellValue::Text("x".repeat(100))];
    let bytes = row_bytes(&big);
    accumulator.row(columns.clone(), big, bytes);
    accumulator.done(7);
    let null_row = vec![CellValue::Null];
    let bytes = row_bytes(&null_row);
    accumulator.row(columns.clone(), null_row, bytes);
    accumulator.done(3);
    let outcome = accumulator.finish(Some(Duration::ZERO), Duration::ZERO);
    assert_eq!(outcome.result_sets.len(), 2);
    assert_eq!(outcome.result_sets[0].columns, columns);
    assert!(
        outcome
            .result_sets
            .iter()
            .all(|result| result.rows.is_empty())
    );
    assert_eq!(outcome.result_sets[0].affected_rows, 7);
    assert_eq!(outcome.result_sets[1].affected_rows, 3);
    assert_eq!(outcome.stats.fetched_row_count, 2);
    assert!(outcome.stats.truncated);
}

#[test]
fn finish_splits_the_total_at_the_first_event() {
    let mut accumulator = QueryOutcomeAccumulator::with_budget(QueryBudget::unbounded());
    accumulator.row(text_columns(), vec![CellValue::Text("a".into())], 0);
    let outcome = accumulator.finish(Some(Duration::from_millis(5)), Duration::from_millis(12));
    assert_eq!(outcome.stats.execution, Duration::from_millis(5));
    assert_eq!(outcome.stats.fetch, Duration::from_millis(7));
    assert_eq!(outcome.result_sets.len(), 1);
    assert_eq!(outcome.stats.row_count, 1);

    let empty = QueryOutcomeAccumulator::with_budget(QueryBudget::unbounded());
    let outcome = empty.finish(None, Duration::from_millis(9));
    assert_eq!(outcome.stats.execution, Duration::from_millis(9));
    assert_eq!(outcome.stats.fetch, Duration::ZERO);
    assert!(outcome.result_sets.is_empty());
}
