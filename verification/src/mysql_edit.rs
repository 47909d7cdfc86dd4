//! MySQL row edits, planned as the statements that carry them out. Every
//! statement matches rows null-safely (`a = ?` or both null), so an edit of
//! a row that changed since it was read touches no row.
use vstd::prelude::*;

use crate::catalog::CatalogId;
use crate::mssql::{doubled, push_doubled};
use crate::mutation::{
    DeleteRowMutation, InputValue, InsertRowMutation, MetadataFingerprint, RelationMutation,
    UpdateCellMutation,
};
use crate::mysql::{my_identifier, quote_identifier};
use crate::postgres::{
    append_cells, find_column, input_binds, key_positions, pk_positions, position_from, same_positions,
    value_binds,
};
use crate::row_edit::{statement_view, step_view, BoundStatement, StatementView};
use crate::text::{join, join_strings, owned, push_str, views};
use crate::transaction::{transaction_error, TransactionError};
use crate::value::{cells_view, CellValue, CellView};

verus! {

/// `name` equals the next parameter, or both are null; reads two parameters.
pub open spec fn my_null_safe(name: Seq<char>) -> Seq<char> {
    "(("@ + name + " = ?) OR ("@ + name + " IS NULL AND ? IS NULL))"@
}

fn null_safe(name: &str) -> (r: String)
    ensures
        r@ == my_null_safe(name@),
{
    let mut s = owned("((");
    push_str(&mut s, name);
    push_str(&mut s, " = ?) OR (");
    push_str(&mut s, name);
    push_str(&mut s, " IS NULL AND ? IS NULL))");
    assert(s@ =~= my_null_safe(name@));
    s
}

/// Whether every value can be bound to a MySQL parameter.
pub open spec fn my_bindable(vs: Seq<CellView>) -> bool {
    forall|j: int| 0 <= j < vs.len() ==> !(#[trigger] vs[j] is Unsupported)
}

pub open spec fn my_bound(sql: Seq<char>, binds: Seq<CellView>) -> Result<StatementView, Seq<char>> {
    if my_bindable(binds) {
        Ok((sql, binds))
    } else {
        Err("MySQL cannot bind an unsupported cell value"@)
    }
}

/// Whether `value` can be bound to a MySQL parameter: every value but an
/// unsupported one can.
pub fn check_mysql_bindable(value: &CellValue) -> (r: Result<(), TransactionError>)
    ensures
        match r {
            Ok(()) => !(value@ is Unsupported),
            Err(e) => value@ is Unsupported && e.0@ == "MySQL cannot bind an unsupported cell value"@,
        },
{
    if value.is_unsupported() {
        Err(transaction_error("MySQL cannot bind an unsupported cell value"))
    } else {
        Ok(())
    }
}

fn bound(sql: String, binds: Vec<CellValue>) -> (r: Result<BoundStatement, TransactionError>)
    ensures
        step_view(r) == my_bound(sql@, cells_view(binds@)),
{
    let ghost all = cells_view(binds@);
    let mut i: usize = 0;
    while i < binds.len()
        invariant
            all == cells_view(binds@),
            i <= binds@.len(),
            forall|j: int| 0 <= j < i ==> !(#[trigger] all[j] is Unsupported),
        decreases binds@.len() - i,
    {
        match check_mysql_bindable(&binds[i]) {
            Ok(()) => {},
            Err(e) => {
                assert(all[i as int] is Unsupported);
                return Err(e);
            },
        }
        i = i + 1;
    }
    Ok(BoundStatement { sql, binds })
}

// ---------------------------------------------------------------------------
// Deletes
// ---------------------------------------------------------------------------

pub open spec fn my_delete_malformed(m: DeleteRowMutation, column_count: int) -> bool {
    m.row.columns@.len() != m.row.values@.len() || m.original@.len() != column_count
}

/// The predicates of a delete: the locator columns, then every column.
pub open spec fn my_delete_predicates(columns: Seq<(String, String, bool)>, locator: Seq<usize>) -> Seq<
    Seq<char>,
> {
    Seq::new(locator.len(), |p: int| my_null_safe(my_identifier(columns[locator[p] as int].0@)))
        + Seq::new(columns.len(), |c: int| my_null_safe(my_identifier(columns[c].0@)))
}

/// The statement that deletes one row, matched by its locator and by every
/// value read before.
pub open spec fn my_delete_row(
    table: Seq<char>,
    columns: Seq<(String, String, bool)>,
    m: DeleteRowMutation,
) -> Result<StatementView, Seq<char>> {
    let locator = m.row.columns@;
    if my_delete_malformed(m, columns.len() as int) {
        Err("MySQL delete mutation is malformed"@)
    } else if exists|p: int| 0 <= p < locator.len() && #[trigger] locator[p] >= columns.len() {
        Err("MySQL row locator column is out of range"@)
    } else {
        my_bound(
            "DELETE FROM "@ + table + " WHERE "@ + join(
                my_delete_predicates(columns, locator),
                " AND "@,
            ),
            doubled(cells_view(m.row.values@)) + doubled(cells_view(m.original@)),
        )
    }
}

fn delete_statement(table: &str, columns: &Vec<(String, String, bool)>, m: &DeleteRowMutation) -> (r:
    Result<BoundStatement, TransactionError>)
    ensures
        step_view(r) == my_delete_row(table@, columns@, *m),
{
    let locator = &m.row.columns;
    if locator.len() != m.row.values.len() || m.original.len() != columns.len() {
        return Err(transaction_error("MySQL delete mutation is malformed"));
    }
    let n = locator.len();
    let ghost expected = my_delete_predicates(columns@, locator@);
    let mut preds: Vec<String> = Vec::new();
    let mut p: usize = 0;
    while p < n
        invariant
            n == locator@.len(),
            p <= n,
            forall|k: int| 0 <= k < p ==> #[trigger] locator@[k] < columns@.len(),
            views(preds@) == expected.subrange(0, p as int),
        decreases n - p,
    {
        let idx = locator[p];
        if idx >= columns.len() {
            return Err(transaction_error("MySQL row locator column is out of range"));
        }
        let q = quote_identifier(columns[idx].0.as_str());
        preds.push(null_safe(q.as_str()));
        assert(views(preds@) =~= expected.subrange(0, p + 1));
        p = p + 1;
    }
    let mut c: usize = 0;
    while c < columns.len()
        invariant
            n == locator@.len(),
            forall|k: int| 0 <= k < n ==> #[trigger] locator@[k] < columns@.len(),
            c <= columns@.len(),
            views(preds@) == expected.subrange(0, n + c),
        decreases columns@.len() - c,
    {
        let q = quote_identifier(columns[c].0.as_str());
        preds.push(null_safe(q.as_str()));
        assert(views(preds@) =~= expected.subrange(0, n + c + 1));
        c = c + 1;
    }
    assert(expected.subrange(0, n + c) =~= expected);
    let mut sql = owned("DELETE FROM ");
    push_str(&mut sql, table);
    push_str(&mut sql, " WHERE ");
    let body = join_strings(&preds, " AND ");
    push_str(&mut sql, body.as_str());
    let mut binds: Vec<CellValue> = Vec::new();
    push_doubled(&mut binds, &m.row.values);
    push_doubled(&mut binds, &m.original);
    assert(cells_view(binds@) =~= doubled(cells_view(m.row.values@)) + doubled(
        cells_view(m.original@),
    ));
    bound(sql, binds)
}

// ---------------------------------------------------------------------------
// Inserts
// ---------------------------------------------------------------------------

pub open spec fn my_insert_malformed(insert: InsertRowMutation, column_count: int) -> bool {
    insert.columns@.len() != insert.values@.len() || exists|p: int|
        0 <= p < insert.columns@.len() && #[trigger] insert.columns@[p] >= column_count
}

/// `DEFAULT`, or a parameter.
pub open spec fn my_insert_expression(v: InputValue) -> Seq<char> {
    if v is Default {
        "DEFAULT"@
    } else {
        "?"@
    }
}

/// The insert of the supplied columns; the others take their defaults.
pub open spec fn my_insert_sql(
    table: Seq<char>,
    columns: Seq<(String, String, bool)>,
    insert: InsertRowMutation,
) -> Seq<char> {
    let idx = insert.columns@;
    let values = insert.values@;
    if idx.len() == 0 {
        "INSERT INTO "@ + table + " () VALUES ()"@
    } else {
        "INSERT INTO "@ + table + " ("@ + join(
            Seq::new(idx.len(), |i: int| my_identifier(columns[idx[i] as int].0@)),
            ", "@,
        ) + ") VALUES ("@ + join(
            Seq::new(values.len(), |i: int| my_insert_expression(values[i])),
            ", "@,
        ) + ")"@
    }
}

/// How an inserted row is read back.
#[derive(Debug, PartialEq, Eq)]
pub enum InsertLookup {
    /// A query with its values bound.
    Bound(BoundStatement),
    /// A query whose one parameter is the id that the insert generated.
    LastInsertId(String),
}

pub enum InsertLookupView {
    Bound(StatementView),
    LastInsertId(Seq<char>),
}

pub open spec fn lookup_view(r: Result<InsertLookup, TransactionError>) -> Result<
    InsertLookupView,
    Seq<char>,
> {
    match r {
        Ok(InsertLookup::Bound(s)) => Ok(InsertLookupView::Bound(statement_view(s))),
        Ok(InsertLookup::LastInsertId(sql)) => Ok(InsertLookupView::LastInsertId(sql@)),
        Err(e) => Err(e.0@),
    }
}

/// The first position, from `i` on, that holds `target`.
pub open spec fn usize_position(s: Seq<usize>, target: usize, i: int) -> Option<int>
    decreases s.len() - i,
{
    if i < 0 || i >= s.len() {
        None
    } else if s[i] == target {
        Some(i)
    } else {
        usize_position(s, target, i + 1)
    }
}

fn position_of(s: &Vec<usize>, target: usize) -> (r: Option<usize>)
    ensures
        match r {
            Some(p) => usize_position(s@, target, 0) == Some(p as int),
            None => usize_position(s@, target, 0) is None,
        },
{
    let mut i: usize = 0;
    while i < s.len()
        invariant
            i <= s@.len(),
            usize_position(s@, target, 0) == usize_position(s@, target, i as int),
        decreases s@.len() - i,
    {
        if s[i] == target {
            return Some(i);
        }
        i = i + 1;
    }
    None
}

/// How the row just inserted is read back: by the value given for the first
/// primary-key column, or by the id the insert generated when that column
/// was left out or set to its default.
pub open spec fn my_insert_lookup(
    table: Seq<char>,
    columns: Seq<(String, String, bool)>,
    key: Seq<String>,
    insert: InsertRowMutation,
) -> Result<InsertLookupView, Seq<char>> {
    if key.len() == 0 {
        Err("MySQL inserted row has no primary key"@)
    } else {
        match position_from(columns, key[0]@, 0) {
            None => Err("MySQL primary key column is missing"@),
            Some(ki) => {
                let base = "SELECT * FROM "@ + table + " WHERE "@ + my_identifier(key[0]@);
                let given = match usize_position(insert.columns@, ki as usize, 0) {
                    Some(p) => if p < insert.values@.len() {
                        Some(insert.values@[p])
                    } else {
                        None
                    },
                    None => None,
                };
                match given {
                    Some(InputValue::Value(v)) => match my_bound(base + " = ?"@, seq![v@]) {
                        Ok(s) => Ok(InsertLookupView::Bound(s)),
                        Err(e) => Err(e),
                    },
                    Some(InputValue::Null) => Ok(
                        InsertLookupView::Bound((base + " IS NULL"@, Seq::empty())),
                    ),
                    _ => Ok(InsertLookupView::LastInsertId(base + " = ?"@)),
                }
            },
        }
    }
}

fn insert_statement(table: &str, columns: &Vec<(String, String, bool)>, insert: &InsertRowMutation) -> (r:
    Result<BoundStatement, TransactionError>)
    requires
        !my_insert_malformed(*insert, columns@.len() as int),
    ensures
        step_view(r) == my_bound(my_insert_sql(table@, columns@, *insert), input_binds(insert.values@)),
{
    let idx = &insert.columns;
    let values = &insert.values;
    let ghost all_names = Seq::new(idx@.len(), |i: int| my_identifier(columns@[idx@[i] as int].0@));
    let ghost all_exprs = Seq::new(values@.len(), |i: int| my_insert_expression(values@[i]));
    let mut names: Vec<String> = Vec::new();
    let mut j: usize = 0;
    while j < idx.len()
        invariant
            forall|k: int| 0 <= k < idx@.len() ==> #[trigger] idx@[k] < columns@.len(),
            j <= idx@.len(),
            views(names@) == all_names.subrange(0, j as int),
        decreases idx@.len() - j,
    {
        names.push(quote_identifier(columns[idx[j]].0.as_str()));
        assert(views(names@) =~= all_names.subrange(0, j + 1));
        j = j + 1;
    }
    assert(all_names.subrange(0, j as int) =~= all_names);
    let mut exprs: Vec<String> = Vec::new();
    let mut binds: Vec<CellValue> = Vec::new();
    let mut k: usize = 0;
    assert(values@.subrange(0, 0) =~= Seq::<InputValue>::empty());
    while k < values.len()
        invariant
            k <= values@.len(),
            views(exprs@) == all_exprs.subrange(0, k as int),
            cells_view(binds@) == input_binds(values@.subrange(0, k as int)),
        decreases values@.len() - k,
    {
        let ghost before = cells_view(binds@);
        assert(values@.subrange(0, k + 1).drop_last() =~= values@.subrange(0, k as int));
        assert(values@.subrange(0, k + 1).last() == values@[k as int]);
        match &values[k] {
            InputValue::Default => {
                exprs.push(owned("DEFAULT"));
            },
            InputValue::Null => {
                exprs.push(owned("?"));
                binds.push(CellValue::Null);
                assert(cells_view(binds@) =~= before.push(CellView::Null));
            },
            InputValue::Value(v) => {
                exprs.push(owned("?"));
                binds.push(v.clone());
                assert(cells_view(binds@) =~= before.push(v@));
            },
        }
        assert(views(exprs@) =~= all_exprs.subrange(0, k + 1));
        k = k + 1;
    }
    assert(all_exprs.subrange(0, k as int) =~= all_exprs);
    assert(values@.subrange(0, k as int) =~= values@);
    let mut sql = owned("INSERT INTO ");
    push_str(&mut sql, table);
    if idx.len() == 0 {
        push_str(&mut sql, " () VALUES ()");
    } else {
        push_str(&mut sql, " (");
        let n = join_strings(&names, ", ");
        push_str(&mut sql, n.as_str());
        push_str(&mut sql, ") VALUES (");
        let e = join_strings(&exprs, ", ");
        push_str(&mut sql, e.as_str());
        push_str(&mut sql, ")");
    }
    assert(sql@ =~= my_insert_sql(table@, columns@, *insert));
    bound(sql, binds)
}

fn insert_lookup(
    table: &str,
    columns: &Vec<(String, String, bool)>,
    key: &Vec<String>,
    insert: &InsertRowMutation,
) -> (r: Result<InsertLookup, TransactionError>)
    ensures
        lookup_view(r) == my_insert_lookup(table@, columns@, key@, *insert),
{
    if key.len() == 0 {
        return Err(transaction_error("MySQL inserted row has no primary key"));
    }
    let ki = match find_column(columns, key[0].as_str()) {
        Some(i) => i,
        None => {
            return Err(transaction_error("MySQL primary key column is missing"));
        },
    };
    let mut base = owned("SELECT * FROM ");
    push_str(&mut base, table);
    push_str(&mut base, " WHERE ");
    let q = quote_identifier(key[0].as_str());
    push_str(&mut base, q.as_str());
    let ghost base_view = base@;
    let given: Option<&InputValue> = match position_of(&insert.columns, ki) {
        Some(p) => if p < insert.values.len() {
            Some(&insert.values[p])
        } else {
            None
        },
        None => None,
    };
    match given {
        Some(InputValue::Value(v)) => {
            push_str(&mut base, " = ?");
            let mut binds: Vec<CellValue> = Vec::new();
            binds.push(v.clone());
            assert(cells_view(binds@) =~= seq![v@]);
            match bound(base, binds) {
                Ok(s) => Ok(InsertLookup::Bound(s)),
                Err(e) => Err(e),
            }
        },
        Some(InputValue::Null) => {
            push_str(&mut base, " IS NULL");
            let binds: Vec<CellValue> = Vec::new();
            assert(cells_view(binds@) =~= Seq::<CellView>::empty());
            Ok(InsertLookup::Bound(BoundStatement { sql: base, binds }))
        },
        _ => {
            push_str(&mut base, " = ?");
            Ok(InsertLookup::LastInsertId(base))
        },
    }
}

// ---------------------------------------------------------------------------
// Updates
// ---------------------------------------------------------------------------

/// The match of an update: the locator columns, then the updated column
/// holding the value read before.
pub open spec fn my_update_where(
    columns: Seq<(String, String, bool)>,
    locator: Seq<usize>,
    quoted: Seq<char>,
) -> Seq<char> {
    join(
        Seq::new(locator.len(), |p: int| my_null_safe(my_identifier(columns[locator[p] as int].0@)))
            .push(my_null_safe(quoted)),
        " AND "@,
    )
}

/// The value that locator column `p` holds after the update.
pub open spec fn my_select_item(u: UpdateCellMutation, p: int) -> CellView {
    if u.row.columns@[p] == u.column {
        match u.value {
            InputValue::Value(v) => v@,
            InputValue::Null => CellView::Null,
            InputValue::Default => u.row.values@[p]@,
        }
    } else {
        u.row.values@[p]@
    }
}

/// The update statement, the check that the row still holds the values read
/// before (run when the update changed no row), and the query that reads
/// the row back by its primary key.
pub open spec fn my_update(
    table: Seq<char>,
    columns: Seq<(String, String, bool)>,
    key: Seq<String>,
    u: UpdateCellMutation,
) -> Result<(StatementView, StatementView, StatementView), Seq<char>> {
    let locator = u.row.columns@;
    let n = locator.len();
    if u.column >= columns.len() {
        Err("MySQL update column is out of range"@)
    } else if n != u.row.values@.len() {
        Err("MySQL row locator is malformed"@)
    } else {
        match pk_positions(columns, key) {
            None => Err("MySQL primary key column is missing"@),
            Some(ps) => if ps != locator {
                Err("MySQL row locator must contain the primary key columns in order"@)
            } else if exists|p: int| 0 <= p < n && #[trigger] locator[p] >= columns.len() {
                Err("MySQL row locator column is out of range"@)
            } else {
                let quoted = my_identifier(columns[u.column as int].0@);
                let set = quoted + (if u.value is Default {
                    " = DEFAULT"@
                } else {
                    " = ?"@
                });
                let wh = my_update_where(columns, locator, quoted);
                let pairs = doubled(cells_view(u.row.values@)) + seq![u.original@, u.original@];
                match my_bound(
                    "UPDATE "@ + table + " SET "@ + set + " WHERE "@ + wh,
                    value_binds(u.value) + pairs,
                ) {
                    Err(e) => Err(e),
                    Ok(update) => Ok(
                        (
                            update,
                            ("SELECT 1 FROM "@ + table + " WHERE "@ + wh, pairs),
                            (
                                "SELECT * FROM "@ + table + " WHERE "@ + join(
                                    Seq::new(
                                        n,
                                        |p: int|
                                            my_identifier(columns[locator[p] as int].0@) + " = ?"@,
                                    ),
                                    " AND "@,
                                ),
                                Seq::new(n, |p: int| my_select_item(u, p)),
                            ),
                        ),
                    ),
                }
            },
        }
    }
}

/// The statements of an update, or why it cannot be carried out.
pub struct UpdateStatements {
    pub update: BoundStatement,
    pub original_check: BoundStatement,
    pub select: BoundStatement,
}

pub open spec fn update_view(r: Result<UpdateStatements, TransactionError>) -> Result<
    (StatementView, StatementView, StatementView),
    Seq<char>,
> {
    match r {
        Ok(s) => Ok(
            (statement_view(s.update), statement_view(s.original_check), statement_view(s.select)),
        ),
        Err(e) => Err(e.0@),
    }
}

fn any_at_least(s: &Vec<usize>, bound: usize) -> (r: bool)
    ensures
        r == exists|p: int| 0 <= p < s@.len() && #[trigger] s@[p] >= bound,
{
    let mut p: usize = 0;
    while p < s.len()
        invariant
            p <= s@.len(),
            forall|k: int| 0 <= k < p ==> #[trigger] s@[k] < bound,
        decreases s@.len() - p,
    {
        if s[p] >= bound {
            return true;
        }
        p = p + 1;
    }
    false
}

fn update_statements(
    table: &str,
    columns: &Vec<(String, String, bool)>,
    key: &Vec<String>,
    u: &UpdateCellMutation,
) -> (r: Result<UpdateStatements, TransactionError>)
    ensures
        update_view(r) == my_update(table@, columns@, key@, *u),
{
    if u.column >= columns.len() {
        return Err(transaction_error("MySQL update column is out of range"));
    }
    let locator = &u.row.columns;
    if locator.len() != u.row.values.len() {
        return Err(transaction_error("MySQL row locator is malformed"));
    }
    let positions = match key_positions(columns, key) {
        Some(ps) => ps,
        None => {
            return Err(transaction_error("MySQL primary key column is missing"));
        },
    };
    if !same_positions(&positions, locator) {
        return Err(
            transaction_error("MySQL row locator must contain the primary key columns in order"),
        );
    }
    if any_at_least(locator, columns.len()) {
        return Err(transaction_error("MySQL row locator column is out of range"));
    }
    let n = locator.len();
    let quoted = quote_identifier(columns[u.column].0.as_str());
    let ghost preds_expected = Seq::new(
        n as nat,
        |p: int| my_null_safe(my_identifier(columns@[locator@[p] as int].0@)),
    ).push(my_null_safe(quoted@));
    let ghost select_expected = Seq::new(
        n as nat,
        |p: int| my_identifier(columns@[locator@[p] as int].0@) + " = ?"@,
    );
    let ghost select_binds = Seq::new(n as nat, |p: int| my_select_item(*u, p));
    let mut preds: Vec<String> = Vec::new();
    let mut items: Vec<String> = Vec::new();
    let mut sel: Vec<CellValue> = Vec::new();
    let mut p: usize = 0;
    while p < n
        invariant
            n == locator@.len(),
            n == u.row.values@.len(),
            forall|k: int| 0 <= k < n ==> #[trigger] locator@[k] < columns@.len(),
            p <= n,
            views(preds@) == preds_expected.subrange(0, p as int),
            views(items@) == select_expected.subrange(0, p as int),
            cells_view(sel@) == select_binds.subrange(0, p as int),
        decreases n - p,
    {
        let q = quote_identifier(columns[locator[p]].0.as_str());
        preds.push(null_safe(q.as_str()));
        assert(views(preds@) =~= preds_expected.subrange(0, p + 1));
        let mut item = owned(q.as_str());
        push_str(&mut item, " = ?");
        items.push(item);
        assert(views(items@) =~= select_expected.subrange(0, p + 1));
        let ghost before = cells_view(sel@);
        if locator[p] == u.column {
            match &u.value {
                InputValue::Value(v) => sel.push(v.clone()),
                InputValue::Null => sel.push(CellValue::Null),
                InputValue::Default => sel.push(u.row.values[p].clone()),
            }
        } else {
            sel.push(u.row.values[p].clone());
        }
        assert(cells_view(sel@) =~= before.push(my_select_item(*u, p as int)));
        assert(cells_view(sel@) =~= select_binds.subrange(0, p + 1));
        p = p + 1;
    }
    let ghost before_last = views(preds@);
    preds.push(null_safe(quoted.as_str()));
    assert(views(preds@) =~= before_last.push(preds_expected[n as int]));
    assert(views(preds@) =~= preds_expected);
    assert(select_expected.subrange(0, n as int) =~= select_expected);
    assert(select_binds.subrange(0, n as int) =~= select_binds);
    let wh = join_strings(&preds, " AND ");
    let mut sql = owned("UPDATE ");
    push_str(&mut sql, table);
    push_str(&mut sql, " SET ");
    push_str(&mut sql, quoted.as_str());
    match u.value {
        InputValue::Default => push_str(&mut sql, " = DEFAULT"),
        _ => push_str(&mut sql, " = ?"),
    }
    push_str(&mut sql, " WHERE ");
    push_str(&mut sql, wh.as_str());
    assert(sql@ =~= "UPDATE "@ + table@ + " SET "@ + (quoted@ + (if u.value is Default {
        " = DEFAULT"@
    } else {
        " = ?"@
    })) + " WHERE "@ + my_update_where(columns@, locator@, quoted@));
    let mut pairs: Vec<CellValue> = Vec::new();
    push_doubled(&mut pairs, &u.row.values);
    let ghost before_orig = cells_view(pairs@);
    pairs.push(u.original.clone());
    pairs.push(u.original.clone());
    assert(cells_view(pairs@) =~= before_orig.push(u.original@).push(u.original@));
    assert(cells_view(pairs@) =~= doubled(cells_view(u.row.values@)) + seq![
        u.original@,
        u.original@,
    ]);
    let mut binds: Vec<CellValue> = Vec::new();
    match &u.value {
        InputValue::Default => {},
        InputValue::Null => {
            binds.push(CellValue::Null);
        },
        InputValue::Value(c) => {
            binds.push(c.clone());
        },
    }
    assert(cells_view(binds@) =~= value_binds(u.value));
    append_cells(&mut binds, &pairs);
    let update = match bound(sql, binds) {
        Ok(s) => s,
        Err(e) => {
            return Err(e);
        },
    };
    let mut check = owned("SELECT 1 FROM ");
    push_str(&mut check, table);
    push_str(&mut check, " WHERE ");
    push_str(&mut check, wh.as_str());
    let mut select = owned("SELECT * FROM ");
    push_str(&mut select, table);
    push_str(&mut select, " WHERE ");
    let body = join_strings(&items, " AND ");
    push_str(&mut select, body.as_str());
    Ok(
        UpdateStatements {
            update,
            original_check: BoundStatement { sql: check, binds: pairs },
            select: BoundStatement { sql: select, binds: sel },
        },
    )
}

// ---------------------------------------------------------------------------
// Plans
// ---------------------------------------------------------------------------

/// The statements of a MySQL row edit, in the order they run:
/// - `Delete`: one statement per row, each of which must delete exactly one
///   row; a row that cannot be planned stops the edit there.
/// - `Insert`: the insert, then how the inserted row is read back, or why
///   it cannot be.
/// - `Update`: the update, which must change at most one row; when it
///   changes none, the check that the row still holds what was read; then
///   the query that reads the row back.
#[derive(Debug, PartialEq, Eq)]
pub enum MySqlMutationPlan {
    Delete { statements: Vec<Result<BoundStatement, TransactionError>> },
    Insert { insert: BoundStatement, lookup: Result<InsertLookup, TransactionError> },
    Update { update: BoundStatement, original_check: BoundStatement, select: BoundStatement },
}

pub enum MySqlMutationPlanView {
    Delete(Seq<Result<StatementView, Seq<char>>>),
    Insert(StatementView, Result<InsertLookupView, Seq<char>>),
    Update(StatementView, StatementView, StatementView),
}

impl View for MySqlMutationPlan {
    type V = MySqlMutationPlanView;

    open spec fn view(&self) -> MySqlMutationPlanView {
        match *self {
            MySqlMutationPlan::Delete { statements } => MySqlMutationPlanView::Delete(
                statements@.map_values(|r: Result<BoundStatement, TransactionError>| step_view(r)),
            ),
            MySqlMutationPlan::Insert { insert, lookup } => MySqlMutationPlanView::Insert(
                statement_view(insert),
                lookup_view(lookup),
            ),
            MySqlMutationPlan::Update { update, original_check, select } => MySqlMutationPlanView::Update(
                statement_view(update),
                statement_view(original_check),
                statement_view(select),
            ),
        }
    }
}

pub open spec fn my_plan_view(r: Result<MySqlMutationPlan, TransactionError>) -> Result<
    MySqlMutationPlanView,
    Seq<char>,
> {
    match r {
        Ok(p) => Ok(p@),
        Err(e) => Err(e.0@),
    }
}

/// The statements of a row edit on a MySQL relation, whose native path is
/// database, schema and table.
pub open spec fn my_mutation_plan(
    path: Seq<String>,
    fingerprint: MetadataFingerprint,
    operation: RelationMutation,
) -> Result<MySqlMutationPlanView, Seq<char>> {
    let columns = fingerprint.columns@;
    if path.len() != 3 {
        Err("MySQL relation has no canonical database, schema, and table path"@)
    } else {
        let table = my_identifier(path[0]@) + "."@ + my_identifier(path[2]@);
        match operation {
            RelationMutation::DeleteRows(rows) => Ok(
                MySqlMutationPlanView::Delete(
                    rows@.map_values(|m: DeleteRowMutation| my_delete_row(table, columns, m)),
                ),
            ),
            RelationMutation::InsertRow(insert) => if my_insert_malformed(
                insert,
                columns.len() as int,
            ) {
                Err("MySQL insert mutation is malformed"@)
            } else {
                match my_bound(my_insert_sql(table, columns, insert), input_binds(insert.values@)) {
                    Err(e) => Err(e),
                    Ok(s) => Ok(
                        MySqlMutationPlanView::Insert(
                            s,
                            my_insert_lookup(table, columns, fingerprint.primary_key@, insert),
                        ),
                    ),
                }
            },
            RelationMutation::UpdateCell(u) => match my_update(
                table,
                columns,
                fingerprint.primary_key@,
                u,
            ) {
                Err(e) => Err(e),
                Ok((update, check, select)) => Ok(MySqlMutationPlanView::Update(update, check, select)),
            },
        }
    }
}

/// The statements that carry out a row edit on a MySQL relation.
pub fn plan_mysql_mutation(
    relation: &CatalogId,
    fingerprint: &MetadataFingerprint,
    operation: &RelationMutation,
) -> (r: Result<MySqlMutationPlan, TransactionError>)
    ensures
        my_plan_view(r) == my_mutation_plan(relation.native_path@, *fingerprint, *operation),
{
    let path = &relation.native_path;
    if path.len() != 3 {
        return Err(
            transaction_error("MySQL relation has no canonical database, schema, and table path"),
        );
    }
    let columns = &fingerprint.columns;
    let mut table = quote_identifier(path[0].as_str());
    push_str(&mut table, ".");
    let rel = quote_identifier(path[2].as_str());
    push_str(&mut table, rel.as_str());
    match operation {
        RelationMutation::DeleteRows(rows) => {
            let ghost expected = rows@.map_values(
                |m: DeleteRowMutation| my_delete_row(table@, columns@, m),
            );
            let mut statements: Vec<Result<BoundStatement, TransactionError>> = Vec::new();
            let mut k: usize = 0;
            while k < rows.len()
                invariant
                    k <= rows@.len(),
                    statements@.map_values(
                        |r: Result<BoundStatement, TransactionError>| step_view(r),
                    ) == expected.subrange(0, k as int),
                decreases rows@.len() - k,
            {
                let st = delete_statement(table.as_str(), columns, &rows[k]);
                statements.push(st);
                assert(statements@.map_values(
                    |r: Result<BoundStatement, TransactionError>| step_view(r),
                ) =~= expected.subrange(0, k + 1));
                k = k + 1;
            }
            assert(expected.subrange(0, k as int) =~= expected);
            Ok(MySqlMutationPlan::Delete { statements })
        },
        RelationMutation::InsertRow(insert) => {
            if insert.columns.len() != insert.values.len() || any_at_least(
                &insert.columns,
                columns.len(),
            ) {
                return Err(transaction_error("MySQL insert mutation is malformed"));
            }
            let statement = match insert_statement(table.as_str(), columns, insert) {
                Ok(s) => s,
                Err(e) => {
                    return Err(e);
                },
            };
            let lookup = insert_lookup(table.as_str(), columns, &fingerprint.primary_key, insert);
            Ok(MySqlMutationPlan::Insert { insert: statement, lookup })
        },
        RelationMutation::UpdateCell(u) => match update_statements(
            table.as_str(),
            columns,
            &fingerprint.primary_key,
            u,
        ) {
            Ok(s) => Ok(
                MySqlMutationPlan::Update {
                    update: s.update,
                    original_check: s.original_check,
                    select: s.select,
                },
            ),
            Err(e) => Err(e),
        },
    }
}

} // verus!
