//! Previewing the rows of a relation: the statement that reads them, with
//! an optional filter and order, and at most one preview's worth of rows.
use vstd::prelude::*;

use crate::mysql::my_identifier;
use crate::postgres::pg_identifier;
use crate::query::{QueryOutcome, RELATION_PREVIEW_LIMIT};
use crate::text::{decimal, decimal_string, owned, push_str};

verus! {

/// The filter and order a user gave for a preview, as SQL clauses.
#[derive(Clone, Debug, Default, PartialEq, Eq)]
pub struct RelationPreviewOptions {
    pub where_clause: Option<String>,
    pub order_by_clause: Option<String>,
}

/// The rows of a relation shown in a preview, and the statement that read
/// them.
#[derive(Clone, Debug, PartialEq, Eq)]
pub struct RelationPreview {
    pub sql: String,
    pub result: QueryOutcome,
}

/// The clauses the options add to a preview statement: the filter, then the
/// order.
pub open spec fn preview_clauses(options: RelationPreviewOptions) -> Seq<char> {
    (match options.where_clause {
        Some(w) => " WHERE "@ + w@,
        None => Seq::empty(),
    }) + (match options.order_by_clause {
        Some(o) => " ORDER BY "@ + o@,
        None => Seq::empty(),
    })
}

/// Appends the options' clauses to a preview statement.
pub fn append_preview_options(sql: &mut String, options: &RelationPreviewOptions)
    ensures
        final(sql)@ == old(sql)@ + preview_clauses(*options),
{
    let ghost start = sql@;
    match &options.where_clause {
        Some(clause) => {
            push_str(sql, " WHERE ");
            push_str(sql, clause.as_str());
        },
        None => {},
    }
    match &options.order_by_clause {
        Some(clause) => {
            push_str(sql, " ORDER BY ");
            push_str(sql, clause.as_str());
        },
        None => {},
    }
    assert(sql@ =~= start + preview_clauses(*options));
}

/// The MySQL statement that previews `name` in `database`: at most
/// `RELATION_PREVIEW_LIMIT` rows.
pub open spec fn my_preview_sql(database: Seq<char>, name: Seq<char>, options: RelationPreviewOptions) -> Seq<char> {
    "SELECT * FROM "@ + my_identifier(database) + "."@ + my_identifier(name) + preview_clauses(options)
        + " LIMIT "@ + decimal(RELATION_PREVIEW_LIMIT as nat)
}

/// The MySQL statement that previews a relation.
pub fn mysql_preview_sql(database: &str, name: &str, options: &RelationPreviewOptions) -> (r: String)
    ensures
        r@ == my_preview_sql(database@, name@, *options),
{
    let mut sql = owned("SELECT * FROM ");
    let d = crate::mysql::quote_identifier(database);
    let n = crate::mysql::quote_identifier(name);
    push_str(&mut sql, d.as_str());
    push_str(&mut sql, ".");
    push_str(&mut sql, n.as_str());
    append_preview_options(&mut sql, options);
    push_str(&mut sql, " LIMIT ");
    let limit = decimal_string(RELATION_PREVIEW_LIMIT as u64);
    push_str(&mut sql, limit.as_str());
    sql
}

/// The PostgreSQL statement that reads the filtered and ordered rows of
/// `name` in `schema`, before a page is cut from it.
pub open spec fn pg_preview_base_sql(schema: Seq<char>, name: Seq<char>, options: RelationPreviewOptions) -> Seq<char> {
    "SELECT * FROM "@ + pg_identifier(schema) + "."@ + pg_identifier(name) + preview_clauses(options)
}

/// The PostgreSQL statement that reads the rows a preview pages through.
pub fn postgres_preview_base_sql(schema: &str, name: &str, options: &RelationPreviewOptions) -> (r: String)
    ensures
        r@ == pg_preview_base_sql(schema@, name@, *options),
{
    let mut sql = owned("SELECT * FROM ");
    let s = crate::postgres::quote_identifier(schema);
    let n = crate::postgres::quote_identifier(name);
    push_str(&mut sql, s.as_str());
    push_str(&mut sql, ".");
    push_str(&mut sql, n.as_str());
    append_preview_options(&mut sql, options);
    sql
}

} // verus!
