//! The children page of a SQL Server relation: the statements that list its
//! indexes, key constraints, foreign keys, check expressions, columns and
//! triggers, and the grouping of their rows into one child each.
use vstd::prelude::*;

use crate::catalog::{
    CatalogEntry, CatalogId, CatalogIdView, CatalogKind, CatalogMetadata, IndexMetadata,
    OptionalMetadata, QualifiedName, QualifiedNameView,
};
use crate::catalog_error::CatalogValidationError;
use crate::entry::{child_kind_issue, entry_issue, first_issue};
use crate::mssql::{ms_identifier, ms_literal, quote_identifier, quote_literal};
use crate::postgres::relation_child_id;
use crate::rules::{metadata_issue, metadata_profiles_issue, profile_issue, relation_issue};
use crate::mssql_children::MsSqlForeignKey;
use crate::text::{clone_strings, opt_view, owned, push_str, signed_decimal, signed_decimal_string, views};

verus! {

// ---------------------------------------------------------------------------
// Statements
// ---------------------------------------------------------------------------

/// The statement that reads the type code of a relation, found by its object id, schema and name.
pub open spec fn ms_relation_type_sql(database: Seq<char>, schema: Seq<char>, name: Seq<char>, object_id: i32) -> Seq<char> {
    "SELECT o.[type] FROM "@ + ms_identifier(database) + ".sys.objects o JOIN "@ + ms_identifier(database) + ".sys.schemas s ON s.[schema_id] = o.[schema_id] WHERE o.[object_id] = "@ + signed_decimal(object_id as int) + " AND s.[name] = "@ + ms_literal(schema) + " AND o.[name] = "@ + ms_literal(name) + " AND o.[is_ms_shipped] = 0"@
}

/// The statement that reads the type code of a relation, found by its object id, schema and name.
pub fn mssql_relation_type_sql(database: &str, schema: &str, name: &str, object_id: i32) -> (r: String)
    ensures
        r@ == ms_relation_type_sql(database@, schema@, name@, object_id),
{
    let q = quote_identifier(database);
    let schema_lit = quote_literal(schema);
    let name_lit = quote_literal(name);
    let object_id_text = signed_decimal_string(object_id as i64);
    let mut sql = String::new();
    push_str(&mut sql, "SELECT o.[type] FROM ");
    push_str(&mut sql, q.as_str());
    push_str(&mut sql, ".sys.objects o JOIN ");
    push_str(&mut sql, q.as_str());
    push_str(&mut sql, ".sys.schemas s ON s.[schema_id] = o.[schema_id] WHERE o.[object_id] = ");
    push_str(&mut sql, object_id_text.as_str());
    push_str(&mut sql, " AND s.[name] = ");
    push_str(&mut sql, schema_lit.as_str());
    push_str(&mut sql, " AND o.[name] = ");
    push_str(&mut sql, name_lit.as_str());
    push_str(&mut sql, " AND o.[is_ms_shipped] = 0");
    assert(sql@ =~= ms_relation_type_sql(database@, schema@, name@, object_id));
    sql
}

/// The statement that lists the index columns of a relation, key columns before included ones.
pub open spec fn ms_index_sql(database: Seq<char>, object_id: i32) -> Seq<char> {
    "SELECT i.[name], i.[index_id], i.[is_unique], ic.[key_ordinal], ic.[is_included_column], c.[name] AS [column_name] FROM "@ + ms_identifier(database) + ".sys.indexes i JOIN "@ + ms_identifier(database) + ".sys.index_columns ic ON ic.[object_id] = i.[object_id] AND ic.[index_id] = i.[index_id] JOIN "@ + ms_identifier(database) + ".sys.columns c ON c.[object_id] = ic.[object_id] AND c.[column_id] = ic.[column_id] WHERE i.[object_id] = "@ + signed_decimal(object_id as int) + " AND i.[index_id] > 0 AND i.[is_hypothetical] = 0 ORDER BY i.[index_id], ic.[is_included_column], ic.[key_ordinal], ic.[index_column_id]"@
}

/// The statement that lists the index columns of a relation, key columns before included ones.
pub fn mssql_index_sql(database: &str, object_id: i32) -> (r: String)
    ensures
        r@ == ms_index_sql(database@, object_id),
{
    let q = quote_identifier(database);
    let object_id_text = signed_decimal_string(object_id as i64);
    let mut sql = String::new();
    push_str(&mut sql, "SELECT i.[name], i.[index_id], i.[is_unique], ic.[key_ordinal], ic.[is_included_column], c.[name] AS [column_name] FROM ");
    push_str(&mut sql, q.as_str());
    push_str(&mut sql, ".sys.indexes i JOIN ");
    push_str(&mut sql, q.as_str());
    push_str(&mut sql, ".sys.index_columns ic ON ic.[object_id] = i.[object_id] AND ic.[index_id] = i.[index_id] JOIN ");
    push_str(&mut sql, q.as_str());
    push_str(&mut sql, ".sys.columns c ON c.[object_id] = ic.[object_id] AND c.[column_id] = ic.[column_id] WHERE i.[object_id] = ");
    push_str(&mut sql, object_id_text.as_str());
    push_str(&mut sql, " AND i.[index_id] > 0 AND i.[is_hypothetical] = 0 ORDER BY i.[index_id], ic.[is_included_column], ic.[key_ordinal], ic.[index_column_id]");
    assert(sql@ =~= ms_index_sql(database@, object_id));
    sql
}

/// The statement that lists the key, foreign-key and check constraints of a relation with their columns.
pub open spec fn ms_constraint_sql(database: Seq<char>, object_id: i32) -> Seq<char> {
    "SELECT kc.[name], kc.[object_id] AS [constraint_id], kc.[type], ic.[key_ordinal], c.[name] AS [column_name] FROM "@ + ms_identifier(database) + ".sys.key_constraints kc JOIN "@ + ms_identifier(database) + ".sys.index_columns ic ON ic.[object_id] = kc.[parent_object_id] AND ic.[index_id] = kc.[unique_index_id] JOIN "@ + ms_identifier(database) + ".sys.columns c ON c.[object_id] = ic.[object_id] AND c.[column_id] = ic.[column_id] WHERE kc.[parent_object_id] = "@ + signed_decimal(object_id as int) + " UNION ALL SELECT fk.[name], fk.[object_id], 'F', fkc.[constraint_column_id], pc.[name] FROM "@ + ms_identifier(database) + ".sys.foreign_keys fk JOIN "@ + ms_identifier(database) + ".sys.foreign_key_columns fkc ON fkc.[constraint_object_id] = fk.[object_id] JOIN "@ + ms_identifier(database) + ".sys.columns pc ON pc.[object_id] = fkc.[parent_object_id] AND pc.[column_id] = fkc.[parent_column_id] WHERE fk.[parent_object_id] = "@ + signed_decimal(object_id as int) + " UNION ALL SELECT cc.[name], cc.[object_id], 'C', 1, NULL FROM "@ + ms_identifier(database) + ".sys.check_constraints cc WHERE cc.[parent_object_id] = "@ + signed_decimal(object_id as int) + " ORDER BY [type], [constraint_id], [key_ordinal]"@
}

/// The statement that lists the key, foreign-key and check constraints of a relation with their columns.
pub fn mssql_constraint_sql(database: &str, object_id: i32) -> (r: String)
    ensures
        r@ == ms_constraint_sql(database@, object_id),
{
    let q = quote_identifier(database);
    let object_id_text = signed_decimal_string(object_id as i64);
    let mut sql = String::new();
    push_str(&mut sql, "SELECT kc.[name], kc.[object_id] AS [constraint_id], kc.[type], ic.[key_ordinal], c.[name] AS [column_name] FROM ");
    push_str(&mut sql, q.as_str());
    push_str(&mut sql, ".sys.key_constraints kc JOIN ");
    push_str(&mut sql, q.as_str());
    push_str(&mut sql, ".sys.index_columns ic ON ic.[object_id] = kc.[parent_object_id] AND ic.[index_id] = kc.[unique_index_id] JOIN ");
    push_str(&mut sql, q.as_str());
    push_str(&mut sql, ".sys.columns c ON c.[object_id] = ic.[object_id] AND c.[column_id] = ic.[column_id] WHERE kc.[parent_object_id] = ");
    push_str(&mut sql, object_id_text.as_str());
    push_str(&mut sql, " UNION ALL SELECT fk.[name], fk.[object_id], 'F', fkc.[constraint_column_id], pc.[name] FROM ");
    push_str(&mut sql, q.as_str());
    push_str(&mut sql, ".sys.foreign_keys fk JOIN ");
    push_str(&mut sql, q.as_str());
    push_str(&mut sql, ".sys.foreign_key_columns fkc ON fkc.[constraint_object_id] = fk.[object_id] JOIN ");
    push_str(&mut sql, q.as_str());
    push_str(&mut sql, ".sys.columns pc ON pc.[object_id] = fkc.[parent_object_id] AND pc.[column_id] = fkc.[parent_column_id] WHERE fk.[parent_object_id] = ");
    push_str(&mut sql, object_id_text.as_str());
    push_str(&mut sql, " UNION ALL SELECT cc.[name], cc.[object_id], 'C', 1, NULL FROM ");
    push_str(&mut sql, q.as_str());
    push_str(&mut sql, ".sys.check_constraints cc WHERE cc.[parent_object_id] = ");
    push_str(&mut sql, object_id_text.as_str());
    push_str(&mut sql, " ORDER BY [type], [constraint_id], [key_ordinal]");
    assert(sql@ =~= ms_constraint_sql(database@, object_id));
    sql
}

/// The statement that lists the column pairs of the foreign keys of a relation, with the relation each references.
pub open spec fn ms_foreign_key_sql(database: Seq<char>, object_id: i32) -> Seq<char> {
    "SELECT fk.[object_id] AS [constraint_id], rs.[name] AS [referenced_schema], rt.[name] AS [referenced_relation], pc.[name] AS [source_column], rc.[name] AS [referenced_column], fkc.[constraint_column_id] FROM "@ + ms_identifier(database) + ".sys.foreign_keys fk JOIN "@ + ms_identifier(database) + ".sys.foreign_key_columns fkc ON fkc.[constraint_object_id] = fk.[object_id] JOIN "@ + ms_identifier(database) + ".sys.tables rt ON rt.[object_id] = fk.[referenced_object_id] JOIN "@ + ms_identifier(database) + ".sys.schemas rs ON rs.[schema_id] = rt.[schema_id] JOIN "@ + ms_identifier(database) + ".sys.columns pc ON pc.[object_id] = fkc.[parent_object_id] AND pc.[column_id] = fkc.[parent_column_id] JOIN "@ + ms_identifier(database) + ".sys.columns rc ON rc.[object_id] = fkc.[referenced_object_id] AND rc.[column_id] = fkc.[referenced_column_id] WHERE fk.[parent_object_id] = "@ + signed_decimal(object_id as int) + " ORDER BY fk.[object_id], fkc.[constraint_column_id]"@
}

/// The statement that lists the column pairs of the foreign keys of a relation, with the relation each references.
pub fn mssql_foreign_key_sql(database: &str, object_id: i32) -> (r: String)
    ensures
        r@ == ms_foreign_key_sql(database@, object_id),
{
    let q = quote_identifier(database);
    let object_id_text = signed_decimal_string(object_id as i64);
    let mut sql = String::new();
    push_str(&mut sql, "SELECT fk.[object_id] AS [constraint_id], rs.[name] AS [referenced_schema], rt.[name] AS [referenced_relation], pc.[name] AS [source_column], rc.[name] AS [referenced_column], fkc.[constraint_column_id] FROM ");
    push_str(&mut sql, q.as_str());
    push_str(&mut sql, ".sys.foreign_keys fk JOIN ");
    push_str(&mut sql, q.as_str());
    push_str(&mut sql, ".sys.foreign_key_columns fkc ON fkc.[constraint_object_id] = fk.[object_id] JOIN ");
    push_str(&mut sql, q.as_str());
    push_str(&mut sql, ".sys.tables rt ON rt.[object_id] = fk.[referenced_object_id] JOIN ");
    push_str(&mut sql, q.as_str());
    push_str(&mut sql, ".sys.schemas rs ON rs.[schema_id] = rt.[schema_id] JOIN ");
    push_str(&mut sql, q.as_str());
    push_str(&mut sql, ".sys.columns pc ON pc.[object_id] = fkc.[parent_object_id] AND pc.[column_id] = fkc.[parent_column_id] JOIN ");
    push_str(&mut sql, q.as_str());
    push_str(&mut sql, ".sys.columns rc ON rc.[object_id] = fkc.[referenced_object_id] AND rc.[column_id] = fkc.[referenced_column_id] WHERE fk.[parent_object_id] = ");
    push_str(&mut sql, object_id_text.as_str());
    push_str(&mut sql, " ORDER BY fk.[object_id], fkc.[constraint_column_id]");
    assert(sql@ =~= ms_foreign_key_sql(database@, object_id));
    sql
}

/// The statement that reads the expression of a check constraint.
pub open spec fn ms_check_definition_sql(database: Seq<char>, constraint_id: i32) -> Seq<char> {
    "SELECT [definition] FROM "@ + ms_identifier(database) + ".sys.check_constraints WHERE [object_id] = "@ + signed_decimal(constraint_id as int)
}

/// The statement that reads the expression of a check constraint.
pub fn mssql_check_definition_sql(database: &str, constraint_id: i32) -> (r: String)
    ensures
        r@ == ms_check_definition_sql(database@, constraint_id),
{
    let q = quote_identifier(database);
    let constraint_id_text = signed_decimal_string(constraint_id as i64);
    let mut sql = String::new();
    push_str(&mut sql, "SELECT [definition] FROM ");
    push_str(&mut sql, q.as_str());
    push_str(&mut sql, ".sys.check_constraints WHERE [object_id] = ");
    push_str(&mut sql, constraint_id_text.as_str());
    assert(sql@ =~= ms_check_definition_sql(database@, constraint_id));
    sql
}

/// The statement that lists the columns of a relation with their type, flags, default or computed expression, and description.
pub open spec fn ms_child_column_sql(database: Seq<char>, object_id: i32) -> Seq<char> {
    "SELECT c.[column_id], c.[name], t.[name] AS [type_name], c.[is_nullable], c.[is_identity], c.[is_computed], dc.[definition] AS [default_expression], cc.[definition] AS [computed_expression], CASE WHEN t.[name] IN ('rowversion','timestamp') THEN 1 ELSE 0 END AS [rowversion], (SELECT CAST(ep.[value] AS nvarchar(4000)) FROM "@ + ms_identifier(database) + ".sys.extended_properties ep WHERE ep.[class] = 1 AND ep.[major_id] = c.[object_id] AND ep.[minor_id] = c.[column_id] AND ep.[name] = N'MS_Description') AS [comment] FROM "@ + ms_identifier(database) + ".sys.columns c JOIN "@ + ms_identifier(database) + ".sys.types t ON t.[user_type_id] = c.[user_type_id] LEFT JOIN "@ + ms_identifier(database) + ".sys.default_constraints dc ON dc.[parent_object_id] = c.[object_id] AND dc.[parent_column_id] = c.[column_id] LEFT JOIN "@ + ms_identifier(database) + ".sys.computed_columns cc ON cc.[object_id] = c.[object_id] AND cc.[column_id] = c.[column_id] WHERE c.[object_id] = "@ + signed_decimal(object_id as int) + " ORDER BY c.[column_id]"@
}

/// The statement that lists the columns of a relation with their type, flags, default or computed expression, and description.
pub fn mssql_child_column_sql(database: &str, object_id: i32) -> (r: String)
    ensures
        r@ == ms_child_column_sql(database@, object_id),
{
    let q = quote_identifier(database);
    let object_id_text = signed_decimal_string(object_id as i64);
    let mut sql = String::new();
    push_str(&mut sql, "SELECT c.[column_id], c.[name], t.[name] AS [type_name], c.[is_nullable], c.[is_identity], c.[is_computed], dc.[definition] AS [default_expression], cc.[definition] AS [computed_expression], CASE WHEN t.[name] IN ('rowversion','timestamp') THEN 1 ELSE 0 END AS [rowversion], (SELECT CAST(ep.[value] AS nvarchar(4000)) FROM ");
    push_str(&mut sql, q.as_str());
    push_str(&mut sql, ".sys.extended_properties ep WHERE ep.[class] = 1 AND ep.[major_id] = c.[object_id] AND ep.[minor_id] = c.[column_id] AND ep.[name] = N'MS_Description') AS [comment] FROM ");
    push_str(&mut sql, q.as_str());
    push_str(&mut sql, ".sys.columns c JOIN ");
    push_str(&mut sql, q.as_str());
    push_str(&mut sql, ".sys.types t ON t.[user_type_id] = c.[user_type_id] LEFT JOIN ");
    push_str(&mut sql, q.as_str());
    push_str(&mut sql, ".sys.default_constraints dc ON dc.[parent_object_id] = c.[object_id] AND dc.[parent_column_id] = c.[column_id] LEFT JOIN ");
    push_str(&mut sql, q.as_str());
    push_str(&mut sql, ".sys.computed_columns cc ON cc.[object_id] = c.[object_id] AND cc.[column_id] = c.[column_id] WHERE c.[object_id] = ");
    push_str(&mut sql, object_id_text.as_str());
    push_str(&mut sql, " ORDER BY c.[column_id]");
    assert(sql@ =~= ms_child_column_sql(database@, object_id));
    sql
}

/// The statement that lists the triggers of a relation.
pub open spec fn ms_child_trigger_sql(database: Seq<char>, object_id: i32) -> Seq<char> {
    "SELECT [name], [object_id] FROM "@ + ms_identifier(database) + ".sys.triggers WHERE [parent_id] = "@ + signed_decimal(object_id as int) + " AND [is_ms_shipped] = 0 ORDER BY [name] COLLATE Latin1_General_100_BIN2, [object_id]"@
}

/// The statement that lists the triggers of a relation.
pub fn mssql_child_trigger_sql(database: &str, object_id: i32) -> (r: String)
    ensures
        r@ == ms_child_trigger_sql(database@, object_id),
{
    let q = quote_identifier(database);
    let object_id_text = signed_decimal_string(object_id as i64);
    let mut sql = String::new();
    push_str(&mut sql, "SELECT [name], [object_id] FROM ");
    push_str(&mut sql, q.as_str());
    push_str(&mut sql, ".sys.triggers WHERE [parent_id] = ");
    push_str(&mut sql, object_id_text.as_str());
    push_str(&mut sql, " AND [is_ms_shipped] = 0 ORDER BY [name] COLLATE Latin1_General_100_BIN2, [object_id]");
    assert(sql@ =~= ms_child_trigger_sql(database@, object_id));
    sql
}


// ---------------------------------------------------------------------------
// Grouping rows by the id of what they describe
// ---------------------------------------------------------------------------

/// The positions among the first `n` ids that hold `id`, in order.
pub open spec fn rows_with_id(ids: Seq<i32>, id: i32, n: nat) -> Seq<usize>
    decreases n,
{
    if n == 0 {
        Seq::empty()
    } else {
        let rest = rows_with_id(ids, id, (n - 1) as nat);
        if ids[n - 1] == id {
            rest.push((n - 1) as usize)
        } else {
            rest
        }
    }
}

/// The positions among the first `n` ids where an id occurs first.
pub open spec fn first_rows(ids: Seq<i32>, n: nat) -> Seq<int>
    decreases n,
{
    if n == 0 {
        Seq::empty()
    } else {
        let rest = first_rows(ids, (n - 1) as nat);
        if ids.subrange(0, n - 1).contains(ids[n - 1]) {
            rest
        } else {
            rest.push(n - 1)
        }
    }
}

/// One group per distinct id, in the order the ids first occur, each with
/// the positions of the rows that carry it.
pub open spec fn id_groups(ids: Seq<i32>) -> Seq<(i32, Seq<usize>)> {
    first_rows(ids, ids.len()).map_values(
        |k: int| (ids[k], rows_with_id(ids, ids[k], ids.len())),
    )
}

/// The rows that carry one id.
#[derive(Clone, Debug, PartialEq, Eq)]
pub struct RowGroup {
    pub id: i32,
    pub rows: Vec<usize>,
}

pub open spec fn group_view(g: RowGroup) -> (i32, Seq<usize>) {
    (g.id, g.rows@)
}

pub open spec fn has_group(groups: Seq<RowGroup>, id: i32) -> bool {
    exists|h: int| 0 <= h < groups.len() && #[trigger] groups[h].id == id
}

proof fn lemma_first_rows_bounds(ids: Seq<i32>, n: nat)
    requires
        n <= ids.len(),
    ensures
        forall|g: int| 0 <= g < first_rows(ids, n).len() ==> 0 <= #[trigger] first_rows(ids, n)[g] < n,
    decreases n,
{
    if n > 0 {
        lemma_first_rows_bounds(ids, (n - 1) as nat);
        let rest = first_rows(ids, (n - 1) as nat);
        assert forall|g: int| 0 <= g < first_rows(ids, n).len() implies 0 <= #[trigger] first_rows(
            ids,
            n,
        )[g] < n by {
            if g < rest.len() {
                assert(first_rows(ids, n)[g] == rest[g]);
            }
        }
    }
}

proof fn lemma_rows_with_absent_id(ids: Seq<i32>, id: i32, n: nat)
    requires
        n <= ids.len(),
        !ids.subrange(0, n as int).contains(id),
    ensures
        rows_with_id(ids, id, n) == Seq::<usize>::empty(),
    decreases n,
{
    if n > 0 {
        assert(ids.subrange(0, n as int)[n - 1] == ids[n - 1]);
        let pre = ids.subrange(0, n - 1);
        let all = ids.subrange(0, n as int);
        if pre.contains(id) {
            let k = choose|k: int| 0 <= k < pre.len() && #[trigger] pre[k] == id;
            assert(all[k] == pre[k]);
        }
        lemma_rows_with_absent_id(ids, id, (n - 1) as nat);
    }
}

/// Groups the positions of `ids` by id, in the order the ids first occur.
pub fn group_row_ids(ids: &Vec<i32>) -> (r: Vec<RowGroup>)
    requires
        ids@.len() <= usize::MAX,
    ensures
        r@.map_values(|g: RowGroup| group_view(g)) == id_groups(ids@),
{
    let mut groups: Vec<RowGroup> = Vec::new();
    let mut i: usize = 0;
    while i < ids.len()
        invariant
            i <= ids@.len(),
            groups@.len() == first_rows(ids@, i as nat).len(),
            forall|g: int|
                0 <= g < groups@.len() ==> (#[trigger] groups@[g]).id == ids@[first_rows(
                    ids@,
                    i as nat,
                )[g]] && groups@[g].rows@ == rows_with_id(ids@, groups@[g].id, i as nat),
            forall|k: int| 0 <= k < i ==> has_group(groups@, #[trigger] ids@[k]),
            forall|a: int, b: int|
                #![trigger groups@[a], groups@[b]]
                0 <= a < b < groups@.len() ==> groups@[a].id != groups@[b].id,
        decreases ids@.len() - i,
    {
        proof {
            lemma_first_rows_bounds(ids@, i as nat);
        }
        let id = ids[i];
        let mut g: usize = 0;
        while g < groups.len()
            invariant
                g <= groups@.len(),
                forall|h: int| 0 <= h < g ==> #[trigger] groups@[h].id != id,
            decreases groups@.len() - g,
        {
            if groups[g].id == id {
                break;
            }
            g = g + 1;
        }
        let ghost old_groups = groups@;
        let ghost n = (i + 1) as nat;
        assert(ids@.subrange(0, i as int) =~= ids@.subrange(0, n - 1));
        if g < groups.len() {
            let ghost k = first_rows(ids@, i as nat)[g as int];
            assert(ids@.subrange(0, i as int)[k] == ids@[k]);
            assert(ids@.subrange(0, i as int).contains(id));
            assert(first_rows(ids@, n) == first_rows(ids@, i as nat));
            let mut grp = groups.remove(g);
            grp.rows.push(i);
            groups.insert(g, grp);
            assert forall|h: int| 0 <= h < groups@.len() implies (#[trigger] groups@[h]).id == ids@[first_rows(
                ids@,
                n,
            )[h]] && groups@[h].rows@ == rows_with_id(ids@, groups@[h].id, n) by {
                if h != g {
                    assert(groups@[h] == old_groups[h]);
                    if h < g {
                        assert(old_groups[h].id != old_groups[g as int].id);
                    } else {
                        assert(old_groups[g as int].id != old_groups[h].id);
                    }
                }
            }
            assert forall|a: int, b: int|
                #![trigger groups@[a], groups@[b]]
                0 <= a < b < groups@.len() implies groups@[a].id != groups@[b].id by {
                assert(groups@[a].id == old_groups[a].id);
                assert(groups@[b].id == old_groups[b].id);
            }
            assert forall|j: int| 0 <= j < n implies has_group(groups@, #[trigger] ids@[j]) by {
                if j < i {
                    let h = choose|h: int| 0 <= h < old_groups.len() && #[trigger] old_groups[h].id == ids@[j];
                    assert(groups@[h].id == old_groups[h].id);
                } else {
                    assert(groups@[g as int].id == ids@[j]);
                }
            }
        } else {
            assert(!ids@.subrange(0, i as int).contains(id)) by {
                let pre = ids@.subrange(0, i as int);
                if pre.contains(id) {
                    let j = choose|j: int| 0 <= j < pre.len() && #[trigger] pre[j] == id;
                    assert(ids@[j] == id);
                    let h = choose|h: int| 0 <= h < groups@.len() && #[trigger] groups@[h].id == ids@[j];
                }
            }
            proof {
                lemma_rows_with_absent_id(ids@, id, i as nat);
            }
            assert(first_rows(ids@, n) == first_rows(ids@, i as nat).push(i as int));
            let mut rows: Vec<usize> = Vec::new();
            rows.push(i);
            assert(rows@ =~= rows_with_id(ids@, id, n));
            groups.push(RowGroup { id, rows });
            assert forall|h: int| 0 <= h < groups@.len() implies (#[trigger] groups@[h]).id == ids@[first_rows(
                ids@,
                n,
            )[h]] && groups@[h].rows@ == rows_with_id(ids@, groups@[h].id, n) by {
                if h < old_groups.len() {
                    assert(groups@[h] == old_groups[h]);
                }
            }
            assert forall|j: int| 0 <= j < n implies has_group(groups@, #[trigger] ids@[j]) by {
                if j < i {
                    let h = choose|h: int| 0 <= h < old_groups.len() && #[trigger] old_groups[h].id == ids@[j];
                    assert(groups@[h].id == old_groups[h].id);
                } else {
                    assert(groups@[old_groups.len() as int].id == ids@[j]);
                }
            }
        }
        i = i + 1;
    }
    assert(ids@.len() as nat == i as nat);
    assert(groups@.map_values(|g: RowGroup| group_view(g)) =~= id_groups(ids@));
    groups
}

proof fn lemma_rows_with_id_facts(ids: Seq<i32>, id: i32, n: nat)
    requires
        n <= ids.len(),
    ensures
        forall|j: int| 0 <= j < rows_with_id(ids, id, n).len() ==> (#[trigger] rows_with_id(ids, id, n)[j]) < n,
        forall|k: int| 0 <= k < n && ids[k] == id ==> rows_with_id(ids, id, n).len() > 0,
    decreases n,
{
    if n > 0 {
        lemma_rows_with_id_facts(ids, id, (n - 1) as nat);
        let rest = rows_with_id(ids, id, (n - 1) as nat);
        assert forall|j: int| 0 <= j < rows_with_id(ids, id, n).len() implies (#[trigger] rows_with_id(
            ids,
            id,
            n,
        )[j]) < n by {
            if j < rest.len() {
                assert(rows_with_id(ids, id, n)[j] == rest[j]);
            }
        }
    }
}

/// Each group of `ids` is non-empty, and its rows are positions of `ids`.
proof fn lemma_id_groups_rows(ids: Seq<i32>)
    ensures
        forall|g: int|
            0 <= g < id_groups(ids).len() ==> (#[trigger] id_groups(ids)[g]).1.len() > 0 && forall|j: int|
                0 <= j < id_groups(ids)[g].1.len() ==> (#[trigger] id_groups(ids)[g].1[j]) < ids.len(),
{
    lemma_first_rows_bounds(ids, ids.len());
    assert forall|g: int| 0 <= g < id_groups(ids).len() implies (#[trigger] id_groups(ids)[g]).1.len()
        > 0 && forall|j: int|
        0 <= j < id_groups(ids)[g].1.len() ==> (#[trigger] id_groups(ids)[g].1[j]) < ids.len() by {
        let k = first_rows(ids, ids.len())[g];
        lemma_rows_with_id_facts(ids, ids[k], ids.len());
    }
}

/// The texts of `rows` at the positions `at`, in order.
pub open spec fn texts_at(texts: Seq<Seq<char>>, at: Seq<usize>) -> Seq<Seq<char>> {
    at.map_values(|k: usize| texts[k as int])
}

fn collect_texts(texts: &Vec<String>, at: &Vec<usize>) -> (r: Vec<String>)
    requires
        forall|j: int| 0 <= j < at@.len() ==> (#[trigger] at@[j]) < texts@.len(),
    ensures
        views(r@) == texts_at(views(texts@), at@),
{
    let mut out: Vec<String> = Vec::new();
    let mut j: usize = 0;
    while j < at.len()
        invariant
            j <= at@.len(),
            forall|j: int| 0 <= j < at@.len() ==> (#[trigger] at@[j]) < texts@.len(),
            views(out@) == texts_at(views(texts@), at@.subrange(0, j as int)),
        decreases at@.len() - j,
    {
        let ghost before = out@;
        let t = texts[at[j]].clone();
        out.push(t);
        assert(views(out@) =~= views(before).push(t@));
        assert(at@.subrange(0, j + 1) =~= at@.subrange(0, j as int).push(at@[j as int]));
        j = j + 1;
        assert(views(out@) =~= texts_at(views(texts@), at@.subrange(0, j as int)));
    }
    assert(at@.subrange(0, j as int) =~= at@);
    out
}

// ---------------------------------------------------------------------------
// Indexes
// ---------------------------------------------------------------------------

/// One row of the index listing: an index and one of its columns.
#[derive(Clone, Debug, PartialEq, Eq)]
pub struct MsSqlIndexRow {
    pub index_id: i32,
    pub name: String,
    pub is_unique: bool,
    pub column_name: String,
}

/// An index of a relation, with its columns in listing order.
#[derive(Clone, Debug, PartialEq, Eq)]
pub struct MsSqlIndex {
    pub index_id: i32,
    pub name: String,
    pub unique: bool,
    pub columns: Vec<String>,
}

pub open spec fn index_view(i: MsSqlIndex) -> (i32, Seq<char>, bool, Seq<Seq<char>>) {
    (i.index_id, i.name@, i.unique, views(i.columns@))
}

/// The indexes that the rows list: one per index id, in the order the ids
/// first occur, named and flagged as by its first row, with the columns of
/// all its rows in order.
pub open spec fn ms_indexes(rows: Seq<MsSqlIndexRow>) -> Seq<(i32, Seq<char>, bool, Seq<Seq<char>>)> {
    id_groups(rows.map_values(|r: MsSqlIndexRow| r.index_id)).map_values(
        |g: (i32, Seq<usize>)|
            (
                g.0,
                rows[g.1[0] as int].name@,
                rows[g.1[0] as int].is_unique,
                texts_at(rows.map_values(|r: MsSqlIndexRow| r.column_name@), g.1),
            ),
    )
}

/// Groups the index rows of a relation into its indexes.
pub fn mssql_indexes(rows: &Vec<MsSqlIndexRow>) -> (r: Vec<MsSqlIndex>)
    ensures
        r@.map_values(|i: MsSqlIndex| index_view(i)) == ms_indexes(rows@),
{
    let mut ids: Vec<i32> = Vec::new();
    let mut names: Vec<String> = Vec::new();
    let mut k: usize = 0;
    while k < rows.len()
        invariant
            k <= rows@.len(),
            ids@ == rows@.subrange(0, k as int).map_values(|r: MsSqlIndexRow| r.index_id),
            views(names@) == rows@.subrange(0, k as int).map_values(|r: MsSqlIndexRow| r.column_name@),
        decreases rows@.len() - k,
    {
        let ghost before = names@;
        ids.push(rows[k].index_id);
        let t = rows[k].column_name.clone();
        names.push(t);
        assert(views(names@) =~= views(before).push(t@));
        assert(rows@.subrange(0, k + 1) =~= rows@.subrange(0, k as int).push(rows@[k as int]));
        k = k + 1;
        assert(ids@ =~= rows@.subrange(0, k as int).map_values(|r: MsSqlIndexRow| r.index_id));
        assert(views(names@) =~= rows@.subrange(0, k as int).map_values(|r: MsSqlIndexRow| r.column_name@));
    }
    assert(rows@.subrange(0, k as int) =~= rows@);
    let groups = group_row_ids(&ids);
    proof {
        lemma_id_groups_rows(ids@);
    }
    let ghost spec_groups = id_groups(ids@);
    assert(groups@.len() == spec_groups.len());
    let mut out: Vec<MsSqlIndex> = Vec::new();
    let mut g: usize = 0;
    while g < groups.len()
        invariant
            g <= groups@.len(),
            groups@.len() == spec_groups.len(),
            spec_groups == id_groups(ids@),
            ids@.len() == rows@.len(),
            ids@ == rows@.map_values(|r: MsSqlIndexRow| r.index_id),
            views(names@) == rows@.map_values(|r: MsSqlIndexRow| r.column_name@),
            forall|h: int| 0 <= h < groups@.len() ==> group_view(#[trigger] groups@[h]) == spec_groups[h],
            forall|h: int|
                0 <= h < spec_groups.len() ==> (#[trigger] spec_groups[h]).1.len() > 0 && forall|j: int|
                    0 <= j < spec_groups[h].1.len() ==> (#[trigger] spec_groups[h].1[j]) < ids@.len(),
            out@.map_values(|i: MsSqlIndex| index_view(i)) == ms_indexes(rows@).subrange(0, g as int),
        decreases groups@.len() - g,
    {
        let group = &groups[g];
        assert(group_view(*group) == spec_groups[g as int]);
        let first = group.rows[0];
        let columns = collect_texts(&names, &group.rows);
        out.push(
            MsSqlIndex {
                index_id: group.id,
                name: rows[first].name.clone(),
                unique: rows[first].is_unique,
                columns,
            },
        );
        g = g + 1;
        assert(out@.map_values(|i: MsSqlIndex| index_view(i)) =~= ms_indexes(rows@).subrange(0, g as int));
    }
    assert(ms_indexes(rows@).subrange(0, g as int) =~= ms_indexes(rows@));
    out
}

// ---------------------------------------------------------------------------
// Key, foreign-key and check constraints
// ---------------------------------------------------------------------------

/// The texts present at the positions `at`, in order, skipping absent ones.
pub open spec fn present_at(texts: Seq<Option<Seq<char>>>, at: Seq<usize>) -> Seq<Seq<char>>
    decreases at.len(),
{
    if at.len() == 0 {
        Seq::empty()
    } else {
        let rest = present_at(texts, at.drop_last());
        match texts[at.last() as int] {
            Some(t) => rest.push(t),
            None => rest,
        }
    }
}

/// One row of the constraint listing: a constraint and, for key and
/// foreign-key constraints, one of its columns.
#[derive(Clone, Debug, PartialEq, Eq)]
pub struct MsSqlConstraintRow {
    pub constraint_id: i32,
    pub kind: String,
    pub name: String,
    pub column_name: Option<String>,
}

/// A constraint of a relation: its id, name, type code and columns.
#[derive(Clone, Debug, PartialEq, Eq)]
pub struct MsSqlConstraint {
    pub constraint_id: i32,
    pub name: String,
    pub kind: String,
    pub columns: Vec<String>,
}

pub open spec fn constraint_view(c: MsSqlConstraint) -> (i32, Seq<char>, Seq<char>, Seq<Seq<char>>) {
    (c.constraint_id, c.name@, c.kind@, views(c.columns@))
}

/// The constraints that the rows list: one per constraint id, in the order
/// the ids first occur, named and typed as by its first row, with the
/// columns its rows give, in order.
pub open spec fn ms_constraints(rows: Seq<MsSqlConstraintRow>) -> Seq<(i32, Seq<char>, Seq<char>, Seq<Seq<char>>)> {
    id_groups(rows.map_values(|r: MsSqlConstraintRow| r.constraint_id)).map_values(
        |g: (i32, Seq<usize>)|
            (
                g.0,
                rows[g.1[0] as int].name@,
                rows[g.1[0] as int].kind@,
                present_at(rows.map_values(|r: MsSqlConstraintRow| opt_view(r.column_name)), g.1),
            ),
    )
}

fn collect_present(texts: &Vec<Option<String>>, at: &Vec<usize>) -> (r: Vec<String>)
    requires
        forall|j: int| 0 <= j < at@.len() ==> (#[trigger] at@[j]) < texts@.len(),
    ensures
        views(r@) == present_at(texts@.map_values(|t: Option<String>| opt_view(t)), at@),
{
    let ghost tv = texts@.map_values(|t: Option<String>| opt_view(t));
    let mut out: Vec<String> = Vec::new();
    let mut j: usize = 0;
    while j < at.len()
        invariant
            j <= at@.len(),
            tv == texts@.map_values(|t: Option<String>| opt_view(t)),
            forall|j: int| 0 <= j < at@.len() ==> (#[trigger] at@[j]) < texts@.len(),
            views(out@) == present_at(tv, at@.subrange(0, j as int)),
        decreases at@.len() - j,
    {
        let ghost before = out@;
        assert(at@.subrange(0, j + 1).drop_last() =~= at@.subrange(0, j as int));
        match &texts[at[j]] {
            Some(t) => {
                let t = t.clone();
                out.push(t);
                assert(views(out@) =~= views(before).push(t@));
            },
            None => {},
        }
        j = j + 1;
    }
    assert(at@.subrange(0, j as int) =~= at@);
    out
}

/// Groups the constraint rows of a relation into its constraints.
pub fn mssql_constraints(rows: &Vec<MsSqlConstraintRow>) -> (r: Vec<MsSqlConstraint>)
    ensures
        r@.map_values(|c: MsSqlConstraint| constraint_view(c)) == ms_constraints(rows@),
{
    let mut ids: Vec<i32> = Vec::new();
    let mut columns: Vec<Option<String>> = Vec::new();
    let mut k: usize = 0;
    while k < rows.len()
        invariant
            k <= rows@.len(),
            ids@ == rows@.subrange(0, k as int).map_values(|r: MsSqlConstraintRow| r.constraint_id),
            columns@.map_values(|t: Option<String>| opt_view(t)) == rows@.subrange(0, k as int).map_values(
                |r: MsSqlConstraintRow| opt_view(r.column_name),
            ),
        decreases rows@.len() - k,
    {
        let ghost before = columns@;
        ids.push(rows[k].constraint_id);
        let t = crate::text::clone_opt(&rows[k].column_name);
        columns.push(t);
        assert(columns@.map_values(|t: Option<String>| opt_view(t)) =~= before.map_values(
            |t: Option<String>| opt_view(t),
        ).push(opt_view(t)));
        assert(rows@.subrange(0, k + 1) =~= rows@.subrange(0, k as int).push(rows@[k as int]));
        k = k + 1;
        assert(ids@ =~= rows@.subrange(0, k as int).map_values(|r: MsSqlConstraintRow| r.constraint_id));
        assert(columns@.map_values(|t: Option<String>| opt_view(t)) =~= rows@.subrange(0, k as int).map_values(
            |r: MsSqlConstraintRow| opt_view(r.column_name),
        ));
    }
    assert(rows@.subrange(0, k as int) =~= rows@);
    let groups = group_row_ids(&ids);
    proof {
        lemma_id_groups_rows(ids@);
    }
    let ghost spec_groups = id_groups(ids@);
    assert(groups@.len() == spec_groups.len());
    let mut out: Vec<MsSqlConstraint> = Vec::new();
    let mut g: usize = 0;
    while g < groups.len()
        invariant
            g <= groups@.len(),
            groups@.len() == spec_groups.len(),
            spec_groups == id_groups(ids@),
            ids@.len() == rows@.len(),
            columns@.len() == rows@.len(),
            ids@ == rows@.map_values(|r: MsSqlConstraintRow| r.constraint_id),
            columns@.map_values(|t: Option<String>| opt_view(t)) == rows@.map_values(
                |r: MsSqlConstraintRow| opt_view(r.column_name),
            ),
            forall|h: int| 0 <= h < groups@.len() ==> group_view(#[trigger] groups@[h]) == spec_groups[h],
            forall|h: int|
                0 <= h < spec_groups.len() ==> (#[trigger] spec_groups[h]).1.len() > 0 && forall|j: int|
                    0 <= j < spec_groups[h].1.len() ==> (#[trigger] spec_groups[h].1[j]) < ids@.len(),
            out@.map_values(|c: MsSqlConstraint| constraint_view(c)) == ms_constraints(rows@).subrange(0, g as int),
        decreases groups@.len() - g,
    {
        let group = &groups[g];
        assert(group_view(*group) == spec_groups[g as int]);
        let first = group.rows[0];
        let cols = collect_present(&columns, &group.rows);
        out.push(
            MsSqlConstraint {
                constraint_id: group.id,
                name: rows[first].name.clone(),
                kind: rows[first].kind.clone(),
                columns: cols,
            },
        );
        g = g + 1;
        assert(out@.map_values(|c: MsSqlConstraint| constraint_view(c)) =~= ms_constraints(rows@).subrange(0, g as int));
    }
    assert(ms_constraints(rows@).subrange(0, g as int) =~= ms_constraints(rows@));
    out
}

/// One row of the foreign-key listing: a foreign key, the relation it
/// references, and one pair of source and referenced columns.
#[derive(Clone, Debug, PartialEq, Eq)]
pub struct MsSqlForeignKeyRow {
    pub constraint_id: i32,
    pub referenced_schema: String,
    pub referenced_relation: String,
    pub source_column: String,
    pub referenced_column: String,
}

pub open spec fn foreign_key_view(f: (i32, MsSqlForeignKey)) -> (i32, Seq<char>, Seq<char>, Seq<Seq<char>>, Seq<Seq<char>>) {
    (f.0, f.1.referenced_schema@, f.1.referenced_relation@, views(f.1.source_columns@), views(f.1.referenced_columns@))
}

/// The foreign keys that the rows list: one per constraint id, in the order
/// the ids first occur, referencing the relation its first row names, with
/// the column pairs of all its rows in order.
pub open spec fn ms_foreign_keys(rows: Seq<MsSqlForeignKeyRow>) -> Seq<(i32, Seq<char>, Seq<char>, Seq<Seq<char>>, Seq<Seq<char>>)> {
    id_groups(rows.map_values(|r: MsSqlForeignKeyRow| r.constraint_id)).map_values(
        |g: (i32, Seq<usize>)|
            (
                g.0,
                rows[g.1[0] as int].referenced_schema@,
                rows[g.1[0] as int].referenced_relation@,
                texts_at(rows.map_values(|r: MsSqlForeignKeyRow| r.source_column@), g.1),
                texts_at(rows.map_values(|r: MsSqlForeignKeyRow| r.referenced_column@), g.1),
            ),
    )
}

/// Groups the foreign-key rows of a relation into its foreign keys.
pub fn mssql_foreign_keys(rows: &Vec<MsSqlForeignKeyRow>) -> (r: Vec<(i32, MsSqlForeignKey)>)
    ensures
        r@.map_values(|f: (i32, MsSqlForeignKey)| foreign_key_view(f)) == ms_foreign_keys(rows@),
{
    let mut ids: Vec<i32> = Vec::new();
    let mut sources: Vec<String> = Vec::new();
    let mut targets: Vec<String> = Vec::new();
    let mut k: usize = 0;
    while k < rows.len()
        invariant
            k <= rows@.len(),
            ids@ == rows@.subrange(0, k as int).map_values(|r: MsSqlForeignKeyRow| r.constraint_id),
            views(sources@) == rows@.subrange(0, k as int).map_values(|r: MsSqlForeignKeyRow| r.source_column@),
            views(targets@) == rows@.subrange(0, k as int).map_values(|r: MsSqlForeignKeyRow| r.referenced_column@),
        decreases rows@.len() - k,
    {
        let ghost before_s = sources@;
        let ghost before_t = targets@;
        ids.push(rows[k].constraint_id);
        let a = rows[k].source_column.clone();
        let b = rows[k].referenced_column.clone();
        sources.push(a);
        targets.push(b);
        assert(views(sources@) =~= views(before_s).push(a@));
        assert(views(targets@) =~= views(before_t).push(b@));
        assert(rows@.subrange(0, k + 1) =~= rows@.subrange(0, k as int).push(rows@[k as int]));
        k = k + 1;
        assert(ids@ =~= rows@.subrange(0, k as int).map_values(|r: MsSqlForeignKeyRow| r.constraint_id));
        assert(views(sources@) =~= rows@.subrange(0, k as int).map_values(|r: MsSqlForeignKeyRow| r.source_column@));
        assert(views(targets@) =~= rows@.subrange(0, k as int).map_values(|r: MsSqlForeignKeyRow| r.referenced_column@));
    }
    assert(rows@.subrange(0, k as int) =~= rows@);
    let groups = group_row_ids(&ids);
    proof {
        lemma_id_groups_rows(ids@);
    }
    let ghost spec_groups = id_groups(ids@);
    assert(groups@.len() == spec_groups.len());
    let mut out: Vec<(i32, MsSqlForeignKey)> = Vec::new();
    let mut g: usize = 0;
    while g < groups.len()
        invariant
            g <= groups@.len(),
            groups@.len() == spec_groups.len(),
            spec_groups == id_groups(ids@),
            ids@.len() == rows@.len(),
            ids@ == rows@.map_values(|r: MsSqlForeignKeyRow| r.constraint_id),
            views(sources@) == rows@.map_values(|r: MsSqlForeignKeyRow| r.source_column@),
            views(targets@) == rows@.map_values(|r: MsSqlForeignKeyRow| r.referenced_column@),
            forall|h: int| 0 <= h < groups@.len() ==> group_view(#[trigger] groups@[h]) == spec_groups[h],
            forall|h: int|
                0 <= h < spec_groups.len() ==> (#[trigger] spec_groups[h]).1.len() > 0 && forall|j: int|
                    0 <= j < spec_groups[h].1.len() ==> (#[trigger] spec_groups[h].1[j]) < ids@.len(),
            out@.map_values(|f: (i32, MsSqlForeignKey)| foreign_key_view(f)) == ms_foreign_keys(rows@).subrange(0, g as int),
        decreases groups@.len() - g,
    {
        let group = &groups[g];
        assert(group_view(*group) == spec_groups[g as int]);
        let first = group.rows[0];
        let source_columns = collect_texts(&sources, &group.rows);
        let referenced_columns = collect_texts(&targets, &group.rows);
        out.push(
            (
                group.id,
                MsSqlForeignKey {
                    referenced_schema: rows[first].referenced_schema.clone(),
                    referenced_relation: rows[first].referenced_relation.clone(),
                    source_columns,
                    referenced_columns,
                },
            ),
        );
        g = g + 1;
        assert(out@.map_values(|f: (i32, MsSqlForeignKey)| foreign_key_view(f)) =~= ms_foreign_keys(rows@).subrange(0, g as int));
    }
    assert(ms_foreign_keys(rows@).subrange(0, g as int) =~= ms_foreign_keys(rows@));
    out
}

/// Takes the foreign key `id` out of `keys`: the first one with that id,
/// if any; the others stay in order.
pub fn mssql_take_foreign_key(keys: &mut Vec<(i32, MsSqlForeignKey)>, id: i32) -> (r: Option<MsSqlForeignKey>)
    ensures
        match r {
            Some(f) => exists|j: int|
                0 <= j < old(keys)@.len() && old(keys)@[j].0 == id && (forall|h: int|
                    0 <= h < j ==> (#[trigger] old(keys)@[h]).0 != id) && f == old(keys)@[j].1
                    && final(keys)@ == old(keys)@.remove(j),
            None => (forall|h: int| 0 <= h < old(keys)@.len() ==> (#[trigger] old(keys)@[h]).0 != id)
                && final(keys)@ == old(keys)@,
        },
{
    let mut j: usize = 0;
    while j < keys.len()
        invariant
            j <= keys@.len(),
            keys@ == old(keys)@,
            forall|h: int| 0 <= h < j ==> (#[trigger] keys@[h]).0 != id,
        decreases keys@.len() - j,
    {
        if keys[j].0 == id {
            let (_, key) = keys.remove(j);
            return Some(key);
        }
        j = j + 1;
    }
    None
}

// ---------------------------------------------------------------------------
// Child entries
// ---------------------------------------------------------------------------

/// Whether `r` is the outcome of making the child `id` of `relation`, named
/// `name` in `database` and `schema`: refused for the first of a child kind
/// that is not one, an owner that is not a relation, another profile,
/// metadata that does not fit, or an empty name; otherwise the entry with
/// these parts.
pub open spec fn ms_child_entry(
    r: Result<CatalogEntry, CatalogValidationError>,
    relation: CatalogId,
    id: CatalogIdView,
    database: Seq<char>,
    schema: Seq<char>,
    name: Seq<char>,
    native_kind: Seq<char>,
    comment: Option<String>,
    metadata: CatalogMetadata,
) -> bool {
    &&& entry_issue(r) == first_issue(
        child_kind_issue(id.kind),
        first_issue(
            relation_issue(relation.kind, "owning relation"),
            first_issue(
                profile_issue(id.connection_id, relation.connection_id),
                first_issue(
                    metadata_issue(id.kind, metadata),
                    first_issue(
                        metadata_profiles_issue(id, metadata),
                        if name.len() == 0 {
                            Some(crate::catalog_error::CatalogIssue::EmptyQualifiedObject)
                        } else {
                            None
                        },
                    ),
                ),
            ),
        ),
    )
    &&& r matches Ok(e) ==> {
        &&& e.id@ == id
        &&& e.kind == id.kind
        &&& e.qualified_name@ == (QualifiedNameView {
            database: Some(database),
            schema: Some(schema),
            object: name,
        })
        &&& e.native_kind@ == native_kind
        &&& e.comment == OptionalMetadata::Supported(comment)
        &&& e.metadata == metadata
        &&& e.parent_id matches Some(p) && p@ == relation@
        &&& !e.expandable
        &&& e.relation_id matches Some(rel) && rel@ == relation@
    }
}

fn child_entry(
    id: CatalogId,
    relation: &CatalogId,
    database: &str,
    schema: &str,
    name: &str,
    native_kind: &str,
    comment: Option<String>,
    metadata: CatalogMetadata,
) -> (r: Result<CatalogEntry, CatalogValidationError>)
    ensures
        ms_child_entry(r, *relation, id@, database@, schema@, name@, native_kind@, comment, metadata),
{
    let qualified = QualifiedName {
        database: Some(owned(database)),
        schema: Some(owned(schema)),
        object: owned(name),
    };
    CatalogEntry::relation_child(
        id,
        relation.clone(),
        qualified,
        owned(native_kind),
        OptionalMetadata::Supported(comment),
        metadata,
    )
}

/// The identity of the child of `kind` of a relation whose native id is
/// `native_id`: the relation's path extended by the id.
pub fn mssql_child_id(relation: &CatalogId, kind: CatalogKind, native_id: i32) -> (r: CatalogId)
    ensures
        r@ == (CatalogIdView {
            connection_id: relation.connection_id,
            kind,
            path: relation@.path.push(signed_decimal(native_id as int)),
        }),
{
    let text = signed_decimal_string(native_id as i64);
    relation_child_id(relation, kind, text.as_str())
}

/// The entry of an index of a relation.
pub fn mssql_index_entry(relation: &CatalogId, database: &str, schema: &str, index: MsSqlIndex) -> (r:
    Result<CatalogEntry, CatalogValidationError>)
    ensures
        ms_child_entry(
            r,
            *relation,
            CatalogIdView {
                connection_id: relation.connection_id,
                kind: CatalogKind::Index,
                path: relation@.path.push(signed_decimal(index.index_id as int)),
            },
            database@,
            schema@,
            index.name@,
            "index"@,
            None,
            CatalogMetadata::Index(IndexMetadata { columns: index.columns, unique: index.unique }),
        ),
{
    let id = mssql_child_id(relation, CatalogKind::Index, index.index_id);
    let MsSqlIndex { name, unique, columns, .. } = index;
    child_entry(
        id,
        relation,
        database,
        schema,
        name.as_str(),
        "index",
        None,
        CatalogMetadata::Index(IndexMetadata { columns, unique }),
    )
}

/// The entry of a constraint of a relation, whose identity is `id`.
pub fn mssql_constraint_entry(
    relation: &CatalogId,
    database: &str,
    schema: &str,
    id: CatalogId,
    name: &str,
    metadata: CatalogMetadata,
) -> (r: Result<CatalogEntry, CatalogValidationError>)
    ensures
        ms_child_entry(r, *relation, id@, database@, schema@, name@, "constraint"@, None, metadata),
{
    child_entry(id, relation, database, schema, name, "constraint", None, metadata)
}

/// The entry of a column of a relation, identified by its column id.
pub fn mssql_column_entry(
    relation: &CatalogId,
    database: &str,
    schema: &str,
    column_id: i32,
    name: &str,
    comment: Option<String>,
    metadata: crate::catalog::ColumnMetadata,
) -> (r: Result<CatalogEntry, CatalogValidationError>)
    ensures
        ms_child_entry(
            r,
            *relation,
            CatalogIdView {
                connection_id: relation.connection_id,
                kind: CatalogKind::Column,
                path: relation@.path.push(signed_decimal(column_id as int)),
            },
            database@,
            schema@,
            name@,
            "column"@,
            comment,
            CatalogMetadata::Column(metadata),
        ),
{
    let id = mssql_child_id(relation, CatalogKind::Column, column_id);
    child_entry(id, relation, database, schema, name, "column", comment, CatalogMetadata::Column(metadata))
}

/// The entry of a trigger of the relation `relation_name` (object id
/// `object_id`): its path is the database, schema, relation name, the
/// relation's object id and the trigger's.
pub fn mssql_relation_trigger_entry(
    relation: &CatalogId,
    database: &str,
    schema: &str,
    relation_name: &str,
    object_id: i32,
    name: &str,
    trigger_id: i32,
) -> (r: Result<CatalogEntry, CatalogValidationError>)
    ensures
        ms_child_entry(
            r,
            *relation,
            CatalogIdView {
                connection_id: relation.connection_id,
                kind: CatalogKind::Trigger,
                path: seq![
                    database@,
                    schema@,
                    relation_name@,
                    signed_decimal(object_id as int),
                    signed_decimal(trigger_id as int),
                ],
            },
            database@,
            schema@,
            name@,
            "trigger"@,
            None,
            CatalogMetadata::NoMetadata,
        ),
{
    let mut path: Vec<String> = Vec::new();
    path.push(owned(database));
    path.push(owned(schema));
    path.push(owned(relation_name));
    path.push(signed_decimal_string(object_id as i64));
    path.push(signed_decimal_string(trigger_id as i64));
    assert(views(path@) =~= seq![
        database@,
        schema@,
        relation_name@,
        signed_decimal(object_id as int),
        signed_decimal(trigger_id as int),
    ]);
    let id = CatalogId::new(relation.connection_id, CatalogKind::Trigger, path);
    child_entry(id, relation, database, schema, name, "trigger", None, CatalogMetadata::NoMetadata)
}

/// The keys that give columns their memberships: the primary-key, unique
/// and foreign-key constraints among `constraints`, in order, each with its
/// identity and columns.
pub open spec fn ms_member_keys(relation: CatalogId, constraints: Seq<MsSqlConstraint>) -> Seq<
    (CatalogIdView, Seq<Seq<char>>),
>
    decreases constraints.len(),
{
    if constraints.len() == 0 {
        Seq::empty()
    } else {
        let rest = ms_member_keys(relation, constraints.drop_last());
        let c = constraints.last();
        match crate::mssql_children::ms_constraint_kind(c.kind@) {
            Some(kind) => if kind == CatalogKind::CheckConstraint {
                rest
            } else {
                rest.push(
                    (
                        CatalogIdView {
                            connection_id: relation.connection_id,
                            kind,
                            path: relation@.path.push(signed_decimal(c.constraint_id as int)),
                        },
                        views(c.columns@),
                    ),
                )
            },
            None => rest,
        }
    }
}

/// The keys among a relation's constraints whose columns are members.
pub fn mssql_member_keys(relation: &CatalogId, constraints: &Vec<MsSqlConstraint>) -> (r: Vec<
    (CatalogId, Vec<String>),
>)
    ensures
        r@.map_values(|k: (CatalogId, Vec<String>)| (k.0@, views(k.1@))) == ms_member_keys(
            *relation,
            constraints@,
        ),
{
    let mut out: Vec<(CatalogId, Vec<String>)> = Vec::new();
    let mut i: usize = 0;
    while i < constraints.len()
        invariant
            i <= constraints@.len(),
            out@.map_values(|k: (CatalogId, Vec<String>)| (k.0@, views(k.1@))) == ms_member_keys(
                *relation,
                constraints@.subrange(0, i as int),
            ),
        decreases constraints@.len() - i,
    {
        let c = &constraints[i];
        let ghost before = out@;
        assert(constraints@.subrange(0, i + 1).drop_last() =~= constraints@.subrange(0, i as int));
        match crate::mssql_children::mssql_constraint_kind(c.kind.as_str()) {
            Some(kind) => {
                if kind != CatalogKind::CheckConstraint {
                    let id = mssql_child_id(relation, kind, c.constraint_id);
                    let columns = clone_strings(&c.columns);
                    let ghost item = (id@, views(columns@));
                    out.push((id, columns));
                    assert(out@.map_values(|k: (CatalogId, Vec<String>)| (k.0@, views(k.1@))) =~= before.map_values(
                        |k: (CatalogId, Vec<String>)| (k.0@, views(k.1@)),
                    ).push(item));
                }
            },
            None => {},
        }
        i = i + 1;
    }
    assert(constraints@.subrange(0, i as int) =~= constraints@);
    out
}

} // verus!
