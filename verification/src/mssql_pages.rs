//! The SQL Server catalog pages of a database: its schemas, and the
//! objects and triggers of a schema.
use vstd::prelude::*;

use crate::catalog::{
    CatalogEntry, CatalogId, CatalogIdView, CatalogKind, ObjectGroup, OptionalMetadata,
    QualifiedName, QualifiedNameView,
};
use crate::catalog_error::{CatalogIssue, CatalogValidationError};
use crate::entry::{entry_issue, first_issue};
use crate::mssql::{ms_identifier, ms_literal, quote_identifier, quote_literal};
use crate::rules::{kind_issue, profile_issue, relation_issue};
use crate::scope::CatalogScope;
use crate::text::{
    ascii_lower, owned, push_str, signed_decimal, signed_decimal_string, str_eq, to_ascii_lower,
    views,
};

verus! {

/// The `sys.objects` type codes of each group a schema page lists.
pub open spec fn ms_object_types(group: ObjectGroup) -> Option<&'static str> {
    match group {
        ObjectGroup::Tables => Some("'U'"),
        ObjectGroup::Views => Some("'V'"),
        ObjectGroup::Functions => Some("'FN','IF','TF','FS','FT'"),
        ObjectGroup::Procedures => Some("'P'"),
        ObjectGroup::Sequences => Some("'SO'"),
        _ => None,
    }
}

/// The `sys.objects` type codes of a group, or `None` for triggers, which
/// have a page of their own, and for groups SQL Server does not have.
pub fn mssql_object_types(group: ObjectGroup) -> (r: Option<&'static str>)
    ensures
        r == ms_object_types(group),
{
    match group {
        ObjectGroup::Tables => Some("'U'"),
        ObjectGroup::Views => Some("'V'"),
        ObjectGroup::Functions => Some("'FN','IF','TF','FS','FT'"),
        ObjectGroup::Procedures => Some("'P'"),
        ObjectGroup::Sequences => Some("'SO'"),
        _ => None,
    }
}

/// The statement that lists the objects of `types` in `schema` of `database`.
pub open spec fn ms_object_page_sql(database: Seq<char>, schema: Seq<char>, types: Seq<char>) -> Seq<char> {
    "SELECT o.[name], o.[object_id], o.[type_desc], (SELECT CAST(ep.[value] AS nvarchar(4000)) FROM "@ + ms_identifier(database) + ".sys.extended_properties ep WHERE ep.[class] = 1 AND ep.[major_id] = o.[object_id] AND ep.[minor_id] = 0 AND ep.[name] = N'MS_Description') AS [comment] FROM "@ + ms_identifier(database) + ".sys.objects o JOIN "@ + ms_identifier(database) + ".sys.schemas s ON s.[schema_id] = o.[schema_id] WHERE s.[name] = "@ + ms_literal(schema) + " AND o.[type] IN ("@ + types + ") AND o.[is_ms_shipped] = 0 ORDER BY o.[name] COLLATE Latin1_General_100_BIN2, o.[object_id]"@
}

/// The statement that lists the objects of `types` in a schema.
pub fn mssql_object_page_sql(database: &str, schema: &str, types: &str) -> (r: String)
    ensures
        r@ == ms_object_page_sql(database@, schema@, types@),
{
    let q = quote_identifier(database);
    let lit = quote_literal(schema);
    let mut sql = String::new();
    push_str(&mut sql, "SELECT o.[name], o.[object_id], o.[type_desc], (SELECT CAST(ep.[value] AS nvarchar(4000)) FROM ");
    push_str(&mut sql, q.as_str());
    push_str(&mut sql, ".sys.extended_properties ep WHERE ep.[class] = 1 AND ep.[major_id] = o.[object_id] AND ep.[minor_id] = 0 AND ep.[name] = N'MS_Description') AS [comment] FROM ");
    push_str(&mut sql, q.as_str());
    push_str(&mut sql, ".sys.objects o JOIN ");
    push_str(&mut sql, q.as_str());
    push_str(&mut sql, ".sys.schemas s ON s.[schema_id] = o.[schema_id] WHERE s.[name] = ");
    push_str(&mut sql, lit.as_str());
    push_str(&mut sql, " AND o.[type] IN (");
    push_str(&mut sql, types);
    push_str(&mut sql, ") AND o.[is_ms_shipped] = 0 ORDER BY o.[name] COLLATE Latin1_General_100_BIN2, o.[object_id]");
    assert(sql@ =~= ms_object_page_sql(database@, schema@, types@));
    sql
}

/// The statement that lists the triggers on the relations of a schema.
pub open spec fn ms_trigger_page_sql(database: Seq<char>, schema: Seq<char>) -> Seq<char> {
    "SELECT tr.[name], tr.[object_id], parent.[name] AS [relation_name], parent.[object_id] AS [relation_id], parent.[type] AS [relation_type], (SELECT CAST(ep.[value] AS nvarchar(4000)) FROM "@ + ms_identifier(database) + ".sys.extended_properties ep WHERE ep.[class] = 1 AND ep.[major_id] = tr.[object_id] AND ep.[minor_id] = 0 AND ep.[name] = N'MS_Description') AS [comment] FROM "@ + ms_identifier(database) + ".sys.triggers tr JOIN "@ + ms_identifier(database) + ".sys.objects parent ON parent.[object_id] = tr.[parent_id] JOIN "@ + ms_identifier(database) + ".sys.schemas s ON s.[schema_id] = parent.[schema_id] WHERE s.[name] = "@ + ms_literal(schema) + " AND tr.[is_ms_shipped] = 0 ORDER BY tr.[name] COLLATE Latin1_General_100_BIN2, tr.[object_id]"@
}

/// The statement that lists the triggers on the relations of a schema.
pub fn mssql_trigger_page_sql(database: &str, schema: &str) -> (r: String)
    ensures
        r@ == ms_trigger_page_sql(database@, schema@),
{
    let q = quote_identifier(database);
    let lit = quote_literal(schema);
    let mut sql = String::new();
    push_str(&mut sql, "SELECT tr.[name], tr.[object_id], parent.[name] AS [relation_name], parent.[object_id] AS [relation_id], parent.[type] AS [relation_type], (SELECT CAST(ep.[value] AS nvarchar(4000)) FROM ");
    push_str(&mut sql, q.as_str());
    push_str(&mut sql, ".sys.extended_properties ep WHERE ep.[class] = 1 AND ep.[major_id] = tr.[object_id] AND ep.[minor_id] = 0 AND ep.[name] = N'MS_Description') AS [comment] FROM ");
    push_str(&mut sql, q.as_str());
    push_str(&mut sql, ".sys.triggers tr JOIN ");
    push_str(&mut sql, q.as_str());
    push_str(&mut sql, ".sys.objects parent ON parent.[object_id] = tr.[parent_id] JOIN ");
    push_str(&mut sql, q.as_str());
    push_str(&mut sql, ".sys.schemas s ON s.[schema_id] = parent.[schema_id] WHERE s.[name] = ");
    push_str(&mut sql, lit.as_str());
    push_str(&mut sql, " AND tr.[is_ms_shipped] = 0 ORDER BY tr.[name] COLLATE Latin1_General_100_BIN2, tr.[object_id]");
    assert(sql@ =~= ms_trigger_page_sql(database@, schema@));
    sql
}

/// The statement that lists the user schemas of a database.
pub open spec fn ms_schema_page_sql(database: Seq<char>) -> Seq<char> {
    "SELECT [name] FROM "@ + ms_identifier(database) + ".sys.schemas WHERE [name] NOT IN ('guest','INFORMATION_SCHEMA','sys') AND [is_ms_shipped] = 0 ORDER BY [name] COLLATE Latin1_General_100_BIN2"@
}

/// The statement that lists the user schemas of a database.
pub fn mssql_schema_page_sql(database: &str) -> (r: String)
    ensures
        r@ == ms_schema_page_sql(database@),
{
    let q = quote_identifier(database);
    let mut sql = String::new();
    push_str(&mut sql, "SELECT [name] FROM ");
    push_str(&mut sql, q.as_str());
    push_str(&mut sql, ".sys.schemas WHERE [name] NOT IN ('guest','INFORMATION_SCHEMA','sys') AND [is_ms_shipped] = 0 ORDER BY [name] COLLATE Latin1_General_100_BIN2");
    assert(sql@ =~= ms_schema_page_sql(database@));
    sql
}

/// The kind of the objects a group lists.
pub open spec fn ms_group_kind(group: ObjectGroup) -> CatalogKind {
    match group {
        ObjectGroup::Views => CatalogKind::View,
        ObjectGroup::Functions => CatalogKind::Function,
        ObjectGroup::Procedures => CatalogKind::Procedure,
        ObjectGroup::Sequences => CatalogKind::Sequence,
        ObjectGroup::Triggers => CatalogKind::Trigger,
        _ => CatalogKind::Table,
    }
}

/// What is wrong with an entry under `schema` read through `profile_id`
/// named `name`.
pub open spec fn ms_page_entry_issue(profile_id: u128, schema: CatalogId, name: Seq<char>) -> Option<
    CatalogIssue,
> {
    first_issue(
        kind_issue(schema.kind, CatalogKind::Schema, "schema parent"),
        first_issue(
            profile_issue(profile_id, schema.connection_id),
            if name.len() == 0 {
                Some(CatalogIssue::EmptyQualifiedObject)
            } else {
                None
            },
        ),
    )
}

fn qualified(database: &str, schema: &str, object: &str) -> (r: QualifiedName)
    ensures
        r@ == (QualifiedNameView {
            database: Some(database@),
            schema: Some(schema@),
            object: object@,
        }),
{
    QualifiedName {
        database: Some(owned(database)),
        schema: Some(owned(schema)),
        object: owned(object),
    }
}

fn path4(a: &str, b: &str, c: &str, d: i32) -> (r: Vec<String>)
    ensures
        views(r@) == seq![a@, b@, c@, signed_decimal(d as int)],
{
    let mut path: Vec<String> = Vec::new();
    path.push(owned(a));
    path.push(owned(b));
    path.push(owned(c));
    path.push(signed_decimal_string(d as i64));
    assert(views(path@) =~= seq![a@, b@, c@, signed_decimal(d as int)]);
    path
}

/// The entry for one object row of a SQL Server schema group: its path is
/// the database, the schema, the name and the object id; its native kind is
/// the lower-cased type description.
pub fn mssql_object_entry(
    profile_id: u128,
    schema_id: &CatalogId,
    database: &str,
    schema: &str,
    group: ObjectGroup,
    name: &str,
    object_id: i32,
    type_desc: &str,
    comment: Option<String>,
) -> (r: Result<CatalogEntry, CatalogValidationError>)
    requires
        ms_object_types(group) is Some,
    ensures
        entry_issue(r) == ms_page_entry_issue(profile_id, *schema_id, name@),
        r matches Ok(e) ==> {
            let kind = ms_group_kind(group);
            &&& e.kind == kind
            &&& e.id@ == (CatalogIdView {
                connection_id: profile_id,
                kind,
                path: seq![database@, schema@, name@, signed_decimal(object_id as int)],
            })
            &&& e.parent_id matches Some(p) && p@ == schema_id@
            &&& e.qualified_name@ == (QualifiedNameView {
                database: Some(database@),
                schema: Some(schema@),
                object: name@,
            })
            &&& e.native_kind@ == ascii_lower(type_desc@)
            &&& e.comment == OptionalMetadata::Supported(comment)
            &&& e.metadata is NoMetadata
            &&& e.expandable == kind.spec_is_relation()
            &&& if kind.spec_is_relation() {
                e.relation_id matches Some(rel) && rel@ == e.id@
            } else {
                e.relation_id is None
            }
        },
{
    let kind = match group {
        ObjectGroup::Views => CatalogKind::View,
        ObjectGroup::Functions => CatalogKind::Function,
        ObjectGroup::Procedures => CatalogKind::Procedure,
        ObjectGroup::Sequences => CatalogKind::Sequence,
        _ => CatalogKind::Table,
    };
    let id = CatalogId::new(profile_id, kind, path4(database, schema, name, object_id));
    let native = to_ascii_lower(type_desc);
    if kind.is_relation() {
        CatalogEntry::relation(
            id,
            schema_id.clone(),
            qualified(database, schema, name),
            native,
            OptionalMetadata::Supported(comment),
            true,
        )
    } else {
        CatalogEntry::object(
            id,
            schema_id.clone(),
            qualified(database, schema, name),
            native,
            OptionalMetadata::Supported(comment),
            false,
        )
    }
}

/// The entry for one row of a schema's trigger page: the trigger is owned
/// by its relation, a view where the relation's type is `V` and a table
/// otherwise.
pub fn mssql_trigger_entry(
    profile_id: u128,
    schema_id: &CatalogId,
    database: &str,
    schema: &str,
    name: &str,
    trigger_id: i32,
    relation_name: &str,
    relation_id: i32,
    relation_type: &str,
    comment: Option<String>,
) -> (r: Result<CatalogEntry, CatalogValidationError>)
    ensures
        entry_issue(r) == ms_page_entry_issue(profile_id, *schema_id, name@),
        r matches Ok(e) ==> {
            &&& e.kind == CatalogKind::Trigger
            &&& e.id@ == (CatalogIdView {
                connection_id: profile_id,
                kind: CatalogKind::Trigger,
                path: seq![database@, schema@, name@, signed_decimal(trigger_id as int)],
            })
            &&& e.parent_id matches Some(p) && p@ == schema_id@
            &&& e.relation_id matches Some(rel) && rel@ == (CatalogIdView {
                connection_id: profile_id,
                kind: if relation_type@ == "V"@ {
                    CatalogKind::View
                } else {
                    CatalogKind::Table
                },
                path: seq![database@, schema@, relation_name@, signed_decimal(relation_id as int)],
            })
            &&& e.qualified_name@ == (QualifiedNameView {
                database: Some(database@),
                schema: Some(schema@),
                object: name@,
            })
            &&& e.native_kind@ == "trigger"@
            &&& e.comment == OptionalMetadata::Supported(comment)
            &&& e.metadata is NoMetadata
            &&& !e.expandable
        },
{
    let relation_kind = if str_eq(relation_type, "V") {
        CatalogKind::View
    } else {
        CatalogKind::Table
    };
    let relation = CatalogId::new(
        profile_id,
        relation_kind,
        path4(database, schema, relation_name, relation_id),
    );
    CatalogEntry::relation_object(
        CatalogId::new(profile_id, CatalogKind::Trigger, path4(database, schema, name, trigger_id)),
        schema_id.clone(),
        relation,
        qualified(database, schema, name),
        owned("trigger"),
        OptionalMetadata::Supported(comment),
    )
}

/// The names a database page keeps: named ones that the scope shows.
pub open spec fn ms_kept_databases(names: Seq<String>, scope: CatalogScope) -> Seq<Seq<char>>
    decreases names.len(),
{
    if names.len() == 0 {
        Seq::empty()
    } else {
        let rest = ms_kept_databases(names.drop_last(), scope);
        let n = names.last()@;
        if n.len() > 0 && scope.allows_database_spec(n) {
            rest.push(n)
        } else {
            rest
        }
    }
}

/// Whether `e` is the SQL Server database entry for `name`.
pub open spec fn ms_database_entry(e: CatalogEntry, profile_id: u128, name: Seq<char>) -> bool {
    &&& e.kind == CatalogKind::Database
    &&& e.id@ == (CatalogIdView {
        connection_id: profile_id,
        kind: CatalogKind::Database,
        path: seq![name],
    })
    &&& e.parent_id is None
    &&& e.qualified_name@ == (QualifiedNameView { database: Some(name), schema: None, object: name })
    &&& e.native_kind@ == "database"@
    &&& e.comment == OptionalMetadata::<String>::Supported(None)
    &&& e.metadata is NoMetadata
    &&& e.expandable
    &&& e.relation_id is None
}

/// The entries of a database page: one per database the server lists,
/// leaving out unnamed ones and those the scope hides, in the server's
/// order.
pub fn mssql_database_entries(profile_id: u128, names: Vec<String>, scope: &CatalogScope) -> (r:
    Vec<CatalogEntry>)
    ensures
        r@.len() == ms_kept_databases(names@, *scope).len(),
        forall|i: int|
            0 <= i < r@.len() ==> ms_database_entry(
                #[trigger] r@[i],
                profile_id,
                ms_kept_databases(names@, *scope)[i],
            ),
{
    let mut out: Vec<CatalogEntry> = Vec::new();
    let mut i: usize = 0;
    while i < names.len()
        invariant
            i <= names@.len(),
            out@.len() == ms_kept_databases(names@.subrange(0, i as int), *scope).len(),
            forall|k: int|
                0 <= k < out@.len() ==> ms_database_entry(
                    #[trigger] out@[k],
                    profile_id,
                    ms_kept_databases(names@.subrange(0, i as int), *scope)[k],
                ),
        decreases names@.len() - i,
    {
        let ghost before = ms_kept_databases(names@.subrange(0, i as int), *scope);
        assert(names@.subrange(0, i + 1).drop_last() =~= names@.subrange(0, i as int));
        let name = names[i].as_str();
        let mut path: Vec<String> = Vec::new();
        path.push(owned(name));
        assert(views(path@) =~= seq![name@]);
        let entry = CatalogEntry::database(
            CatalogId::new(profile_id, CatalogKind::Database, path),
            QualifiedName { database: Some(owned(name)), schema: None, object: owned(name) },
            owned("database"),
            OptionalMetadata::Supported(None),
            true,
        );
        match entry {
            Ok(e) => {
                if scope.allows_database(name) {
                    out.push(e);
                }
            },
            Err(_) => {},
        }
        i = i + 1;
    }
    assert(names@.subrange(0, i as int) =~= names@);
    out
}

/// The names a schema page of `database` keeps: named ones that the scope
/// shows.
pub open spec fn ms_kept_schemas(names: Seq<String>, database: Seq<char>, scope: CatalogScope) -> Seq<
    Seq<char>,
>
    decreases names.len(),
{
    if names.len() == 0 {
        Seq::empty()
    } else {
        let rest = ms_kept_schemas(names.drop_last(), database, scope);
        let n = names.last()@;
        if n.len() > 0 && scope.allows_schema_spec(database, n) {
            rest.push(n)
        } else {
            rest
        }
    }
}

/// Whether `e` is the SQL Server schema entry for `name` in `database`.
pub open spec fn ms_schema_entry(
    e: CatalogEntry,
    profile_id: u128,
    database: Seq<char>,
    name: Seq<char>,
) -> bool {
    &&& e.kind == CatalogKind::Schema
    &&& e.id@ == (CatalogIdView {
        connection_id: profile_id,
        kind: CatalogKind::Schema,
        path: seq![database, name],
    })
    &&& e.parent_id matches Some(p) && p@ == (CatalogIdView {
        connection_id: profile_id,
        kind: CatalogKind::Database,
        path: seq![database],
    })
    &&& e.qualified_name@ == (QualifiedNameView {
        database: Some(database),
        schema: Some(name),
        object: name,
    })
    &&& e.native_kind@ == "schema"@
    &&& e.comment == OptionalMetadata::<String>::Supported(None)
    &&& e.metadata is NoMetadata
    &&& e.expandable
    &&& e.relation_id is None
}

/// The entries of a schema page of `database`: one per schema the server
/// lists, leaving out unnamed ones and those the scope hides, in the
/// server's order.
pub fn mssql_schema_entries(
    profile_id: u128,
    database: &str,
    names: Vec<String>,
    scope: &CatalogScope,
) -> (r: Vec<CatalogEntry>)
    ensures
        r@.len() == ms_kept_schemas(names@, database@, *scope).len(),
        forall|i: int|
            0 <= i < r@.len() ==> ms_schema_entry(
                #[trigger] r@[i],
                profile_id,
                database@,
                ms_kept_schemas(names@, database@, *scope)[i],
            ),
{
    let mut out: Vec<CatalogEntry> = Vec::new();
    let mut i: usize = 0;
    while i < names.len()
        invariant
            i <= names@.len(),
            out@.len() == ms_kept_schemas(names@.subrange(0, i as int), database@, *scope).len(),
            forall|k: int|
                0 <= k < out@.len() ==> ms_schema_entry(
                    #[trigger] out@[k],
                    profile_id,
                    database@,
                    ms_kept_schemas(names@.subrange(0, i as int), database@, *scope)[k],
                ),
        decreases names@.len() - i,
    {
        assert(names@.subrange(0, i + 1).drop_last() =~= names@.subrange(0, i as int));
        let name = names[i].as_str();
        let mut path: Vec<String> = Vec::new();
        path.push(owned(database));
        path.push(owned(name));
        assert(views(path@) =~= seq![database@, name@]);
        let mut parent: Vec<String> = Vec::new();
        parent.push(owned(database));
        assert(views(parent@) =~= seq![database@]);
        let entry = CatalogEntry::schema(
            CatalogId::new(profile_id, CatalogKind::Schema, path),
            CatalogId::new(profile_id, CatalogKind::Database, parent),
            qualified(database, name, name),
            owned("schema"),
            OptionalMetadata::Supported(None),
            true,
        );
        match entry {
            Ok(e) => {
                if scope.allows_schema(database, name) {
                    out.push(e);
                }
            },
            Err(_) => {},
        }
        i = i + 1;
    }
    assert(names@.subrange(0, i as int) =~= names@);
    out
}

} // verus!
