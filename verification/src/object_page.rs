//! One page of the objects of a schema group: where the catalog lists them,
//! the statements that count and fetch them, and the entries built from the
//! rows that come back.
use vstd::prelude::*;

use crate::catalog::{
    CatalogEntry, CatalogId, CatalogIdView, CatalogKind, CatalogMetadata, ObjectGroup,
    OptionalMetadata, QualifiedName, QualifiedNameView,
};
use crate::catalog_error::{CatalogIssue, CatalogValidationError};
use crate::cursor::{keyset_encode, utf8_len, CatalogCursor};
use crate::page::{finalize_keyset_page, page_size_issue};
use crate::entry::{entry_issue, first_issue, name_issue};
use crate::mysql::empty_as_none;
use crate::rules::{kind_issue, profile_issue, relation_issue};
use crate::postgres::{push_zero_padded, zero_padded};
use crate::text::{
    chars_of, clone_opt, opt_view, owned, parse_i64, parse_i64_spec, parse_u64, parse_u64_spec,
    push_str, signed_decimal, signed_decimal_string, views,
};

verus! {

/// Where the MySQL catalog lists the objects of one group.
#[derive(Clone, Copy, Debug, PartialEq, Eq)]
pub struct MySqlObjectSource {
    pub source: &'static str,
    pub schema_column: &'static str,
    pub name_column: &'static str,
    pub predicate: &'static str,
    pub kind: CatalogKind,
    pub native_kind: &'static str,
    pub tie_column: &'static str,
    pub extra_columns: &'static str,
}

/// The source of each group that MySQL has; it has no materialized views,
/// sequences or types.
pub open spec fn my_object_source(group: ObjectGroup) -> Option<MySqlObjectSource> {
    match group {
        ObjectGroup::Tables => Some(
            MySqlObjectSource {
                source: "information_schema.tables",
                schema_column: "table_schema",
                name_column: "table_name",
                predicate: "table_type='BASE TABLE'",
                kind: CatalogKind::Table,
                native_kind: "table",
                tie_column: "table_name",
                extra_columns: "table_comment AS comment, NULL AS owner_name",
            },
        ),
        ObjectGroup::Views => Some(
            MySqlObjectSource {
                source: "information_schema.tables",
                schema_column: "table_schema",
                name_column: "table_name",
                predicate: "table_type='VIEW'",
                kind: CatalogKind::View,
                native_kind: "view",
                tie_column: "table_name",
                extra_columns: "table_comment AS comment, NULL AS owner_name",
            },
        ),
        ObjectGroup::Functions => Some(
            MySqlObjectSource {
                source: "information_schema.routines",
                schema_column: "routine_schema",
                name_column: "routine_name",
                predicate: "routine_type='FUNCTION'",
                kind: CatalogKind::Function,
                native_kind: "function",
                tie_column: "specific_name",
                extra_columns: "routine_comment AS comment, NULL AS owner_name",
            },
        ),
        ObjectGroup::Procedures => Some(
            MySqlObjectSource {
                source: "information_schema.routines",
                schema_column: "routine_schema",
                name_column: "routine_name",
                predicate: "routine_type='PROCEDURE'",
                kind: CatalogKind::Procedure,
                native_kind: "procedure",
                tie_column: "specific_name",
                extra_columns: "routine_comment AS comment, NULL AS owner_name",
            },
        ),
        ObjectGroup::Triggers => Some(
            MySqlObjectSource {
                source: "information_schema.triggers",
                schema_column: "trigger_schema",
                name_column: "trigger_name",
                predicate: "TRUE",
                kind: CatalogKind::Trigger,
                native_kind: "trigger",
                tie_column: "trigger_name",
                extra_columns: "NULL AS comment, event_object_table AS owner_name",
            },
        ),
        _ => None,
    }
}

/// Where the MySQL catalog lists the objects of `group`, or `None` for a
/// group that MySQL does not have.
pub fn mysql_object_source(group: ObjectGroup) -> (r: Option<MySqlObjectSource>)
    ensures
        r == my_object_source(group),
{
    match group {
        ObjectGroup::Tables => Some(
            MySqlObjectSource {
                source: "information_schema.tables",
                schema_column: "table_schema",
                name_column: "table_name",
                predicate: "table_type='BASE TABLE'",
                kind: CatalogKind::Table,
                native_kind: "table",
                tie_column: "table_name",
                extra_columns: "table_comment AS comment, NULL AS owner_name",
            },
        ),
        ObjectGroup::Views => Some(
            MySqlObjectSource {
                source: "information_schema.tables",
                schema_column: "table_schema",
                name_column: "table_name",
                predicate: "table_type='VIEW'",
                kind: CatalogKind::View,
                native_kind: "view",
                tie_column: "table_name",
                extra_columns: "table_comment AS comment, NULL AS owner_name",
            },
        ),
        ObjectGroup::Functions => Some(
            MySqlObjectSource {
                source: "information_schema.routines",
                schema_column: "routine_schema",
                name_column: "routine_name",
                predicate: "routine_type='FUNCTION'",
                kind: CatalogKind::Function,
                native_kind: "function",
                tie_column: "specific_name",
                extra_columns: "routine_comment AS comment, NULL AS owner_name",
            },
        ),
        ObjectGroup::Procedures => Some(
            MySqlObjectSource {
                source: "information_schema.routines",
                schema_column: "routine_schema",
                name_column: "routine_name",
                predicate: "routine_type='PROCEDURE'",
                kind: CatalogKind::Procedure,
                native_kind: "procedure",
                tie_column: "specific_name",
                extra_columns: "routine_comment AS comment, NULL AS owner_name",
            },
        ),
        ObjectGroup::Triggers => Some(
            MySqlObjectSource {
                source: "information_schema.triggers",
                schema_column: "trigger_schema",
                name_column: "trigger_name",
                predicate: "TRUE",
                kind: CatalogKind::Trigger,
                native_kind: "trigger",
                tie_column: "trigger_name",
                extra_columns: "NULL AS comment, event_object_table AS owner_name",
            },
        ),
        _ => None,
    }
}

/// The filter shared by the count and the page: objects of the schema bound
/// to the first parameter that meet the group's predicate.
pub open spec fn my_object_filter(s: MySqlObjectSource) -> Seq<char> {
    " FROM "@ + s.source@ + " WHERE BINARY "@ + s.schema_column@ + "=BINARY ? AND "@
        + s.predicate@
}

/// The statement that counts a group's objects in a schema.
pub open spec fn my_object_count_sql(s: MySqlObjectSource) -> Seq<char> {
    "SELECT CAST(COUNT(*) AS SIGNED)"@ + my_object_filter(s)
}

/// The order of a page: by name, then by the tie column, both byte-wise.
pub open spec fn my_object_order(s: MySqlObjectSource) -> Seq<char> {
    " ORDER BY BINARY "@ + s.name_column@ + ", BINARY "@ + s.tie_column@ + " LIMIT ?"@
}

/// The statement that fetches a page of a group's objects: after the cursor
/// (name, then tie breaker) where there is one, in page order.
pub open spec fn my_object_page_sql(s: MySqlObjectSource, after_cursor: bool) -> Seq<char> {
    let select = "SELECT "@ + s.name_column@ + " AS name, "@ + s.tie_column@
        + " AS native_identity, "@ + s.extra_columns@ + my_object_filter(s);
    if after_cursor {
        select + " AND (BINARY "@ + s.name_column@ + " > BINARY ? OR (BINARY "@ + s.name_column@
            + " = BINARY ? AND BINARY "@ + s.tie_column@ + " > BINARY ?))"@ + my_object_order(s)
    } else {
        select + my_object_order(s)
    }
}

fn push_object_filter(sql: &mut String, s: &MySqlObjectSource)
    ensures
        final(sql)@ == old(sql)@ + my_object_filter(*s),
{
    push_str(sql, " FROM ");
    push_str(sql, s.source);
    push_str(sql, " WHERE BINARY ");
    push_str(sql, s.schema_column);
    push_str(sql, "=BINARY ? AND ");
    push_str(sql, s.predicate);
    assert(final(sql)@ =~= old(sql)@ + my_object_filter(*s));
}

/// The statement that counts a group's objects in a schema; the schema is
/// bound to its one parameter.
pub fn mysql_object_count_sql(s: &MySqlObjectSource) -> (r: String)
    ensures
        r@ == my_object_count_sql(*s),
{
    let mut sql = owned("SELECT CAST(COUNT(*) AS SIGNED)");
    push_object_filter(&mut sql, s);
    sql
}

/// The statement that fetches a page of a group's objects; its parameters
/// are the schema, then, after a cursor, its name twice and its tie breaker,
/// then the row limit.
pub fn mysql_object_page_sql(s: &MySqlObjectSource, after_cursor: bool) -> (r: String)
    ensures
        r@ == my_object_page_sql(*s, after_cursor),
{
    let mut sql = owned("SELECT ");
    push_str(&mut sql, s.name_column);
    push_str(&mut sql, " AS name, ");
    push_str(&mut sql, s.tie_column);
    push_str(&mut sql, " AS native_identity, ");
    push_str(&mut sql, s.extra_columns);
    push_object_filter(&mut sql, s);
    if after_cursor {
        push_str(&mut sql, " AND (BINARY ");
        push_str(&mut sql, s.name_column);
        push_str(&mut sql, " > BINARY ? OR (BINARY ");
        push_str(&mut sql, s.name_column);
        push_str(&mut sql, " = BINARY ? AND BINARY ");
        push_str(&mut sql, s.tie_column);
        push_str(&mut sql, " > BINARY ?))");
    }
    push_str(&mut sql, " ORDER BY BINARY ");
    push_str(&mut sql, s.name_column);
    push_str(&mut sql, ", BINARY ");
    push_str(&mut sql, s.tie_column);
    push_str(&mut sql, " LIMIT ?");
    assert(sql@ =~= my_object_page_sql(*s, after_cursor));
    sql
}

/// The path of a MySQL schema object: the database twice, then the name,
/// then, for a routine, its specific name.
pub open spec fn my_object_path(
    kind: CatalogKind,
    database: Seq<char>,
    name: Seq<char>,
    native_identity: Seq<char>,
) -> Seq<Seq<char>> {
    if kind is Function || kind is Procedure {
        seq![database, database, name, native_identity]
    } else {
        seq![database, database, name]
    }
}

/// What is wrong with the entry for an object of `kind` under `schema`,
/// read through `profile_id`: the schema parent must be a schema of the same
/// profile, a trigger's owner a relation, and the name must not be empty.
pub open spec fn my_object_entry_issue(
    profile_id: u128,
    schema: CatalogId,
    kind: CatalogKind,
    name: Seq<char>,
    owner_kind: Option<CatalogKind>,
) -> Option<CatalogIssue> {
    let name_issue = if name.len() == 0 {
        Some(CatalogIssue::EmptyQualifiedObject)
    } else {
        None
    };
    let tail = first_issue(profile_issue(profile_id, schema.connection_id), name_issue);
    first_issue(
        kind_issue(schema.kind, CatalogKind::Schema, "schema parent"),
        if kind is Trigger {
            first_issue(relation_issue(owner_kind.unwrap(), "owning relation"), tail)
        } else {
            tail
        },
    )
}

/// The entry for one object row of a MySQL schema group. A trigger is owned
/// by the relation named in its row, whose kind the caller looked up; its
/// comment is not supported. Relations are expandable; routines are not.
pub fn mysql_object_entry(
    profile_id: u128,
    schema: &CatalogId,
    database: &str,
    source: &MySqlObjectSource,
    name: String,
    native_identity: String,
    comment: Option<String>,
    owner: Option<(String, CatalogKind)>,
) -> (r: Result<CatalogEntry, CatalogValidationError>)
    requires
        source.kind is Table || source.kind is View || source.kind is Function || source.kind is Procedure
            || source.kind is Trigger,
        source.kind is Trigger ==> owner is Some,
    ensures
        entry_issue(r) == my_object_entry_issue(
            profile_id,
            *schema,
            source.kind,
            name@,
            match owner {
                Some(o) => Some(o.1),
                None => None,
            },
        ),
        r matches Ok(e) ==> {
            &&& e.kind == source.kind
            &&& e.id@ == (CatalogIdView {
                connection_id: profile_id,
                kind: source.kind,
                path: my_object_path(source.kind, database@, name@, native_identity@),
            })
            &&& e.parent_id matches Some(p) && p@ == schema@
            &&& e.qualified_name@ == (QualifiedNameView {
                database: Some(database@),
                schema: Some(database@),
                object: name@,
            })
            &&& e.native_kind@ == source.native_kind@
            &&& e.metadata is NoMetadata
            &&& if source.kind is Trigger {
                &&& e.comment is Unsupported
                &&& !e.expandable
                &&& e.relation_id matches Some(rel) && rel@ == (CatalogIdView {
                    connection_id: profile_id,
                    kind: owner.unwrap().1,
                    path: seq![database@, database@, owner.unwrap().0@],
                })
            } else {
                &&& e.comment == OptionalMetadata::Supported(
                    match comment {
                        Some(c) => if c@.len() == 0 {
                            None
                        } else {
                            Some(c)
                        },
                        None => None,
                    },
                )
                &&& e.expandable == source.kind.spec_is_relation()
                &&& if source.kind.spec_is_relation() {
                    e.relation_id matches Some(rel) && rel@ == e.id@
                } else {
                    e.relation_id is None
                }
            }
        },
{
    let kind = source.kind;
    let mut path: Vec<String> = Vec::new();
    path.push(owned(database));
    path.push(owned(database));
    path.push(name.clone());
    if matches!(kind, CatalogKind::Function | CatalogKind::Procedure) {
        path.push(native_identity);
    }
    assert(views(path@) =~= my_object_path(kind, database@, name@, native_identity@));
    let id = CatalogId::new(profile_id, kind, path);
    let qualified = QualifiedName {
        database: Some(owned(database)),
        schema: Some(owned(database)),
        object: name,
    };
    if kind == CatalogKind::Trigger {
        let (owner_name, owner_kind) = owner.unwrap();
        let mut owner_path: Vec<String> = Vec::new();
        owner_path.push(owned(database));
        owner_path.push(owned(database));
        owner_path.push(owner_name);
        assert(views(owner_path@) =~= seq![database@, database@, owner.unwrap().0@]);
        let owner_id = CatalogId::new(profile_id, owner_kind, owner_path);
        CatalogEntry::relation_object(
            id,
            schema.clone(),
            owner_id,
            qualified,
            owned(source.native_kind),
            OptionalMetadata::Unsupported,
        )
    } else if kind.is_relation() {
        CatalogEntry::relation(
            id,
            schema.clone(),
            qualified,
            owned(source.native_kind),
            OptionalMetadata::Supported(empty_as_none(comment)),
            true,
        )
    } else {
        CatalogEntry::object(
            id,
            schema.clone(),
            qualified,
            owned(source.native_kind),
            OptionalMetadata::Supported(empty_as_none(comment)),
            false,
        )
    }
}

/// The last part of a path, or the empty text for an empty path.
pub open spec fn last_part(path: Seq<Seq<char>>) -> Seq<char> {
    if path.len() > 0 {
        path.last()
    } else {
        Seq::empty()
    }
}

fn object_name_key(e: &CatalogEntry) -> (r: String)
    ensures
        r@ == e.qualified_name.object@,
{
    e.qualified_name.object.clone()
}

fn last_path_part(e: &CatalogEntry) -> (r: String)
    ensures
        r@ == last_part(e.id@.path),
{
    let n = e.id.native_path.len();
    if n > 0 {
        e.id.native_path[n - 1].clone()
    } else {
        String::new()
    }
}

/// What cutting a page of entries sorted by `(sort, tie)` gives: an invalid
/// page size is refused; rows that fit are kept with no cursor; otherwise
/// the page ends at its last row, whose keys make the cursor, unless its tie
/// breaker is empty or the cursor would not fit in memory.
pub open spec fn keyset_cut(
    before: Seq<CatalogEntry>,
    after: Seq<CatalogEntry>,
    page_size: usize,
    sort: Seq<char>,
    tie: Seq<char>,
    r: Result<Option<CatalogCursor>, CatalogValidationError>,
) -> bool {
    if page_size_issue(page_size) is Some {
        (r matches Err(e) && Some(e@) == page_size_issue(page_size)) && after == before
    } else if before.len() <= page_size {
        r matches Ok(None) && after == before
    } else if tie.len() == 0 {
        (r matches Err(e) && e@ == CatalogIssue::EmptyCursorTieBreaker) && after == before
    } else if utf8_len(sort) + utf8_len(tie) > usize::MAX {
        (r matches Err(e) && e@ == CatalogIssue::MalformedCursor) && after == before
    } else {
        (r matches Ok(Some(c)) && c@ == keyset_encode(sort, tie)) && after == before.subrange(
            0,
            page_size as int,
        )
    }
}

/// Cuts a MySQL object page fetched one row long to one page, and gives the
/// cursor of its last row: its name, then the last part of its path.
pub fn finalize_mysql_object_page(entries: &mut Vec<CatalogEntry>, page_size: usize) -> (r: Result<
    Option<CatalogCursor>,
    CatalogValidationError,
>)
    ensures
        keyset_cut(
            old(entries)@,
            final(entries)@,
            page_size,
            if 1 <= page_size <= old(entries)@.len() {
                old(entries)@[page_size - 1].qualified_name.object@
            } else {
                Seq::empty()
            },
            if 1 <= page_size <= old(entries)@.len() {
                last_part(old(entries)@[page_size - 1].id@.path)
            } else {
                Seq::empty()
            },
            r,
        ),
{
    finalize_keyset_page(entries, page_size, object_name_key, last_path_part)
}

/// Where the PostgreSQL catalog lists the objects of one group.
#[derive(Clone, Copy, Debug, PartialEq, Eq)]
pub struct PgObjectSource {
    pub source: &'static str,
    pub predicate: &'static str,
    pub kind: CatalogKind,
    pub native_kind: &'static str,
    pub expandable: bool,
    pub namespace_column: &'static str,
    pub name_column: &'static str,
    pub description: &'static str,
}

/// The source of each group that the PostgreSQL catalog pages; triggers are
/// listed under their relations only.
pub open spec fn pg_object_source(group: ObjectGroup) -> Option<PgObjectSource> {
    match group {
        ObjectGroup::Tables => Some(
            PgObjectSource {
                source: "pg_class c",
                predicate: "c.relkind IN ('r','p')",
                kind: CatalogKind::Table,
                native_kind: "table",
                expandable: true,
                namespace_column: "c.relnamespace",
                name_column: "c.relname",
                description: "obj_description(c.oid, 'pg_class')",
            },
        ),
        ObjectGroup::Views => Some(
            PgObjectSource {
                source: "pg_class c",
                predicate: "c.relkind='v'",
                kind: CatalogKind::View,
                native_kind: "view",
                expandable: true,
                namespace_column: "c.relnamespace",
                name_column: "c.relname",
                description: "obj_description(c.oid, 'pg_class')",
            },
        ),
        ObjectGroup::MaterializedViews => Some(
            PgObjectSource {
                source: "pg_class c",
                predicate: "c.relkind='m'",
                kind: CatalogKind::MaterializedView,
                native_kind: "materialized_view",
                expandable: true,
                namespace_column: "c.relnamespace",
                name_column: "c.relname",
                description: "obj_description(c.oid, 'pg_class')",
            },
        ),
        ObjectGroup::Sequences => Some(
            PgObjectSource {
                source: "pg_class c",
                predicate: "c.relkind='S'",
                kind: CatalogKind::Sequence,
                native_kind: "sequence",
                expandable: false,
                namespace_column: "c.relnamespace",
                name_column: "c.relname",
                description: "obj_description(c.oid, 'pg_class')",
            },
        ),
        ObjectGroup::Functions => Some(
            PgObjectSource {
                source: "pg_proc c",
                predicate: "c.prokind='f' AND NOT EXISTS (SELECT 1 FROM pg_trigger tr WHERE tr.tgfoid=c.oid)",
                kind: CatalogKind::Function,
                native_kind: "function",
                expandable: false,
                namespace_column: "c.pronamespace",
                name_column: "c.proname",
                description: "obj_description(c.oid, 'pg_proc')",
            },
        ),
        ObjectGroup::Procedures => Some(
            PgObjectSource {
                source: "pg_proc c",
                predicate: "c.prokind='p'",
                kind: CatalogKind::Procedure,
                native_kind: "procedure",
                expandable: false,
                namespace_column: "c.pronamespace",
                name_column: "c.proname",
                description: "obj_description(c.oid, 'pg_proc')",
            },
        ),
        ObjectGroup::Types => Some(
            PgObjectSource {
                source: "pg_type c",
                predicate: "c.typtype IN ('e','d') AND c.typisdefined AND c.typelem=0",
                kind: CatalogKind::Type,
                native_kind: "type",
                expandable: false,
                namespace_column: "c.typnamespace",
                name_column: "c.typname",
                description: "obj_description(c.oid, 'pg_type')",
            },
        ),
        ObjectGroup::Triggers => None,
    }
}

/// Where the PostgreSQL catalog lists the objects of `group`, or `None` for
/// triggers.
pub fn postgres_object_source(group: ObjectGroup) -> (r: Option<PgObjectSource>)
    ensures
        r == pg_object_source(group),
{
    match group {
        ObjectGroup::Tables => Some(
            PgObjectSource {
                source: "pg_class c",
                predicate: "c.relkind IN ('r','p')",
                kind: CatalogKind::Table,
                native_kind: "table",
                expandable: true,
                namespace_column: "c.relnamespace",
                name_column: "c.relname",
                description: "obj_description(c.oid, 'pg_class')",
            },
        ),
        ObjectGroup::Views => Some(
            PgObjectSource {
                source: "pg_class c",
                predicate: "c.relkind='v'",
                kind: CatalogKind::View,
                native_kind: "view",
                expandable: true,
                namespace_column: "c.relnamespace",
                name_column: "c.relname",
                description: "obj_description(c.oid, 'pg_class')",
            },
        ),
        ObjectGroup::MaterializedViews => Some(
            PgObjectSource {
                source: "pg_class c",
                predicate: "c.relkind='m'",
                kind: CatalogKind::MaterializedView,
                native_kind: "materialized_view",
                expandable: true,
                namespace_column: "c.relnamespace",
                name_column: "c.relname",
                description: "obj_description(c.oid, 'pg_class')",
            },
        ),
        ObjectGroup::Sequences => Some(
            PgObjectSource {
                source: "pg_class c",
                predicate: "c.relkind='S'",
                kind: CatalogKind::Sequence,
                native_kind: "sequence",
                expandable: false,
                namespace_column: "c.relnamespace",
                name_column: "c.relname",
                description: "obj_description(c.oid, 'pg_class')",
            },
        ),
        ObjectGroup::Functions => Some(
            PgObjectSource {
                source: "pg_proc c",
                predicate: "c.prokind='f' AND NOT EXISTS (SELECT 1 FROM pg_trigger tr WHERE tr.tgfoid=c.oid)",
                kind: CatalogKind::Function,
                native_kind: "function",
                expandable: false,
                namespace_column: "c.pronamespace",
                name_column: "c.proname",
                description: "obj_description(c.oid, 'pg_proc')",
            },
        ),
        ObjectGroup::Procedures => Some(
            PgObjectSource {
                source: "pg_proc c",
                predicate: "c.prokind='p'",
                kind: CatalogKind::Procedure,
                native_kind: "procedure",
                expandable: false,
                namespace_column: "c.pronamespace",
                name_column: "c.proname",
                description: "obj_description(c.oid, 'pg_proc')",
            },
        ),
        ObjectGroup::Types => Some(
            PgObjectSource {
                source: "pg_type c",
                predicate: "c.typtype IN ('e','d') AND c.typisdefined AND c.typelem=0",
                kind: CatalogKind::Type,
                native_kind: "type",
                expandable: false,
                namespace_column: "c.typnamespace",
                name_column: "c.typname",
                description: "obj_description(c.oid, 'pg_type')",
            },
        ),
        ObjectGroup::Triggers => None,
    }
}

/// The filter shared by the count and the page: objects of the schema named
/// by the first parameter that meet the group's predicate.
pub open spec fn pg_object_filter(s: PgObjectSource) -> Seq<char> {
    " FROM "@ + s.source@ + " JOIN pg_namespace n ON n.oid="@ + s.namespace_column@
        + " WHERE n.nspname=$1 AND "@ + s.predicate@
}

/// The statement that counts a group's objects in a schema.
pub open spec fn pg_object_count_sql(s: PgObjectSource) -> Seq<char> {
    "SELECT COUNT(*)::bigint"@ + pg_object_filter(s)
}

/// The statement that fetches a page of a group's objects, ordered by name
/// in the `C` collation, then by oid; after a cursor, only what follows it.
pub open spec fn pg_object_page_sql(s: PgObjectSource, after_cursor: bool) -> Seq<char> {
    let select = "SELECT c.oid::bigint AS oid, "@ + s.name_column@ + " AS name, "@
        + s.description@ + " AS comment"@ + pg_object_filter(s);
    let name = s.name_column@;
    if after_cursor {
        select + " AND (("@ + name + " COLLATE \"C\") > ($2 COLLATE \"C\") OR ("@ + name
            + " COLLATE \"C\") = ($2 COLLATE \"C\") AND c.oid > $3::oid) ORDER BY "@ + name
            + " COLLATE \"C\", c.oid LIMIT $4"@
    } else {
        select + " ORDER BY "@ + name + " COLLATE \"C\", c.oid LIMIT $2"@
    }
}

fn push_pg_object_filter(sql: &mut String, s: &PgObjectSource)
    ensures
        final(sql)@ == old(sql)@ + pg_object_filter(*s),
{
    push_str(sql, " FROM ");
    push_str(sql, s.source);
    push_str(sql, " JOIN pg_namespace n ON n.oid=");
    push_str(sql, s.namespace_column);
    push_str(sql, " WHERE n.nspname=$1 AND ");
    push_str(sql, s.predicate);
    assert(final(sql)@ =~= old(sql)@ + pg_object_filter(*s));
}

/// The statement that counts a group's objects in the schema bound to `$1`.
pub fn postgres_object_count_sql(s: &PgObjectSource) -> (r: String)
    ensures
        r@ == pg_object_count_sql(*s),
{
    let mut sql = owned("SELECT COUNT(*)::bigint");
    push_pg_object_filter(&mut sql, s);
    sql
}

/// The statement that fetches a page of a group's objects; `$1` is the
/// schema, then after a cursor `$2` its name and `$3` its oid, and last the
/// row limit.
pub fn postgres_object_page_sql(s: &PgObjectSource, after_cursor: bool) -> (r: String)
    ensures
        r@ == pg_object_page_sql(*s, after_cursor),
{
    let mut sql = owned("SELECT c.oid::bigint AS oid, ");
    push_str(&mut sql, s.name_column);
    push_str(&mut sql, " AS name, ");
    push_str(&mut sql, s.description);
    push_str(&mut sql, " AS comment");
    push_pg_object_filter(&mut sql, s);
    if after_cursor {
        push_str(&mut sql, " AND ((");
        push_str(&mut sql, s.name_column);
        push_str(&mut sql, " COLLATE \"C\") > ($2 COLLATE \"C\") OR (");
        push_str(&mut sql, s.name_column);
        push_str(&mut sql, " COLLATE \"C\") = ($2 COLLATE \"C\") AND c.oid > $3::oid) ORDER BY ");
        push_str(&mut sql, s.name_column);
        push_str(&mut sql, " COLLATE \"C\", c.oid LIMIT $4");
    } else {
        push_str(&mut sql, " ORDER BY ");
        push_str(&mut sql, s.name_column);
        push_str(&mut sql, " COLLATE \"C\", c.oid LIMIT $2");
    }
    assert(sql@ =~= pg_object_page_sql(*s, after_cursor));
    sql
}

/// The oid that a cursor's tie breaker names; a tie breaker that is no
/// `i64` makes the cursor malformed.
pub fn postgres_cursor_oid(tie_breaker: &str) -> (r: Result<i64, CatalogValidationError>)
    ensures
        match parse_i64_spec(tie_breaker@) {
            Some(oid) => r == Ok::<i64, CatalogValidationError>(oid),
            None => r matches Err(e) && e@ == CatalogIssue::MalformedCursor,
        },
{
    match parse_i64(tie_breaker) {
        Some(oid) => Ok(oid),
        None => Err(CatalogValidationError::MalformedCursor),
    }
}

/// What is wrong with the entry for a PostgreSQL schema object under
/// `schema`, read through `profile_id`.
pub open spec fn pg_object_entry_issue(profile_id: u128, schema: CatalogId, name: Seq<char>) -> Option<
    CatalogIssue,
> {
    first_issue(
        kind_issue(schema.kind, CatalogKind::Schema, "schema parent"),
        first_issue(
            profile_issue(profile_id, schema.connection_id),
            if name.len() == 0 {
                Some(CatalogIssue::EmptyQualifiedObject)
            } else {
                None
            },
        ),
    )
}

/// The entry for one object row of a PostgreSQL schema group: its path is
/// the database, the schema, the name and the oid.
pub fn postgres_object_entry(
    profile_id: u128,
    schema_id: &CatalogId,
    database: &str,
    schema: &str,
    source: &PgObjectSource,
    oid: i64,
    name: String,
    comment: Option<String>,
) -> (r: Result<CatalogEntry, CatalogValidationError>)
    requires
        source.kind is Table || source.kind is View || source.kind is MaterializedView
            || source.kind is Sequence || source.kind is Function || source.kind is Procedure
            || source.kind is Type,
    ensures
        entry_issue(r) == pg_object_entry_issue(profile_id, *schema_id, name@),
        r matches Ok(e) ==> {
            &&& e.kind == source.kind
            &&& e.id@ == (CatalogIdView {
                connection_id: profile_id,
                kind: source.kind,
                path: seq![database@, schema@, name@, signed_decimal(oid as int)],
            })
            &&& e.parent_id matches Some(p) && p@ == schema_id@
            &&& e.qualified_name@ == (QualifiedNameView {
                database: Some(database@),
                schema: Some(schema@),
                object: name@,
            })
            &&& e.native_kind@ == source.native_kind@
            &&& e.comment == OptionalMetadata::Supported(comment)
            &&& e.metadata is NoMetadata
            &&& e.expandable == source.expandable
            &&& if source.kind.spec_is_relation() {
                e.relation_id matches Some(rel) && rel@ == e.id@
            } else {
                e.relation_id is None
            }
        },
{
    let kind = source.kind;
    let mut path: Vec<String> = Vec::new();
    path.push(owned(database));
    path.push(owned(schema));
    path.push(name.clone());
    path.push(signed_decimal_string(oid));
    assert(views(path@) =~= seq![database@, schema@, name@, signed_decimal(oid as int)]);
    let id = CatalogId::new(profile_id, kind, path);
    let qualified = QualifiedName {
        database: Some(owned(database)),
        schema: Some(owned(schema)),
        object: name,
    };
    if kind.is_relation() {
        CatalogEntry::relation(
            id,
            schema_id.clone(),
            qualified,
            owned(source.native_kind),
            OptionalMetadata::Supported(comment),
            source.expandable,
        )
    } else {
        CatalogEntry::object(
            id,
            schema_id.clone(),
            qualified,
            owned(source.native_kind),
            OptionalMetadata::Supported(comment),
            source.expandable,
        )
    }
}

/// The tie breaker of a PostgreSQL object: its oid, the last part of its
/// path, zero-padded to twenty digits so that text order is number order;
/// empty where that part is no `u64`.
pub open spec fn pg_object_tie(path: Seq<Seq<char>>) -> Seq<char> {
    match parse_u64_spec(last_part(path)) {
        Some(oid) => zero_padded(oid as nat, 20),
        None => Seq::empty(),
    }
}

fn pg_object_tie_breaker(e: &CatalogEntry) -> (r: String)
    ensures
        r@ == pg_object_tie(e.id@.path),
{
    let last = last_path_part(e);
    let cs = chars_of(last.as_str());
    match parse_u64(cs.as_slice()) {
        Some(oid) => {
            let mut s = String::new();
            push_zero_padded(&mut s, oid, 20);
            assert(s@ =~= zero_padded(oid as nat, 20));
            s
        },
        None => String::new(),
    }
}

/// Cuts a PostgreSQL object page fetched one row long to one page, and gives
/// the cursor of its last row: its name, then its padded oid.
pub fn finalize_postgres_object_page(entries: &mut Vec<CatalogEntry>, page_size: usize) -> (r:
    Result<Option<CatalogCursor>, CatalogValidationError>)
    ensures
        keyset_cut(
            old(entries)@,
            final(entries)@,
            page_size,
            if 1 <= page_size <= old(entries)@.len() {
                old(entries)@[page_size - 1].qualified_name.object@
            } else {
                Seq::empty()
            },
            if 1 <= page_size <= old(entries)@.len() {
                pg_object_tie(old(entries)@[page_size - 1].id@.path)
            } else {
                Seq::empty()
            },
            r,
        ),
{
    finalize_keyset_page(entries, page_size, object_name_key, pg_object_tie_breaker)
}

} // verus!
