# lazydb

The database layer of LazyDB, a keyboard-first database workspace for the
terminal, written in Verus: the catalog model, the SQL each engine is sent, and
the decisions taken on what the engines answer, each stated in `requires` /
`ensures` contracts and proved.

## Layout

- `src/` — the verified library.
  - Catalog model: `catalog`, `entry`, `rules`, `scope`, `cursor`, `page`,
    `paginate`, `sort`, `catalog_error`, `identity`.
  - Catalog changes: `catalog_drop`, `catalog_mutation`, `ddl`.
  - Queries and results: `query`, `value`, `error`, `text`, `preview`.
  - Row edits: `mutation`, `row_edit`, `edit_run` (the step functions that
    decide, after each statement, whether an edit goes on, succeeds or stops
    on a conflict), `transaction`.
  - Engines: `postgres`, `postgres_children`, `postgres_search`, `mysql`,
    `mysql_meta`, `mysql_children`, `mysql_edit`, `mysql_search`, `mssql`,
    `mssql_children`, `mssql_child_page`, `mssql_pages`, `mssql_search`,
    `mssql_cells`, `object_page`.
  - Connections and monitoring: `server`, `connection`, `monitor`.
- `tests/` — tests of the library on concrete values.
- `app/` — the driver-facing side: reading rows through `sqlx` and
  `tiberius`, running the edit steps on a connection, serde copies of the
  library's types.

Laws that span several functions (round trips of the cursor encoding and of
identifier quoting, what a validated page guarantees, what every catalog
change builder keeps, when a relation's rows are editable) are public proof
functions beside the functions they speak of.
