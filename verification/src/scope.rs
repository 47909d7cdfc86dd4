//! Which databases and schemas a profile's catalog may show.
use vstd::prelude::*;

use crate::text::{is_empty_str, str_eq, views};

verus! {

/// Either everything, or an explicit list.
#[derive(Clone, Debug, PartialEq, Eq)]
pub enum CatalogSelection<T> {
    All,
    Selected(Vec<T>),
}

/// One selected database and the schemas selected inside it.
#[derive(Clone, Debug, PartialEq, Eq)]
pub struct DatabaseSelection {
    pub name: String,
    pub schemas: CatalogSelection<String>,
}

/// The catalog scope of a connection profile.
#[derive(Clone, Debug, PartialEq, Eq)]
pub struct CatalogScope {
    pub databases: CatalogSelection<DatabaseSelection>,
}

/// Why a catalog scope is malformed.
#[derive(Clone, Copy, Debug, PartialEq, Eq, Structural)]
pub enum CatalogScopeValidationError {
    EmptyDatabaseName,
    DuplicateDatabase,
    EmptySchemaName,
    DuplicateSchema,
}

/// A selection of names, as seen by specifications.
pub open spec fn selected_names(v: Seq<String>) -> Seq<Seq<char>> {
    views(v)
}

/// Whether a schema name is allowed by a schema selection.
pub open spec fn schema_selection_allows(s: CatalogSelection<String>, schema: Seq<char>) -> bool {
    match s {
        CatalogSelection::All => true,
        CatalogSelection::Selected(v) => views(v@).contains(schema),
    }
}

impl CatalogScope {
    /// The scope that allows every database and schema.
    pub fn all() -> (r: Self)
        ensures
            r.databases is All,
    {
        CatalogScope { databases: CatalogSelection::All }
    }

    pub open spec fn allows_database_spec(&self, database: Seq<char>) -> bool {
        match self.databases {
            CatalogSelection::All => true,
            CatalogSelection::Selected(v) => exists|i: int|
                0 <= i < v@.len() && (#[trigger] v@[i]).name@ == database,
        }
    }

    pub open spec fn allows_schema_spec(&self, database: Seq<char>, schema: Seq<char>) -> bool {
        match self.databases {
            CatalogSelection::All => true,
            CatalogSelection::Selected(v) => exists|i: int|
                0 <= i < v@.len() && (#[trigger] v@[i]).name@ == database
                    && schema_selection_allows(v@[i].schemas, schema),
        }
    }

    /// Whether the scope shows `database`.
    #[verifier::loop_isolation(false)]
    pub fn allows_database(&self, database: &str) -> (r: bool)
        ensures
            r == self.allows_database_spec(database@),
    {
        match &self.databases {
            CatalogSelection::All => true,
            CatalogSelection::Selected(v) => {
                let mut i: usize = 0;
                while i < v.len()
                    invariant
                        i <= v@.len(),
                        forall|k: int| 0 <= k < i ==> (#[trigger] v@[k]).name@ != database@,
                    decreases v@.len() - i,
                {
                    if str_eq(v[i].name.as_str(), database) {
                        assert(v@[i as int].name@ == database@);
                        return true;
                    }
                    i = i + 1;
                }
                false
            },
        }
    }

    /// Whether the scope shows `schema` inside `database`.
    #[verifier::loop_isolation(false)]
    pub fn allows_schema(&self, database: &str, schema: &str) -> (r: bool)
        ensures
            r == self.allows_schema_spec(database@, schema@),
    {
        match &self.databases {
            CatalogSelection::All => true,
            CatalogSelection::Selected(v) => {
                let mut i: usize = 0;
                while i < v.len()
                    invariant
                        i <= v@.len(),
                        forall|k: int|
                            0 <= k < i ==> !((#[trigger] v@[k]).name@ == database@
                                && schema_selection_allows(v@[k].schemas, schema@)),
                    decreases v@.len() - i,
                {
                    if str_eq(v[i].name.as_str(), database) && selection_allows(
                        &v[i].schemas,
                        schema,
                    ) {
                        assert(v@[i as int].name@ == database@ && schema_selection_allows(v@[i as int].schemas, schema@));
                        return true;
                    }
                    i = i + 1;
                }
                false
            },
        }
    }

    /// No selected database or schema name is empty or listed twice.
    pub open spec fn valid_spec(&self) -> bool {
        self.validate_spec() is None
    }

    pub open spec fn validate_spec(&self) -> Option<CatalogScopeValidationError> {
        match self.databases {
            CatalogSelection::All => None,
            CatalogSelection::Selected(v) => first_database_issue(v@),
        }
    }

    /// Checks the scope's own shape.
    #[verifier::loop_isolation(false)]
    pub fn validate(&self) -> (r: Result<(), CatalogScopeValidationError>)
        ensures
            r matches Err(e) ==> self.validate_spec() == Some(e),
            r is Ok <==> self.validate_spec() is None,
    {
        match &self.databases {
            CatalogSelection::All => Ok(()),
            CatalogSelection::Selected(v) => {
                let mut i: usize = 0;
                while i < v.len()
                    invariant
                        i <= v@.len(),
                        first_database_issue(v@) == first_database_issue_from(v@, i as int),
                    decreases v@.len() - i,
                {
                    if is_empty_str(v[i].name.as_str()) {
                        return Err(CatalogScopeValidationError::EmptyDatabaseName);
                    }
                    let mut j: usize = 0;
                    while j < i
                        invariant
                            i < v@.len(),
                            j <= i,
                            forall|k: int| 0 <= k < j ==> (#[trigger] v@[k]).name@ != v@[i as int].name@,
                        decreases i - j,
                    {
                        if v[j].name == v[i].name {
                            return Err(CatalogScopeValidationError::DuplicateDatabase);
                        }
                        j = j + 1;
                    }
                    match validate_names(&v[i].schemas) {
                        Some(e) => return Err(e),
                        None => {},
                    }
                    i = i + 1;
                }
                Ok(())
            },
        }
    }
}

/// The first problem in a list of selected schema names.
pub open spec fn first_name_issue(v: Seq<String>, i: int) -> Option<CatalogScopeValidationError>
    decreases v.len() - i,
{
    if i < 0 || i >= v.len() {
        None
    } else if v[i]@.len() == 0 {
        Some(CatalogScopeValidationError::EmptySchemaName)
    } else if exists|k: int| 0 <= k < i && (#[trigger] v[k])@ == v[i]@ {
        Some(CatalogScopeValidationError::DuplicateSchema)
    } else {
        first_name_issue(v, i + 1)
    }
}

pub open spec fn schema_issue(s: CatalogSelection<String>) -> Option<CatalogScopeValidationError> {
    match s {
        CatalogSelection::All => None,
        CatalogSelection::Selected(v) => first_name_issue(v@, 0),
    }
}

/// The first problem in a list of selected databases, from position `i` on.
pub open spec fn first_database_issue_from(v: Seq<DatabaseSelection>, i: int) -> Option<
    CatalogScopeValidationError,
>
    decreases v.len() - i,
{
    if i < 0 || i >= v.len() {
        None
    } else if v[i].name@.len() == 0 {
        Some(CatalogScopeValidationError::EmptyDatabaseName)
    } else if exists|k: int| 0 <= k < i && (#[trigger] v[k]).name@ == v[i].name@ {
        Some(CatalogScopeValidationError::DuplicateDatabase)
    } else if schema_issue(v[i].schemas) is Some {
        schema_issue(v[i].schemas)
    } else {
        first_database_issue_from(v, i + 1)
    }
}

pub open spec fn first_database_issue(v: Seq<DatabaseSelection>) -> Option<
    CatalogScopeValidationError,
> {
    first_database_issue_from(v, 0)
}

#[verifier::loop_isolation(false)]
fn selection_allows(s: &CatalogSelection<String>, schema: &str) -> (r: bool)
    ensures
        r == schema_selection_allows(*s, schema@),
{
    match s {
        CatalogSelection::All => true,
        CatalogSelection::Selected(v) => {
            let mut i: usize = 0;
            while i < v.len()
                invariant
                    i <= v@.len(),
                    forall|k: int| 0 <= k < i ==> (#[trigger] v@[k])@ != schema@,
                decreases v@.len() - i,
            {
                if str_eq(v[i].as_str(), schema) {
                    assert(views(v@)[i as int] == schema@);
                    assert(views(v@).contains(schema@));
                    return true;
                }
                i = i + 1;
            }
            assert(!views(v@).contains(schema@)) by {
                if views(v@).contains(schema@) {
                    let k = choose|k: int| 0 <= k < views(v@).len() && views(v@)[k] == schema@;
                    assert(v@[k]@ == schema@);
                }
            }
            false
        },
    }
}

#[verifier::loop_isolation(false)]
fn validate_names(s: &CatalogSelection<String>) -> (r: Option<CatalogScopeValidationError>)
    ensures
        r == schema_issue(*s),
{
    match s {
        CatalogSelection::All => None,
        CatalogSelection::Selected(v) => {
            let mut i: usize = 0;
            while i < v.len()
                invariant
                    i <= v@.len(),
                    first_name_issue(v@, 0) == first_name_issue(v@, i as int),
                decreases v@.len() - i,
            {
                if is_empty_str(v[i].as_str()) {
                    return Some(CatalogScopeValidationError::EmptySchemaName);
                }
                let mut j: usize = 0;
                while j < i
                    invariant
                        i < v@.len(),
                        j <= i,
                        forall|k: int| 0 <= k < j ==> (#[trigger] v@[k])@ != v@[i as int]@,
                    decreases i - j,
                {
                    if v[j] == v[i] {
                        return Some(CatalogScopeValidationError::DuplicateSchema);
                    }
                    j = j + 1;
                }
                i = i + 1;
            }
            None
        },
    }
}

/// The names of the selected databases, or `None` when every database is
/// selected.
pub open spec fn selected_database_names(scope: CatalogScope) -> Option<Seq<Seq<char>>> {
    match scope.databases {
        CatalogSelection::All => None,
        CatalogSelection::Selected(v) => Some(v@.map_values(|d: DatabaseSelection| d.name@)),
    }
}

/// The first selected database with this name, if any.
pub open spec fn find_database(v: Seq<DatabaseSelection>, name: Seq<char>, i: int) -> Option<int>
    decreases v.len() - i,
{
    if i < 0 || i >= v.len() {
        None
    } else if v[i].name@ == name {
        Some(i)
    } else {
        find_database(v, name, i + 1)
    }
}

fn find_selected(v: &Vec<DatabaseSelection>, name: &str) -> (r: Option<usize>)
    ensures
        match r {
            Some(i) => find_database(v@, name@, 0) == Some(i as int) && i < v@.len(),
            None => find_database(v@, name@, 0) is None,
        },
{
    let mut i: usize = 0;
    while i < v.len()
        invariant
            i <= v@.len(),
            find_database(v@, name@, 0) == find_database(v@, name@, i as int),
        decreases v@.len() - i,
    {
        if str_eq(v[i].name.as_str(), name) {
            return Some(i);
        }
        i = i + 1;
    }
    None
}

/// The names of the databases a scope selects, or `None` when it selects
/// every database.
pub fn selected_search_databases(scope: &CatalogScope) -> (r: Option<Vec<&str>>)
    ensures
        match r {
            Some(names) => selected_database_names(*scope) == Some(
                names@.map_values(|n: &str| n@),
            ),
            None => selected_database_names(*scope) is None,
        },
{
    match &scope.databases {
        CatalogSelection::All => None,
        CatalogSelection::Selected(databases) => {
            let mut names: Vec<&str> = Vec::new();
            let mut i: usize = 0;
            while i < databases.len()
                invariant
                    i <= databases@.len(),
                    names@.map_values(|n: &str| n@) == databases@.subrange(0, i as int).map_values(
                        |d: DatabaseSelection| d.name@,
                    ),
                decreases databases@.len() - i,
            {
                let ghost before = names@.map_values(|n: &str| n@);
                let nm = databases[i].name.as_str();
                assert(nm@ == databases@[i as int].name@);
                names.push(nm);
                assert(names@.map_values(|n: &str| n@) =~= before.push(nm@));
                assert(names@.map_values(|n: &str| n@) =~= databases@.subrange(
                    0,
                    i + 1,
                ).map_values(|d: DatabaseSelection| d.name@));
                i = i + 1;
            }
            assert(databases@.subrange(0, i as int) =~= databases@);
            Some(names)
        },
    }
}

/// The schemas a scope selects in `database`: `None` when every schema of
/// it is selected (or every database is), no schema when the database is
/// not selected.
pub open spec fn search_schema_names(scope: CatalogScope, database: Seq<char>) -> Option<
    Seq<Seq<char>>,
> {
    match scope.databases {
        CatalogSelection::All => None,
        CatalogSelection::Selected(v) => match find_database(v@, database, 0) {
            None => Some(Seq::empty()),
            Some(i) => match v@[i].schemas {
                CatalogSelection::All => None,
                CatalogSelection::Selected(schemas) => Some(views(schemas@)),
            },
        },
    }
}

/// The schemas of `database` that a search in `scope` covers.
pub fn search_schemas(scope: &CatalogScope, database: &str) -> (r: Option<Vec<String>>)
    ensures
        match r {
            Some(names) => search_schema_names(*scope, database@) == Some(views(names@)),
            None => search_schema_names(*scope, database@) is None,
        },
{
    match &scope.databases {
        CatalogSelection::All => None,
        CatalogSelection::Selected(databases) => match find_selected(databases, database) {
            None => Some(Vec::new()),
            Some(i) => match &databases[i].schemas {
                CatalogSelection::All => None,
                CatalogSelection::Selected(schemas) => Some(crate::text::clone_strings(schemas)),
            },
        },
    }
}

} // verus!
