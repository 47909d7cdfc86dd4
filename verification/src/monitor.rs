//! Server monitoring: the process list and what the server says of itself.
use vstd::prelude::*;

use std::time::Duration;

use crate::text::{clone_opt, opt_view, sanitize_terminal_text, sanitized};

verus! {

/// The most process rows a snapshot keeps.
pub const MAX_PROCESS_ROWS: usize = 2000;

/// How much of the server's process list the current login can see.
#[derive(Clone, Copy, Debug, PartialEq, Eq, Structural)]
pub enum MonitorVisibility {
    Full,
    Restricted,
    Unknown,
}

impl Default for MonitorVisibility {
    fn default() -> (r: Self)
        ensures
            r == MonitorVisibility::Unknown,
    {
        MonitorVisibility::Unknown
    }
}

/// What the server says of itself for the dashboard's header.
#[derive(Clone, Debug, PartialEq, Eq)]
pub struct MonitorMetadata {
    pub version: Option<String>,
    pub max_connections: Option<u64>,
}

impl Default for MonitorMetadata {
    fn default() -> (r: Self)
        ensures
            r.version is None,
            r.max_connections is None,
    {
        MonitorMetadata { version: None, max_connections: None }
    }
}

/// The metadata from the server's version and connection limit; a limit
/// below zero is no limit that can be shown.
pub fn monitor_metadata(version: Option<String>, max_connections: i64) -> (r: MonitorMetadata)
    ensures
        r.version == version,
        r.max_connections == if max_connections >= 0 {
            Some(max_connections as u64)
        } else {
            None::<u64>
        },
{
    let max_connections = if max_connections >= 0 {
        Some(max_connections as u64)
    } else {
        None
    };
    MonitorMetadata { version, max_connections }
}

/// One server process as the driver read it.
#[derive(Debug, PartialEq, Eq)]
pub struct ProcessRecord {
    pub pid: i32,
    pub user_name: Option<String>,
    pub database_name: Option<String>,
    pub client: String,
    pub application_name: Option<String>,
    pub state: Option<String>,
    pub wait: Option<String>,
    pub elapsed: Duration,
    pub query: Option<String>,
}

/// One server process as the dashboard shows it.
#[derive(Debug, PartialEq, Eq)]
pub struct ProcessRow {
    pub id: u64,
    pub user: String,
    pub database: Option<String>,
    pub client: String,
    pub application: Option<String>,
    pub state: Option<String>,
    pub wait: Option<String>,
    pub elapsed: Duration,
    pub query: Option<String>,
}

impl Clone for ProcessRecord {
    fn clone(&self) -> (r: Self)
        ensures
            r == *self,
    {
        ProcessRecord {
            pid: self.pid,
            user_name: clone_opt(&self.user_name),
            database_name: clone_opt(&self.database_name),
            client: self.client.clone(),
            application_name: clone_opt(&self.application_name),
            state: clone_opt(&self.state),
            wait: clone_opt(&self.wait),
            elapsed: self.elapsed,
            query: clone_opt(&self.query),
        }
    }
}

impl Clone for ProcessRow {
    fn clone(&self) -> (r: Self)
        ensures
            r == *self,
    {
        ProcessRow {
            id: self.id,
            user: self.user.clone(),
            database: clone_opt(&self.database),
            client: self.client.clone(),
            application: clone_opt(&self.application),
            state: clone_opt(&self.state),
            wait: clone_opt(&self.wait),
            elapsed: self.elapsed,
            query: clone_opt(&self.query),
        }
    }
}

/// The process list at one moment.
#[derive(Clone, Debug, PartialEq, Eq)]
pub struct ProcessSnapshot {
    pub rows: Vec<ProcessRow>,
    pub truncated: bool,
    pub visibility: MonitorVisibility,
}

/// The text of an optional string, empty where there is none.
pub open spec fn text_or_empty(o: Option<String>) -> Seq<char> {
    match o {
        Some(s) => s@,
        None => Seq::empty(),
    }
}

/// Whether `row` shows `record`: the process id widened, the user and the
/// query made safe for the terminal, the rest as read.
pub open spec fn shows_process(row: ProcessRow, record: ProcessRecord) -> bool {
    &&& row.id == record.pid as u64
    &&& row.user@ == sanitized(text_or_empty(record.user_name))
    &&& row.database == record.database_name
    &&& row.client == record.client
    &&& row.application == record.application_name
    &&& row.state == record.state
    &&& row.wait == record.wait
    &&& row.elapsed == record.elapsed
    &&& match record.query {
        Some(q) => row.query is Some && row.query.unwrap()@ == sanitized(q@),
        None => row.query is None,
    }
}

/// The dashboard row for one process.
pub fn process_row(record: ProcessRecord) -> (r: ProcessRow)
    ensures
        shows_process(r, record),
{
    let user = match &record.user_name {
        Some(u) => sanitize_terminal_text(u.as_str()),
        None => sanitize_terminal_text(""),
    };
    let query = match &record.query {
        Some(q) => Some(sanitize_terminal_text(q.as_str())),
        None => None,
    };
    proof {
        if record.user_name is None {
            assert(""@ =~= Seq::<char>::empty()) by {
                reveal_strlit("");
            }
        }
    }
    ProcessRow {
        id: record.pid as u64,
        user,
        database: record.database_name,
        client: record.client,
        application: record.application_name,
        state: record.state,
        wait: record.wait,
        elapsed: record.elapsed,
        query,
    }
}

/// The snapshot of a process list: at most `MAX_PROCESS_ROWS` rows, the
/// first ones in the server's order, each shown as `process_row` shows it,
/// and whether rows were left out. Which processes a login may see is not
/// known here.
pub fn process_snapshot(records: Vec<ProcessRecord>) -> (r: ProcessSnapshot)
    ensures
        r.rows.len() == if records.len() <= MAX_PROCESS_ROWS {
            records.len()
        } else {
            MAX_PROCESS_ROWS
        },
        r.truncated == (records.len() > MAX_PROCESS_ROWS),
        forall|i: int| 0 <= i < r.rows.len() ==> shows_process(#[trigger] r.rows[i], records[i]),
        r.visibility == MonitorVisibility::Unknown,
{
    let truncated = records.len() > MAX_PROCESS_ROWS;
    let keep = if truncated {
        MAX_PROCESS_ROWS
    } else {
        records.len()
    };
    let mut rows: Vec<ProcessRow> = Vec::new();
    let mut i: usize = 0;
    while i < keep
        invariant
            keep <= records.len(),
            i <= keep,
            rows.len() == i,
            forall|j: int| 0 <= j < i ==> shows_process(#[trigger] rows[j], records[j]),
        decreases keep - i,
    {
        let record = records[i].clone();
        rows.push(process_row(record));
        i = i + 1;
    }
    ProcessSnapshot { rows, truncated, visibility: MonitorVisibility::Unknown }
}

} // verus!
