//! Database errors, their categories and how they are printed.
use vstd::prelude::*;

use crate::text::{
    ascii_lower, clone_opt, contains_seq, contains_str, decimal, is_empty_str, join,
    join_strings, opt_view, owned, push_decimal, push_str, sanitize_terminal_text, sanitized,
    to_ascii_lower, views,
};

verus! {

#[derive(Clone, Copy, Debug, PartialEq, Eq, Structural)]
pub enum ErrorCategory {
    Configuration,
    Authentication,
    Network,
    Permission,
    Sql,
    Constraint,
    Unsupported,
    Cancelled,
    Internal,
}

/// What the query history keeps of an error.
#[derive(Clone, Debug, PartialEq, Eq)]
pub struct HistoryErrorSnapshot {
    pub category: ErrorCategory,
    pub code: Option<String>,
    pub message: String,
}

/// Where in a statement the server located an error.
#[derive(Clone, Debug, PartialEq, Eq)]
pub enum DatabaseErrorPosition {
    Original(usize),
    Internal { position: usize, query: String },
}

/// The structured fields a server may add to an error.
#[derive(Clone, Debug, Default, PartialEq, Eq)]
pub struct DatabaseDiagnostic {
    pub severity: Option<String>,
    pub detail: Option<String>,
    pub hint: Option<String>,
    pub position: Option<DatabaseErrorPosition>,
    pub context: Option<String>,
}

/// An error reported by a database or by the workspace around it.
#[derive(Clone, Debug, PartialEq, Eq)]
pub struct DatabaseError {
    pub category: ErrorCategory,
    pub code: Option<String>,
    pub message: String,
    pub diagnostic: Option<Box<DatabaseDiagnostic>>,
}

pub open spec fn labelled(label: Seq<char>, value: Seq<char>) -> Seq<char> {
    label + ": "@ + value
}

/// The severity printed for an error: the diagnostic's, else `ERROR`.
pub open spec fn error_severity(e: DatabaseError) -> Seq<char> {
    match e.diagnostic {
        Some(d) => match d.severity {
            Some(s) => s@,
            None => "ERROR"@,
        },
        None => "ERROR"@,
    }
}

pub open spec fn code_prefix(code: Option<String>) -> Seq<char> {
    match code {
        Some(c) => "["@ + c@ + "] "@,
        None => Seq::empty(),
    }
}

pub open spec fn opt_line(label: Seq<char>, value: Option<String>) -> Seq<Seq<char>> {
    match value {
        Some(v) => seq![labelled(label, v@)],
        None => Seq::empty(),
    }
}

pub open spec fn position_lines(p: Option<DatabaseErrorPosition>) -> Seq<Seq<char>> {
    match p {
        Some(DatabaseErrorPosition::Original(position)) => seq![
            labelled("Position"@, decimal(position as nat)),
        ],
        Some(DatabaseErrorPosition::Internal { position, query }) => seq![
            labelled("Internal Position"@, decimal(position as nat)),
            labelled("Internal Query"@, query@),
        ],
        None => Seq::empty(),
    }
}

/// The lines of the printed error: the headline, then detail, hint,
/// position and context where the diagnostic has them.
pub open spec fn output_lines(e: DatabaseError) -> Seq<Seq<char>> {
    let head = seq![code_prefix(e.code) + error_severity(e) + ": "@ + e.message@];
    match e.diagnostic {
        Some(d) => head + opt_line("Detail"@, d.detail) + opt_line("Hint"@, d.hint)
            + position_lines(d.position) + opt_line("Context"@, d.context),
        None => head,
    }
}

fn format_diagnostic_lines(label: &str, value: &str) -> (r: String)
    ensures
        r@ == labelled(label@, value@),
{
    let mut s = owned(label);
    push_str(&mut s, ": ");
    push_str(&mut s, value);
    s
}

fn labelled_number(label: &str, n: usize) -> (r: String)
    ensures
        r@ == labelled(label@, decimal(n as nat)),
{
    let mut s = owned(label);
    push_str(&mut s, ": ");
    push_decimal(&mut s, n as u64);
    s
}

fn push_opt_line(lines: &mut Vec<String>, label: &str, value: &Option<String>)
    ensures
        views(final(lines)@) == views(old(lines)@) + opt_line(label@, *value),
{
    let ghost before = views(lines@);
    match value {
        Some(v) => {
            lines.push(format_diagnostic_lines(label, v.as_str()));
        },
        None => {},
    }
    assert(views(lines@) =~= before + opt_line(label@, *value));
}

impl DatabaseError {
    /// The category, code and message, as the history keeps them.
    pub fn history_snapshot(&self) -> (r: HistoryErrorSnapshot)
        ensures
            r.category == self.category,
            r.code == self.code,
            r.message == self.message,
    {
        HistoryErrorSnapshot {
            category: self.category,
            code: clone_opt(&self.code),
            message: self.message.clone(),
        }
    }

    /// A configuration error whose message is `message` made safe for a terminal.
    pub fn configuration(message: &str) -> (r: Self)
        ensures
            r.category == ErrorCategory::Configuration,
            r.code is None,
            r.message@ == sanitized(message@),
            r.diagnostic is None,
    {
        DatabaseError {
            category: ErrorCategory::Configuration,
            code: None,
            message: sanitize_terminal_text(message),
            diagnostic: None,
        }
    }

    /// The message alone, as the error displays itself.
    pub fn to_string(&self) -> (r: String)
        ensures
            r@ == self.message@,
    {
        self.message.clone()
    }

    /// The error as printed in an output pane: `[code] SEVERITY: message`
    /// and the diagnostic's lines, joined by newlines.
    pub fn output_message(&self) -> (r: String)
        ensures
            r@ == join(output_lines(*self), "\n"@),
    {
        let mut head = String::new();
        match &self.code {
            Some(code) => {
                push_str(&mut head, "[");
                push_str(&mut head, code.as_str());
                push_str(&mut head, "] ");
            },
            None => {},
        }
        let severity: &str = match &self.diagnostic {
            Some(d) => match &d.severity {
                Some(s) => s.as_str(),
                None => "ERROR",
            },
            None => "ERROR",
        };
        push_str(&mut head, severity);
        push_str(&mut head, ": ");
        push_str(&mut head, self.message.as_str());
        let mut lines: Vec<String> = Vec::new();
        lines.push(head);
        assert(views(lines@) =~= seq![
            code_prefix(self.code) + error_severity(*self) + ": "@ + self.message@,
        ]);
        match &self.diagnostic {
            Some(d) => {
                push_opt_line(&mut lines, "Detail", &d.detail);
                push_opt_line(&mut lines, "Hint", &d.hint);
                let ghost before = views(lines@);
                match &d.position {
                    Some(DatabaseErrorPosition::Original(position)) => {
                        lines.push(labelled_number("Position", *position));
                    },
                    Some(DatabaseErrorPosition::Internal { position, query }) => {
                        lines.push(labelled_number("Internal Position", *position));
                        lines.push(format_diagnostic_lines("Internal Query", query.as_str()));
                    },
                    None => {},
                }
                assert(views(lines@) =~= before + position_lines(d.position));
                push_opt_line(&mut lines, "Context", &d.context);
            },
            None => {},
        }
        join_strings(&lines, "\n")
    }
}


// ---------------------------------------------------------------------------
// Driver errors
// ---------------------------------------------------------------------------

/// The severity a PostgreSQL server attaches to an error.
#[derive(Clone, Copy, Debug, PartialEq, Eq, Structural)]
pub enum PgSeverity {
    Panic,
    Fatal,
    Error,
    Warning,
    Notice,
    Debug,
    Info,
    Log,
}

/// The PostgreSQL-specific fields of a server error, as the driver reports them.
#[derive(Clone, Debug, PartialEq, Eq)]
pub struct PgErrorDetails {
    pub severity: PgSeverity,
    pub detail: Option<String>,
    pub hint: Option<String>,
    pub position: Option<DatabaseErrorPosition>,
    pub context: Option<String>,
}

/// An error the server returned.
#[derive(Clone, Debug, PartialEq, Eq)]
pub struct DriverDatabaseError {
    pub message: String,
    pub code: Option<String>,
    pub postgres: Option<PgErrorDetails>,
}

/// What the SQL driver reported: a server error, or another failure with
/// the text it displays.
#[derive(Clone, Debug, PartialEq, Eq)]
pub enum DriverError {
    Database(DriverDatabaseError),
    Other(String),
}

pub open spec fn severity_name(s: PgSeverity) -> Seq<char> {
    match s {
        PgSeverity::Panic => "PANIC"@,
        PgSeverity::Fatal => "FATAL"@,
        PgSeverity::Error => "ERROR"@,
        PgSeverity::Warning => "WARNING"@,
        PgSeverity::Notice => "NOTICE"@,
        PgSeverity::Debug => "DEBUG"@,
        PgSeverity::Info => "INFO"@,
        PgSeverity::Log => "LOG"@,
    }
}

/// The category a server message suggests, else `default_category`.
pub open spec fn message_category(message: Seq<char>, default_category: ErrorCategory) -> ErrorCategory {
    let lowered = ascii_lower(message);
    if contains_seq(lowered, "constraint"@) || contains_seq(lowered, "duplicate"@) || contains_seq(
        lowered,
        "unique"@,
    ) || contains_seq(lowered, "foreign key"@) {
        ErrorCategory::Constraint
    } else if contains_seq(lowered, "permission"@) || contains_seq(lowered, "not authorized"@) {
        ErrorCategory::Permission
    } else if contains_seq(lowered, "password"@) || contains_seq(lowered, "authentication"@) {
        ErrorCategory::Authentication
    } else {
        default_category
    }
}

/// An optional text made safe for a terminal, kept only if something remains.
pub open spec fn sanitized_opt(value: Option<String>) -> Option<Seq<char>> {
    match value {
        Some(v) => if sanitized(v@).len() > 0 {
            Some(sanitized(v@))
        } else {
            None
        },
        None => None,
    }
}

pub open spec fn opt_text(value: Option<String>) -> Option<Seq<char>> {
    opt_view(value)
}

/// The diagnostic built from PostgreSQL fields.
pub open spec fn pg_diagnostic_matches(d: DatabaseDiagnostic, pg: PgErrorDetails) -> bool {
    &&& opt_view(d.severity) == Some(severity_name(pg.severity))
    &&& opt_view(d.detail) == sanitized_opt(pg.detail)
    &&& opt_view(d.hint) == sanitized_opt(pg.hint)
    &&& opt_view(d.context) == sanitized_opt(pg.context)
    &&& match (d.position, pg.position) {
        (None, None) => true,
        (Some(DatabaseErrorPosition::Original(a)), Some(DatabaseErrorPosition::Original(b))) => a
            == b,
        (
            Some(DatabaseErrorPosition::Internal { position: a, query: qa }),
            Some(DatabaseErrorPosition::Internal { position: b, query: qb }),
        ) => a == b && qa@ == sanitized(qb@),
        _ => false,
    }
}

/// What `from_sqlx` makes of a driver error.
pub open spec fn from_driver_spec(e: DatabaseError, error: DriverError, default_category: ErrorCategory) -> bool {
    match error {
        DriverError::Database(db) => {
            &&& e.message@ == sanitized(db.message@)
            &&& e.category == message_category(sanitized(db.message@), default_category)
            &&& e.code == db.code
            &&& match db.postgres {
                Some(pg) => e.diagnostic matches Some(d) && pg_diagnostic_matches(*d, pg),
                None => e.diagnostic is None,
            }
        },
        DriverError::Other(text) => {
            &&& e.category == default_category
            &&& e.code is None
            &&& e.message@ == sanitized(text@)
            &&& e.diagnostic is None
        },
    }
}

fn format_postgres_severity(severity: PgSeverity) -> (r: String)
    ensures
        r@ == severity_name(severity),
{
    let name = match severity {
        PgSeverity::Panic => "PANIC",
        PgSeverity::Fatal => "FATAL",
        PgSeverity::Error => "ERROR",
        PgSeverity::Warning => "WARNING",
        PgSeverity::Notice => "NOTICE",
        PgSeverity::Debug => "DEBUG",
        PgSeverity::Info => "INFO",
        PgSeverity::Log => "LOG",
    };
    owned(name)
}

fn sanitized_optional(value: &Option<String>) -> (r: Option<String>)
    ensures
        opt_view(r) == sanitized_opt(*value),
{
    match value {
        Some(v) => {
            let s = sanitize_terminal_text(v.as_str());
            if is_empty_str(s.as_str()) {
                None
            } else {
                Some(s)
            }
        },
        None => None,
    }
}

fn categorize(message: &str, default_category: ErrorCategory) -> (r: ErrorCategory)
    ensures
        r == message_category(message@, default_category),
{
    let lowered = to_ascii_lower(message);
    let l = lowered.as_str();
    if contains_str(l, "constraint") || contains_str(l, "duplicate") || contains_str(l, "unique")
        || contains_str(l, "foreign key") {
        ErrorCategory::Constraint
    } else if contains_str(l, "permission") || contains_str(l, "not authorized") {
        ErrorCategory::Permission
    } else if contains_str(l, "password") || contains_str(l, "authentication") {
        ErrorCategory::Authentication
    } else {
        default_category
    }
}

impl DatabaseError {
    /// A database error from what the driver reported. A server error keeps
    /// its code, takes its category from its message where the message names
    /// a constraint, a permission or authentication, and carries the
    /// PostgreSQL diagnostic when there is one; all texts are made safe for
    /// a terminal.
    pub fn from_sqlx(error: DriverError, default_category: ErrorCategory) -> (r: Self)
        ensures
            from_driver_spec(r, error, default_category),
    {
        match error {
            DriverError::Database(database) => {
                let message = sanitize_terminal_text(database.message.as_str());
                let category = categorize(message.as_str(), default_category);
                let diagnostic = match &database.postgres {
                    Some(pg) => {
                        let position = match &pg.position {
                            Some(DatabaseErrorPosition::Original(p)) => Some(
                                DatabaseErrorPosition::Original(*p),
                            ),
                            Some(DatabaseErrorPosition::Internal { position, query }) => Some(
                                DatabaseErrorPosition::Internal {
                                    position: *position,
                                    query: sanitize_terminal_text(query.as_str()),
                                },
                            ),
                            None => None,
                        };
                        Some(
                            Box::new(
                                DatabaseDiagnostic {
                                    severity: Some(format_postgres_severity(pg.severity)),
                                    detail: sanitized_optional(&pg.detail),
                                    hint: sanitized_optional(&pg.hint),
                                    position,
                                    context: sanitized_optional(&pg.context),
                                },
                            ),
                        )
                    },
                    None => None,
                };
                DatabaseError { category, code: database.code, message, diagnostic }
            },
            DriverError::Other(text) => DatabaseError {
                category: default_category,
                code: None,
                message: sanitize_terminal_text(text.as_str()),
                diagnostic: None,
            },
        }
    }
}


/// An internal error tagged with `code`, its message made safe for a terminal.
pub open spec fn is_internal_error(e: DatabaseError, code: Seq<char>, message: Seq<char>) -> bool {
    &&& e.category == ErrorCategory::Internal
    &&& opt_view(e.code) == Some(code)
    &&& e.message@ == sanitized(message)
    &&& e.diagnostic is None
}

/// An internal error tagged with `code` whose message is `message`.
pub fn internal_error(code: &str, message: &str) -> (r: DatabaseError)
    ensures
        is_internal_error(r, code@, message@),
{
    DatabaseError {
        category: ErrorCategory::Internal,
        code: Some(owned(code)),
        message: sanitize_terminal_text(message),
        diagnostic: None,
    }
}

/// A text result whose error is an internal error tagged with `code`.
pub open spec fn internal_outcome(
    r: Result<String, DatabaseError>,
    code: Seq<char>,
    expected: Result<Seq<char>, Seq<char>>,
) -> bool {
    match r {
        Ok(s) => expected == Ok::<Seq<char>, Seq<char>>(s@),
        Err(e) => expected matches Err(m) && is_internal_error(e, code, m),
    }
}

} // verus!
