//! Requests and plans for dropping one catalog object.
use vstd::prelude::*;

use crate::catalog::{id_eq, CatalogEntry, CatalogId, CatalogKind};
use crate::identity::ConnectionIdentity;
use crate::text::{ascii_upper_char, chars_of, is_empty_str, push_char, trim, trim_str, upper_char};

verus! {

/// The catalog identity used to build a drop plan.
#[derive(Clone, Debug, PartialEq, Eq)]
pub struct CatalogDropRequest {
    pub connection: ConnectionIdentity,
    pub request_id: u64,
    pub catalog_epoch: u64,
    pub object: CatalogId,
    pub entry: Option<CatalogEntry>,
}

#[derive(Clone, Debug, PartialEq, Eq)]
pub enum CatalogDropError {
    EmptyObjectId,
    ProfileMismatch { object_profile_id: u128, connection_profile_id: u128 },
    EmptySql,
    UnsafeSql,
    KindMismatch { id_kind: CatalogKind, entry_kind: CatalogKind },
    ObjectMismatch,
    EmptyObjectName,
    Unsupported { kind: CatalogKind, reason: String },
}

/// An `Unsupported` error for `kind` whose reason reads `text`.
pub open spec fn is_unsupported(e: CatalogDropError, kind: CatalogKind, text: Seq<char>) -> bool {
    e matches CatalogDropError::Unsupported { kind: k, reason } && k == kind && reason@ == text
}

pub open spec fn drop_result_issue<T>(r: Result<T, CatalogDropError>) -> Option<CatalogDropError> {
    match r {
        Ok(_) => None,
        Err(e) => Some(e),
    }
}

pub open spec fn object_id_issue(object: CatalogId, profile_id: u128) -> Option<CatalogDropError> {
    if object.native_path@.len() == 0 {
        Some(CatalogDropError::EmptyObjectId)
    } else if object.connection_id != profile_id {
        Some(
            CatalogDropError::ProfileMismatch {
                object_profile_id: object.connection_id,
                connection_profile_id: profile_id,
            },
        )
    } else {
        None
    }
}

pub open spec fn drop_request_issue(request: CatalogDropRequest) -> Option<CatalogDropError> {
    object_id_issue(request.object, request.connection.profile_id)
}

impl CatalogDropRequest {
    /// A drop request for `object` with no entry attached and epoch 0.
    pub fn new(connection: ConnectionIdentity, object: CatalogId, request_id: u64) -> (r: Self)
        ensures
            r.connection == connection,
            r.request_id == request_id,
            r.catalog_epoch == 0,
            r.object == object,
            r.entry is None,
    {
        CatalogDropRequest { connection, request_id, catalog_epoch: 0, object, entry: None }
    }

    /// The same request with `entry` attached.
    pub fn with_entry(self, entry: CatalogEntry) -> (r: Self)
        ensures
            r == (CatalogDropRequest { entry: Some(entry), ..self }),
    {
        CatalogDropRequest { entry: Some(entry), ..self }
    }

    /// The object must have a native path and belong to the connection's profile.
    pub fn validate(&self) -> (r: Result<(), CatalogDropError>)
        ensures
            drop_result_issue(r) == drop_request_issue(*self),
    {
        validate_object_id(&self.object, self.connection.profile_id)
    }
}

fn validate_object_id(object: &CatalogId, connection_profile_id: u128) -> (r: Result<
    (),
    CatalogDropError,
>)
    ensures
        drop_result_issue(r) == object_id_issue(*object, connection_profile_id),
{
    if object.native_path.len() == 0 {
        return Err(CatalogDropError::EmptyObjectId);
    }
    if object.connection_id != connection_profile_id {
        return Err(
            CatalogDropError::ProfileMismatch {
                object_profile_id: object.connection_id,
                connection_profile_id,
            },
        );
    }
    Ok(())
}

/// A validated, execution-ready description of one catalog object drop.
#[derive(Clone, Debug, PartialEq, Eq)]
pub struct CatalogDropPlan {
    pub request: CatalogDropRequest,
    pub object: CatalogId,
    pub kind: CatalogKind,
    pub qualified_name: String,
    pub sql: String,
}

pub open spec fn plan_entry_issue(
    request: CatalogDropRequest,
    entry: CatalogEntry,
    sql: Seq<char>,
) -> Option<CatalogDropError> {
    if drop_request_issue(request) is Some {
        drop_request_issue(request)
    } else if entry.id@ != request.object@ {
        Some(CatalogDropError::ObjectMismatch)
    } else if entry.kind != entry.id.kind {
        Some(CatalogDropError::KindMismatch { id_kind: entry.id.kind, entry_kind: entry.kind })
    } else if entry.qualified_name.object@.len() == 0 {
        Some(CatalogDropError::EmptyObjectName)
    } else {
        sql_issue(sql)
    }
}

/// What a drop plan holds, by value.
pub struct CatalogDropPlanView {
    pub request: CatalogDropRequest,
    pub object: CatalogId,
    pub kind: CatalogKind,
    pub qualified_name: Seq<char>,
    pub sql: Seq<char>,
}

impl View for CatalogDropPlan {
    type V = CatalogDropPlanView;

    open spec fn view(&self) -> CatalogDropPlanView {
        CatalogDropPlanView {
            request: self.request,
            object: self.object,
            kind: self.kind,
            qualified_name: self.qualified_name@,
            sql: self.sql@,
        }
    }
}


/// Why a plan no longer holds: its request, object, kind, name or SQL.
pub open spec fn plan_issue(p: CatalogDropPlanView) -> Option<CatalogDropError> {
    if drop_request_issue(p.request) is Some {
        drop_request_issue(p.request)
    } else if p.object@ != p.request.object@ {
        Some(CatalogDropError::ObjectMismatch)
    } else if p.kind != p.object.kind {
        Some(CatalogDropError::KindMismatch { id_kind: p.object.kind, entry_kind: p.kind })
    } else if p.qualified_name.len() == 0 {
        Some(CatalogDropError::EmptyObjectName)
    } else {
        sql_issue(p.sql)
    }
}

/// What building a plan for `sql` gives: the first issue with the request,
/// entry or statement, or a plan holding them.
pub open spec fn plan_outcome(
    r: Result<CatalogDropPlan, CatalogDropError>,
    request: CatalogDropRequest,
    entry: CatalogEntry,
    sql: Seq<char>,
) -> bool {
    &&& drop_result_issue(r) == plan_entry_issue(request, entry, sql)
    &&& r matches Ok(p) ==> {
        &&& p@.request == request
        &&& p@.object@ == entry.id@
        &&& p@.kind == entry.kind
        &&& p@.qualified_name == entry.qualified_name.object@
        &&& p@.sql == sql
    }
}

/// Why a dialect cannot write a drop statement for an entry.
pub enum DropSqlIssue {
    EmptyObjectName,
    Unsupported(CatalogKind, Seq<char>),
}

pub open spec fn drop_issue_matches(e: CatalogDropError, issue: DropSqlIssue) -> bool {
    match issue {
        DropSqlIssue::EmptyObjectName => e == CatalogDropError::EmptyObjectName,
        DropSqlIssue::Unsupported(kind, reason) => is_unsupported(e, kind, reason),
    }
}

/// What a dialect's drop planner gives: the issue with the entry, or the
/// plan for the statement it writes.
pub open spec fn drop_plan_outcome(
    r: Result<CatalogDropPlan, CatalogDropError>,
    request: CatalogDropRequest,
    entry: CatalogEntry,
    sql: Result<Seq<char>, DropSqlIssue>,
) -> bool {
    match sql {
        Err(issue) => r matches Err(e) && drop_issue_matches(e, issue),
        Ok(s) => plan_outcome(r, request, entry, s),
    }
}

/// An `Unsupported` error for `kind` that reads `reason`.
pub fn unsupported(kind: CatalogKind, reason: &str) -> (r: CatalogDropError)
    ensures
        is_unsupported(r, kind, reason@),
{
    CatalogDropError::Unsupported { kind, reason: crate::text::owned(reason) }
}

impl CatalogDropPlan {

    /// A plan to run `sql` against `entry`, which must be the request's object.
    pub fn new(request: CatalogDropRequest, entry: &CatalogEntry, sql: String) -> (r: Result<
        Self,
        CatalogDropError,
    >)
        ensures
            plan_outcome(r, request, *entry, sql@),
    {
        request.validate()?;
        if !id_eq(&entry.id, &request.object) {
            return Err(CatalogDropError::ObjectMismatch);
        }
        if entry.kind != entry.id.kind {
            return Err(
                CatalogDropError::KindMismatch { id_kind: entry.id.kind, entry_kind: entry.kind },
            );
        }
        if is_empty_str(entry.qualified_name.object.as_str()) {
            return Err(CatalogDropError::EmptyObjectName);
        }
        validate_sql(sql.as_str())?;
        Ok(
            CatalogDropPlan {
                request,
                object: entry.id.clone(),
                kind: entry.kind,
                qualified_name: entry.qualified_name.object.clone(),
                sql,
            },
        )
    }

    /// The statement that drops the object.
    pub fn sql(&self) -> (r: &str)
        ensures
            r@ == self@.sql,
    {
        self.sql.as_str()
    }

    /// The plan must still be consistent with its request and hold safe SQL.
    pub fn validate(&self) -> (r: Result<(), CatalogDropError>)
        ensures
            drop_result_issue(r) == plan_issue(self@),
    {
        self.request.validate()?;
        if !id_eq(&self.object, &self.request.object) {
            return Err(CatalogDropError::ObjectMismatch);
        }
        if self.kind != self.object.kind {
            return Err(
                CatalogDropError::KindMismatch { id_kind: self.object.kind, entry_kind: self.kind },
            );
        }
        if is_empty_str(self.qualified_name.as_str()) {
            return Err(CatalogDropError::EmptyObjectName);
        }
        validate_sql(self.sql.as_str())
    }
}

/// A plan that `CatalogDropPlan::new` builds passes `validate`: the checks
/// made when the plan is built still hold of the plan.
pub proof fn lemma_new_plan_validates(
    r: Result<CatalogDropPlan, CatalogDropError>,
    request: CatalogDropRequest,
    entry: CatalogEntry,
    sql: Seq<char>,
)
    requires
        plan_outcome(r, request, entry, sql),
        r is Ok,
    ensures
        plan_issue(r->Ok_0@) is None,
{
    let p = r->Ok_0@;
    assert(p.object.kind == p.object@.kind);
    assert(entry.id.kind == entry.id@.kind);
}

// ---------------------------------------------------------------------------
// Statement safety
// ---------------------------------------------------------------------------

/// The scanner's state: inside a quoted identifier (and its delimiter),
/// inside brackets, the word being read, and the words read so far.
pub struct ScanState {
    pub quoted: Option<char>,
    pub bracketed: bool,
    pub token: Seq<char>,
    pub tokens: Seq<Seq<char>>,
}

pub open spec fn is_word_char(c: char) -> bool {
    ('a' <= c <= 'z') || ('A' <= c <= 'Z') || ('0' <= c <= '9') || c == '_'
}

pub open spec fn flushed(token: Seq<char>, tokens: Seq<Seq<char>>) -> Seq<Seq<char>> {
    if token.len() > 0 {
        tokens.push(token)
    } else {
        tokens
    }
}

/// The upper-cased words of `s` outside quotes and brackets, or `None` when a
/// `;` stands outside them. Quotes and brackets do not end a word.
pub open spec fn scan(s: Seq<char>, i: int, st: ScanState) -> Option<Seq<Seq<char>>>
    decreases s.len() - i,
{
    if i < 0 || i >= s.len() {
        Some(flushed(st.token, st.tokens))
    } else {
        let c = s[i];
        if st.bracketed {
            if c == ']' && i + 1 < s.len() && s[i + 1] == ']' {
                scan(s, i + 2, st)
            } else if c == ']' {
                scan(s, i + 1, ScanState { bracketed: false, ..st })
            } else {
                scan(s, i + 1, st)
            }
        } else if st.quoted is Some {
            if c == st.quoted->0 {
                scan(s, i + 1, ScanState { quoted: None, ..st })
            } else {
                scan(s, i + 1, st)
            }
        } else if c == '"' || c == '`' {
            scan(s, i + 1, ScanState { quoted: Some(c), ..st })
        } else if c == '[' {
            scan(s, i + 1, ScanState { bracketed: true, ..st })
        } else if is_word_char(c) {
            scan(s, i + 1, ScanState { token: st.token.push(ascii_upper_char(c)), ..st })
        } else if c == ';' {
            None
        } else {
            scan(
                s,
                i + 1,
                ScanState { token: Seq::empty(), tokens: flushed(st.token, st.tokens), ..st },
            )
        }
    }
}

/// One step of `scan`, written out: what `scan` unfolds to at `i`.
spec fn scan_step(s: Seq<char>, i: int, st: ScanState) -> Option<Seq<Seq<char>>> {
    if i < 0 || i >= s.len() {
        Some(flushed(st.token, st.tokens))
    } else {
        let c = s[i];
        if st.bracketed {
            if c == ']' && i + 1 < s.len() && s[i + 1] == ']' {
                scan(s, i + 2, st)
            } else if c == ']' {
                scan(s, i + 1, ScanState { bracketed: false, ..st })
            } else {
                scan(s, i + 1, st)
            }
        } else if st.quoted is Some {
            if c == st.quoted->0 {
                scan(s, i + 1, ScanState { quoted: None, ..st })
            } else {
                scan(s, i + 1, st)
            }
        } else if c == '"' || c == '`' {
            scan(s, i + 1, ScanState { quoted: Some(c), ..st })
        } else if c == '[' {
            scan(s, i + 1, ScanState { bracketed: true, ..st })
        } else if is_word_char(c) {
            scan(s, i + 1, ScanState { token: st.token.push(ascii_upper_char(c)), ..st })
        } else if c == ';' {
            None
        } else {
            scan(
                s,
                i + 1,
                ScanState { token: Seq::empty(), tokens: flushed(st.token, st.tokens), ..st },
            )
        }
    }
}

pub open spec fn initial_scan() -> ScanState {
    ScanState { quoted: None, bracketed: false, token: Seq::empty(), tokens: Seq::empty() }
}

pub open spec fn forbidden_words(tokens: Seq<Seq<char>>) -> bool {
    (exists|i: int| 0 <= i < tokens.len() && #[trigger] tokens[i] == "CASCADE"@) || (exists|i: int|
        0 <= i < tokens.len() - 1 && #[trigger] tokens[i] == "IF"@ && tokens[i + 1] == "EXISTS"@)
}

/// Why a drop statement is refused: it is blank, it holds a `;` outside
/// quotes and brackets, or it says `CASCADE` or `IF EXISTS`.
pub open spec fn sql_issue(sql: Seq<char>) -> Option<CatalogDropError> {
    let t = trim(sql);
    if t.len() == 0 {
        Some(CatalogDropError::EmptySql)
    } else {
        match scan(t, 0, initial_scan()) {
            None => Some(CatalogDropError::UnsafeSql),
            Some(tokens) => if forbidden_words(tokens) {
                Some(CatalogDropError::UnsafeSql)
            } else {
                None
            },
        }
    }
}

fn is_word(c: char) -> (r: bool)
    ensures
        r == is_word_char(c),
{
    (c >= 'a' && c <= 'z') || (c >= 'A' && c <= 'Z') || (c >= '0' && c <= '9') || c == '_'
}

fn word_is(w: &Vec<char>, lit: &str) -> (r: bool)
    ensures
        r == (w@ == lit@),
{
    let l = chars_of(lit);
    if w.len() != l.len() {
        return false;
    }
    let mut i: usize = 0;
    while i < w.len()
        invariant
            l@ == lit@,
            w@.len() == l@.len(),
            i <= w@.len(),
            forall|k: int| 0 <= k < i ==> w@[k] == l@[k],
        decreases w@.len() - i,
    {
        if w[i] != l[i] {
            return false;
        }
        i = i + 1;
    }
    assert(w@ =~= l@);
    true
}

fn views_of(ts: &Vec<Vec<char>>) -> (r: Ghost<Seq<Seq<char>>>)
    ensures
        r@ == ts@.map_values(|t: Vec<char>| t@),
{
    Ghost(ts@.map_values(|t: Vec<char>| t@))
}

/// Refuses blank statements, `;` outside quotes and brackets, `CASCADE` and
/// `IF EXISTS`.
pub fn validate_sql(sql: &str) -> (r: Result<(), CatalogDropError>)
    ensures
        drop_result_issue(r) == sql_issue(sql@),
{
    let trimmed = trim_str(sql);
    let s = chars_of(trimmed.as_str());
    if s.len() == 0 {
        return Err(CatalogDropError::EmptySql);
    }
    let mut token: Vec<char> = Vec::new();
    let mut tokens: Vec<Vec<char>> = Vec::new();
    let mut quoted: Option<char> = None;
    let mut bracketed = false;
    let mut i: usize = 0;
    assert(tokens@.map_values(|t: Vec<char>| t@) =~= Seq::<Seq<char>>::empty());
    while i < s.len()
        invariant
            s@ == trim(sql@),
            i <= s@.len(),
            scan(s@, 0, initial_scan()) == scan(
                s@,
                i as int,
                ScanState {
                    quoted,
                    bracketed,
                    token: token@,
                    tokens: tokens@.map_values(|t: Vec<char>| t@),
                },
            ),
        decreases s@.len() - i,
    {
        let c = s[i];
        let ghost st0 = ScanState {
            quoted,
            bracketed,
            token: token@,
            tokens: tokens@.map_values(|t: Vec<char>| t@),
        };
        let ghost i0 = i as int;
        assert(scan(s@, i0, st0) == scan_step(s@, i0, st0));
        if bracketed {
            if c == ']' && i + 1 < s.len() && s[i + 1] == ']' {
                i = i + 2;
            } else {
                if c == ']' {
                    bracketed = false;
                }
                i = i + 1;
            }
        } else if quoted.is_some() {
            if Some(c) == quoted {
                quoted = None;
            }
            i = i + 1;
        } else if c == '"' || c == '`' {
            quoted = Some(c);
            i = i + 1;
        } else if c == '[' {
            bracketed = true;
            i = i + 1;
        } else if is_word(c) {
            token.push(upper_char(c));
            i = i + 1;
        } else {
            let ghost before = tokens@.map_values(|t: Vec<char>| t@);
            if token.len() > 0 {
                let t = token;
                tokens.push(t);
                token = Vec::new();
                assert(tokens@.map_values(|t: Vec<char>| t@) =~= before.push(t@));
            }
            assert(token@ =~= Seq::<char>::empty());
            if c == ';' {
                return Err(CatalogDropError::UnsafeSql);
            }
            i = i + 1;
        }
        assert(scan(s@, i0, st0) == scan(
            s@,
            i as int,
            ScanState {
                quoted,
                bracketed,
                token: token@,
                tokens: tokens@.map_values(|t: Vec<char>| t@),
            },
        ));
    }
    let ghost before = tokens@.map_values(|t: Vec<char>| t@);
    if token.len() > 0 {
        let t = token;
        tokens.push(t);
        assert(tokens@.map_values(|t: Vec<char>| t@) =~= before.push(t@));
    }
    let ghost words = tokens@.map_values(|t: Vec<char>| t@);
    let mut k: usize = 0;
    while k < tokens.len()
        invariant
            words == tokens@.map_values(|t: Vec<char>| t@),
            k <= tokens@.len(),
            forall|m: int| 0 <= m < k ==> #[trigger] words[m] != "CASCADE"@,
            forall|m: int| 0 <= m < k && m + 1 < words.len() ==> !(#[trigger] words[m] == "IF"@ && words[m + 1] == "EXISTS"@),
        decreases tokens@.len() - k,
    {
        if word_is(&tokens[k], "CASCADE") {
            assert(words[k as int] == "CASCADE"@);
            return Err(CatalogDropError::UnsafeSql);
        }
        if k + 1 < tokens.len() && word_is(&tokens[k], "IF") && word_is(&tokens[k + 1], "EXISTS") {
            assert(words[k as int] == "IF"@ && words[k + 1] == "EXISTS"@);
            return Err(CatalogDropError::UnsafeSql);
        }
        k = k + 1;
    }
    Ok(())
}

} // verus!
