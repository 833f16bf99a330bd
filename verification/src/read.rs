use vstd::prelude::*;
use crate::protocol::{opt_text, Action, ActionV, ApiError, ApiErrorV, AuditKind, Event, ListedRow, StoredRow};
use crate::naming::{read_scope, read_scope_of, reference_to, referenced_path};
use crate::text::{join3, join5, starts_with, second_part, second_segment};
use crate::json::{pretty_json, pretty_text, Json, JsonV};

verus! {

/// The answer to a reply that the step it came to did not ask for.
pub open spec fn unexpected_v<R>() -> ActionV<R> {
    ActionV::Finish(Err(ApiErrorV::Internal("unexpected reply"@)))
}

/// Ends an endpoint that was handed a reply it did not ask for; a driver
/// that performs what each step asks never gets this answer.
pub fn unexpected<R: View>() -> (a: Action<R>)
    ensures
        a@ == unexpected_v::<R::V>(),
{
    Action::Finish(Err(ApiError::Internal(String::from_str("unexpected reply"))))
}

/// Where the explanation of a refused read stands.
pub enum ExplainPhase {
    /// Waiting for the variable's extra permissions.
    VariablePerms,
    /// Waiting for the folder's extra permissions; the variable's are kept.
    FolderPerms(Json),
    Finished,
}

/// Explains why a variable the caller asked for was not returned: it does
/// not exist, or the caller may not see it (with the permissions that
/// apply, those of its folder too for a path under `f/`).
pub struct PermExplainer {
    pub path: String,
    pub phase: ExplainPhase,
}

pub open spec fn denied_text(var_perms: Seq<char>) -> Seq<char> {
    "Variable exists but you don't have access to it:\nvariable perms: "@ + var_perms
}

/// The permissions a folder query found, as printed: a folder that is not
/// there prints as JSON `null`.
pub open spec fn folder_perms_v(f: Option<Json>) -> JsonV {
    match f {
        Some(j) => j@,
        None => JsonV::Null,
    }
}

pub open spec fn explain_next(m: PermExplainer, e: Event) -> PermExplainer {
    match (m.phase, e) {
        (ExplainPhase::VariablePerms, Event::Perms(Some(p))) => {
            if "f/"@.is_prefix_of(m.path@) && second_segment(m.path@) is Some {
                PermExplainer { path: m.path, phase: ExplainPhase::FolderPerms(p) }
            } else {
                PermExplainer { path: m.path, phase: ExplainPhase::Finished }
            }
        },
        _ => PermExplainer { path: m.path, phase: ExplainPhase::Finished },
    }
}

pub open spec fn explain_action<R>(m: PermExplainer, e: Event) -> ActionV<R> {
    match m.phase {
        ExplainPhase::VariablePerms => match e {
            Event::Failed(err) => ActionV::Finish(Err(err@)),
            Event::Perms(None) => ActionV::Finish(
                Err(ApiErrorV::NotFound("Variable "@ + m.path@ + " not found"@)),
            ),
            Event::Perms(Some(p)) => {
                if "f/"@.is_prefix_of(m.path@) {
                    match second_segment(m.path@) {
                        Some(folder) => ActionV::LoadFolderPerms(folder),
                        None => ActionV::Finish(
                            Err(ApiErrorV::BadRequest(
                                "path "@ + m.path@ + " should have at least 2 components separated by /"@,
                            )),
                        ),
                    }
                } else {
                    ActionV::Finish(Err(ApiErrorV::NotAuthorized(denied_text(pretty_json(p@)))))
                }
            },
            _ => unexpected_v(),
        },
        ExplainPhase::FolderPerms(p) => match e {
            Event::Failed(err) => ActionV::Finish(Err(err@)),
            Event::FolderPerms(f) => ActionV::Finish(
                Err(ApiErrorV::NotAuthorized(
                    denied_text(pretty_json(p@)) + "\nfolder perms: "@ + pretty_json(folder_perms_v(f)),
                )),
            ),
            _ => unexpected_v(),
        },
        ExplainPhase::Finished => unexpected_v(),
    }
}

impl PermExplainer {
    /// Starts explaining the refusal for `path`: first its permissions.
    pub fn start<R: View>(path: String) -> (r: (PermExplainer, Action<R>))
        ensures
            r.0 == (PermExplainer { path, phase: ExplainPhase::VariablePerms }),
            r.1@ == ActionV::<R::V>::LoadVariablePerms(path@),
    {
        let a = Action::LoadVariablePerms(path.clone());
        (PermExplainer { path, phase: ExplainPhase::VariablePerms }, a)
    }

    pub fn step<R: View>(self, e: Event) -> (r: (PermExplainer, Action<R>))
        ensures
            r.0 == explain_next(self, e),
            r.1@ == explain_action::<R::V>(self, e),
    {
        let path = self.path;
        match self.phase {
            ExplainPhase::VariablePerms => match e {
                Event::Failed(err) => (
                    PermExplainer { path, phase: ExplainPhase::Finished },
                    Action::Finish(Err(err)),
                ),
                Event::Perms(None) => {
                    let msg = join3("Variable ", path.as_str(), " not found");
                    (PermExplainer { path, phase: ExplainPhase::Finished }, Action::Finish(Err(ApiError::NotFound(msg))))
                },
                Event::Perms(Some(p)) => {
                    if starts_with(path.as_str(), "f/") {
                        match second_part(path.as_str()) {
                            Some(folder) => (
                                PermExplainer { path, phase: ExplainPhase::FolderPerms(p) },
                                Action::LoadFolderPerms(folder),
                            ),
                            None => {
                                let msg = join3("path ", path.as_str(), " should have at least 2 components separated by /");
                                (PermExplainer { path, phase: ExplainPhase::Finished }, Action::Finish(Err(ApiError::BadRequest(msg))))
                            },
                        }
                    } else {
                        let text = pretty_text(&p);
                        let msg = join3("Variable exists but you don't have access to it:\nvariable perms: ", text.as_str(), "");
                        proof { reveal_strlit(""); }
                        assert(msg@ =~= denied_text(pretty_json(p@)));
                        (PermExplainer { path, phase: ExplainPhase::Finished }, Action::Finish(Err(ApiError::NotAuthorized(msg))))
                    }
                },
                _ => (PermExplainer { path, phase: ExplainPhase::Finished }, unexpected()),
            },
            ExplainPhase::FolderPerms(p) => match e {
                Event::Failed(err) => (
                    PermExplainer { path, phase: ExplainPhase::Finished },
                    Action::Finish(Err(err)),
                ),
                Event::FolderPerms(f) => {
                    let ghost fv = folder_perms_v(f);
                    let folder = match f {
                        Some(j) => j,
                        None => Json::Null,
                    };
                    assert(folder@ == fv);
                    let var_text = pretty_text(&p);
                    let folder_text = pretty_text(&folder);
                    let msg = join5(
                        "Variable exists but you don't have access to it:\nvariable perms: ",
                        var_text.as_str(),
                        "\nfolder perms: ",
                        folder_text.as_str(),
                        "",
                    );
                    proof { reveal_strlit(""); }
                    assert(msg@ =~= denied_text(pretty_json(p@)) + "\nfolder perms: "@ + pretty_json(fv));
                    (PermExplainer { path, phase: ExplainPhase::Finished }, Action::Finish(Err(ApiError::NotAuthorized(msg))))
                },
                _ => (PermExplainer { path, phase: ExplainPhase::Finished }, unexpected()),
            },
            ExplainPhase::Finished => (PermExplainer { path, phase: ExplainPhase::Finished }, unexpected()),
        }
    }
}


/// Whether a secret's OAuth token has expired and can be refreshed through
/// its account.
pub open spec fn token_expired(is_expired: Option<bool>, account: Option<i32>) -> bool {
    is_expired.unwrap_or(false) && account is Some
}

pub open spec fn decrypt_audit_v<R>(path: Seq<char>) -> ActionV<R> {
    ActionV::Audit { operation: "variables.decrypt_secret"@, kind: AuditKind::Execute, path }
}

fn decrypt_audit<R: View>(path: String) -> (a: Action<R>)
    ensures
        a@ == decrypt_audit_v::<R::V>(path@),
{
    Action::Audit { operation: String::from_str("variables.decrypt_secret"), kind: AuditKind::Execute, path }
}

pub open spec fn oauth2_missing_v<R>() -> ActionV<R> {
    ActionV::Finish(Err(ApiErrorV::Internal("Require oauth2 feature"@)))
}

fn oauth2_missing<R: View>() -> (a: Action<R>)
    ensures
        a@ == oauth2_missing_v::<R::V>(),
{
    Action::Finish(Err(ApiError::Internal(String::from_str("Require oauth2 feature"))))
}

/// Where reading a variable's value stands.
pub enum ValuePhase {
    /// Waiting for the scope check.
    Scopes,
    /// Waiting for the transaction.
    Tx,
    /// Waiting for the row.
    Row,
    /// Waiting for the audit record of a secret's read.
    Audited(StoredRow),
    /// Waiting for the refreshed token.
    Token,
    /// Waiting for the commit, before decrypting this text.
    Committed(String),
    /// Waiting for the key, before decrypting this text.
    Keyed(String),
    /// Waiting for the plain text.
    Decrypted,
    /// Explaining why the row was not returned.
    Explaining(PermExplainer),
    Finished,
}

/// Reads the value of a variable: as it is stored for a plain variable, and
/// for a secret (after an audit record) the refreshed token where its token
/// expired, the decrypted text where it has one, and the empty text else.
pub struct ValueReader {
    pub path: String,
    pub oauth2: bool,
    pub phase: ValuePhase,
}

pub open spec fn value_phase_next(m: ValueReader, e: Event) -> ValuePhase {
    match (m.phase, e) {
        (ValuePhase::Scopes, Event::Done) => ValuePhase::Tx,
        (ValuePhase::Tx, Event::Done) => ValuePhase::Row,
        (ValuePhase::Row, Event::Stored(None)) => ValuePhase::Explaining(
            PermExplainer { path: m.path, phase: ExplainPhase::VariablePerms },
        ),
        (ValuePhase::Row, Event::Stored(Some(row))) => {
            if row.is_secret { ValuePhase::Audited(row) } else { ValuePhase::Finished }
        },
        (ValuePhase::Audited(row), Event::Done) => {
            if token_expired(row.is_expired, row.account) {
                if m.oauth2 { ValuePhase::Token } else { ValuePhase::Finished }
            } else if row.value@.len() != 0 {
                ValuePhase::Committed(row.value)
            } else {
                ValuePhase::Finished
            }
        },
        (ValuePhase::Committed(c), Event::Done) => ValuePhase::Keyed(c),
        (ValuePhase::Keyed(c), Event::Done) => ValuePhase::Decrypted,
        (ValuePhase::Explaining(x), _) => ValuePhase::Explaining(explain_next(x, e)),
        _ => ValuePhase::Finished,
    }
}

pub open spec fn value_action(m: ValueReader, e: Event) -> ActionV<Seq<char>> {
    match m.phase {
        ValuePhase::Explaining(x) => explain_action(x, e),
        ValuePhase::Finished => unexpected_v(),
        _ => match e {
            Event::Failed(err) => ActionV::Finish(Err(err@)),
            _ => match (m.phase, e) {
                (ValuePhase::Scopes, Event::Done) => ActionV::BeginTx,
                (ValuePhase::Tx, Event::Done) => ActionV::LoadValue(m.path@),
                (ValuePhase::Row, Event::Stored(None)) => ActionV::LoadVariablePerms(m.path@),
                (ValuePhase::Row, Event::Stored(Some(row))) => {
                    if row.is_secret { decrypt_audit_v(row.path@) } else { ActionV::Finish(Ok(row.value@)) }
                },
                (ValuePhase::Audited(row), Event::Done) => {
                    if token_expired(row.is_expired, row.account) {
                        if m.oauth2 {
                            ActionV::RefreshToken { path: row.path@, account: row.account->0 }
                        } else {
                            oauth2_missing_v()
                        }
                    } else if row.value@.len() != 0 {
                        ActionV::Commit
                    } else {
                        ActionV::Finish(Ok(Seq::empty()))
                    }
                },
                (ValuePhase::Token, Event::Text(t)) => ActionV::Finish(Ok(t@)),
                (ValuePhase::Committed(c), Event::Done) => ActionV::BuildCrypt,
                (ValuePhase::Keyed(c), Event::Done) => ActionV::Decrypt(c@),
                (ValuePhase::Decrypted, Event::Text(t)) => ActionV::Finish(Ok(t@)),
                _ => unexpected_v(),
            },
        },
    }
}

/// Starts the value endpoint for `path`: the caller's token must grant the
/// read scope of the path.
pub fn get_value(path: String, oauth2: bool) -> (r: (ValueReader, Action<String>))
    ensures
        r.0 == (ValueReader { path, oauth2, phase: ValuePhase::Scopes }),
        r.1@ == ActionV::<Seq<char>>::CheckScopes(read_scope_of(path@)),
{
    let scope = read_scope(path.as_str());
    (ValueReader { path, oauth2, phase: ValuePhase::Scopes }, Action::CheckScopes(scope))
}

/// Starts reading the value of the variable at `path` in a transaction the
/// caller already holds.
pub fn get_value_internal(path: String, oauth2: bool) -> (r: (ValueReader, Action<String>))
    ensures
        r.0 == (ValueReader { path, oauth2, phase: ValuePhase::Row }),
        r.1@ == ActionV::<Seq<char>>::LoadValue(path@),
{
    let a = Action::LoadValue(path.clone());
    (ValueReader { path, oauth2, phase: ValuePhase::Row }, a)
}

impl ValueReader {
    pub fn step(self, e: Event) -> (r: (ValueReader, Action<String>))
        ensures
            r.0 == (ValueReader { path: self.path, oauth2: self.oauth2, phase: value_phase_next(self, e) }),
            r.1@ == value_action(self, e),
    {
        let ValueReader { path, oauth2, phase } = self;
        match phase {
            ValuePhase::Explaining(x) => {
                let (x2, a) = x.step(e);
                return (ValueReader { path, oauth2, phase: ValuePhase::Explaining(x2) }, a);
            },
            ValuePhase::Finished => {
                return (ValueReader { path, oauth2, phase: ValuePhase::Finished }, unexpected());
            },
            _ => {},
        }
        if let Event::Failed(err) = e {
            return (ValueReader { path, oauth2, phase: ValuePhase::Finished }, Action::Finish(Err(err)));
        }
        match (phase, e) {
            (ValuePhase::Scopes, Event::Done) => (ValueReader { path, oauth2, phase: ValuePhase::Tx }, Action::BeginTx),
            (ValuePhase::Tx, Event::Done) => {
                let a = Action::LoadValue(path.clone());
                (ValueReader { path, oauth2, phase: ValuePhase::Row }, a)
            },
            (ValuePhase::Row, Event::Stored(None)) => {
                let (x, a) = PermExplainer::start(path.clone());
                (ValueReader { path, oauth2, phase: ValuePhase::Explaining(x) }, a)
            },
            (ValuePhase::Row, Event::Stored(Some(row))) => {
                if row.is_secret {
                    let a = decrypt_audit(row.path.clone());
                    (ValueReader { path, oauth2, phase: ValuePhase::Audited(row) }, a)
                } else {
                    (ValueReader { path, oauth2, phase: ValuePhase::Finished }, Action::Finish(Ok(row.value)))
                }
            },
            (ValuePhase::Audited(row), Event::Done) => {
                let expired = match row.is_expired { Some(b) => b, None => false };
                if expired && row.account.is_some() {
                    if oauth2 {
                        let a = Action::RefreshToken { path: row.path, account: row.account.unwrap() };
                        (ValueReader { path, oauth2, phase: ValuePhase::Token }, a)
                    } else {
                        (ValueReader { path, oauth2, phase: ValuePhase::Finished }, oauth2_missing())
                    }
                } else if !row.value.as_str().is_empty() {
                    (ValueReader { path, oauth2, phase: ValuePhase::Committed(row.value) }, Action::Commit)
                } else {
                    (ValueReader { path, oauth2, phase: ValuePhase::Finished }, Action::Finish(Ok(String::new())))
                }
            },
            (ValuePhase::Token, Event::Text(t)) => (ValueReader { path, oauth2, phase: ValuePhase::Finished }, Action::Finish(Ok(t))),
            (ValuePhase::Committed(c), Event::Done) => (ValueReader { path, oauth2, phase: ValuePhase::Keyed(c) }, Action::BuildCrypt),
            (ValuePhase::Keyed(c), Event::Done) => {
                let a = Action::Decrypt(c.clone());
                (ValueReader { path, oauth2, phase: ValuePhase::Decrypted }, a)
            },
            (ValuePhase::Decrypted, Event::Text(t)) => (ValueReader { path, oauth2, phase: ValuePhase::Finished }, Action::Finish(Ok(t))),
            _ => (ValueReader { path, oauth2, phase: ValuePhase::Finished }, unexpected()),
        }
    }
}


/// How the detail endpoint answers with the row it loaded.
#[derive(Debug, PartialEq)]
pub enum VariableReply {
    /// The row as it was loaded.
    Unchanged,
    /// The row with its value replaced by this one.
    Value(Option<String>),
}

pub enum VariableReplyV {
    Unchanged,
    Value(Option<Seq<char>>),
}

impl View for VariableReply {
    type V = VariableReplyV;

    open spec fn view(&self) -> VariableReplyV {
        match self {
            VariableReply::Unchanged => VariableReplyV::Unchanged,
            VariableReply::Value(v) => VariableReplyV::Value(opt_text(*v)),
        }
    }
}

/// Where reading a variable's details stands.
pub enum VariablePhase {
    Scopes,
    Tx,
    Row,
    /// Waiting for the audit record of a secret's decryption.
    Audited(ListedRow),
    Token,
    /// Waiting for the commit, before decrypting this text.
    Committed(String),
    Keyed(String),
    Decrypted,
    Explaining(PermExplainer),
    Finished,
}

/// Reads a variable's details. A plain variable comes back as loaded. For a
/// secret: its refreshed token where the token expired; else, where the
/// caller asks to decrypt (the default) and it holds a text, the decrypted
/// text; else the stored text where the caller asks to include it; else no
/// value. Decrypting is audited.
pub struct VariableReader {
    pub path: String,
    pub oauth2: bool,
    pub decrypt_secret: Option<bool>,
    pub include_encrypted: Option<bool>,
    pub phase: VariablePhase,
}

impl VariableReader {
    pub open spec fn decrypts(self) -> bool {
        self.decrypt_secret.unwrap_or(true)
    }
}

pub open spec fn stored_text(row: ListedRow) -> Seq<char> {
    match row.value {
        Some(v) => v@,
        None => Seq::empty(),
    }
}

/// What the detail endpoint does with a secret once it may go on.
pub open spec fn secret_phase(m: VariableReader, row: ListedRow) -> VariablePhase {
    if token_expired(row.is_expired, row.account) {
        if m.oauth2 { VariablePhase::Token } else { VariablePhase::Finished }
    } else if stored_text(row).len() != 0 && m.decrypts() {
        VariablePhase::Committed(row.value->0)
    } else {
        VariablePhase::Finished
    }
}

pub open spec fn secret_action(m: VariableReader, row: ListedRow) -> ActionV<VariableReplyV> {
    if token_expired(row.is_expired, row.account) {
        if m.oauth2 {
            ActionV::RefreshToken { path: row.path@, account: row.account->0 }
        } else {
            oauth2_missing_v()
        }
    } else if stored_text(row).len() != 0 && m.decrypts() {
        ActionV::CommitIgnoringError
    } else if m.include_encrypted.unwrap_or(false) {
        ActionV::Finish(Ok(VariableReplyV::Value(Some(stored_text(row)))))
    } else {
        ActionV::Finish(Ok(VariableReplyV::Value(None)))
    }
}

pub open spec fn variable_phase_next(m: VariableReader, e: Event) -> VariablePhase {
    match (m.phase, e) {
        (VariablePhase::Scopes, Event::Done) => VariablePhase::Tx,
        (VariablePhase::Tx, Event::Done) => VariablePhase::Row,
        (VariablePhase::Row, Event::Listed(None)) => VariablePhase::Explaining(
            PermExplainer { path: m.path, phase: ExplainPhase::VariablePerms },
        ),
        (VariablePhase::Row, Event::Listed(Some(row))) => {
            if !row.is_secret {
                VariablePhase::Finished
            } else if m.decrypts() {
                VariablePhase::Audited(row)
            } else {
                secret_phase(m, row)
            }
        },
        (VariablePhase::Audited(row), Event::Done) => secret_phase(m, row),
        (VariablePhase::Committed(c), Event::Done) => VariablePhase::Keyed(c),
        (VariablePhase::Committed(c), Event::Failed(_)) => VariablePhase::Keyed(c),
        (VariablePhase::Keyed(c), Event::Done) => VariablePhase::Decrypted,
        (VariablePhase::Explaining(x), _) => VariablePhase::Explaining(explain_next(x, e)),
        _ => VariablePhase::Finished,
    }
}

pub open spec fn variable_action(m: VariableReader, e: Event) -> ActionV<VariableReplyV> {
    match m.phase {
        VariablePhase::Explaining(x) => explain_action(x, e),
        VariablePhase::Finished => unexpected_v(),
        VariablePhase::Committed(c) => match e {
            Event::Done => ActionV::BuildCrypt,
            Event::Failed(_) => ActionV::BuildCrypt,
            _ => unexpected_v(),
        },
        _ => match e {
            Event::Failed(err) => ActionV::Finish(Err(err@)),
            _ => match (m.phase, e) {
                (VariablePhase::Scopes, Event::Done) => ActionV::BeginTx,
                (VariablePhase::Tx, Event::Done) => ActionV::LoadListable(m.path@),
                (VariablePhase::Row, Event::Listed(None)) => ActionV::LoadVariablePerms(m.path@),
                (VariablePhase::Row, Event::Listed(Some(row))) => {
                    if !row.is_secret {
                        ActionV::Finish(Ok(VariableReplyV::Unchanged))
                    } else if m.decrypts() {
                        decrypt_audit_v(row.path@)
                    } else {
                        secret_action(m, row)
                    }
                },
                (VariablePhase::Audited(row), Event::Done) => secret_action(m, row),
                (VariablePhase::Token, Event::Text(t)) => ActionV::Finish(Ok(VariableReplyV::Value(Some(t@)))),
                (VariablePhase::Keyed(c), Event::Done) => ActionV::Decrypt(c@),
                (VariablePhase::Decrypted, Event::Text(t)) => ActionV::Finish(Ok(VariableReplyV::Value(Some(t@)))),
                _ => unexpected_v(),
            },
        },
    }
}

/// Starts the detail endpoint for `path`: the caller's token must grant the
/// read scope of the path.
pub fn get_variable(
    path: String,
    oauth2: bool,
    decrypt_secret: Option<bool>,
    include_encrypted: Option<bool>,
) -> (r: (VariableReader, Action<VariableReply>))
    ensures
        r.0 == (VariableReader { path, oauth2, decrypt_secret, include_encrypted, phase: VariablePhase::Scopes }),
        r.1@ == ActionV::<VariableReplyV>::CheckScopes(read_scope_of(path@)),
{
    let scope = read_scope(path.as_str());
    (VariableReader { path, oauth2, decrypt_secret, include_encrypted, phase: VariablePhase::Scopes }, Action::CheckScopes(scope))
}

impl VariableReader {
    fn with_phase(self, phase: VariablePhase) -> (r: VariableReader)
        ensures
            r == (VariableReader { phase, ..self }),
    {
        VariableReader { phase, ..self }
    }

    fn on_secret(self, row: ListedRow) -> (r: (VariableReader, Action<VariableReply>))
        ensures
            r.0 == (VariableReader { phase: secret_phase(self, row), ..self }),
            r.1@ == secret_action(self, row),
    {
        let expired = match row.is_expired { Some(b) => b, None => false };
        let decrypt = match self.decrypt_secret { Some(b) => b, None => true };
        if expired && row.account.is_some() {
            if self.oauth2 {
                let a = Action::RefreshToken { path: row.path, account: row.account.unwrap() };
                (self.with_phase(VariablePhase::Token), a)
            } else {
                (self.with_phase(VariablePhase::Finished), oauth2_missing())
            }
        } else {
            let value = match row.value { Some(v) => v, None => String::new() };
            if !value.as_str().is_empty() && decrypt {
                (self.with_phase(VariablePhase::Committed(value)), Action::CommitIgnoringError)
            } else {
                let wants_stored = match self.include_encrypted { Some(b) => b, None => false };
                if wants_stored {
                    (self.with_phase(VariablePhase::Finished), Action::Finish(Ok(VariableReply::Value(Some(value)))))
                } else {
                    (self.with_phase(VariablePhase::Finished), Action::Finish(Ok(VariableReply::Value(None))))
                }
            }
        }
    }

    pub fn step(self, e: Event) -> (r: (VariableReader, Action<VariableReply>))
        ensures
            r.0 == (VariableReader { phase: variable_phase_next(self, e), ..self }),
            r.1@ == variable_action(self, e),
    {
        let VariableReader { path, oauth2, decrypt_secret, include_encrypted, phase } = self;
        let m = VariableReader { path, oauth2, decrypt_secret, include_encrypted, phase: VariablePhase::Finished };
        match phase {
            VariablePhase::Explaining(x) => {
                let (x2, a) = x.step(e);
                return (m.with_phase(VariablePhase::Explaining(x2)), a);
            },
            VariablePhase::Finished => {
                return (m, unexpected());
            },
            VariablePhase::Committed(c) => {
                return match e {
                    Event::Done => (m.with_phase(VariablePhase::Keyed(c)), Action::BuildCrypt),
                    Event::Failed(_) => (m.with_phase(VariablePhase::Keyed(c)), Action::BuildCrypt),
                    _ => (m, unexpected()),
                };
            },
            _ => {},
        }
        if let Event::Failed(err) = e {
            return (m, Action::Finish(Err(err)));
        }
        match (phase, e) {
            (VariablePhase::Scopes, Event::Done) => (m.with_phase(VariablePhase::Tx), Action::BeginTx),
            (VariablePhase::Tx, Event::Done) => {
                let a = Action::LoadListable(m.path.clone());
                (m.with_phase(VariablePhase::Row), a)
            },
            (VariablePhase::Row, Event::Listed(None)) => {
                let (x, a) = PermExplainer::start(m.path.clone());
                (m.with_phase(VariablePhase::Explaining(x)), a)
            },
            (VariablePhase::Row, Event::Listed(Some(row))) => {
                let decrypt = match m.decrypt_secret { Some(b) => b, None => true };
                if !row.is_secret {
                    (m, Action::Finish(Ok(VariableReply::Unchanged)))
                } else if decrypt {
                    let a = decrypt_audit(row.path.clone());
                    (m.with_phase(VariablePhase::Audited(row)), a)
                } else {
                    m.on_secret(row)
                }
            },
            (VariablePhase::Audited(row), Event::Done) => m.on_secret(row),
            (VariablePhase::Token, Event::Text(t)) => (m, Action::Finish(Ok(VariableReply::Value(Some(t))))),
            (VariablePhase::Keyed(c), Event::Done) => {
                let a = Action::Decrypt(c.clone());
                (m.with_phase(VariablePhase::Decrypted), a)
            },
            (VariablePhase::Decrypted, Event::Text(t)) => (m, Action::Finish(Ok(VariableReply::Value(Some(t))))),
            _ => (m, unexpected()),
        }
    }
}


/// Where resolving a value that may refer to a variable stands.
pub enum ResolvePhase {
    Row,
    Keyed(String),
    Decrypted,
    Finished,
}

/// Resolves a value: a `$var:` reference becomes the (decrypted) value of
/// the variable it names; any other value is its own answer.
pub struct Resolver {
    /// The path the reference names.
    pub path: String,
    pub phase: ResolvePhase,
}

pub open spec fn unresolved_text(path: Seq<char>) -> Seq<char> {
    "Variable not found when resolving `$var:"@ + path + "`"@
}

pub open spec fn resolve_phase_next(m: Resolver, e: Event) -> ResolvePhase {
    match (m.phase, e) {
        (ResolvePhase::Row, Event::Stored(Some(row))) => {
            if row.is_secret { ResolvePhase::Keyed(row.value) } else { ResolvePhase::Finished }
        },
        (ResolvePhase::Keyed(c), Event::Done) => ResolvePhase::Decrypted,
        _ => ResolvePhase::Finished,
    }
}

pub open spec fn resolve_action(m: Resolver, e: Event) -> ActionV<Seq<char>> {
    match m.phase {
        ResolvePhase::Finished => unexpected_v(),
        _ => match e {
            Event::Failed(err) => ActionV::Finish(Err(err@)),
            _ => match (m.phase, e) {
                (ResolvePhase::Row, Event::Stored(None)) => ActionV::Finish(
                    Err(ApiErrorV::NotFound(unresolved_text(m.path@))),
                ),
                (ResolvePhase::Row, Event::Stored(Some(row))) => {
                    if row.is_secret { ActionV::BuildCrypt } else { ActionV::Finish(Ok(row.value@)) }
                },
                (ResolvePhase::Keyed(c), Event::Done) => ActionV::Decrypt(c@),
                (ResolvePhase::Decrypted, Event::Text(t)) => ActionV::Finish(Ok(t@)),
                _ => unexpected_v(),
            },
        },
    }
}

/// Starts resolving `path`: a value that is no `$var:` reference is
/// answered at once, unchanged; a reference loads the variable it names.
pub fn get_variable_or_self(path: String) -> (r: (Resolver, Action<String>))
    ensures
        !"$var:"@.is_prefix_of(path@) ==> r.0.phase is Finished && r.1@ == ActionV::<Seq<char>>::Finish(Ok(path@)),
        "$var:"@.is_prefix_of(path@) ==> r.0.phase is Row && reference_to(r.0.path@) == path@
            && r.1@ == ActionV::<Seq<char>>::LoadStored(r.0.path@),
{
    match referenced_path(path.as_str()) {
        None => (Resolver { path: String::new(), phase: ResolvePhase::Finished }, Action::Finish(Ok(path))),
        Some(p) => {
            let a = Action::LoadStored(p.clone());
            (Resolver { path: p, phase: ResolvePhase::Row }, a)
        },
    }
}

impl Resolver {
    pub fn step(self, e: Event) -> (r: (Resolver, Action<String>))
        ensures
            r.0 == (Resolver { path: self.path, phase: resolve_phase_next(self, e) }),
            r.1@ == resolve_action(self, e),
    {
        let Resolver { path, phase } = self;
        if let ResolvePhase::Finished = phase {
            return (Resolver { path, phase: ResolvePhase::Finished }, unexpected());
        }
        if let Event::Failed(err) = e {
            return (Resolver { path, phase: ResolvePhase::Finished }, Action::Finish(Err(err)));
        }
        match (phase, e) {
            (ResolvePhase::Row, Event::Stored(None)) => {
                let msg = join3("Variable not found when resolving `$var:", path.as_str(), "`");
                (Resolver { path, phase: ResolvePhase::Finished }, Action::Finish(Err(ApiError::NotFound(msg))))
            },
            (ResolvePhase::Row, Event::Stored(Some(row))) => {
                if row.is_secret {
                    (Resolver { path, phase: ResolvePhase::Keyed(row.value) }, Action::BuildCrypt)
                } else {
                    (Resolver { path, phase: ResolvePhase::Finished }, Action::Finish(Ok(row.value)))
                }
            },
            (ResolvePhase::Keyed(c), Event::Done) => {
                let a = Action::Decrypt(c.clone());
                (Resolver { path, phase: ResolvePhase::Decrypted }, a)
            },
            (ResolvePhase::Decrypted, Event::Text(t)) => (Resolver { path, phase: ResolvePhase::Finished }, Action::Finish(Ok(t))),
            _ => (Resolver { path, phase: ResolvePhase::Finished }, unexpected()),
        }
    }
}

} // verus!
