use vstd::prelude::*;
use crate::protocol::{Action, ActionV, ApiError, ApiErrorV, AuditKind, Event, Notice, NoticeV};
use crate::naming::{write_scope, write_scope_of};
use crate::read::{unexpected, unexpected_v};
use crate::text::join3;

verus! {

/// The most variables a workspace may hold on the cloud-hosted service.
pub const CLOUD_VARIABLE_LIMIT: i64 = 10000;

/// Whether an existence query found the variable (a missing answer counts
/// as no).
pub open spec fn taken(answer: Option<bool>) -> bool {
    answer.unwrap_or(false)
}

pub open spec fn conflict_text(path: Seq<char>) -> Seq<char> {
    "Variable "@ + path + " already exists"@
}

pub open spec fn conflict_v<R>(path: Seq<char>) -> ActionV<R> {
    ActionV::Finish(Err(ApiErrorV::BadRequest(conflict_text(path))))
}

/// Refuses `path` where the existence query found a variable there.
pub fn check_path_conflict(path: &str, exists: Option<bool>) -> (r: Result<(), ApiError>)
    ensures
        r is Ok <==> !taken(exists),
        r matches Err(e) ==> e@ == ApiErrorV::BadRequest(conflict_text(path@)),
{
    let is_taken = match exists { Some(b) => b, None => false };
    if is_taken {
        Err(ApiError::BadRequest(join3("Variable ", path, " already exists")))
    } else {
        Ok(())
    }
}

/// The answer when a variable already holds `path`.
pub fn conflict<R: View>(path: &str) -> (a: Action<R>)
    ensures
        a@ == conflict_v::<R::V>(path@),
{
    match check_path_conflict(path, Some(true)) {
        Err(e) => Action::Finish(Err(e)),
        Ok(()) => unexpected(),
    }
}

/// Whether a value is stored encrypted: a secret, unless the caller says
/// it comes encrypted already.
pub open spec fn encrypts(is_secret: bool, already_encrypted: Option<bool>) -> bool {
    is_secret && !already_encrypted.unwrap_or(false)
}

/// Where the existence check stands.
pub enum ProbePhase {
    Asked,
    Finished,
}

/// Answers whether a variable exists at a path.
pub struct ExistsProbe {
    pub phase: ProbePhase,
}

/// The answer of the existence check to a reply.
pub open spec fn exists_action(m: ExistsProbe, e: Event) -> ActionV<bool> {
    match (m.phase, e) {
        (ProbePhase::Asked, Event::Flag(f)) => ActionV::Finish(Ok(taken(f))),
        (ProbePhase::Asked, Event::Failed(err)) => ActionV::Finish(Err(err@)),
        _ => unexpected_v(),
    }
}

/// Starts the existence check for `path`.
pub fn exists_variable(path: String) -> (r: (ExistsProbe, Action<bool>))
    ensures
        r.0.phase is Asked,
        r.1@ == ActionV::<bool>::PathTaken(path@),
{
    (ExistsProbe { phase: ProbePhase::Asked }, Action::PathTaken(path))
}

impl ExistsProbe {
    pub fn step(self, e: Event) -> (r: (ExistsProbe, Action<bool>))
        ensures
            r.0.phase is Finished,
            r.1@ == exists_action(self, e),
    {
        let done = ExistsProbe { phase: ProbePhase::Finished };
        match (self.phase, e) {
            (ProbePhase::Asked, Event::Flag(f)) => {
                let t = match f { Some(b) => b, None => false };
                (done, Action::Finish(Ok(t)))
            },
            (ProbePhase::Asked, Event::Failed(err)) => (done, Action::Finish(Err(err))),
            _ => (done, unexpected()),
        }
    }
}

/// Where encrypting a value for the caller stands.
pub enum SealPhase {
    Keyed,
    Sealed,
    Finished,
}

/// Encrypts a value with the workspace's key.
pub struct ValueSealer {
    pub value: String,
    pub phase: SealPhase,
}

/// Starts encrypting `value`: first the workspace's key.
pub fn encrypt_value(value: String) -> (r: (ValueSealer, Action<String>))
    ensures
        r.0 == (ValueSealer { value, phase: SealPhase::Keyed }),
        r.1@ == ActionV::<Seq<char>>::BuildCrypt,
{
    (ValueSealer { value, phase: SealPhase::Keyed }, Action::BuildCrypt)
}

impl ValueSealer {
    pub fn step(self, e: Event) -> (r: (ValueSealer, Action<String>))
        ensures
            r.0 == (ValueSealer {
                value: self.value,
                phase: if self.phase is Keyed && e is Done { SealPhase::Sealed } else { SealPhase::Finished },
            }),
            r.1@ == (match (self.phase, e) {
                (SealPhase::Keyed, Event::Done) => ActionV::Encrypt(self.value@),
                (SealPhase::Sealed, Event::Text(c)) => ActionV::Finish(Ok(c@)),
                (SealPhase::Finished, _) => unexpected_v(),
                (_, Event::Failed(err)) => ActionV::Finish(Err(err@)),
                _ => unexpected_v(),
            }),
    {
        let ValueSealer { value, phase } = self;
        match (phase, e) {
            (SealPhase::Keyed, Event::Done) => {
                let a = Action::Encrypt(value.clone());
                (ValueSealer { value, phase: SealPhase::Sealed }, a)
            },
            (SealPhase::Sealed, Event::Text(c)) => (ValueSealer { value, phase: SealPhase::Finished }, Action::Finish(Ok(c))),
            (SealPhase::Finished, _) => (ValueSealer { value, phase: SealPhase::Finished }, unexpected()),
            (_, Event::Failed(err)) => (ValueSealer { value, phase: SealPhase::Finished }, Action::Finish(Err(err))),
            _ => (ValueSealer { value, phase: SealPhase::Finished }, unexpected()),
        }
    }
}


pub open spec fn limit_text() -> Seq<char> {
    "You have reached the maximum number of variables (10000) on cloud. Contact support@windmill.dev to increase the limit"@
}

/// What a new variable is made of, as the caller sent it.
#[derive(Debug, PartialEq)]
pub struct NewVariable {
    pub path: String,
    pub value: String,
    pub is_secret: bool,
    pub description: String,
    pub account: Option<i32>,
    pub is_oauth: Option<bool>,
    /// When the variable expires, in microseconds since the Unix epoch.
    pub expires_at: Option<i64>,
}

/// The row a create inserts for `var` with `value` as its stored text.
pub open spec fn inserted_row<R>(var: NewVariable, value: Seq<char>) -> ActionV<R> {
    ActionV::InsertVariable {
        path: var.path@,
        value,
        is_secret: var.is_secret,
        description: var.description@,
        account: var.account,
        is_oauth: var.is_oauth.unwrap_or(false),
        expires_at: var.expires_at,
    }
}

/// Where creating a variable stands.
pub enum CreatePhase {
    Scopes,
    Counted,
    Refreshed,
    Checked,
    Keyed,
    Sealed,
    /// Waiting for the transaction; the text to store is kept.
    Tx(String),
    Inserted,
    Audited,
    Committed,
    Deployed,
    Notified,
    Finished,
}

/// Creates a variable: within the cloud limit, at a free path, its value
/// encrypted where it is a secret the caller did not encrypt already; then
/// audited, recorded for git sync and announced on the webhook.
pub struct VariableCreate {
    pub var: NewVariable,
    pub already_encrypted: Option<bool>,
    pub cloud_hosted: bool,
    pub phase: CreatePhase,
}

pub open spec fn created_deploy_text(path: Seq<char>) -> Seq<char> {
    "Variable '"@ + path + "' created"@
}

pub open spec fn created_text(path: Seq<char>) -> Seq<char> {
    "variable "@ + path + " created"@
}

pub open spec fn create_phase_next(m: VariableCreate, e: Event) -> CreatePhase {
    match (m.phase, e) {
        (CreatePhase::Scopes, Event::Done) => if m.cloud_hosted { CreatePhase::Counted } else { CreatePhase::Refreshed },
        (CreatePhase::Counted, Event::Count(n)) => {
            if n.unwrap_or(0) >= CLOUD_VARIABLE_LIMIT { CreatePhase::Finished } else { CreatePhase::Refreshed }
        },
        (CreatePhase::Refreshed, Event::Done) => CreatePhase::Checked,
        (CreatePhase::Checked, Event::Flag(f)) => {
            if taken(f) {
                CreatePhase::Finished
            } else if encrypts(m.var.is_secret, m.already_encrypted) {
                CreatePhase::Keyed
            } else {
                CreatePhase::Tx(m.var.value)
            }
        },
        (CreatePhase::Keyed, Event::Done) => CreatePhase::Sealed,
        (CreatePhase::Sealed, Event::Text(c)) => CreatePhase::Tx(c),
        (CreatePhase::Tx(v), Event::Done) => CreatePhase::Inserted,
        (CreatePhase::Inserted, Event::Done) => CreatePhase::Audited,
        (CreatePhase::Audited, Event::Done) => CreatePhase::Committed,
        (CreatePhase::Committed, Event::Done) => CreatePhase::Deployed,
        (CreatePhase::Deployed, Event::Done) => CreatePhase::Notified,
        _ => CreatePhase::Finished,
    }
}

pub open spec fn create_action(m: VariableCreate, e: Event) -> ActionV<Seq<char>> {
    let path = m.var.path@;
    match m.phase {
        CreatePhase::Finished => unexpected_v(),
        _ => match e {
            Event::Failed(err) => ActionV::Finish(Err(err@)),
            _ => match (m.phase, e) {
                (CreatePhase::Scopes, Event::Done) => {
                    if m.cloud_hosted { ActionV::CountVariables } else { ActionV::RefreshFolders(path) }
                },
                (CreatePhase::Counted, Event::Count(n)) => {
                    if n.unwrap_or(0) >= CLOUD_VARIABLE_LIMIT {
                        ActionV::Finish(Err(ApiErrorV::BadRequest(limit_text())))
                    } else {
                        ActionV::RefreshFolders(path)
                    }
                },
                (CreatePhase::Refreshed, Event::Done) => ActionV::PathTaken(path),
                (CreatePhase::Checked, Event::Flag(f)) => {
                    if taken(f) {
                        conflict_v(path)
                    } else if encrypts(m.var.is_secret, m.already_encrypted) {
                        ActionV::BuildCrypt
                    } else {
                        ActionV::BeginTx
                    }
                },
                (CreatePhase::Keyed, Event::Done) => ActionV::Encrypt(m.var.value@),
                (CreatePhase::Sealed, Event::Text(c)) => ActionV::BeginTx,
                (CreatePhase::Tx(v), Event::Done) => inserted_row(m.var, v@),
                (CreatePhase::Inserted, Event::Done) => ActionV::Audit {
                    operation: "variables.create"@,
                    kind: AuditKind::Create,
                    path,
                },
                (CreatePhase::Audited, Event::Done) => ActionV::Commit,
                (CreatePhase::Committed, Event::Done) => ActionV::RecordDeployment {
                    path,
                    parent_path: None,
                    message: Some(created_deploy_text(path)),
                },
                (CreatePhase::Deployed, Event::Done) => ActionV::Notify(NoticeV::Created { path }),
                (CreatePhase::Notified, Event::Done) => ActionV::Finish(Ok(created_text(path))),
                _ => unexpected_v(),
            },
        },
    }
}

/// Starts creating `var`: the caller's token must grant the write scope of
/// its path.
pub fn create_variable(var: NewVariable, already_encrypted: Option<bool>, cloud_hosted: bool) -> (r: (
    VariableCreate,
    Action<String>,
))
    ensures
        r.0 == (VariableCreate { var, already_encrypted, cloud_hosted, phase: CreatePhase::Scopes }),
        r.1@ == ActionV::<Seq<char>>::CheckScopes(write_scope_of(var.path@)),
{
    let scope = write_scope(var.path.as_str());
    (VariableCreate { var, already_encrypted, cloud_hosted, phase: CreatePhase::Scopes }, Action::CheckScopes(scope))
}

impl VariableCreate {
    pub fn step(self, e: Event) -> (r: (VariableCreate, Action<String>))
        ensures
            r.0 == (VariableCreate { phase: create_phase_next(self, e), ..self }),
            r.1@ == create_action(self, e),
    {
        let VariableCreate { var, already_encrypted, cloud_hosted, phase } = self;
        if let CreatePhase::Finished = phase {
            return (VariableCreate { var, already_encrypted, cloud_hosted, phase: CreatePhase::Finished }, unexpected());
        }
        if let Event::Failed(err) = e {
            return (VariableCreate { var, already_encrypted, cloud_hosted, phase: CreatePhase::Finished }, Action::Finish(Err(err)));
        }
        let (next, a): (CreatePhase, Action<String>) = match (phase, e) {
            (CreatePhase::Scopes, Event::Done) => {
                if cloud_hosted {
                    (CreatePhase::Counted, Action::CountVariables)
                } else {
                    (CreatePhase::Refreshed, Action::RefreshFolders(var.path.clone()))
                }
            },
            (CreatePhase::Counted, Event::Count(n)) => {
                let count: i64 = match n { Some(c) => c, None => 0 };
                if count >= CLOUD_VARIABLE_LIMIT {
                    let msg = String::from_str(
                        "You have reached the maximum number of variables (10000) on cloud. Contact support@windmill.dev to increase the limit",
                    );
                    (CreatePhase::Finished, Action::Finish(Err(ApiError::BadRequest(msg))))
                } else {
                    (CreatePhase::Refreshed, Action::RefreshFolders(var.path.clone()))
                }
            },
            (CreatePhase::Refreshed, Event::Done) => (CreatePhase::Checked, Action::PathTaken(var.path.clone())),
            (CreatePhase::Checked, Event::Flag(f)) => {
                let is_taken = match f { Some(b) => b, None => false };
                let already = match already_encrypted { Some(b) => b, None => false };
                if is_taken {
                    (CreatePhase::Finished, conflict(var.path.as_str()))
                } else if var.is_secret && !already {
                    (CreatePhase::Keyed, Action::BuildCrypt)
                } else {
                    (CreatePhase::Tx(var.value.clone()), Action::BeginTx)
                }
            },
            (CreatePhase::Keyed, Event::Done) => (CreatePhase::Sealed, Action::Encrypt(var.value.clone())),
            (CreatePhase::Sealed, Event::Text(c)) => (CreatePhase::Tx(c), Action::BeginTx),
            (CreatePhase::Tx(v), Event::Done) => {
                let is_oauth = match var.is_oauth { Some(b) => b, None => false };
                (
                    CreatePhase::Inserted,
                    Action::InsertVariable {
                        path: var.path.clone(),
                        value: v,
                        is_secret: var.is_secret,
                        description: var.description.clone(),
                        account: var.account,
                        is_oauth,
                        expires_at: var.expires_at,
                    },
                )
            },
            (CreatePhase::Inserted, Event::Done) => (
                CreatePhase::Audited,
                Action::Audit {
                    operation: String::from_str("variables.create"),
                    kind: AuditKind::Create,
                    path: var.path.clone(),
                },
            ),
            (CreatePhase::Audited, Event::Done) => (CreatePhase::Committed, Action::Commit),
            (CreatePhase::Committed, Event::Done) => (
                CreatePhase::Deployed,
                Action::RecordDeployment {
                    path: var.path.clone(),
                    parent_path: None,
                    message: Some(join3("Variable '", var.path.as_str(), "' created")),
                },
            ),
            (CreatePhase::Deployed, Event::Done) => (
                CreatePhase::Notified,
                Action::Notify(Notice::Created { path: var.path.clone() }),
            ),
            (CreatePhase::Notified, Event::Done) => (
                CreatePhase::Finished,
                Action::Finish(Ok(join3("variable ", var.path.as_str(), " created"))),
            ),
            _ => (CreatePhase::Finished, unexpected()),
        };
        (VariableCreate { var, already_encrypted, cloud_hosted, phase: next }, a)
    }
}


/// Where deleting a variable stands.
pub enum DeletePhase {
    Scopes,
    Tx,
    VariableGone,
    ResourceGone,
    Audited,
    Committed,
    Deployed,
    Notified,
    Finished,
}

/// Deletes a variable and the resource at its path; then audits, records
/// the deletion for git sync and announces it on the webhook.
pub struct VariableDelete {
    pub path: String,
    pub phase: DeletePhase,
}

pub open spec fn deleted_deploy_text(path: Seq<char>) -> Seq<char> {
    "Variable '"@ + path + "' deleted"@
}

pub open spec fn deleted_text(path: Seq<char>) -> Seq<char> {
    "variable "@ + path + " deleted"@
}

pub open spec fn delete_phase_next(m: VariableDelete, e: Event) -> DeletePhase {
    match (m.phase, e) {
        (DeletePhase::Scopes, Event::Done) => DeletePhase::Tx,
        (DeletePhase::Tx, Event::Done) => DeletePhase::VariableGone,
        (DeletePhase::VariableGone, Event::Done) => DeletePhase::ResourceGone,
        (DeletePhase::ResourceGone, Event::Done) => DeletePhase::Audited,
        (DeletePhase::Audited, Event::Done) => DeletePhase::Committed,
        (DeletePhase::Committed, Event::Done) => DeletePhase::Deployed,
        (DeletePhase::Deployed, Event::Done) => DeletePhase::Notified,
        _ => DeletePhase::Finished,
    }
}

pub open spec fn delete_action(m: VariableDelete, e: Event) -> ActionV<Seq<char>> {
    let path = m.path@;
    match m.phase {
        DeletePhase::Finished => unexpected_v(),
        _ => match e {
            Event::Failed(err) => ActionV::Finish(Err(err@)),
            Event::Done => match m.phase {
                DeletePhase::Scopes => ActionV::BeginTx,
                DeletePhase::Tx => ActionV::DeleteVariable(path),
                DeletePhase::VariableGone => ActionV::DeleteResource(path),
                DeletePhase::ResourceGone => ActionV::Audit {
                    operation: "variables.delete"@,
                    kind: AuditKind::Delete,
                    path,
                },
                DeletePhase::Audited => ActionV::Commit,
                DeletePhase::Committed => ActionV::RecordDeployment {
                    path,
                    parent_path: Some(path),
                    message: Some(deleted_deploy_text(path)),
                },
                DeletePhase::Deployed => ActionV::Notify(NoticeV::Deleted { path }),
                _ => ActionV::Finish(Ok(deleted_text(path))),
            },
            _ => unexpected_v(),
        },
    }
}

/// Starts deleting the variable at `path`: the caller's token must grant
/// the write scope of the path.
pub fn delete_variable(path: String) -> (r: (VariableDelete, Action<String>))
    ensures
        r.0 == (VariableDelete { path, phase: DeletePhase::Scopes }),
        r.1@ == ActionV::<Seq<char>>::CheckScopes(write_scope_of(path@)),
{
    let scope = write_scope(path.as_str());
    (VariableDelete { path, phase: DeletePhase::Scopes }, Action::CheckScopes(scope))
}

impl VariableDelete {
    pub fn step(self, e: Event) -> (r: (VariableDelete, Action<String>))
        ensures
            r.0 == (VariableDelete { path: self.path, phase: delete_phase_next(self, e) }),
            r.1@ == delete_action(self, e),
    {
        let VariableDelete { path, phase } = self;
        if let DeletePhase::Finished = phase {
            return (VariableDelete { path, phase: DeletePhase::Finished }, unexpected());
        }
        let (next, a): (DeletePhase, Action<String>) = match e {
            Event::Failed(err) => (DeletePhase::Finished, Action::Finish(Err(err))),
            Event::Done => match phase {
                DeletePhase::Scopes => (DeletePhase::Tx, Action::BeginTx),
                DeletePhase::Tx => (DeletePhase::VariableGone, Action::DeleteVariable(path.clone())),
                DeletePhase::VariableGone => (DeletePhase::ResourceGone, Action::DeleteResource(path.clone())),
                DeletePhase::ResourceGone => (
                    DeletePhase::Audited,
                    Action::Audit {
                        operation: String::from_str("variables.delete"),
                        kind: AuditKind::Delete,
                        path: path.clone(),
                    },
                ),
                DeletePhase::Audited => (DeletePhase::Committed, Action::Commit),
                DeletePhase::Committed => (
                    DeletePhase::Deployed,
                    Action::RecordDeployment {
                        path: path.clone(),
                        parent_path: Some(path.clone()),
                        message: Some(join3("Variable '", path.as_str(), "' deleted")),
                    },
                ),
                DeletePhase::Deployed => (DeletePhase::Notified, Action::Notify(Notice::Deleted { path: path.clone() })),
                _ => (DeletePhase::Finished, Action::Finish(Ok(join3("variable ", path.as_str(), " deleted")))),
            },
            _ => (DeletePhase::Finished, unexpected()),
        };
        (VariableDelete { path, phase: next }, a)
    }
}

} // verus!
