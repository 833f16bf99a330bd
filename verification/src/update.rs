use vstd::prelude::*;
use crate::json::{replace_path, replaced};
use crate::naming::{reference_to, var_reference, write_scope, write_scope_of};
use crate::protocol::{opt_json, opt_text, Action, ActionV, ApiError, ApiErrorV, AuditKind, Event, Notice, NoticeV};
use crate::read::{unexpected, unexpected_v};
use crate::sql::{render_update, update_sql, Assignment, UpdateStatement};
use crate::text::{debug_quoted, debug_text, decimal, decimal_i32, join5};
use crate::write::{conflict, conflict_v, encrypts, taken};

verus! {

/// The changes a caller asks for; each part that is absent stays as it is.
#[derive(Debug, PartialEq)]
pub struct EditVariable {
    pub path: Option<String>,
    pub value: Option<String>,
    pub is_secret: Option<bool>,
    pub description: Option<String>,
    pub account: Option<i32>,
}

/// Where updating a variable stands.
pub enum UpdatePhase {
    Scopes,
    Refreshed,
    /// Waiting for the stored secret flag, to know whether to encrypt the new value.
    ValueFlag,
    ValueKeyed,
    ValueSealed,
    /// Waiting for the stored secret flag, to compare it with the requested one.
    SecretFlag,
    /// Waiting for the account the variable refers to now.
    AccountLoaded,
    Tx,
    PathChecked,
    OwnerChecked,
    ResourceLoaded,
    ResourceMoved,
    Updated,
    /// The remaining steps know the variable's new path.
    Audited(String),
    AccountChecked(String),
    AccountDeleted(String),
    Committed(String),
    Deployed(String),
    Notified(String),
    Finished,
}

/// Updates a variable: its path (moving the resource at the old path and
/// the references in its value along), value (encrypted where the variable
/// is or becomes a secret, unless the caller encrypted it already),
/// description, account and secret flag (which may only change together
/// with the value); an account that no variable refers to any more is
/// deleted. Then audited, recorded for git sync and announced.
pub struct VariableUpdate {
    pub workspace: String,
    pub path: String,
    pub edit: EditVariable,
    pub already_encrypted: Option<bool>,
    /// The text the value column is set to, once known.
    pub stored_value: Option<String>,
    /// The account the variable referred to before, where the edit changes it.
    pub old_account: Option<i32>,
    pub phase: UpdatePhase,
}

pub open spec fn bool_text(b: bool) -> Seq<char> {
    if b { "true"@ } else { "false"@ }
}

pub open spec fn optional_set(field: Seq<char>, v: Option<Seq<char>>) -> Seq<(Seq<char>, Seq<char>)> {
    match v {
        Some(t) => seq![(field, t)],
        None => Seq::empty(),
    }
}

/// The columns the update sets, in order, with their texts.
pub open spec fn update_sets(m: VariableUpdate) -> Seq<(Seq<char>, Seq<char>)> {
    optional_set("path"@, opt_text(m.edit.path))
        + optional_set("value"@, opt_text(m.stored_value))
        + optional_set("description"@, opt_text(m.edit.description))
        + optional_set("account"@, match m.edit.account { Some(a) => Some(decimal(a as int)), None => None })
        + optional_set("is_secret"@, match m.edit.is_secret { Some(b) => Some(bool_text(b)), None => None })
}

/// The conditions that pick the variable's row.
pub open spec fn update_conditions(m: VariableUpdate) -> Seq<(Seq<char>, Seq<char>)> {
    seq![("path"@, m.path@), ("workspace_id"@, m.workspace@)]
}

/// The text of the statement that sets `sets` on the variable at `path`
/// in `workspace` and returns its path.
#[verifier::opaque]
pub open spec fn statement_text(workspace: Seq<char>, path: Seq<char>, sets: Seq<(Seq<char>, Seq<char>)>) -> Seq<char> {
    update_sql("variable"@, seq![("path"@, path), ("workspace_id"@, workspace)], sets, "path"@)
}

/// The update statement's text.
pub open spec fn update_text(m: VariableUpdate) -> Seq<char> {
    statement_text(m.workspace@, m.path@, update_sets(m))
}

pub open spec fn with_phase(m: VariableUpdate, phase: UpdatePhase) -> VariableUpdate {
    VariableUpdate { phase, ..m }
}

pub open spec fn secret_change_text() -> Seq<char> {
    "cannot change is_secret without updating value too"@
}

pub open spec fn updated_text(path: Seq<char>, new_path: Seq<char>) -> Seq<char> {
    "variable "@ + path + " updated (npath: "@ + debug_quoted(new_path) + ")"@
}

pub open spec fn run_stage(m: VariableUpdate) -> (VariableUpdate, ActionV<Seq<char>>) {
    if update_sets(m).len() == 0 {
        (with_phase(m, UpdatePhase::Finished), ActionV::Finish(Err(ApiErrorV::Internal("No set fields"@))))
    } else {
        (with_phase(m, UpdatePhase::Updated), ActionV::RunUpdate(update_text(m)))
    }
}

pub open spec fn rename_stage(m: VariableUpdate) -> (VariableUpdate, ActionV<Seq<char>>) {
    match m.edit.path {
        Some(np) => if np@ != m.path@ {
            (with_phase(m, UpdatePhase::PathChecked), ActionV::PathTaken(np@))
        } else {
            run_stage(m)
        },
        None => run_stage(m),
    }
}

pub open spec fn account_stage(m: VariableUpdate) -> (VariableUpdate, ActionV<Seq<char>>) {
    match m.edit.account {
        Some(_) => (with_phase(m, UpdatePhase::AccountLoaded), ActionV::LoadAccount(m.path@)),
        None => (with_phase(m, UpdatePhase::Tx), ActionV::BeginTx),
    }
}

pub open spec fn secret_stage(m: VariableUpdate) -> (VariableUpdate, ActionV<Seq<char>>) {
    match m.edit.is_secret {
        Some(_) => (with_phase(m, UpdatePhase::SecretFlag), ActionV::LoadSecretFlag(m.path@)),
        None => account_stage(m),
    }
}

pub open spec fn seal_stage(m: VariableUpdate, secret: bool) -> (VariableUpdate, ActionV<Seq<char>>) {
    if encrypts(secret, m.already_encrypted) {
        (with_phase(m, UpdatePhase::ValueKeyed), ActionV::BuildCrypt)
    } else {
        secret_stage(VariableUpdate { stored_value: m.edit.value, ..m })
    }
}

pub open spec fn value_stage(m: VariableUpdate) -> (VariableUpdate, ActionV<Seq<char>>) {
    match m.edit.value {
        Some(_) => match m.edit.is_secret {
            Some(b) => seal_stage(m, b),
            None => (with_phase(m, UpdatePhase::ValueFlag), ActionV::LoadSecretFlag(m.path@)),
        },
        None => secret_stage(m),
    }
}

pub open spec fn cleanup_stage(m: VariableUpdate, np: String) -> (VariableUpdate, ActionV<Seq<char>>) {
    match (m.old_account, m.edit.account) {
        (Some(o), Some(a)) => if a != o {
            (with_phase(m, UpdatePhase::AccountChecked(np)), ActionV::AccountInUse(o))
        } else {
            (with_phase(m, UpdatePhase::Committed(np)), ActionV::Commit)
        },
        _ => (with_phase(m, UpdatePhase::Committed(np)), ActionV::Commit),
    }
}

/// One step of the update: the machine after the event, and what it asks for.
pub open spec fn update_step(m: VariableUpdate, e: Event) -> (VariableUpdate, ActionV<Seq<char>>) {
    let done = with_phase(m, UpdatePhase::Finished);
    match m.phase {
        UpdatePhase::Finished => (done, unexpected_v()),
        _ => match e {
            Event::Failed(err) => (done, ActionV::Finish(Err(err@))),
            _ => match (m.phase, e) {
                (UpdatePhase::Scopes, Event::Done) => (
                    with_phase(m, UpdatePhase::Refreshed),
                    ActionV::RefreshFolders(m.path@),
                ),
                (UpdatePhase::Refreshed, Event::Done) => value_stage(m),
                (UpdatePhase::ValueFlag, Event::Flag(f)) => seal_stage(m, f.unwrap_or(false)),
                (UpdatePhase::ValueKeyed, Event::Done) => match m.edit.value {
                    Some(v) => (with_phase(m, UpdatePhase::ValueSealed), ActionV::Encrypt(v@)),
                    None => (done, unexpected_v()),
                },
                (UpdatePhase::ValueSealed, Event::Text(c)) => secret_stage(
                    VariableUpdate { stored_value: Some(c), ..m },
                ),
                (UpdatePhase::SecretFlag, Event::Flag(f)) => match m.edit.is_secret {
                    Some(wanted) => if f.unwrap_or(false) != wanted && m.edit.value is None {
                        (done, ActionV::Finish(Err(ApiErrorV::BadRequest(secret_change_text()))))
                    } else {
                        account_stage(m)
                    },
                    None => (done, unexpected_v()),
                },
                (UpdatePhase::AccountLoaded, Event::Account(o)) => (
                    VariableUpdate { old_account: o, phase: UpdatePhase::Tx, ..m },
                    ActionV::BeginTx,
                ),
                (UpdatePhase::Tx, Event::Done) => rename_stage(m),
                (UpdatePhase::PathChecked, Event::Flag(f)) => match m.edit.path {
                    Some(np) => if taken(f) {
                        (done, conflict_v(np@))
                    } else {
                        (with_phase(m, UpdatePhase::OwnerChecked), ActionV::RequireOwner(m.path@))
                    },
                    None => (done, unexpected_v()),
                },
                (UpdatePhase::OwnerChecked, Event::Done) => (
                    with_phase(m, UpdatePhase::ResourceLoaded),
                    ActionV::LoadResource(m.path@),
                ),
                (UpdatePhase::ResourceLoaded, Event::Resource(v)) => match m.edit.path {
                    Some(np) => (
                        with_phase(m, UpdatePhase::ResourceMoved),
                        ActionV::MoveResource {
                            path: m.path@,
                            new_path: np@,
                            value: match opt_json(v) {
                                Some(j) => Some(replaced(j, reference_to(m.path@), reference_to(np@))),
                                None => None,
                            },
                        },
                    ),
                    None => (done, unexpected_v()),
                },
                (UpdatePhase::ResourceMoved, Event::Done) => run_stage(m),
                (UpdatePhase::Updated, Event::Returned(r)) => match r {
                    Some(np) => (
                        with_phase(m, UpdatePhase::Audited(np)),
                        ActionV::Audit { operation: "variables.update"@, kind: AuditKind::Update, path: m.path@ },
                    ),
                    None => (done, ActionV::Finish(Err(ApiErrorV::Missing { kind: "Variable"@, name: m.path@ }))),
                },
                (UpdatePhase::Audited(np), Event::Done) => cleanup_stage(m, np),
                (UpdatePhase::AccountChecked(np), Event::Flag(f)) => {
                    if !f.unwrap_or(true) {
                        match m.old_account {
                            Some(o) => (with_phase(m, UpdatePhase::AccountDeleted(np)), ActionV::DeleteAccount(o)),
                            None => (done, unexpected_v()),
                        }
                    } else {
                        (with_phase(m, UpdatePhase::Committed(np)), ActionV::Commit)
                    }
                },
                (UpdatePhase::AccountDeleted(np), Event::Done) => (with_phase(m, UpdatePhase::Committed(np)), ActionV::Commit),
                (UpdatePhase::Committed(np), Event::Done) => (
                    with_phase(m, UpdatePhase::Deployed(np)),
                    ActionV::RecordDeployment { path: np@, parent_path: Some(m.path@), message: None },
                ),
                (UpdatePhase::Deployed(np), Event::Done) => (
                    with_phase(m, UpdatePhase::Notified(np)),
                    ActionV::Notify(NoticeV::Updated { old_path: m.path@, new_path: np@ }),
                ),
                (UpdatePhase::Notified(np), Event::Done) => (done, ActionV::Finish(Ok(updated_text(m.path@, np@)))),
                _ => (done, unexpected_v()),
            },
        },
    }
}

fn push_set(v: &mut Vec<Assignment>, field: &str, value: Option<String>)
    ensures
        final(v)@.map_values(|a: Assignment| (a.field@, a.value@))
            =~= old(v)@.map_values(|a: Assignment| (a.field@, a.value@)) + optional_set(field@, opt_text(value)),
{
    match value {
        Some(t) => {
            v.push(Assignment { field: String::from_str(field), value: t });
        },
        None => {},
    }
}

/// Starts updating the variable at `path` in `workspace`: the caller's
/// token must grant the write scope of the path.
pub fn update_variable(workspace: String, path: String, edit: EditVariable, already_encrypted: Option<bool>) -> (r: (
    VariableUpdate,
    Action<String>,
))
    ensures
        r.0 == (VariableUpdate {
            workspace,
            path,
            edit,
            already_encrypted,
            stored_value: None,
            old_account: None,
            phase: UpdatePhase::Scopes,
        }),
        r.1@ == ActionV::<Seq<char>>::CheckScopes(write_scope_of(path@)),
{
    let scope = write_scope(path.as_str());
    (
        VariableUpdate { workspace, path, edit, already_encrypted, stored_value: None, old_account: None, phase: UpdatePhase::Scopes },
        Action::CheckScopes(scope),
    )
}

impl VariableUpdate {
    fn with(self, phase: UpdatePhase) -> (r: VariableUpdate)
        ensures
            r == with_phase(self, phase),
    {
        VariableUpdate { phase, ..self }
    }

    /// The update statement for the changes known so far.
    pub fn statement(&self) -> (s: UpdateStatement)
        ensures
            update_sql(s.table@, s.condition_pairs(), s.set_pairs(), s.returning@) == update_text(*self),
            s.table@ == "variable"@,
            s.set_pairs() == update_sets(*self),
    {
        let mut conditions: Vec<Assignment> = Vec::new();
        conditions.push(Assignment { field: String::from_str("path"), value: self.path.clone() });
        conditions.push(Assignment { field: String::from_str("workspace_id"), value: self.workspace.clone() });
        let mut sets: Vec<Assignment> = Vec::new();
        push_set(&mut sets, "path", self.edit.path.clone());
        push_set(&mut sets, "value", self.stored_value.clone());
        push_set(&mut sets, "description", self.edit.description.clone());
        let account = match self.edit.account {
            Some(a) => Some(decimal_i32(a)),
            None => None,
        };
        push_set(&mut sets, "account", account);
        let flag = match self.edit.is_secret {
            Some(b) => if b {
                proof { reveal_strlit("true"); }
                Some(String::from_str("true"))
            } else {
                proof { reveal_strlit("false"); }
                Some(String::from_str("false"))
            },
            None => None,
        };
        push_set(&mut sets, "is_secret", flag);
        proof {
            reveal(statement_text);
        }
        let s = UpdateStatement {
            table: String::from_str("variable"),
            conditions,
            sets,
            returning: String::from_str("path"),
        };
        assert(s.condition_pairs() =~= update_conditions(*self));
        assert(s.set_pairs() =~= update_sets(*self));
        s
    }

    fn run(self) -> (r: (VariableUpdate, Action<String>))
        ensures
            (r.0, r.1@) == run_stage(self),
    {
        let stmt = self.statement();
        proof {
            reveal_strlit("variable");
            assert(stmt.set_pairs().len() == stmt.sets@.len());
        }
        match render_update(&stmt) {
            Ok(sql) => (self.with(UpdatePhase::Updated), Action::RunUpdate(sql)),
            Err(msg) => (self.with(UpdatePhase::Finished), Action::Finish(Err(ApiError::Internal(msg)))),
        }
    }

    fn rename(self) -> (r: (VariableUpdate, Action<String>))
        ensures
            (r.0, r.1@) == rename_stage(self),
    {
        let differs = match &self.edit.path {
            Some(np) => !(*np == self.path),
            None => false,
        };
        if differs {
            let a = Action::PathTaken(self.edit.path.clone().unwrap());
            (self.with(UpdatePhase::PathChecked), a)
        } else {
            self.run()
        }
    }

    fn account(self) -> (r: (VariableUpdate, Action<String>))
        ensures
            (r.0, r.1@) == account_stage(self),
    {
        if self.edit.account.is_some() {
            let a = Action::LoadAccount(self.path.clone());
            (self.with(UpdatePhase::AccountLoaded), a)
        } else {
            (self.with(UpdatePhase::Tx), Action::BeginTx)
        }
    }

    fn secret(self) -> (r: (VariableUpdate, Action<String>))
        ensures
            (r.0, r.1@) == secret_stage(self),
    {
        if self.edit.is_secret.is_some() {
            let a = Action::LoadSecretFlag(self.path.clone());
            (self.with(UpdatePhase::SecretFlag), a)
        } else {
            self.account()
        }
    }

    fn seal(self, is_secret: bool) -> (r: (VariableUpdate, Action<String>))
        ensures
            (r.0, r.1@) == seal_stage(self, is_secret),
    {
        let already = match self.already_encrypted { Some(b) => b, None => false };
        if is_secret && !already {
            (self.with(UpdatePhase::ValueKeyed), Action::BuildCrypt)
        } else {
            let stored = self.edit.value.clone();
            VariableUpdate { stored_value: stored, ..self }.secret()
        }
    }

    fn value(self) -> (r: (VariableUpdate, Action<String>))
        ensures
            (r.0, r.1@) == value_stage(self),
    {
        if self.edit.value.is_some() {
            match self.edit.is_secret {
                Some(b) => self.seal(b),
                None => {
                    let a = Action::LoadSecretFlag(self.path.clone());
                    (self.with(UpdatePhase::ValueFlag), a)
                },
            }
        } else {
            self.secret()
        }
    }

    fn cleanup(self, np: String) -> (r: (VariableUpdate, Action<String>))
        ensures
            (r.0, r.1@) == cleanup_stage(self, np),
    {
        match (self.old_account, self.edit.account) {
            (Some(o), Some(a)) => {
                if a != o {
                    (self.with(UpdatePhase::AccountChecked(np)), Action::AccountInUse(o))
                } else {
                    (self.with(UpdatePhase::Committed(np)), Action::Commit)
                }
            },
            _ => (self.with(UpdatePhase::Committed(np)), Action::Commit),
        }
    }

    pub fn step(self, e: Event) -> (r: (VariableUpdate, Action<String>))
        ensures
            (r.0, r.1@) == update_step(self, e),
    {
        if let UpdatePhase::Finished = self.phase {
            return (self.with(UpdatePhase::Finished), unexpected());
        }
        if let Event::Failed(err) = e {
            return (self.with(UpdatePhase::Finished), Action::Finish(Err(err)));
        }
        let VariableUpdate { workspace, path, edit, already_encrypted, stored_value, old_account, phase } = self;
        let m = VariableUpdate { workspace, path, edit, already_encrypted, stored_value, old_account, phase: UpdatePhase::Finished };
        match (phase, e) {
            (UpdatePhase::Scopes, Event::Done) => {
                let a = Action::RefreshFolders(m.path.clone());
                (m.with(UpdatePhase::Refreshed), a)
            },
            (UpdatePhase::Refreshed, Event::Done) => m.value(),
            (UpdatePhase::ValueFlag, Event::Flag(f)) => {
                let secret = match f { Some(b) => b, None => false };
                m.seal(secret)
            },
            (UpdatePhase::ValueKeyed, Event::Done) => match m.edit.value.clone() {
                Some(v) => (m.with(UpdatePhase::ValueSealed), Action::Encrypt(v)),
                None => (m, unexpected()),
            },
            (UpdatePhase::ValueSealed, Event::Text(c)) => VariableUpdate { stored_value: Some(c), ..m }.secret(),
            (UpdatePhase::SecretFlag, Event::Flag(f)) => match m.edit.is_secret {
                Some(wanted) => {
                    let old_secret = match f { Some(b) => b, None => false };
                    if old_secret != wanted && m.edit.value.is_none() {
                        let msg = String::from_str("cannot change is_secret without updating value too");
                        (m, Action::Finish(Err(ApiError::BadRequest(msg))))
                    } else {
                        m.account()
                    }
                },
                None => (m, unexpected()),
            },
            (UpdatePhase::AccountLoaded, Event::Account(o)) => (
                VariableUpdate { old_account: o, phase: UpdatePhase::Tx, ..m },
                Action::BeginTx,
            ),
            (UpdatePhase::Tx, Event::Done) => m.rename(),
            (UpdatePhase::PathChecked, Event::Flag(f)) => {
                let is_taken = match f { Some(b) => b, None => false };
                match &m.edit.path {
                    Some(np) => if is_taken {
                        let a = conflict(np.as_str());
                        (m, a)
                    } else {
                        let a = Action::RequireOwner(m.path.clone());
                        (m.with(UpdatePhase::OwnerChecked), a)
                    },
                    None => (m, unexpected()),
                }
            },
            (UpdatePhase::OwnerChecked, Event::Done) => {
                let a = Action::LoadResource(m.path.clone());
                (m.with(UpdatePhase::ResourceLoaded), a)
            },
            (UpdatePhase::ResourceLoaded, Event::Resource(v)) => {
                let np = match m.edit.path.clone() {
                    Some(np) => np,
                    None => { return (m, unexpected()); },
                };
                let moved = match v {
                    Some(j) => {
                        let from = var_reference(m.path.as_str());
                        let to = var_reference(np.as_str());
                        Some(replace_path(j, from.as_str(), to.as_str()))
                    },
                    None => None,
                };
                let a = Action::MoveResource { path: m.path.clone(), new_path: np, value: moved };
                (m.with(UpdatePhase::ResourceMoved), a)
            },
            (UpdatePhase::ResourceMoved, Event::Done) => m.run(),
            (UpdatePhase::Updated, Event::Returned(r)) => match r {
                Some(np) => {
                    let a = Action::Audit {
                        operation: String::from_str("variables.update"),
                        kind: AuditKind::Update,
                        path: m.path.clone(),
                    };
                    (m.with(UpdatePhase::Audited(np)), a)
                },
                None => {
                    let name = m.path.clone();
                    (m, Action::Finish(Err(ApiError::Missing { kind: String::from_str("Variable"), name })))
                },
            },
            (UpdatePhase::Audited(np), Event::Done) => m.cleanup(np),
            (UpdatePhase::AccountChecked(np), Event::Flag(f)) => {
                let in_use = match f { Some(b) => b, None => true };
                if !in_use {
                    match m.old_account {
                        Some(o) => (m.with(UpdatePhase::AccountDeleted(np)), Action::DeleteAccount(o)),
                        None => (m, unexpected()),
                    }
                } else {
                    (m.with(UpdatePhase::Committed(np)), Action::Commit)
                }
            },
            (UpdatePhase::AccountDeleted(np), Event::Done) => (m.with(UpdatePhase::Committed(np)), Action::Commit),
            (UpdatePhase::Committed(np), Event::Done) => {
                let a = Action::RecordDeployment { path: np.clone(), parent_path: Some(m.path.clone()), message: None };
                (m.with(UpdatePhase::Deployed(np)), a)
            },
            (UpdatePhase::Deployed(np), Event::Done) => {
                let a = Action::Notify(Notice::Updated { old_path: m.path.clone(), new_path: np.clone() });
                (m.with(UpdatePhase::Notified(np)), a)
            },
            (UpdatePhase::Notified(np), Event::Done) => {
                let shown = debug_text(np.as_str());
                let msg = join5("variable ", m.path.as_str(), " updated (npath: ", shown.as_str(), ")");
                (m, Action::Finish(Ok(msg)))
            },
            _ => (m, unexpected()),
        }
    }
}

} // verus!
