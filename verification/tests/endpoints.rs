use windmill_variables::json::{Json, Member};
use windmill_variables::protocol::{Action, ApiError, AuditKind, Event, ListedRow, Notice, StoredRow};
use windmill_variables::read::{get_value, get_value_internal, get_variable, get_variable_or_self, VariableReply};
use windmill_variables::service::{list_contextual_variables, list_variables, workspaced_service, Endpoint, HttpMethod};
use windmill_variables::update::{update_variable, EditVariable, VariableUpdate};
use windmill_variables::write::{create_variable, delete_variable, encrypt_value, exists_variable, NewVariable, VariableCreate};

fn s(x: &str) -> String {
    x.to_string()
}

fn text(x: &str) -> Event {
    Event::Text(s(x))
}

fn fail(x: &str) -> ApiError {
    ApiError::Outside(s(x))
}

fn drive_create(mut m: VariableCreate, events: Vec<Event>) -> Vec<Action<String>> {
    let mut out = Vec::new();
    for e in events {
        let (m2, a) = m.step(e);
        m = m2;
        out.push(a);
    }
    out
}

fn drive_update(mut m: VariableUpdate, events: Vec<Event>) -> Vec<Action<String>> {
    let mut out = Vec::new();
    for e in events {
        let (m2, a) = m.step(e);
        m = m2;
        out.push(a);
    }
    out
}

fn insert(value: &str, is_secret: bool, is_oauth: bool) -> Action<String> {
    Action::InsertVariable {
        path: s("u/admin/db"),
        value: s(value),
        is_secret,
        description: s("the db"),
        account: Some(5),
        is_oauth,
        expires_at: Some(1_700_000_000_000_000),
    }
}

fn audit<R>(op: &str, kind: AuditKind, path: &str) -> Action<R> {
    Action::Audit { operation: s(op), kind, path: s(path) }
}

// ---------------------------------------------------------------- create

fn new_var(secret: bool) -> NewVariable {
    NewVariable {
        path: s("u/admin/db"),
        value: s("hunter2"),
        is_secret: secret,
        description: s("the db"),
        account: Some(5),
        is_oauth: None,
        expires_at: Some(1_700_000_000_000_000),
    }
}

#[test]
fn create_plain_variable_stores_value_as_sent() {
    let (m, a0) = create_variable(new_var(false), None, false);
    assert_eq!(a0, Action::CheckScopes(s("variables:write:u/admin/db")));
    let acts = drive_create(
        m,
        vec![Event::Done, Event::Done, Event::Flag(Some(false)), Event::Done, Event::Done, Event::Done, Event::Done, Event::Done, Event::Done],
    );
    assert_eq!(
        acts,
        vec![
            Action::RefreshFolders(s("u/admin/db")),
            Action::PathTaken(s("u/admin/db")),
            Action::BeginTx,
            insert("hunter2", false, false),
            audit("variables.create", AuditKind::Create, "u/admin/db"),
            Action::Commit,
            Action::RecordDeployment { path: s("u/admin/db"), parent_path: None, message: Some(s("Variable 'u/admin/db' created")) },
            Action::Notify(Notice::Created { path: s("u/admin/db") }),
            Action::Finish(Ok(s("variable u/admin/db created"))),
        ]
    );
}

#[test]
fn create_secret_variable_stores_cipher() {
    let (m, _) = create_variable(new_var(true), Some(false), false);
    let acts = drive_create(m, vec![Event::Done, Event::Done, Event::Flag(None), Event::Done, text("CIPHER"), Event::Done]);
    assert_eq!(acts[2], Action::BuildCrypt);
    assert_eq!(acts[3], Action::Encrypt(s("hunter2")));
    assert_eq!(acts[4], Action::BeginTx);
    assert_eq!(acts[5], insert("CIPHER", true, false));
}

#[test]
fn create_already_encrypted_secret_is_stored_as_sent() {
    let (m, _) = create_variable(new_var(true), Some(true), false);
    let acts = drive_create(m, vec![Event::Done, Event::Done, Event::Flag(Some(false)), Event::Done]);
    assert_eq!(acts[2], Action::BeginTx);
    assert_eq!(acts[3], insert("hunter2", true, false));
}

#[test]
fn create_refuses_taken_path() {
    let (m, _) = create_variable(new_var(false), None, false);
    let acts = drive_create(m, vec![Event::Done, Event::Done, Event::Flag(Some(true))]);
    assert_eq!(acts[2], Action::Finish(Err(ApiError::BadRequest(s("Variable u/admin/db already exists")))));
}

#[test]
fn create_on_cloud_checks_the_limit() {
    let limit_msg = "You have reached the maximum number of variables (10000) on cloud. Contact support@windmill.dev to increase the limit";
    let (m, _) = create_variable(new_var(false), None, true);
    let acts = drive_create(m, vec![Event::Done, Event::Count(Some(10000))]);
    assert_eq!(acts, vec![Action::CountVariables, Action::Finish(Err(ApiError::BadRequest(s(limit_msg))))]);
    let (m, _) = create_variable(new_var(false), None, true);
    let acts = drive_create(m, vec![Event::Done, Event::Count(Some(9999))]);
    assert_eq!(acts[1], Action::RefreshFolders(s("u/admin/db")));
    let (m, _) = create_variable(new_var(false), None, true);
    let acts = drive_create(m, vec![Event::Done, Event::Count(None)]);
    assert_eq!(acts[1], Action::RefreshFolders(s("u/admin/db")));
}

#[test]
fn create_passes_on_outside_errors() {
    let (m, _) = create_variable(new_var(false), None, false);
    let acts = drive_create(m, vec![Event::Failed(fail("scope"))]);
    assert_eq!(acts, vec![Action::Finish(Err(fail("scope")))]);
}

#[test]
fn create_answers_unexpected_replies_with_an_internal_error() {
    let (m, _) = create_variable(new_var(false), None, false);
    let acts = drive_create(m, vec![Event::Count(Some(1)), Event::Done]);
    assert_eq!(acts[0], Action::Finish(Err(ApiError::Internal(s("unexpected reply")))));
    assert_eq!(acts[1], Action::Finish(Err(ApiError::Internal(s("unexpected reply")))));
}

#[test]
fn create_marks_oauth_variables() {
    let mut v = new_var(false);
    v.is_oauth = Some(true);
    let (m, _) = create_variable(v, None, false);
    let acts = drive_create(m, vec![Event::Done, Event::Done, Event::Flag(Some(false)), Event::Done]);
    assert_eq!(acts[3], insert("hunter2", false, true));
}

// ---------------------------------------------------------------- delete, exists, encrypt

#[test]
fn delete_runs_all_steps() {
    let (mut m, a0) = delete_variable(s("f/team/db"));
    assert_eq!(a0, Action::CheckScopes(s("variables:write:f/team/db")));
    let mut acts = Vec::new();
    for _ in 0..8 {
        let (m2, a) = m.step(Event::Done);
        m = m2;
        acts.push(a);
    }
    assert_eq!(
        acts,
        vec![
            Action::BeginTx,
            Action::DeleteVariable(s("f/team/db")),
            Action::DeleteResource(s("f/team/db")),
            audit("variables.delete", AuditKind::Delete, "f/team/db"),
            Action::Commit,
            Action::RecordDeployment {
                path: s("f/team/db"),
                parent_path: Some(s("f/team/db")),
                message: Some(s("Variable 'f/team/db' deleted")),
            },
            Action::Notify(Notice::Deleted { path: s("f/team/db") }),
            Action::Finish(Ok(s("variable f/team/db deleted"))),
        ]
    );
}

#[test]
fn exists_defaults_to_false() {
    let (m, a) = exists_variable(s("u/a/b"));
    assert_eq!(a, Action::PathTaken(s("u/a/b")));
    assert_eq!(m.step(Event::Flag(None)).1, Action::Finish(Ok(false)));
    let (m, _) = exists_variable(s("u/a/b"));
    assert_eq!(m.step(Event::Flag(Some(true))).1, Action::Finish(Ok(true)));
}

#[test]
fn encrypt_value_returns_cipher() {
    let (m, a) = encrypt_value(s("plain"));
    assert_eq!(a, Action::BuildCrypt);
    let (m, a) = m.step(Event::Done);
    assert_eq!(a, Action::Encrypt(s("plain")));
    assert_eq!(m.step(text("C")).1, Action::Finish(Ok(s("C"))));
}

// ---------------------------------------------------------------- update

fn edit() -> EditVariable {
    EditVariable { path: None, value: None, is_secret: None, description: None, account: None }
}

#[test]
fn update_plain_value_and_description() {
    let mut e = edit();
    e.value = Some(s("v2"));
    e.description = Some(s("it's new"));
    let (m, a0) = update_variable(s("ws"), s("u/admin/db"), e, None);
    assert_eq!(a0, Action::CheckScopes(s("variables:write:u/admin/db")));
    let acts = drive_update(
        m,
        vec![
            Event::Done,                   // scopes
            Event::Done,                   // refresh
            Event::Flag(Some(false)),      // stored flag: plain
            Event::Done,                   // tx
            Event::Returned(Some(s("u/admin/db"))),
            Event::Done,                   // audit
            Event::Done,                   // commit
            Event::Done,                   // deployment
            Event::Done,                   // webhook
        ],
    );
    assert_eq!(
        acts,
        vec![
            Action::RefreshFolders(s("u/admin/db")),
            Action::LoadSecretFlag(s("u/admin/db")),
            Action::BeginTx,
            Action::RunUpdate(s("UPDATE variable SET value = 'v2', description = 'it''s new' WHERE (path = 'u/admin/db') AND (workspace_id = 'ws') RETURNING path;")),
            audit("variables.update", AuditKind::Update, "u/admin/db"),
            Action::Commit,
            Action::RecordDeployment { path: s("u/admin/db"), parent_path: Some(s("u/admin/db")), message: None },
            Action::Notify(Notice::Updated { old_path: s("u/admin/db"), new_path: s("u/admin/db") }),
            Action::Finish(Ok(s("variable u/admin/db updated (npath: \"u/admin/db\")"))),
        ]
    );
}

#[test]
fn update_secret_value_is_encrypted() {
    let mut e = edit();
    e.value = Some(s("v2"));
    e.is_secret = Some(true);
    let (m, _) = update_variable(s("ws"), s("u/admin/db"), e, None);
    let acts = drive_update(
        m,
        vec![Event::Done, Event::Done, Event::Done, text("ENC"), Event::Flag(Some(false)), Event::Done],
    );
    assert_eq!(acts[1], Action::BuildCrypt);
    assert_eq!(acts[2], Action::Encrypt(s("v2")));
    assert_eq!(acts[3], Action::LoadSecretFlag(s("u/admin/db")));
    assert_eq!(acts[4], Action::BeginTx);
    assert_eq!(
        acts[5],
        Action::RunUpdate(s("UPDATE variable SET value = 'ENC', is_secret = 'true' WHERE (path = 'u/admin/db') AND (workspace_id = 'ws') RETURNING path;"))
    );
}

#[test]
fn update_value_of_stored_secret_is_encrypted() {
    let mut e = edit();
    e.value = Some(s("v2"));
    let (m, _) = update_variable(s("ws"), s("u/admin/db"), e, Some(false));
    let acts = drive_update(m, vec![Event::Done, Event::Done, Event::Flag(Some(true)), Event::Done, text("ENC"), Event::Done]);
    assert_eq!(acts[2], Action::BuildCrypt);
    assert_eq!(acts[3], Action::Encrypt(s("v2")));
    assert_eq!(acts[4], Action::BeginTx);
    assert_eq!(
        acts[5],
        Action::RunUpdate(s("UPDATE variable SET value = 'ENC' WHERE (path = 'u/admin/db') AND (workspace_id = 'ws') RETURNING path;"))
    );
}

#[test]
fn update_already_encrypted_value_is_kept() {
    let mut e = edit();
    e.value = Some(s("ENC"));
    e.is_secret = Some(true);
    let (m, _) = update_variable(s("ws"), s("u/admin/db"), e, Some(true));
    let acts = drive_update(m, vec![Event::Done, Event::Done, Event::Flag(Some(true)), Event::Done]);
    assert_eq!(acts[1], Action::LoadSecretFlag(s("u/admin/db")));
    assert_eq!(acts[2], Action::BeginTx);
    assert_eq!(
        acts[3],
        Action::RunUpdate(s("UPDATE variable SET value = 'ENC', is_secret = 'true' WHERE (path = 'u/admin/db') AND (workspace_id = 'ws') RETURNING path;"))
    );
}

#[test]
fn update_cannot_change_secret_flag_alone() {
    let mut e = edit();
    e.is_secret = Some(false);
    let (m, _) = update_variable(s("ws"), s("u/admin/db"), e, None);
    let acts = drive_update(m, vec![Event::Done, Event::Done, Event::Flag(Some(true))]);
    assert_eq!(
        acts[2],
        Action::Finish(Err(ApiError::BadRequest(s("cannot change is_secret without updating value too"))))
    );
}

#[test]
fn update_same_secret_flag_alone_is_accepted() {
    let mut e = edit();
    e.is_secret = Some(false);
    let (m, _) = update_variable(s("ws"), s("u/a/b"), e, None);
    let acts = drive_update(m, vec![Event::Done, Event::Done, Event::Flag(None), Event::Done]);
    assert_eq!(acts[2], Action::BeginTx);
    assert_eq!(
        acts[3],
        Action::RunUpdate(s("UPDATE variable SET is_secret = 'false' WHERE (path = 'u/a/b') AND (workspace_id = 'ws') RETURNING path;"))
    );
}

#[test]
fn update_with_nothing_to_set_is_an_internal_error() {
    let (m, _) = update_variable(s("ws"), s("u/a/b"), edit(), None);
    let acts = drive_update(m, vec![Event::Done, Event::Done, Event::Done]);
    assert_eq!(acts[1], Action::BeginTx);
    assert_eq!(acts[2], Action::Finish(Err(ApiError::Internal(s("No set fields")))));
}

#[test]
fn update_of_missing_variable_reports_it() {
    let mut e = edit();
    e.description = Some(s("d"));
    let (m, _) = update_variable(s("ws"), s("u/a/b"), e, None);
    let acts = drive_update(m, vec![Event::Done, Event::Done, Event::Done, Event::Returned(None)]);
    assert_eq!(acts[3], Action::Finish(Err(ApiError::Missing { kind: s("Variable"), name: s("u/a/b") })));
}

#[test]
fn update_rename_moves_resource_and_references() {
    let mut e = edit();
    e.path = Some(s("u/admin/new"));
    let (m, _) = update_variable(s("ws"), s("u/admin/old"), e, None);
    let resource = Json::Object(vec![Member { key: s("password"), value: Json::Str(s("$var:u/admin/old")) }]);
    let acts = drive_update(
        m,
        vec![
            Event::Done,
            Event::Done,
            Event::Done,
            Event::Flag(Some(false)),
            Event::Done,
            Event::Resource(Some(resource)),
            Event::Done,
            Event::Returned(Some(s("u/admin/new"))),
            Event::Done,
            Event::Done,
            Event::Done,
            Event::Done,
            Event::Done,
        ],
    );
    assert_eq!(
        acts,
        vec![
            Action::RefreshFolders(s("u/admin/old")),
            Action::BeginTx,
            Action::PathTaken(s("u/admin/new")),
            Action::RequireOwner(s("u/admin/old")),
            Action::LoadResource(s("u/admin/old")),
            Action::MoveResource {
                path: s("u/admin/old"),
                new_path: s("u/admin/new"),
                value: Some(Json::Object(vec![Member { key: s("password"), value: Json::Str(s("$var:u/admin/new")) }])),
            },
            Action::RunUpdate(s("UPDATE variable SET path = 'u/admin/new' WHERE (path = 'u/admin/old') AND (workspace_id = 'ws') RETURNING path;")),
            audit("variables.update", AuditKind::Update, "u/admin/old"),
            Action::Commit,
            Action::RecordDeployment { path: s("u/admin/new"), parent_path: Some(s("u/admin/old")), message: None },
            Action::Notify(Notice::Updated { old_path: s("u/admin/old"), new_path: s("u/admin/new") }),
            Action::Finish(Ok(s("variable u/admin/old updated (npath: \"u/admin/new\")"))),
            Action::Finish(Err(ApiError::Internal(s("unexpected reply")))),
        ]
    );
}

#[test]
fn update_rename_to_taken_path_is_refused() {
    let mut e = edit();
    e.path = Some(s("u/admin/new"));
    let (m, _) = update_variable(s("ws"), s("u/admin/old"), e, None);
    let acts = drive_update(m, vec![Event::Done, Event::Done, Event::Done, Event::Flag(Some(true))]);
    assert_eq!(acts[3], Action::Finish(Err(ApiError::BadRequest(s("Variable u/admin/new already exists")))));
}

#[test]
fn update_to_the_same_path_does_not_move_anything() {
    let mut e = edit();
    e.path = Some(s("u/a/b"));
    let (m, _) = update_variable(s("ws"), s("u/a/b"), e, None);
    let acts = drive_update(m, vec![Event::Done, Event::Done, Event::Done]);
    assert_eq!(
        acts[2],
        Action::RunUpdate(s("UPDATE variable SET path = 'u/a/b' WHERE (path = 'u/a/b') AND (workspace_id = 'ws') RETURNING path;"))
    );
}

#[test]
fn update_account_deletes_orphaned_account() {
    let mut e = edit();
    e.account = Some(7);
    let (m, _) = update_variable(s("ws"), s("u/a/b"), e, None);
    let acts = drive_update(
        m,
        vec![
            Event::Done,
            Event::Done,
            Event::Account(Some(3)),
            Event::Done,
            Event::Returned(Some(s("u/a/b"))),
            Event::Done,
            Event::Flag(Some(false)),
            Event::Done,
        ],
    );
    assert_eq!(acts[1], Action::LoadAccount(s("u/a/b")));
    assert_eq!(acts[2], Action::BeginTx);
    assert_eq!(
        acts[3],
        Action::RunUpdate(s("UPDATE variable SET account = '7' WHERE (path = 'u/a/b') AND (workspace_id = 'ws') RETURNING path;"))
    );
    assert_eq!(acts[5], Action::AccountInUse(3));
    assert_eq!(acts[6], Action::DeleteAccount(3));
    assert_eq!(acts[7], Action::Commit);
}

#[test]
fn update_account_keeps_used_or_same_account() {
    let mut e = edit();
    e.account = Some(-7);
    let (m, _) = update_variable(s("ws"), s("u/a/b"), e, None);
    let acts = drive_update(
        m,
        vec![Event::Done, Event::Done, Event::Account(Some(3)), Event::Done, Event::Returned(Some(s("u/a/b"))), Event::Done, Event::Flag(None)],
    );
    assert_eq!(
        acts[3],
        Action::RunUpdate(s("UPDATE variable SET account = '-7' WHERE (path = 'u/a/b') AND (workspace_id = 'ws') RETURNING path;"))
    );
    assert_eq!(acts[6], Action::Commit);
    let mut e = edit();
    e.account = Some(3);
    let (m, _) = update_variable(s("ws"), s("u/a/b"), e, None);
    let acts = drive_update(
        m,
        vec![Event::Done, Event::Done, Event::Account(Some(3)), Event::Done, Event::Returned(Some(s("u/a/b"))), Event::Done],
    );
    assert_eq!(acts[5], Action::Commit);
}

// ---------------------------------------------------------------- reads

fn stored(secret: bool, value: &str) -> StoredRow {
    StoredRow { path: s("u/a/b"), is_secret: secret, value: s(value), is_expired: None, account: None }
}

#[test]
fn get_value_of_plain_variable() {
    let (m, a0) = get_value(s("u/a/b"), false);
    assert_eq!(a0, Action::CheckScopes(s("variables:read:u/a/b")));
    let (m, a) = m.step(Event::Done);
    assert_eq!(a, Action::BeginTx);
    let (m, a) = m.step(Event::Done);
    assert_eq!(a, Action::LoadValue(s("u/a/b")));
    assert_eq!(m.step(Event::Stored(Some(stored(false, "v")))).1, Action::Finish(Ok(s("v"))));
}

#[test]
fn get_value_of_secret_decrypts_after_audit() {
    let (m, a0) = get_value_internal(s("u/a/b"), false);
    assert_eq!(a0, Action::LoadValue(s("u/a/b")));
    let (m, a) = m.step(Event::Stored(Some(stored(true, "C"))));
    assert_eq!(a, audit("variables.decrypt_secret", AuditKind::Execute, "u/a/b"));
    let (m, a) = m.step(Event::Done);
    assert_eq!(a, Action::Commit);
    let (m, a) = m.step(Event::Done);
    assert_eq!(a, Action::BuildCrypt);
    let (m, a) = m.step(Event::Done);
    assert_eq!(a, Action::Decrypt(s("C")));
    assert_eq!(m.step(text("plain")).1, Action::Finish(Ok(s("plain"))));
}

#[test]
fn get_value_of_empty_secret_is_empty() {
    let (m, _) = get_value_internal(s("u/a/b"), false);
    let (m, _) = m.step(Event::Stored(Some(stored(true, ""))));
    assert_eq!(m.step(Event::Done).1, Action::Finish(Ok(s(""))));
}

#[test]
fn get_value_of_expired_token() {
    let row = StoredRow { path: s("u/a/b"), is_secret: true, value: s("C"), is_expired: Some(true), account: Some(4) };
    let (m, _) = get_value_internal(s("u/a/b"), true);
    let (m, _) = m.step(Event::Stored(Some(row.clone_row())));
    let (m, a) = m.step(Event::Done);
    assert_eq!(a, Action::RefreshToken { path: s("u/a/b"), account: 4 });
    assert_eq!(m.step(text("tok")).1, Action::Finish(Ok(s("tok"))));
    let (m, _) = get_value_internal(s("u/a/b"), false);
    let (m, _) = m.step(Event::Stored(Some(row)));
    assert_eq!(m.step(Event::Done).1, Action::Finish(Err(ApiError::Internal(s("Require oauth2 feature")))));
}

trait CloneRow {
    fn clone_row(&self) -> StoredRow;
}

impl CloneRow for StoredRow {
    fn clone_row(&self) -> StoredRow {
        StoredRow {
            path: self.path.clone(),
            is_secret: self.is_secret,
            value: self.value.clone(),
            is_expired: self.is_expired,
            account: self.account,
        }
    }
}

#[test]
fn get_value_of_missing_variable_explains() {
    let (m, _) = get_value_internal(s("u/a/b"), false);
    let (m, a) = m.step(Event::Stored(None));
    assert_eq!(a, Action::LoadVariablePerms(s("u/a/b")));
    assert_eq!(m.step(Event::Perms(None)).1, Action::Finish(Err(ApiError::NotFound(s("Variable u/a/b not found")))));
    let (m, _) = get_value_internal(s("u/a/b"), false);
    let (m, _) = m.step(Event::Stored(None));
    assert_eq!(
        m.step(Event::Perms(Some(Json::Object(vec![])))).1,
        Action::Finish(Err(ApiError::NotAuthorized(s("Variable exists but you don't have access to it:\nvariable perms: {}"))))
    );
}

#[test]
fn refused_folder_variable_shows_folder_perms() {
    let (m, _) = get_value_internal(s("f/team/db"), false);
    let (m, _) = m.step(Event::Stored(None));
    let (m, a) = m.step(Event::Perms(Some(perms())));
    assert_eq!(a, Action::LoadFolderPerms(s("team")));
    assert_eq!(
        m.step(Event::FolderPerms(None)).1,
        Action::Finish(Err(ApiError::NotAuthorized(s(
            "Variable exists but you don't have access to it:\nvariable perms: {\n  \"g/x\": true\n}\nfolder perms: null"
        ))))
    );
}

fn perms() -> Json {
    Json::Object(vec![Member { key: s("g/x"), value: Json::Bool(true) }])
}

#[test]
fn refused_folder_variable_prints_folder_perms_as_pretty_json() {
    let (m, _) = get_value_internal(s("f/team/db"), false);
    let (m, _) = m.step(Event::Stored(None));
    let (m, _) = m.step(Event::Perms(Some(perms())));
    let folder = Json::Object(vec![Member {
        key: s("u/ann"),
        value: Json::Array(vec![Json::Number(s("1.5")), Json::Str(s("a\"b")), Json::Null]),
    }]);
    assert_eq!(
        m.step(Event::FolderPerms(Some(folder))).1,
        Action::Finish(Err(ApiError::NotAuthorized(s(
            "Variable exists but you don't have access to it:\nvariable perms: {\n  \"g/x\": true\n}\nfolder perms: {\n  \"u/ann\": [\n    1.5,\n    \"a\\\"b\",\n    null\n  ]\n}"
        ))))
    );
}

fn listed(secret: bool, value: Option<&str>) -> ListedRow {
    ListedRow { path: s("u/a/b"), is_secret: secret, value: value.map(s), is_expired: None, account: None }
}

#[test]
fn get_variable_plain_comes_back_unchanged() {
    let (m, a0) = get_variable(s("u/a/b"), false, None, None);
    assert_eq!(a0, Action::CheckScopes(s("variables:read:u/a/b")));
    let (m, _) = m.step(Event::Done);
    let (m, a) = m.step(Event::Done);
    assert_eq!(a, Action::LoadListable(s("u/a/b")));
    assert_eq!(m.step(Event::Listed(Some(listed(false, Some("v"))))).1, Action::Finish(Ok(VariableReply::Unchanged)));
}

#[test]
fn get_variable_secret_is_decrypted_by_default() {
    let (m, _) = get_variable(s("u/a/b"), false, None, None);
    let (m, _) = m.step(Event::Done);
    let (m, _) = m.step(Event::Done);
    let (m, a) = m.step(Event::Listed(Some(listed(true, Some("C")))));
    assert_eq!(a, audit("variables.decrypt_secret", AuditKind::Execute, "u/a/b"));
    let (m, a) = m.step(Event::Done);
    assert_eq!(a, Action::CommitIgnoringError);
    let (m, a) = m.step(Event::Failed(fail("commit")));
    assert_eq!(a, Action::BuildCrypt);
    let (m, a) = m.step(Event::Done);
    assert_eq!(a, Action::Decrypt(s("C")));
    assert_eq!(m.step(text("p")).1, Action::Finish(Ok(VariableReply::Value(Some(s("p"))))));
}

#[test]
fn get_variable_secret_withheld_without_decryption() {
    let (m, _) = get_variable(s("u/a/b"), false, Some(false), None);
    let (m, _) = m.step(Event::Done);
    let (m, _) = m.step(Event::Done);
    assert_eq!(m.step(Event::Listed(Some(listed(true, Some("C"))))).1, Action::Finish(Ok(VariableReply::Value(None))));
    let (m, _) = get_variable(s("u/a/b"), false, Some(false), Some(true));
    let (m, _) = m.step(Event::Done);
    let (m, _) = m.step(Event::Done);
    assert_eq!(
        m.step(Event::Listed(Some(listed(true, Some("C"))))).1,
        Action::Finish(Ok(VariableReply::Value(Some(s("C")))))
    );
}

#[test]
fn get_variable_empty_secret_gives_stored_text_when_asked() {
    let (m, _) = get_variable(s("u/a/b"), false, Some(true), Some(true));
    let (m, _) = m.step(Event::Done);
    let (m, _) = m.step(Event::Done);
    let (m, _) = m.step(Event::Listed(Some(listed(true, None))));
    assert_eq!(m.step(Event::Done).1, Action::Finish(Ok(VariableReply::Value(Some(s(""))))));
}

#[test]
fn get_variable_or_self_passes_plain_values() {
    let (_, a) = get_variable_or_self(s("postgres://x"));
    assert_eq!(a, Action::Finish(Ok(s("postgres://x"))));
}

#[test]
fn get_variable_or_self_resolves_references() {
    let (m, a) = get_variable_or_self(s("$var:u/a/b"));
    assert_eq!(a, Action::LoadStored(s("u/a/b")));
    assert_eq!(m.step(Event::Stored(Some(stored(false, "v")))).1, Action::Finish(Ok(s("v"))));
    let (m, _) = get_variable_or_self(s("$var:u/a/b"));
    let (m, a) = m.step(Event::Stored(Some(stored(true, "C"))));
    assert_eq!(a, Action::BuildCrypt);
    let (m, a) = m.step(Event::Done);
    assert_eq!(a, Action::Decrypt(s("C")));
    assert_eq!(m.step(text("p")).1, Action::Finish(Ok(s("p"))));
    let (m, _) = get_variable_or_self(s("$var:u/a/b"));
    assert_eq!(
        m.step(Event::Stored(None)).1,
        Action::Finish(Err(ApiError::NotFound(s("Variable not found when resolving `$var:u/a/b`"))))
    );
}

// ---------------------------------------------------------------- service

#[test]
fn routes_of_the_service() {
    let r = workspaced_service();
    let got: Vec<(HttpMethod, String, Endpoint)> = r.into_iter().map(|x| (x.method, x.pattern, x.endpoint)).collect();
    assert_eq!(
        got,
        vec![
            (HttpMethod::Get, s("/list"), Endpoint::List),
            (HttpMethod::Get, s("/list_contextual"), Endpoint::ListContextual),
            (HttpMethod::Get, s("/get/*path"), Endpoint::Get),
            (HttpMethod::Get, s("/get_value/*path"), Endpoint::GetValue),
            (HttpMethod::Get, s("/exists/*path"), Endpoint::Exists),
            (HttpMethod::Post, s("/update/*path"), Endpoint::Update),
            (HttpMethod::Delete, s("/delete/*path"), Endpoint::Delete),
            (HttpMethod::Post, s("/create"), Endpoint::Create),
            (HttpMethod::Post, s("/encrypt"), Endpoint::Encrypt),
        ]
    );
}

#[test]
fn listing_bindings() {
    let q = list_variables(s("admin"), None, 100, 200);
    assert_eq!((q.username.as_str(), q.path_start.as_str(), q.limit, q.offset), ("admin", "", 100, 200));
    let q = list_variables(s("admin"), Some(s("f/")), 10, 0);
    assert_eq!(q.path_start, "f/");
}

#[test]
fn contextual_example_context() {
    let c = list_contextual_variables("alice");
    assert_eq!(c.permissioned_as, "u/alice");
    assert_eq!(c.token, "q1A0qcPuO00yxioll7iph76N9CJDqn");
    assert_eq!(c.flow_step_id, Some(s("c")));
}

#[test]
fn nothing_runs_before_the_scope_check_passes() {
    let (m, _) = update_variable(s("ws"), s("u/a/b"), edit(), None);
    assert_eq!(drive_update(m, vec![Event::Failed(fail("scope"))]), vec![Action::Finish(Err(fail("scope")))]);
    let (m, _) = create_variable(new_var(true), None, true);
    assert_eq!(
        drive_create(m, vec![Event::Flag(Some(false))]),
        vec![Action::Finish(Err(ApiError::Internal(s("unexpected reply"))))]
    );
    let (m, _) = delete_variable(s("u/a/b"));
    assert_eq!(m.step(Event::Failed(fail("denied"))).1, Action::Finish(Err(fail("denied"))));
}

#[test]
fn a_plain_value_written_is_read_back() {
    // the create stores exactly the sent text ...
    let (m, _) = create_variable(new_var(false), None, false);
    let acts = drive_create(m, vec![Event::Done, Event::Done, Event::Flag(Some(false)), Event::Done]);
    let stored_text = match &acts[3] {
        Action::InsertVariable { value, .. } => value.clone(),
        other => panic!("unexpected {:?}", other),
    };
    // ... and the value endpoint answers with the stored text
    let (m, _) = get_value_internal(s("u/admin/db"), false);
    let row = StoredRow { path: s("u/admin/db"), is_secret: false, value: stored_text, is_expired: None, account: None };
    assert_eq!(m.step(Event::Stored(Some(row))).1, Action::Finish(Ok(s("hunter2"))));
}

#[test]
fn a_secret_written_is_decrypted_by_the_detail_endpoint() {
    // the create stores the cipher of the sent value ...
    let (m, _) = create_variable(new_var(true), None, false);
    let acts = drive_create(m, vec![Event::Done, Event::Done, Event::Flag(None), Event::Done, text("CIPHER"), Event::Done]);
    let stored_text = match &acts[5] {
        Action::InsertVariable { value, .. } => value.clone(),
        other => panic!("unexpected {:?}", other),
    };
    assert_eq!(stored_text, "CIPHER");
    // ... and the detail endpoint asks to decrypt exactly that text, answering with the plain text
    let (m, _) = get_variable(s("u/admin/db"), false, None, None);
    let (m, _) = m.step(Event::Done);
    let (m, _) = m.step(Event::Done);
    let row = ListedRow { path: s("u/admin/db"), is_secret: true, value: Some(stored_text), is_expired: None, account: None };
    let (m, _) = m.step(Event::Listed(Some(row)));
    let (m, _) = m.step(Event::Done);
    let (m, _) = m.step(Event::Done);
    let (m, a) = m.step(Event::Done);
    assert_eq!(a, Action::Decrypt(s("CIPHER")));
    assert_eq!(m.step(text("hunter2")).1, Action::Finish(Ok(VariableReply::Value(Some(s("hunter2"))))));
}

#[test]
fn value_and_detail_reads_agree_when_commits_succeed() {
    // value endpoint
    let (m, _) = get_value_internal(s("u/a/b"), false);
    let (m, _) = m.step(Event::Stored(Some(stored(true, "C"))));
    let (m, _) = m.step(Event::Done);
    let (m, _) = m.step(Event::Done);
    let (m, _) = m.step(Event::Done);
    let by_value = m.step(text("p")).1;
    // detail endpoint, same row and same replies
    let (m, _) = get_variable(s("u/a/b"), false, None, None);
    let (m, _) = m.step(Event::Done);
    let (m, _) = m.step(Event::Done);
    let (m, _) = m.step(Event::Listed(Some(listed(true, Some("C")))));
    let (m, _) = m.step(Event::Done);
    let (m, _) = m.step(Event::Done);
    let (m, _) = m.step(Event::Done);
    let by_detail = m.step(text("p")).1;
    assert_eq!(by_value, Action::Finish(Ok(s("p"))));
    assert_eq!(by_detail, Action::Finish(Ok(VariableReply::Value(Some(s("p"))))));
}

#[test]
fn two_deletes_answer_alike() {
    let run = || {
        let (mut m, _) = delete_variable(s("u/a/b"));
        let mut last = None;
        for _ in 0..8 {
            let (m2, a) = m.step(Event::Done);
            m = m2;
            last = Some(a);
        }
        last
    };
    assert_eq!(run(), run());
    assert_eq!(run(), Some(Action::Finish(Ok(s("variable u/a/b deleted")))));
}

#[test]
fn exists_reports_the_row_the_probe_found() {
    let (m, _) = exists_variable(s("u/admin/db"));
    assert_eq!(m.step(Event::Flag(Some(true))).1, Action::Finish(Ok(true)));
    let (m, _) = exists_variable(s("u/admin/db"));
    assert_eq!(m.step(Event::Flag(Some(false))).1, Action::Finish(Ok(false)));
}
