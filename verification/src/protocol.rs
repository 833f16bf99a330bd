use vstd::prelude::*;
use crate::json::{Json, JsonV};

verus! {

/// The text of an optional string.
pub open spec fn opt_text(o: Option<String>) -> Option<Seq<char>> {
    match o {
        Some(s) => Some(s@),
        None => None,
    }
}

/// The value of an optional document.
pub open spec fn opt_json(o: Option<Json>) -> Option<JsonV> {
    match o {
        Some(j) => Some(j@),
        None => None,
    }
}

/// The errors the endpoints answer with.
#[derive(Debug, PartialEq)]
pub enum ApiError {
    NotFound(String),
    BadRequest(String),
    NotAuthorized(String),
    Internal(String),
    /// A row the statement should have returned is missing: the `kind` of
    /// object and the `name` it was looked up by.
    Missing { kind: String, name: String },
    /// An error that outside work (database, crypto, permission checks)
    /// reported, carried unchanged.
    Outside(String),
}

pub enum ApiErrorV {
    NotFound(Seq<char>),
    BadRequest(Seq<char>),
    NotAuthorized(Seq<char>),
    Internal(Seq<char>),
    Missing { kind: Seq<char>, name: Seq<char> },
    Outside(Seq<char>),
}

impl View for ApiError {
    type V = ApiErrorV;

    open spec fn view(&self) -> ApiErrorV {
        match self {
            ApiError::NotFound(m) => ApiErrorV::NotFound(m@),
            ApiError::BadRequest(m) => ApiErrorV::BadRequest(m@),
            ApiError::NotAuthorized(m) => ApiErrorV::NotAuthorized(m@),
            ApiError::Internal(m) => ApiErrorV::Internal(m@),
            ApiError::Missing { kind, name } => ApiErrorV::Missing { kind: kind@, name: name@ },
            ApiError::Outside(m) => ApiErrorV::Outside(m@),
        }
    }
}

/// The kind of action an audit record logs.
#[derive(Debug, PartialEq, Eq, Structural, Clone, Copy)]
pub enum AuditKind {
    Execute,
    Create,
    Update,
    Delete,
}

/// What the workspace's webhook is told.
#[derive(Debug, PartialEq)]
pub enum Notice {
    Created { path: String },
    Deleted { path: String },
    Updated { old_path: String, new_path: String },
}

pub enum NoticeV {
    Created { path: Seq<char> },
    Deleted { path: Seq<char> },
    Updated { old_path: Seq<char>, new_path: Seq<char> },
}

impl View for Notice {
    type V = NoticeV;

    open spec fn view(&self) -> NoticeV {
        match self {
            Notice::Created { path } => NoticeV::Created { path: path@ },
            Notice::Deleted { path } => NoticeV::Deleted { path: path@ },
            Notice::Updated { old_path, new_path } => NoticeV::Updated {
                old_path: old_path@,
                new_path: new_path@,
            },
        }
    }
}

/// The outside work an endpoint asks for next, or its answer. Every
/// statement runs in the endpoint's workspace.
#[derive(Debug, PartialEq)]
pub enum Action<R> {
    /// Check that the caller's token grants this scope.
    CheckScopes(String),
    /// Refresh the caller's folder memberships for this path.
    RefreshFolders(String),
    /// Open a transaction as the caller.
    BeginTx,
    /// Commit the transaction.
    Commit,
    /// Commit the transaction, whatever comes of it.
    CommitIgnoringError,
    /// Count the workspace's variables.
    CountVariables,
    /// Whether a variable exists at this path.
    PathTaken(String),
    /// The variable at this path with its account's state, as the caller sees it.
    LoadListable(String),
    /// The variable's value, secret flag and account state, as the caller sees it.
    LoadValue(String),
    /// The variable's value and secret flag, read without the caller's rights.
    LoadStored(String),
    /// The extra permissions of the variable at this path.
    LoadVariablePerms(String),
    /// The extra permissions of this folder.
    LoadFolderPerms(String),
    /// The secret flag of the variable at this path.
    LoadSecretFlag(String),
    /// The account of the variable at this path.
    LoadAccount(String),
    /// Check that the caller owns this path.
    RequireOwner(String),
    /// The value of the resource at this path.
    LoadResource(String),
    /// Move the resource at `path` to `new_path` with this value.
    MoveResource { path: String, new_path: String, value: Option<Json> },
    /// Run this update statement; it returns the variable's new path.
    RunUpdate(String),
    /// Whether a variable still refers to this account.
    AccountInUse(i32),
    /// Delete this account.
    DeleteAccount(i32),
    /// Insert a variable row with these columns; `expires_at` is in
    /// microseconds since the Unix epoch.
    InsertVariable {
        path: String,
        value: String,
        is_secret: bool,
        description: String,
        account: Option<i32>,
        is_oauth: bool,
        expires_at: Option<i64>,
    },
    /// Delete the variable at this path.
    DeleteVariable(String),
    /// Delete the resource at this path.
    DeleteResource(String),
    /// Log an audit record.
    Audit { operation: String, kind: AuditKind, path: String },
    /// Build the workspace's crypt key.
    BuildCrypt,
    /// Encrypt this text with the key.
    Encrypt(String),
    /// Decrypt this text with the key.
    Decrypt(String),
    /// Refresh the OAuth token of the variable at `path` through `account`.
    RefreshToken { path: String, account: i32 },
    /// Record the deployment of a variable for git sync.
    RecordDeployment { path: String, parent_path: Option<String>, message: Option<String> },
    /// Tell the workspace's webhook.
    Notify(Notice),
    /// The endpoint's answer.
    Finish(Result<R, ApiError>),
}

pub enum ActionV<R> {
    CheckScopes(Seq<char>),
    RefreshFolders(Seq<char>),
    BeginTx,
    Commit,
    CommitIgnoringError,
    CountVariables,
    PathTaken(Seq<char>),
    LoadListable(Seq<char>),
    LoadValue(Seq<char>),
    LoadStored(Seq<char>),
    LoadVariablePerms(Seq<char>),
    LoadFolderPerms(Seq<char>),
    LoadSecretFlag(Seq<char>),
    LoadAccount(Seq<char>),
    RequireOwner(Seq<char>),
    LoadResource(Seq<char>),
    MoveResource { path: Seq<char>, new_path: Seq<char>, value: Option<JsonV> },
    RunUpdate(Seq<char>),
    AccountInUse(i32),
    DeleteAccount(i32),
    InsertVariable {
        path: Seq<char>,
        value: Seq<char>,
        is_secret: bool,
        description: Seq<char>,
        account: Option<i32>,
        is_oauth: bool,
        expires_at: Option<i64>,
    },
    DeleteVariable(Seq<char>),
    DeleteResource(Seq<char>),
    Audit { operation: Seq<char>, kind: AuditKind, path: Seq<char> },
    BuildCrypt,
    Encrypt(Seq<char>),
    Decrypt(Seq<char>),
    RefreshToken { path: Seq<char>, account: i32 },
    RecordDeployment { path: Seq<char>, parent_path: Option<Seq<char>>, message: Option<Seq<char>> },
    Notify(NoticeV),
    Finish(Result<R, ApiErrorV>),
}

impl<R: View> View for Action<R> {
    type V = ActionV<R::V>;

    open spec fn view(&self) -> ActionV<R::V> {
        match self {
            Action::CheckScopes(s) => ActionV::CheckScopes(s@),
            Action::RefreshFolders(s) => ActionV::RefreshFolders(s@),
            Action::BeginTx => ActionV::BeginTx,
            Action::Commit => ActionV::Commit,
            Action::CommitIgnoringError => ActionV::CommitIgnoringError,
            Action::CountVariables => ActionV::CountVariables,
            Action::PathTaken(s) => ActionV::PathTaken(s@),
            Action::LoadListable(s) => ActionV::LoadListable(s@),
            Action::LoadValue(s) => ActionV::LoadValue(s@),
            Action::LoadStored(s) => ActionV::LoadStored(s@),
            Action::LoadVariablePerms(s) => ActionV::LoadVariablePerms(s@),
            Action::LoadFolderPerms(s) => ActionV::LoadFolderPerms(s@),
            Action::LoadSecretFlag(s) => ActionV::LoadSecretFlag(s@),
            Action::LoadAccount(s) => ActionV::LoadAccount(s@),
            Action::RequireOwner(s) => ActionV::RequireOwner(s@),
            Action::LoadResource(s) => ActionV::LoadResource(s@),
            Action::MoveResource { path, new_path, value } => ActionV::MoveResource {
                path: path@,
                new_path: new_path@,
                value: opt_json(*value),
            },
            Action::RunUpdate(s) => ActionV::RunUpdate(s@),
            Action::AccountInUse(a) => ActionV::AccountInUse(*a),
            Action::DeleteAccount(a) => ActionV::DeleteAccount(*a),
            Action::InsertVariable { path, value, is_secret, description, account, is_oauth, expires_at } => {
                ActionV::InsertVariable {
                    path: path@,
                    value: value@,
                    is_secret: *is_secret,
                    description: description@,
                    account: *account,
                    is_oauth: *is_oauth,
                    expires_at: *expires_at,
                }
            },
            Action::DeleteVariable(s) => ActionV::DeleteVariable(s@),
            Action::DeleteResource(s) => ActionV::DeleteResource(s@),
            Action::Audit { operation, kind, path } => ActionV::Audit {
                operation: operation@,
                kind: *kind,
                path: path@,
            },
            Action::BuildCrypt => ActionV::BuildCrypt,
            Action::Encrypt(s) => ActionV::Encrypt(s@),
            Action::Decrypt(s) => ActionV::Decrypt(s@),
            Action::RefreshToken { path, account } => ActionV::RefreshToken {
                path: path@,
                account: *account,
            },
            Action::RecordDeployment { path, parent_path, message } => ActionV::RecordDeployment {
                path: path@,
                parent_path: opt_text(*parent_path),
                message: opt_text(*message),
            },
            Action::Notify(n) => ActionV::Notify(n@),
            Action::Finish(r) => ActionV::Finish(
                match r {
                    Ok(v) => Ok(v@),
                    Err(e) => Err(e@),
                },
            ),
        }
    }
}

/// What a variable row holds as the listing and detail queries return it.
#[derive(Debug, PartialEq)]
pub struct ListedRow {
    pub path: String,
    pub is_secret: bool,
    pub value: Option<String>,
    pub is_expired: Option<bool>,
    pub account: Option<i32>,
}

/// What a variable row holds as the value queries return it.
#[derive(Debug, PartialEq)]
pub struct StoredRow {
    pub path: String,
    pub is_secret: bool,
    pub value: String,
    pub is_expired: Option<bool>,
    pub account: Option<i32>,
}

/// How the outside work asked for went.
#[derive(Debug, PartialEq)]
pub enum Event {
    /// The work succeeded with nothing to report.
    Done,
    /// The work failed.
    Failed(ApiError),
    /// A yes/no answer, where the query returned one.
    Flag(Option<bool>),
    /// A count, where the query returned one.
    Count(Option<i64>),
    /// A text: a value encrypted or decrypted, a token refreshed.
    Text(String),
    /// The path the update statement returned, where it returned a row.
    Returned(Option<String>),
    /// The account a variable refers to, where it has one.
    Account(Option<i32>),
    /// A variable's extra permissions, where the variable exists.
    Perms(Option<Json>),
    /// A folder's extra permissions, where the folder exists.
    FolderPerms(Option<Json>),
    /// The variable the detail query returned.
    Listed(Option<ListedRow>),
    /// The variable the value query returned.
    Stored(Option<StoredRow>),
    /// The value of the resource, where it has one.
    Resource(Option<Json>),
}

} // verus!
