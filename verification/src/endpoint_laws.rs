use vstd::prelude::*;
use crate::laws::{create_run, create_step, update_run, update_start, value_step, variable_step};
use crate::protocol::{opt_json, ActionV, AuditKind, Event, ListedRow};
use crate::read::{token_expired, ValuePhase, ValueReader, VariablePhase, VariableReader, VariableReplyV};
use crate::update::{update_sets, update_step, update_text, EditVariable, VariableUpdate};
use crate::write::{encrypts, VariableCreate};
use crate::json::replaced;
use crate::naming::reference_to;

verus! {

/// The read endpoints read the row at exactly the path they were called
/// with: once the scope check passed and the transaction is open, the
/// value endpoint asks to load that path, and so does the detail endpoint
/// whatever its query flags, for every path.
pub proof fn law_reads_load_their_path(
    path: String,
    oauth2: bool,
    decrypt_secret: Option<bool>,
    include_encrypted: Option<bool>,
)
    ensures
        ({
            let r0 = ValueReader { path, oauth2, phase: ValuePhase::Scopes };
            let (r1, b1) = value_step(r0, Event::Done);
            let (r2, b2) = value_step(r1, Event::Done);
            &&& b1 == ActionV::<Seq<char>>::BeginTx
            &&& b2 == ActionV::<Seq<char>>::LoadValue(path@)
        }),
        ({
            let m0 = VariableReader { path, oauth2, decrypt_secret, include_encrypted, phase: VariablePhase::Scopes };
            let (m1, a1) = variable_step(m0, Event::Done);
            let (m2, a2) = variable_step(m1, Event::Done);
            &&& a1 == ActionV::<VariableReplyV>::BeginTx
            &&& a2 == ActionV::<VariableReplyV>::LoadListable(path@)
        }),
{
}

/// The detail endpoint decrypts a secret whenever the caller did not
/// decline it (`decrypt_secret` absent or true): for a secret whose token
/// has not expired and whose stored text is not empty, it logs the
/// decryption, commits (whatever the commit answers), asks for the key,
/// decrypts exactly the stored text and answers what the decryption gave
/// back, whatever `include_encrypted` says.
pub proof fn law_detail_decrypts_unless_declined(
    path: String,
    oauth2: bool,
    decrypt_secret: Option<bool>,
    include_encrypted: Option<bool>,
    row: ListedRow,
    commit: Event,
    plain: String,
)
    requires
        decrypt_secret != Some(false),
        row.is_secret,
        !token_expired(row.is_expired, row.account),
        row.value is Some,
        row.value->0@.len() != 0,
        commit is Done || commit is Failed,
    ensures
        ({
            let m0 = VariableReader { path, oauth2, decrypt_secret, include_encrypted, phase: VariablePhase::Scopes };
            let (m1, a1) = variable_step(m0, Event::Done);
            let (m2, a2) = variable_step(m1, Event::Done);
            let (m3, a3) = variable_step(m2, Event::Listed(Some(row)));
            let (m4, a4) = variable_step(m3, Event::Done);
            let (m5, a5) = variable_step(m4, commit);
            let (m6, a6) = variable_step(m5, Event::Done);
            let (m7, a7) = variable_step(m6, Event::Text(plain));
            &&& a1 == ActionV::<VariableReplyV>::BeginTx
            &&& a2 == ActionV::<VariableReplyV>::LoadListable(path@)
            &&& a3 == ActionV::<VariableReplyV>::Audit {
                operation: "variables.decrypt_secret"@,
                kind: AuditKind::Execute,
                path: row.path@,
            }
            &&& a4 == ActionV::<VariableReplyV>::CommitIgnoringError
            &&& a5 == ActionV::<VariableReplyV>::BuildCrypt
            &&& a6 == ActionV::<VariableReplyV>::Decrypt(row.value->0@)
            &&& a7 == ActionV::<VariableReplyV>::Finish(Ok(VariableReplyV::Value(Some(plain@))))
        }),
{
}

/// The update as it runs when the caller's value is stored as sent.
pub open spec fn with_value_as_sent(m0: VariableUpdate) -> VariableUpdate {
    VariableUpdate { stored_value: m0.edit.value, ..m0 }
}

pub open spec fn plain_update_inv(m0: VariableUpdate, m: VariableUpdate, asked: Seq<ActionV<Seq<char>>>) -> bool {
    &&& m.workspace == m0.workspace && m.path == m0.path && m.edit == m0.edit
    &&& m.already_encrypted == m0.already_encrypted
    &&& !(m.phase is ValueFlag || m.phase is ValueKeyed || m.phase is ValueSealed)
    &&& (m.phase is Scopes || m.phase is Refreshed) ==> m.stored_value is None
    &&& !(m.phase is Scopes || m.phase is Refreshed || m.phase is Finished) ==> m.stored_value == m0.edit.value
    &&& forall|k: int| 0 <= k < asked.len() ==> {
        &&& !(#[trigger] asked[k] is BuildCrypt)
        &&& !(asked[k] is Encrypt)
        &&& asked[k] is RunUpdate ==> asked[k]->RunUpdate_0 == update_text(with_value_as_sent(m0))
    }
}

proof fn lemma_plain_update_run(m0: VariableUpdate, events: Seq<Event>)
    requires
        m0.phase is Scopes,
        m0.stored_value is None,
        m0.edit.is_secret matches Some(b) && !encrypts(b, m0.already_encrypted),
    ensures
        plain_update_inv(m0, update_run(m0, events).0, update_run(m0, events).1),
    decreases events.len(),
{
    if events.len() > 0 {
        let prefix = events.drop_last();
        lemma_plain_update_run(m0, prefix);
        let (m1, asked) = update_run(m0, prefix);
        let (m2, a) = update_step(m1, events.last());
        let all = asked.push(a);
        assert(update_run(m0, events) == (m2, all));
        if a is RunUpdate {
            assert(update_sets(m1) == update_sets(with_value_as_sent(m0)));
        }
        assert forall|k: int| 0 <= k < all.len() implies {
            &&& !(#[trigger] all[k] is BuildCrypt)
            &&& !(all[k] is Encrypt)
            &&& all[k] is RunUpdate ==> all[k]->RunUpdate_0 == update_text(with_value_as_sent(m0))
        } by {
            if k < asked.len() {
                assert(all[k] == asked[k]);
            }
        }
    }
}

/// An update that says whether the variable is secret, and for which that
/// answer means no encryption (the variable is to be plain, or the caller
/// sent the value encrypted already), stores the caller's value exactly as
/// sent: in every run, nothing is ever encrypted and each update statement
/// it runs sets the value column to the caller's value, whatever the
/// stored secret flag says.
pub proof fn law_update_with_plain_flag_stores_value_as_sent(
    workspace: String,
    path: String,
    edit: EditVariable,
    already_encrypted: Option<bool>,
    events: Seq<Event>,
)
    requires
        edit.is_secret == Some(false) || (edit.is_secret == Some(true) && already_encrypted == Some(true)),
    ensures
        ({
            let m0 = update_start(workspace, path, edit, already_encrypted);
            let asked = update_run(m0, events).1;
            &&& forall|k: int| 0 <= k < asked.len() ==> !(#[trigger] asked[k] is BuildCrypt) && !(asked[k] is Encrypt)
            &&& forall|k: int| 0 <= k < asked.len() && #[trigger] asked[k] is RunUpdate
                ==> asked[k]->RunUpdate_0 == update_text(with_value_as_sent(m0))
            &&& edit.value matches Some(v) ==> update_sets(with_value_as_sent(m0)).contains(("value"@, v@))
        }),
{
    let m0 = update_start(workspace, path, edit, already_encrypted);
    lemma_plain_update_run(m0, events);
    let asked = update_run(m0, events).1;
    assert forall|k: int| 0 <= k < asked.len() implies !(#[trigger] asked[k] is BuildCrypt) && !(asked[k] is Encrypt) by {}
    if edit.value is Some {
        crate::laws::lemma_value_is_set(with_value_as_sent(m0), edit.value->0);
    }
}

/// Before `k`, the run asked for an insert and, after it, for a commit.
pub open spec fn commit_after_insert<R>(asked: Seq<ActionV<R>>, k: int) -> bool {
    exists|i: int, j: int| 0 <= i < j < k && #[trigger] asked[i] is InsertVariable && #[trigger] asked[j] is Commit
}

pub open spec fn inserted_before<R>(asked: Seq<ActionV<R>>, k: int) -> bool {
    exists|i: int| 0 <= i < k && #[trigger] asked[i] is InsertVariable
}

pub open spec fn create_commit_inv(m: VariableCreate, asked: Seq<ActionV<Seq<char>>>) -> bool {
    &&& (m.phase is Inserted || m.phase is Audited) ==> inserted_before(asked, asked.len() as int)
    &&& (m.phase is Committed || m.phase is Deployed || m.phase is Notified) ==> commit_after_insert(asked, asked.len() as int)
    &&& forall|k: int| 0 <= k < asked.len() && #[trigger] asked[k] is Finish && asked[k]->Finish_0 is Ok
        ==> commit_after_insert(asked, k)
}

proof fn lemma_create_commit_run(m0: VariableCreate, events: Seq<Event>)
    requires
        m0.phase is Scopes,
    ensures
        create_commit_inv(create_run(m0, events).0, create_run(m0, events).1),
    decreases events.len(),
{
    if events.len() > 0 {
        let prefix = events.drop_last();
        lemma_create_commit_run(m0, prefix);
        let (m1, asked) = create_run(m0, prefix);
        let (m2, a) = create_step(m1, events.last());
        let all = asked.push(a);
        let n = asked.len() as int;
        assert(create_run(m0, events) == (m2, all));
        if inserted_before(asked, n) {
            let i = choose|i: int| 0 <= i < n && #[trigger] asked[i] is InsertVariable;
            assert(all[i] == asked[i]);
            assert(inserted_before(all, n + 1));
        }
        if commit_after_insert(asked, n) {
            let (i, j) = choose|i: int, j: int| 0 <= i < j < n && #[trigger] asked[i] is InsertVariable && #[trigger] asked[j] is Commit;
            assert(all[i] == asked[i]);
            assert(all[j] == asked[j]);
            assert(commit_after_insert(all, n + 1));
            assert(commit_after_insert(all, n));
        }
        if m2.phase is Inserted {
            assert(all[n] is InsertVariable);
            assert(inserted_before(all, n + 1));
        }
        if m2.phase is Committed && m1.phase is Audited {
            let i = choose|i: int| 0 <= i < n && #[trigger] asked[i] is InsertVariable;
            assert(all[i] == asked[i]);
            assert(all[n] is Commit);
            assert(commit_after_insert(all, n + 1));
        }
        assert forall|k: int| 0 <= k < all.len() && #[trigger] all[k] is Finish && all[k]->Finish_0 is Ok
            implies commit_after_insert(all, k) by {
            if k < n {
                assert(all[k] == asked[k]);
                let (i, j) = choose|i: int, j: int| 0 <= i < j < k && #[trigger] asked[i] is InsertVariable && #[trigger] asked[j] is Commit;
                assert(all[i] == asked[i]);
                assert(all[j] == asked[j]);
            }
        }
    }
}

/// A create reports success only for a variable it stored: in every run,
/// whatever the replies, an `Ok` answer comes after an insert of the
/// variable and after a commit of the transaction that holds it, for
/// secret and plain variables alike.
pub proof fn law_create_commits_before_success(m0: VariableCreate, events: Seq<Event>)
    requires
        m0.phase is Scopes,
    ensures
        ({
            let asked = create_run(m0, events).1;
            forall|k: int| 0 <= k < asked.len() && #[trigger] asked[k] is Finish && asked[k]->Finish_0 is Ok
                ==> exists|i: int, j: int| 0 <= i < j < k && #[trigger] asked[i] is InsertVariable
                    && #[trigger] asked[j] is Commit
        }),
{
    lemma_create_commit_run(m0, events);
}

/// The resource's value as a move to `np` rewrites it: each `$var:`
/// reference to `path` becomes one to `np`.
pub open spec fn moved_value(e: Event, path: Seq<char>, np: Seq<char>) -> Option<crate::json::JsonV> {
    match e {
        Event::Resource(v) => match opt_json(v) {
            Some(j) => Some(replaced(j, reference_to(path), reference_to(np))),
            None => None,
        },
        _ => None,
    }
}

/// An answer that a path is free.
pub open spec fn free_answer(e: Event) -> bool {
    match e {
        Event::Flag(f) => !f.unwrap_or(false),
        _ => false,
    }
}

/// Before `k`, the run asked whether `np` is taken and was told it is
/// free.
pub open spec fn checked_free(events: Seq<Event>, asked: Seq<ActionV<Seq<char>>>, np: Seq<char>, k: int) -> bool {
    exists|i: int|
        0 <= i && i + 1 < k && i + 1 < events.len() && #[trigger] asked[i] == ActionV::<Seq<char>>::PathTaken(np)
            && free_answer(events[i + 1])
}

/// Before `k`, the run checked that `np` is free and then moved the
/// resource at `path` to `np`, its references rewritten.
pub open spec fn moved_before(events: Seq<Event>, asked: Seq<ActionV<Seq<char>>>, path: Seq<char>, np: Seq<char>, k: int) -> bool {
    exists|j: int|
        0 <= j < k && j < events.len() && checked_free(events, asked, np, j) && #[trigger] asked[j]
            == ActionV::<Seq<char>>::MoveResource { path, new_path: np, value: moved_value(events[j], path, np) }
}

pub open spec fn before_rename(m: VariableUpdate) -> bool {
    m.phase is Scopes || m.phase is Refreshed || m.phase is ValueFlag || m.phase is ValueKeyed || m.phase is ValueSealed
        || m.phase is SecretFlag || m.phase is AccountLoaded || m.phase is Tx
}

pub open spec fn rename_inv(m0: VariableUpdate, m: VariableUpdate, events: Seq<Event>, asked: Seq<ActionV<Seq<char>>>) -> bool {
    let np = m0.edit.path->0@;
    let n = asked.len() as int;
    &&& m.workspace == m0.workspace && m.path == m0.path && m.edit == m0.edit
    &&& asked.len() == events.len()
    &&& m.phase is PathChecked ==> n > 0 && asked[n - 1] == ActionV::<Seq<char>>::PathTaken(np)
    &&& (m.phase is OwnerChecked || m.phase is ResourceLoaded) ==> checked_free(events, asked, np, n + 1)
    &&& m.phase is ResourceMoved ==> moved_before(events, asked, m0.path@, np, n)
    &&& (before_rename(m) || m.phase is PathChecked || m.phase is OwnerChecked || m.phase is ResourceLoaded)
        ==> forall|k: int| 0 <= k < n ==> !(#[trigger] asked[k] is RunUpdate)
    &&& forall|k: int| 0 <= k < n && #[trigger] asked[k] is RunUpdate ==> moved_before(events, asked, m0.path@, np, k)
}

proof fn lemma_checked_free_extends(events: Seq<Event>, asked: Seq<ActionV<Seq<char>>>, np: Seq<char>, k: int, e: Event, a: ActionV<Seq<char>>)
    requires
        asked.len() == events.len(),
        checked_free(events, asked, np, k),
    ensures
        checked_free(events.push(e), asked.push(a), np, k),
{
    let i = choose|i: int|
        0 <= i && i + 1 < k && i + 1 < events.len() && #[trigger] asked[i] == ActionV::<Seq<char>>::PathTaken(np)
            && free_answer(events[i + 1]);
    assert(asked.push(a)[i] == asked[i]);
    assert(events.push(e)[i + 1] == events[i + 1]);
}

proof fn lemma_moved_before_extends(events: Seq<Event>, asked: Seq<ActionV<Seq<char>>>, path: Seq<char>, np: Seq<char>, k: int, e: Event, a: ActionV<Seq<char>>)
    requires
        asked.len() == events.len(),
        moved_before(events, asked, path, np, k),
    ensures
        moved_before(events.push(e), asked.push(a), path, np, k),
{
    let j = choose|j: int|
        0 <= j < k && j < events.len() && checked_free(events, asked, np, j) && #[trigger] asked[j]
            == ActionV::<Seq<char>>::MoveResource { path, new_path: np, value: moved_value(events[j], path, np) };
    lemma_checked_free_extends(events, asked, np, j, e, a);
    assert(asked.push(a)[j] == asked[j]);
    assert(events.push(e)[j] == events[j]);
}

proof fn lemma_rename_run(m0: VariableUpdate, events: Seq<Event>)
    requires
        m0.phase is Scopes,
        m0.edit.path is Some,
        m0.edit.path->0@ != m0.path@,
    ensures
        rename_inv(m0, update_run(m0, events).0, events, update_run(m0, events).1),
    decreases events.len(),
{
    if events.len() > 0 {
        let prefix = events.drop_last();
        lemma_rename_run(m0, prefix);
        let (m1, asked) = update_run(m0, prefix);
        let e = events.last();
        let (m2, a) = update_step(m1, e);
        let all = asked.push(a);
        let n = asked.len() as int;
        let np = m0.edit.path->0@;
        let path = m0.path@;
        assert(update_run(m0, events) == (m2, all));
        assert(prefix.push(e) =~= events);
        if m1.phase is OwnerChecked || m1.phase is ResourceLoaded {
            lemma_checked_free_extends(prefix, asked, np, n + 1, e, a);
        }
        if m1.phase is PathChecked && m2.phase is OwnerChecked {
            assert(all[n - 1] == asked[n - 1]);
            assert(events[n] == e);
            assert(checked_free(events, all, np, n + 2));
        }
        if m1.phase is ResourceMoved {
            lemma_moved_before_extends(prefix, asked, path, np, n, e, a);
        }
        if m1.phase is ResourceLoaded && m2.phase is ResourceMoved {
            assert(all[n] == a);
            assert(events[n] == e);
            assert(moved_before(events, all, path, np, n + 1));
        }
        if m2.phase is PathChecked {
            assert(all[n] == a);
        }
        assert forall|k: int| 0 <= k < all.len() && #[trigger] all[k] is RunUpdate
            implies moved_before(events, all, path, np, k) by {
            if k < n {
                assert(all[k] == asked[k]);
                lemma_moved_before_extends(prefix, asked, path, np, k, e, a);
            } else {
                lemma_moved_before_extends(prefix, asked, path, np, n, e, a);
            }
        }
        if before_rename(m2) || m2.phase is PathChecked || m2.phase is OwnerChecked || m2.phase is ResourceLoaded {
            assert forall|k: int| 0 <= k < all.len() implies !(#[trigger] all[k] is RunUpdate) by {
                if k < n {
                    assert(all[k] == asked[k]);
                }
            }
        }
    }
}

/// Renaming moves what refers to the variable before the variable itself:
/// whenever the edit names a path other than the current one, whatever
/// else it changes, each update statement a run executes comes after the
/// run asked whether the new path is taken, was told it is free, and then
/// moved the resource at the old path to the new one with each `$var:`
/// reference to the old path rewritten to the new one.
pub proof fn law_rename_checks_and_moves_before_updating(
    workspace: String,
    path: String,
    edit: EditVariable,
    already_encrypted: Option<bool>,
    events: Seq<Event>,
)
    requires
        edit.path matches Some(np) && np@ != path@,
    ensures
        ({
            let m0 = update_start(workspace, path, edit, already_encrypted);
            let asked = update_run(m0, events).1;
            forall|k: int| 0 <= k < asked.len() && #[trigger] asked[k] is RunUpdate
                ==> moved_before(events, asked, path@, edit.path->0@, k)
        }),
{
    let m0 = update_start(workspace, path, edit, already_encrypted);
    lemma_rename_run(m0, events);
}

} // verus!
