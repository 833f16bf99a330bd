use vstd::prelude::*;
use crate::json::{mentions, replaced};
use crate::sql::{joined, set_clauses, sql_quoted};
use crate::naming::reference_to;
use crate::protocol::{opt_json, opt_text, ActionV, ApiError, ApiErrorV, Event, ListedRow, StoredRow};
use crate::read::{
    variable_phase_next, resolve_action, resolve_phase_next, ResolvePhase, Resolver, decrypt_audit_v, token_expired, value_action, value_phase_next, variable_action, ExplainPhase,
    PermExplainer, ValuePhase, ValueReader, VariablePhase, VariableReader, VariableReplyV,
};
use crate::text::{second_segment, slash_index};
use crate::update::{
    secret_change_text, update_sets, update_step, update_text, EditVariable, UpdatePhase, VariableUpdate,
};
use crate::write::{
    inserted_row, conflict_text, create_action, create_phase_next, delete_action, encrypts, CreatePhase, DeletePhase,
    NewVariable, VariableCreate, VariableDelete, delete_phase_next, deleted_deploy_text, deleted_text,
    exists_action, ExistsProbe, ProbePhase,
};
use crate::protocol::{AuditKind, NoticeV};

verus! {

/// One step of creating a variable.
pub open spec fn create_step(m: VariableCreate, e: Event) -> (VariableCreate, ActionV<Seq<char>>) {
    (VariableCreate { phase: create_phase_next(m, e), ..m }, create_action(m, e))
}

/// One step of reading a value.
pub open spec fn value_step(m: ValueReader, e: Event) -> (ValueReader, ActionV<Seq<char>>) {
    (ValueReader { phase: value_phase_next(m, e), ..m }, value_action(m, e))
}

/// A create of `var` whose scope check, folder refresh and path check pass
/// stores the caller's value, or, for a secret the caller did not encrypt,
/// the text the encryption of that value gave back.
pub proof fn law_create_stores_value_or_its_cipher(var: NewVariable, already_encrypted: Option<bool>, cipher: String)
    ensures
        ({
            let m0 = VariableCreate { var, already_encrypted, cloud_hosted: false, phase: CreatePhase::Scopes };
            let (m1, a1) = create_step(m0, Event::Done);
            let (m2, a2) = create_step(m1, Event::Done);
            let (m3, a3) = create_step(m2, Event::Flag(Some(false)));
            &&& a1 == ActionV::<Seq<char>>::RefreshFolders(var.path@)
            &&& a2 == ActionV::<Seq<char>>::PathTaken(var.path@)
            &&& if encrypts(var.is_secret, already_encrypted) {
                let (m4, a4) = create_step(m3, Event::Done);
                let (m5, a5) = create_step(m4, Event::Text(cipher));
                let (m6, a6) = create_step(m5, Event::Done);
                &&& a3 == ActionV::<Seq<char>>::BuildCrypt
                &&& a4 == ActionV::<Seq<char>>::Encrypt(var.value@)
                &&& a5 == ActionV::<Seq<char>>::BeginTx
                &&& a6 == inserted_row::<Seq<char>>(var, cipher@)
            } else {
                let (m4, a4) = create_step(m3, Event::Done);
                &&& a3 == ActionV::<Seq<char>>::BeginTx
                &&& a4 == inserted_row::<Seq<char>>(var, var.value@)
            }
        }),
{
}

/// Creating a variable at a path that a variable holds already is refused.
pub proof fn law_create_refuses_taken_path(var: NewVariable, already_encrypted: Option<bool>, cloud_hosted: bool)
    ensures
        create_action(
            VariableCreate { var, already_encrypted, cloud_hosted, phase: CreatePhase::Checked },
            Event::Flag(Some(true)),
        ) == ActionV::<Seq<char>>::Finish(Err(ApiErrorV::BadRequest(conflict_text(var.path@)))),
{
}

/// What a read gives back of a write, for a plain variable: the text the
/// create stores is the text the value endpoint answers.
pub proof fn law_plain_value_reads_back(var: NewVariable, already_encrypted: Option<bool>, row: StoredRow, oauth2: bool)
    requires
        !var.is_secret,
        !row.is_secret,
        row.value@ == var.value@,
    ensures
        ({
            let m0 = VariableCreate { var, already_encrypted, cloud_hosted: false, phase: CreatePhase::Scopes };
            let (m1, a1) = create_step(m0, Event::Done);
            let (m2, a2) = create_step(m1, Event::Done);
            let (m3, a3) = create_step(m2, Event::Flag(Some(false)));
            let (m4, a4) = create_step(m3, Event::Done);
            a4 matches ActionV::InsertVariable { value, .. } && value == var.value@
        }),
        value_action(
            ValueReader { path: row.path, oauth2, phase: ValuePhase::Row },
            Event::Stored(Some(row)),
        ) == ActionV::<Seq<char>>::Finish(Ok(var.value@)),
{
}

/// What a read gives back of a write, for a secret: the value endpoint
/// audits the read, then decrypts exactly the text the create stored, and
/// answers with what the decryption gave back.
pub proof fn law_secret_value_reads_back_through_crypt(
    var: NewVariable,
    cipher: String,
    row: StoredRow,
    plain: String,
    oauth2: bool,
)
    requires
        var.is_secret,
        row.is_secret,
        row.value@ == cipher@,
        cipher@.len() != 0,
        !token_expired(row.is_expired, row.account),
    ensures
        ({
            let m0 = VariableCreate { var, already_encrypted: None, cloud_hosted: false, phase: CreatePhase::Scopes };
            let (m1, a1) = create_step(m0, Event::Done);
            let (m2, a2) = create_step(m1, Event::Done);
            let (m3, a3) = create_step(m2, Event::Flag(Some(false)));
            let (m4, a4) = create_step(m3, Event::Done);
            let (m5, a5) = create_step(m4, Event::Text(cipher));
            let (m6, a6) = create_step(m5, Event::Done);
            a6 matches ActionV::InsertVariable { value, .. } && value == cipher@
        }),
        ({
            let r0 = ValueReader { path: row.path, oauth2, phase: ValuePhase::Row };
            let (r1, b1) = value_step(r0, Event::Stored(Some(row)));
            let (r2, b2) = value_step(r1, Event::Done);
            let (r3, b3) = value_step(r2, Event::Done);
            let (r4, b4) = value_step(r3, Event::Done);
            let (r5, b5) = value_step(r4, Event::Text(plain));
            &&& b1 == decrypt_audit_v::<Seq<char>>(row.path@)
            &&& b2 == ActionV::<Seq<char>>::Commit
            &&& b3 == ActionV::<Seq<char>>::BuildCrypt
            &&& b4 == ActionV::<Seq<char>>::Decrypt(cipher@)
            &&& b5 == ActionV::<Seq<char>>::Finish(Ok(plain@))
        }),
{
}


/// A fresh update of the variable at `path`.
pub open spec fn update_start(workspace: String, path: String, edit: EditVariable, already_encrypted: Option<bool>) -> VariableUpdate {
    VariableUpdate { workspace, path, edit, already_encrypted, stored_value: None, old_account: None, phase: UpdatePhase::Scopes }
}

/// An update may not change whether a variable is secret without giving
/// its value too: it is refused once the stored flag is read, before
/// anything is written.
pub proof fn law_update_secret_flag_needs_value(
    workspace: String,
    path: String,
    edit: EditVariable,
    already_encrypted: Option<bool>,
    stored_flag: Option<bool>,
)
    requires
        edit.value is None,
        edit.is_secret is Some,
        stored_flag.unwrap_or(false) != edit.is_secret->0,
    ensures
        ({
            let m0 = update_start(workspace, path, edit, already_encrypted);
            let (m1, a1) = update_step(m0, Event::Done);
            let (m2, a2) = update_step(m1, Event::Done);
            let (m3, a3) = update_step(m2, Event::Flag(stored_flag));
            &&& a1 == ActionV::<Seq<char>>::RefreshFolders(path@)
            &&& a2 == ActionV::<Seq<char>>::LoadSecretFlag(path@)
            &&& a3 == ActionV::<Seq<char>>::Finish(Err(ApiErrorV::BadRequest(secret_change_text())))
        }),
{
}

/// A new value for a variable that is or becomes a secret is encrypted
/// (unless the caller says it comes encrypted) and the text the encryption
/// gave back is what the value column is set to.
pub proof fn law_update_encrypts_secret_value(
    workspace: String,
    path: String,
    edit: EditVariable,
    already_encrypted: Option<bool>,
    stored_flag: Option<bool>,
    cipher: String,
)
    requires
        edit.value is Some,
        edit.is_secret == Some(true) || (edit.is_secret is None && stored_flag == Some(true)),
        !already_encrypted.unwrap_or(false),
    ensures
        ({
            let m0 = update_start(workspace, path, edit, already_encrypted);
            let (m1, a1) = update_step(m0, Event::Done);
            let (m2, a2) = if edit.is_secret is None {
                update_step(update_step(m1, Event::Done).0, Event::Flag(stored_flag))
            } else {
                update_step(m1, Event::Done)
            };
            let (m3, a3) = update_step(m2, Event::Done);
            let (m4, a4) = update_step(m3, Event::Text(cipher));
            &&& a2 == ActionV::<Seq<char>>::BuildCrypt
            &&& a3 == ActionV::<Seq<char>>::Encrypt(edit.value->0@)
            &&& m4.stored_value == Some(cipher)
            &&& update_sets(m4).contains(("value"@, cipher@))
        }),
{
    let m0 = update_start(workspace, path, edit, already_encrypted);
    let (m1, a1) = update_step(m0, Event::Done);
    let (m2, a2) = if edit.is_secret is None {
        update_step(update_step(m1, Event::Done).0, Event::Flag(stored_flag))
    } else {
        update_step(m1, Event::Done)
    };
    let (m3, a3) = update_step(m2, Event::Done);
    let (m4, a4) = update_step(m3, Event::Text(cipher));
    lemma_value_is_set(m4, cipher);
}

/// A new value for a variable that stays plain is stored as the caller
/// sent it.
pub proof fn law_update_keeps_plain_value(
    workspace: String,
    path: String,
    edit: EditVariable,
    already_encrypted: Option<bool>,
    stored_flag: Option<bool>,
)
    requires
        edit.value is Some,
        edit.is_secret is None,
        !stored_flag.unwrap_or(false),
    ensures
        ({
            let m0 = update_start(workspace, path, edit, already_encrypted);
            let (m1, a1) = update_step(m0, Event::Done);
            let (m2, a2) = update_step(m1, Event::Done);
            let (m3, a3) = update_step(m2, Event::Flag(stored_flag));
            &&& a2 == ActionV::<Seq<char>>::LoadSecretFlag(path@)
            &&& m3.stored_value == edit.value
            &&& update_sets(m3).contains(("value"@, edit.value->0@))
        }),
{
    let m0 = update_start(workspace, path, edit, already_encrypted);
    let (m1, a1) = update_step(m0, Event::Done);
    let (m2, a2) = update_step(m1, Event::Done);
    let (m3, a3) = update_step(m2, Event::Flag(stored_flag));
    lemma_value_is_set(m3, edit.value->0);
}

/// The value column is set to the text the machine holds for it.
pub proof fn lemma_value_is_set(m: VariableUpdate, t: String)
    requires
        m.stored_value == Some(t),
    ensures
        update_sets(m).contains(("value"@, t@)),
{
    let sets = update_sets(m);
    let k: int = if m.edit.path is Some { 1 } else { 0 };
    assert(sets[k] == ("value"@, t@));
}

/// Two references are the same only for the same path.
pub proof fn lemma_references_differ(a: Seq<char>, b: Seq<char>)
    requires
        a != b,
    ensures
        reference_to(a) != reference_to(b),
{
    let n = "$var:"@.len() as int;
    if reference_to(a) == reference_to(b) {
        assert(reference_to(a).skip(n) =~= a);
        assert(reference_to(b).skip(n) =~= b);
    }
}

/// Moving a variable to a path that a variable holds already is refused.
pub proof fn law_update_refuses_taken_path(m: VariableUpdate, np: String)
    requires
        m.phase is PathChecked,
        m.edit.path == Some(np),
    ensures
        update_step(m, Event::Flag(Some(true))).1 == ActionV::<Seq<char>>::Finish(
            Err(ApiErrorV::BadRequest(conflict_text(np@))),
        ),
{
}

/// Moving a variable moves the resource at its path too, and afterwards
/// the resource's value no longer refers to the old path.
pub proof fn law_update_moves_references(m: VariableUpdate, np: String, value: Option<crate::json::Json>)
    requires
        m.phase is ResourceLoaded,
        m.edit.path == Some(np),
        np@ != m.path@,
    ensures
        update_step(m, Event::Resource(value)).1 matches ActionV::MoveResource { path, new_path, value: moved }
            && path == m.path@ && new_path == np@
            && (moved is Some <==> value is Some)
            && (moved matches Some(r) ==> r == replaced(opt_json(value)->0, reference_to(m.path@), reference_to(np@))
                && !mentions(r, reference_to(m.path@))),
{
    lemma_references_differ(m.path@, np@);
    if value is Some {
        crate::json::law_replace_leaves_no_old_path(opt_json(value)->0, reference_to(m.path@), reference_to(np@));
    }
}

/// After the update, the account the variable referred to before is
/// deleted exactly when the update gave it another account and no variable
/// refers to the old one any more (an unknown answer counts as in use).
pub proof fn law_update_deletes_orphaned_account(m: VariableUpdate, np: String, in_use: Option<bool>)
    requires
        m.phase is Audited,
        m.phase->Audited_0 == np,
    ensures
        ({
            let (m1, a1) = update_step(m, Event::Done);
            match (m.old_account, m.edit.account) {
                (Some(o), Some(a)) => if a != o {
                    &&& a1 == ActionV::<Seq<char>>::AccountInUse(o)
                    &&& update_step(m1, Event::Flag(in_use)).1 == if !in_use.unwrap_or(true) {
                        ActionV::<Seq<char>>::DeleteAccount(o)
                    } else {
                        ActionV::<Seq<char>>::Commit
                    }
                } else {
                    a1 == ActionV::<Seq<char>>::Commit
                },
                _ => a1 == ActionV::<Seq<char>>::Commit,
            }
        }),
{
}

/// The detail endpoint shows nothing of a secret whose token has not
/// expired when the caller neither decrypts it nor asks for the stored
/// text, and it logs no decryption.
pub proof fn law_detail_withholds_secret(m: VariableReader, row: ListedRow)
    requires
        m.phase is Row,
        m.decrypt_secret == Some(false),
        !m.include_encrypted.unwrap_or(false),
        row.is_secret,
        !token_expired(row.is_expired, row.account),
    ensures
        variable_action(m, Event::Listed(Some(row))) == ActionV::<VariableReplyV>::Finish(
            Ok(VariableReplyV::Value(None)),
        ),
{
}

/// Decrypting a secret through the detail endpoint is audited before
/// anything else; a plain variable comes back as it was loaded.
pub proof fn law_detail_audits_decryption(m: VariableReader, row: ListedRow)
    requires
        m.phase is Row,
    ensures
        row.is_secret && m.decrypt_secret.unwrap_or(true) ==> variable_action(m, Event::Listed(Some(row)))
            == decrypt_audit_v::<VariableReplyV>(row.path@),
        !row.is_secret ==> variable_action(m, Event::Listed(Some(row))) == ActionV::<VariableReplyV>::Finish(
            Ok(VariableReplyV::Unchanged),
        ),
{
}

/// A variable under `f/` always names a folder, and a refused read of it
/// shows the permissions of that folder too.
pub proof fn law_folder_paths_name_their_folder(path: String, perms: crate::json::Json)
    requires
        "f/"@.is_prefix_of(path@),
    ensures
        second_segment(path@) is Some,
        crate::read::explain_action::<Seq<char>>(
            PermExplainer { path, phase: ExplainPhase::VariablePerms },
            Event::Perms(Some(perms)),
        ) == ActionV::<Seq<char>>::LoadFolderPerms(second_segment(path@)->0),
{
    reveal_strlit("f/");
    let p = path@;
    assert("f/"@.len() == 2);
    assert(p.len() >= 2);
    assert(p.subrange(0, 2) =~= "f/"@);
    assert(p[0] == p.subrange(0, 2)[0]);
    assert(p[1] == p.subrange(0, 2)[1]);
    assert(p[0] == 'f' && p[1] == '/');
    assert(p.drop_first()[0] == '/');
    assert(slash_index(p.drop_first()) == 0);
    assert(slash_index(p) == 1);
}


/// Outside work that fails ends the endpoint with its error, wherever it
/// stands; the one exception is the commit the detail endpoint makes
/// before decrypting, whose outcome it ignores.
pub proof fn law_failures_end_the_endpoint(
    err: ApiError,
    create: VariableCreate,
    update: VariableUpdate,
    delete: VariableDelete,
    value: ValueReader,
    detail: VariableReader,
)
    ensures
        !(create.phase is Finished) ==> create_action(create, Event::Failed(err)) == ActionV::<Seq<char>>::Finish(Err(err@)),
        !(update.phase is Finished) ==> update_step(update, Event::Failed(err)).1 == ActionV::<Seq<char>>::Finish(Err(err@)),
        !(delete.phase is Finished) ==> delete_action(delete, Event::Failed(err)) == ActionV::<Seq<char>>::Finish(Err(err@)),
        !(value.phase is Finished) && !(value.phase is Explaining) ==> value_action(value, Event::Failed(err))
            == ActionV::<Seq<char>>::Finish(Err(err@)),
        !(detail.phase is Finished) && !(detail.phase is Explaining) && !(detail.phase is Committed)
            ==> variable_action(detail, Event::Failed(err)) == ActionV::<VariableReplyV>::Finish(Err(err@)),
        detail.phase is Committed ==> variable_action(detail, Event::Failed(err)) == ActionV::<VariableReplyV>::BuildCrypt,
{
}


/// The update statement changes only the row of the variable at its path
/// in its workspace.
pub proof fn law_update_targets_its_row(m: VariableUpdate)
    ensures
        update_text(m) == "UPDATE "@ + "variable"@ + " SET "@ + joined(set_clauses(update_sets(m)), ", "@)
            + " WHERE "@ + ("("@ + ("path"@ + " = "@ + sql_quoted(m.path@)) + ")"@) + " AND "@
            + ("("@ + ("workspace_id"@ + " = "@ + sql_quoted(m.workspace@)) + ")"@) + " RETURNING "@ + "path"@ + ";"@,
{
    reveal(crate::update::statement_text);
    let conds = crate::update::update_conditions(m);
    let clauses = crate::sql::where_clauses(conds);
    let bracketed = clauses.map_values(|c: Seq<char>| "("@ + c + ")"@);
    assert(clauses.len() == 2);
    assert(bracketed.drop_last() =~= seq![bracketed[0]]);
    assert(joined(bracketed.drop_last(), " AND "@) == bracketed[0]);
}

/// Nothing but the scope check runs until it has passed: any other first
/// reply ends the endpoint.
pub proof fn law_scope_check_comes_first(
    e: Event,
    var: NewVariable,
    already_encrypted: Option<bool>,
    cloud_hosted: bool,
    workspace: String,
    path: String,
    edit: EditVariable,
)
    requires
        !(e is Done),
    ensures
        create_action(VariableCreate { var, already_encrypted, cloud_hosted, phase: CreatePhase::Scopes }, e) is Finish,
        update_step(update_start(workspace, path, edit, already_encrypted), e).1 is Finish,
        delete_action(VariableDelete { path, phase: DeletePhase::Scopes }, e) is Finish,
{
}

/// A `$var:` reference reads the variable it names: a plain value as
/// stored, a secret through the workspace's key.
pub proof fn law_reference_reads_variable(path: String, row: StoredRow, plain: String)
    ensures
        !row.is_secret ==> resolve_action(Resolver { path, phase: ResolvePhase::Row }, Event::Stored(Some(row)))
            == ActionV::<Seq<char>>::Finish(Ok(row.value@)),
        row.is_secret ==> ({
            let r0 = Resolver { path, phase: ResolvePhase::Row };
            let r1 = Resolver { path, phase: resolve_phase_next(r0, Event::Stored(Some(row))) };
            let r2 = Resolver { path, phase: resolve_phase_next(r1, Event::Done) };
            &&& resolve_action(r0, Event::Stored(Some(row))) == ActionV::<Seq<char>>::BuildCrypt
            &&& resolve_action(r1, Event::Done) == ActionV::<Seq<char>>::Decrypt(row.value@)
            &&& resolve_action(r2, Event::Text(plain)) == ActionV::<Seq<char>>::Finish(Ok(plain@))
        }),
{
}


/// The update machine run from `m` on `events`: where it ends, and what it
/// asked for at each reply.
pub open spec fn update_run(m: VariableUpdate, events: Seq<Event>) -> (VariableUpdate, Seq<ActionV<Seq<char>>>)
    decreases events.len(),
{
    if events.len() == 0 {
        (m, Seq::empty())
    } else {
        let (m1, asked) = update_run(m, events.drop_last());
        let (m2, a) = update_step(m1, events.last());
        (m2, asked.push(a))
    }
}

/// Work that writes to the workspace's tables.
pub open spec fn writes_rows<R>(a: ActionV<R>) -> bool {
    a is MoveResource || a is RunUpdate || a is DeleteAccount || a is Audit
}

/// The phases an update reaches only through its transaction.
pub open spec fn within_tx(p: UpdatePhase) -> bool {
    !(p is Scopes || p is Refreshed || p is ValueFlag || p is ValueKeyed || p is ValueSealed || p is SecretFlag
        || p is AccountLoaded || p is Finished)
}

proof fn lemma_update_step_tx(m: VariableUpdate, e: Event)
    ensures
        writes_rows(update_step(m, e).1) ==> within_tx(m.phase),
        within_tx(update_step(m, e).0.phase) ==> within_tx(m.phase) || update_step(m, e).1 is BeginTx,
{
}

/// An update writes nothing before it has opened its transaction: in every
/// run, each write comes after the transaction was begun.
pub proof fn law_update_writes_inside_its_transaction(m: VariableUpdate, events: Seq<Event>)
    requires
        !within_tx(m.phase),
    ensures
        ({
            let asked = update_run(m, events).1;
            forall|k: int| 0 <= k < asked.len() && #[trigger] writes_rows(asked[k])
                ==> exists|j: int| 0 <= j < k && asked[j] is BeginTx
        }),
        within_tx(update_run(m, events).0.phase) ==> exists|j: int|
            0 <= j < update_run(m, events).1.len() && update_run(m, events).1[j] is BeginTx,
    decreases events.len(),
{
    if events.len() > 0 {
        law_update_writes_inside_its_transaction(m, events.drop_last());
        let (m1, asked) = update_run(m, events.drop_last());
        let (m2, a) = update_step(m1, events.last());
        lemma_update_step_tx(m1, events.last());
        let all = asked.push(a);
        assert(update_run(m, events).1 == all);
        assert forall|k: int| 0 <= k < all.len() && #[trigger] writes_rows(all[k])
            implies exists|j: int| 0 <= j < k && all[j] is BeginTx by {
            if k < asked.len() {
                assert(all[k] == asked[k]);
                let j = choose|j: int| 0 <= j < k && asked[j] is BeginTx;
                assert(all[j] == asked[j]);
            } else {
                let j = choose|j: int| 0 <= j < asked.len() && asked[j] is BeginTx;
                assert(all[j] == asked[j]);
            }
        }
        if within_tx(m2.phase) {
            if within_tx(m1.phase) {
                let j = choose|j: int| 0 <= j < asked.len() && asked[j] is BeginTx;
                assert(all[j] == asked[j]);
            } else {
                assert(all[asked.len() as int] == a);
            }
        }
    }
}


/// The create machine run from `m` on `events`.
pub open spec fn create_run(m: VariableCreate, events: Seq<Event>) -> (VariableCreate, Seq<ActionV<Seq<char>>>)
    decreases events.len(),
{
    if events.len() == 0 {
        (m, Seq::empty())
    } else {
        let (m1, asked) = create_run(m, events.drop_last());
        let (m2, a) = create_step(m1, events.last());
        (m2, asked.push(a))
    }
}

/// The text stored by the action at `k` of a run on `events` is the
/// encryption of `value`: the run asked to encrypt `value` at some `j`
/// before `k` and was answered `text`.
pub open spec fn sealed_in_run(
    events: Seq<Event>,
    asked: Seq<ActionV<Seq<char>>>,
    value: Seq<char>,
    text: Seq<char>,
    k: int,
) -> bool {
    exists|j: int|
        0 <= j && j + 1 < k && j + 1 < events.len() && asked[j] == ActionV::<Seq<char>>::Encrypt(value)
            && events[j + 1] is Text && #[trigger] events[j + 1]->Text_0@ == text
}

pub open spec fn create_run_inv(m0: VariableCreate, m: VariableCreate, events: Seq<Event>, asked: Seq<ActionV<Seq<char>>>) -> bool {
    let secret = encrypts(m0.var.is_secret, m0.already_encrypted);
    &&& m.var == m0.var && m.already_encrypted == m0.already_encrypted && m.cloud_hosted == m0.cloud_hosted
    &&& asked.len() == events.len()
    &&& (m.phase is Keyed || m.phase is Sealed) ==> secret
    &&& m.phase is Sealed ==> asked.len() > 0 && asked.last() == ActionV::<Seq<char>>::Encrypt(m0.var.value@)
    &&& m.phase is Tx ==> (secret ==> sealed_in_run(events, asked, m0.var.value@, m.phase->Tx_0@, (events.len() + 1) as int))
        && (!secret ==> m.phase->Tx_0@ == m0.var.value@)
    &&& forall|k: int| 0 <= k < asked.len() && #[trigger] asked[k] is InsertVariable ==> {
        &&& secret ==> sealed_in_run(events, asked, m0.var.value@, asked[k]->InsertVariable_value, k)
        &&& !secret ==> asked[k]->InsertVariable_value == m0.var.value@
    }
}

proof fn lemma_create_run_inv(m0: VariableCreate, events: Seq<Event>)
    requires
        m0.phase is Scopes,
    ensures
        create_run_inv(m0, create_run(m0, events).0, events, create_run(m0, events).1),
    decreases events.len(),
{
    if events.len() > 0 {
        let prefix = events.drop_last();
        lemma_create_run_inv(m0, prefix);
        let (m1, asked) = create_run(m0, prefix);
        let e = events.last();
        let (m2, a) = create_step(m1, e);
        let all = asked.push(a);
        let secret = encrypts(m0.var.is_secret, m0.already_encrypted);
        assert(create_run(m0, events) == (m2, all));
        assert forall|t: Seq<char>, k: int| #[trigger] sealed_in_run(prefix, asked, m0.var.value@, t, k)
            implies sealed_in_run(events, all, m0.var.value@, t, k) by {
            let w = choose|j: int|
                0 <= j && j + 1 < k && j + 1 < prefix.len() && asked[j] == ActionV::<Seq<char>>::Encrypt(m0.var.value@)
                    && prefix[j + 1] is Text && #[trigger] prefix[j + 1]->Text_0@ == t;
            assert(all[w] == asked[w]);
            assert(events[w + 1] == prefix[w + 1]);
        }
        if m1.phase is Sealed && e is Text {
            let j = asked.len() - 1;
            assert(asked[j] == ActionV::<Seq<char>>::Encrypt(m0.var.value@));
            assert(all[j] == asked[j]);
            assert(events[j + 1] == e);
            assert(sealed_in_run(events, all, m0.var.value@, e->Text_0@, (events.len() + 1) as int));
        }
        assert forall|k: int| 0 <= k < all.len() && #[trigger] all[k] is InsertVariable implies {
            &&& secret ==> sealed_in_run(events, all, m0.var.value@, all[k]->InsertVariable_value, k)
            &&& !secret ==> all[k]->InsertVariable_value == m0.var.value@
        } by {
            if k < asked.len() {
                assert(all[k] == asked[k]);
            } else {
                assert(all[k] == a);
                assert(m1.phase is Tx);
            }
        }
    }
}

/// A create never stores a secret in clear: in every run, each insert of a
/// secret the caller did not encrypt stores a text the run received as the
/// encryption of the caller's value; any other insert stores the caller's
/// value as sent.
pub proof fn law_create_never_stores_secret_in_clear(m0: VariableCreate, events: Seq<Event>)
    requires
        m0.phase is Scopes,
    ensures
        ({
            let asked = create_run(m0, events).1;
            forall|k: int| 0 <= k < asked.len() && #[trigger] asked[k] is InsertVariable ==> {
                &&& encrypts(m0.var.is_secret, m0.already_encrypted) ==> sealed_in_run(
                    events,
                    asked,
                    m0.var.value@,
                    asked[k]->InsertVariable_value,
                    k,
                )
                &&& !encrypts(m0.var.is_secret, m0.already_encrypted) ==> asked[k]->InsertVariable_value
                    == m0.var.value@
            }
        }),
{
    lemma_create_run_inv(m0, events);
}


/// The run learned that the variable's new value is not to be encrypted:
/// the caller said whether it is secret, or the stored flag said so.
pub open spec fn plain_value_justified(m0: VariableUpdate, events: Seq<Event>, asked: Seq<ActionV<Seq<char>>>) -> bool {
    &&& m0.edit.is_secret matches Some(b) ==> !encrypts(b, m0.already_encrypted)
    &&& m0.edit.is_secret is None ==> exists|j: int|
        0 <= j && j + 1 < events.len() && asked[j] == ActionV::<Seq<char>>::LoadSecretFlag(m0.path@)
            && #[trigger] events[j + 1] is Flag && !encrypts(events[j + 1]->Flag_0.unwrap_or(false), m0.already_encrypted)
}

/// The text the value column is set to is either the encryption of the
/// caller's value received in the run, or the caller's value where the run
/// learned that it is not to be encrypted.
pub open spec fn value_text_justified(
    m0: VariableUpdate,
    events: Seq<Event>,
    asked: Seq<ActionV<Seq<char>>>,
    t: Seq<char>,
) -> bool {
    ||| sealed_in_run(events, asked, m0.edit.value->0@, t, (events.len() + 1) as int)
    ||| t == m0.edit.value->0@ && plain_value_justified(m0, events, asked)
}

pub open spec fn before_value(p: UpdatePhase) -> bool {
    p is Scopes || p is Refreshed || p is ValueFlag || p is ValueKeyed || p is ValueSealed
}

pub open spec fn update_run_inv(m0: VariableUpdate, m: VariableUpdate, events: Seq<Event>, asked: Seq<ActionV<Seq<char>>>) -> bool {
    &&& m.workspace == m0.workspace && m.path == m0.path && m.edit == m0.edit
    &&& m.already_encrypted == m0.already_encrypted
    &&& asked.len() == events.len()
    &&& before_value(m.phase) ==> m.stored_value is None && forall|k: int| 0 <= k < asked.len() ==> !(#[trigger] asked[k] is RunUpdate)
    &&& m.phase is ValueFlag ==> asked.len() > 0 && asked.last() == ActionV::<Seq<char>>::LoadSecretFlag(m0.path@)
        && m0.edit.is_secret is None
    &&& m.phase is ValueSealed ==> asked.len() > 0 && m0.edit.value is Some
        && asked.last() == ActionV::<Seq<char>>::Encrypt(m0.edit.value->0@)
    &&& m.stored_value matches Some(t) ==> m0.edit.value is Some && value_text_justified(m0, events, asked, t@)
    &&& forall|k: int| 0 <= k < asked.len() && #[trigger] asked[k] is RunUpdate ==> asked[k]->RunUpdate_0 == update_text(m)
}

proof fn lemma_update_justified_extends(m0: VariableUpdate, events: Seq<Event>, asked: Seq<ActionV<Seq<char>>>, e: Event, a: ActionV<Seq<char>>, t: Seq<char>)
    requires
        asked.len() == events.len(),
        value_text_justified(m0, events, asked, t),
    ensures
        value_text_justified(m0, events.push(e), asked.push(a), t),
{
    let es = events.push(e);
    let all = asked.push(a);
    if sealed_in_run(events, asked, m0.edit.value->0@, t, (events.len() + 1) as int) {
        let w = choose|j: int|
            0 <= j && j + 1 < (events.len() + 1) as int && j + 1 < events.len() && asked[j] == ActionV::<Seq<char>>::Encrypt(m0.edit.value->0@)
                && events[j + 1] is Text && #[trigger] events[j + 1]->Text_0@ == t;
        assert(all[w] == asked[w]);
        assert(es[w + 1] == events[w + 1]);
        assert(sealed_in_run(es, all, m0.edit.value->0@, t, (es.len() + 1) as int));
    } else {
        if m0.edit.is_secret is None {
            let w = choose|j: int|
                0 <= j && j + 1 < events.len() && asked[j] == ActionV::<Seq<char>>::LoadSecretFlag(m0.path@)
                    && #[trigger] events[j + 1] is Flag && !encrypts(events[j + 1]->Flag_0.unwrap_or(false), m0.already_encrypted);
            assert(all[w] == asked[w]);
            assert(es[w + 1] == events[w + 1]);
        }
    }
}

proof fn lemma_step_keeps_request(m1: VariableUpdate, e: Event)
    ensures
        ({
            let m2 = update_step(m1, e).0;
            &&& m2.workspace == m1.workspace && m2.path == m1.path && m2.edit == m1.edit
            &&& m2.already_encrypted == m1.already_encrypted
        }),
{
}

proof fn lemma_step_value_text(m1: VariableUpdate, e: Event)
    ensures
        ({
            let m2 = update_step(m1, e).0;
            &&& m2.stored_value != m1.stored_value ==> {
                ||| m1.phase is Refreshed && m1.edit.is_secret is Some
                    && !encrypts(m1.edit.is_secret->0, m1.already_encrypted) && m2.stored_value == m1.edit.value
                ||| m1.phase is ValueFlag && e is Flag && !encrypts(e->Flag_0.unwrap_or(false), m1.already_encrypted)
                    && m2.stored_value == m1.edit.value
                ||| m1.phase is ValueSealed && e is Text && m2.stored_value == Some(e->Text_0)
            }
            &&& !before_value(m1.phase) ==> m2.stored_value == m1.stored_value
        }),
{
}

proof fn lemma_step_phases(m1: VariableUpdate, e: Event)
    ensures
        ({
            let (m2, a) = update_step(m1, e);
            &&& before_value(m2.phase) ==> before_value(m1.phase) && !(a is RunUpdate)
            &&& m2.phase is ValueFlag ==> a == ActionV::<Seq<char>>::LoadSecretFlag(m1.path@) && m1.edit.is_secret is None
            &&& m2.phase is ValueSealed ==> m1.edit.value is Some && a == ActionV::<Seq<char>>::Encrypt(m1.edit.value->0@)
        }),
{
}

proof fn lemma_step_statement(m1: VariableUpdate, e: Event)
    ensures
        ({
            let (m2, a) = update_step(m1, e);
            a is RunUpdate ==> a->RunUpdate_0 == update_text(m2) && !before_value(m2.phase)
        }),
{
}

proof fn lemma_update_inv_step(m0: VariableUpdate, m1: VariableUpdate, prefix: Seq<Event>, asked: Seq<ActionV<Seq<char>>>, e: Event)
    requires
        update_run_inv(m0, m1, prefix, asked),
    ensures
        update_run_inv(m0, update_step(m1, e).0, prefix.push(e), asked.push(update_step(m1, e).1)),
{
    let (m2, a) = update_step(m1, e);
    lemma_step_keeps_request(m1, e);
    lemma_step_value_text(m1, e);
    lemma_step_phases(m1, e);
    lemma_step_statement(m1, e);
    let events = prefix.push(e);
    let all = asked.push(a);
    if m1.stored_value is Some {
        lemma_update_justified_extends(m0, prefix, asked, e, a, m1.stored_value->0@);
    }
    if m1.phase is ValueSealed && e is Text {
        let j = asked.len() - 1;
        assert(all[j] == asked[j]);
        assert(events[j + 1] == e);
        assert(sealed_in_run(events, all, m0.edit.value->0@, e->Text_0@, (events.len() + 1) as int));
    }
    if m1.phase is ValueFlag && e is Flag {
        let j = asked.len() - 1;
        assert(all[j] == asked[j]);
        assert(events[j + 1] == e);
    }
    assert forall|k: int| 0 <= k < all.len() && #[trigger] all[k] is RunUpdate implies all[k]->RunUpdate_0
        == update_text(m2) by {
        if k < asked.len() {
            assert(all[k] == asked[k]);
        }
    }
    if before_value(m2.phase) {
        assert forall|k: int| 0 <= k < all.len() implies !(#[trigger] all[k] is RunUpdate) by {
            if k < asked.len() {
                assert(all[k] == asked[k]);
            }
        }
    }
}

proof fn lemma_update_run_inv(m0: VariableUpdate, events: Seq<Event>)
    requires
        m0.phase is Scopes,
        m0.stored_value is None,
    ensures
        update_run_inv(m0, update_run(m0, events).0, events, update_run(m0, events).1),
    decreases events.len(),
{
    if events.len() > 0 {
        let prefix = events.drop_last();
        lemma_update_run_inv(m0, prefix);
        let (m1, asked) = update_run(m0, prefix);
        lemma_update_inv_step(m0, m1, prefix, asked, events.last());
        assert(prefix.push(events.last()) =~= events);
    }
}

/// An update never sets the value column to a secret in clear: in every
/// run, the text of the value column in each update statement it runs is
/// the encryption of the caller's value received in the run, or the
/// caller's value where the run learned (from the caller or from the
/// stored flag) that it is not to be encrypted.
pub proof fn law_update_never_stores_secret_in_clear(m0: VariableUpdate, events: Seq<Event>)
    requires
        m0.phase is Scopes,
        m0.stored_value is None,
    ensures
        ({
            let (m, asked) = update_run(m0, events);
            &&& forall|k: int| 0 <= k < asked.len() && #[trigger] asked[k] is RunUpdate ==> asked[k]->RunUpdate_0
                == update_text(m)
            &&& m.stored_value matches Some(t) ==> update_sets(m).contains(("value"@, t@))
                && value_text_justified(m0, events, asked, t@)
            &&& m0.edit.value is None ==> m.stored_value is None
        }),
{
    lemma_update_run_inv(m0, events);
    let m = update_run(m0, events).0;
    if m.stored_value is Some {
        lemma_value_is_set(m, m.stored_value->0);
    }
}


/// One step of reading a variable's details.
pub open spec fn variable_step(m: VariableReader, e: Event) -> (VariableReader, ActionV<VariableReplyV>) {
    (VariableReader { phase: variable_phase_next(m, e), ..m }, variable_action(m, e))
}

/// The detail machine run from `m` on `events`.
pub open spec fn variable_run(m: VariableReader, events: Seq<Event>) -> (VariableReader, Seq<ActionV<VariableReplyV>>)
    decreases events.len(),
{
    if events.len() == 0 {
        (m, Seq::empty())
    } else {
        let (m1, asked) = variable_run(m, events.drop_last());
        let (m2, a) = variable_step(m1, events.last());
        (m2, asked.push(a))
    }
}

/// The value machine run from `m` on `events`.
pub open spec fn value_run(m: ValueReader, events: Seq<Event>) -> (ValueReader, Seq<ActionV<Seq<char>>>)
    decreases events.len(),
{
    if events.len() == 0 {
        (m, Seq::empty())
    } else {
        let (m1, asked) = value_run(m, events.drop_last());
        let (m2, a) = value_step(m1, events.last());
        (m2, asked.push(a))
    }
}

pub open spec fn decrypting_phase(p: VariablePhase) -> bool {
    p is Audited || p is Committed || p is Keyed || p is Decrypted
}

proof fn lemma_detail_without_decryption(m0: VariableReader, events: Seq<Event>)
    requires
        !m0.decrypt_secret.unwrap_or(true),
        !decrypting_phase(m0.phase),
    ensures
        ({
            let (m, asked) = variable_run(m0, events);
            &&& m.decrypt_secret == m0.decrypt_secret
            &&& !decrypting_phase(m.phase)
            &&& forall|k: int| 0 <= k < asked.len() ==> !(#[trigger] asked[k] is Decrypt) && !(asked[k] is Audit)
        }),
    decreases events.len(),
{
    if events.len() > 0 {
        lemma_detail_without_decryption(m0, events.drop_last());
        let (m1, asked) = variable_run(m0, events.drop_last());
        let (m2, a) = variable_step(m1, events.last());
        let all = asked.push(a);
        assert(variable_run(m0, events) == (m2, all));
        assert forall|k: int| 0 <= k < all.len() implies !(#[trigger] all[k] is Decrypt) && !(all[k] is Audit) by {
            if k < asked.len() {
                assert(all[k] == asked[k]);
            }
        }
    }
}

/// A caller who declines decryption never gets a secret decrypted by the
/// detail endpoint: no run of it asks to decrypt or logs a decryption.
pub proof fn law_detail_never_decrypts_when_declined(path: String, oauth2: bool, include_encrypted: Option<bool>, events: Seq<Event>)
    ensures
        ({
            let m0 = VariableReader { path, oauth2, decrypt_secret: Some(false), include_encrypted, phase: VariablePhase::Scopes };
            let asked = variable_run(m0, events).1;
            forall|k: int| 0 <= k < asked.len() ==> !(#[trigger] asked[k] is Decrypt) && !(asked[k] is Audit)
        }),
{
    let m0 = VariableReader { path, oauth2, decrypt_secret: Some(false), include_encrypted, phase: VariablePhase::Scopes };
    lemma_detail_without_decryption(m0, events);
}

pub open spec fn audited_in(asked: Seq<ActionV<Seq<char>>>, k: int) -> bool {
    exists|j: int| 0 <= j < k && #[trigger] asked[j] is Audit && asked[j]->Audit_operation == "variables.decrypt_secret"@
}

pub open spec fn value_run_inv(asked: Seq<ActionV<Seq<char>>>, p: ValuePhase) -> bool {
    &&& (p is Audited || p is Token || p is Committed || p is Keyed || p is Decrypted) ==> audited_in(asked, asked.len() as int)
    &&& forall|k: int| 0 <= k < asked.len() && (#[trigger] asked[k] is Decrypt || asked[k] is RefreshToken)
        ==> audited_in(asked, k)
}

proof fn lemma_value_run_inv(m0: ValueReader, events: Seq<Event>)
    requires
        m0.phase is Scopes || m0.phase is Row,
    ensures
        value_run_inv(value_run(m0, events).1, value_run(m0, events).0.phase),
    decreases events.len(),
{
    if events.len() > 0 {
        lemma_value_run_inv(m0, events.drop_last());
        let (m1, asked) = value_run(m0, events.drop_last());
        let (m2, a) = value_step(m1, events.last());
        let all = asked.push(a);
        assert(value_run(m0, events) == (m2, all));
        assert forall|k: int| 0 <= k <= asked.len() && audited_in(asked, k) implies audited_in(all, k) by {
            let j = choose|j: int| 0 <= j < k && #[trigger] asked[j] is Audit
                && asked[j]->Audit_operation == "variables.decrypt_secret"@;
            assert(all[j] == asked[j]);
        }
        if m2.phase is Audited {
            assert(all[asked.len() as int] == a);
            assert(audited_in(all, all.len() as int));
        }
        assert forall|k: int| 0 <= k < all.len() && (#[trigger] all[k] is Decrypt || all[k] is RefreshToken)
            implies audited_in(all, k) by {
            if k < asked.len() {
                assert(all[k] == asked[k]);
            }
        }
    }
}

/// The value endpoint reveals a secret only after logging its read: in
/// every run, each decryption or token refresh it asks for comes after an
/// audit record of the decryption.
pub proof fn law_value_read_is_audited_first(m0: ValueReader, events: Seq<Event>)
    requires
        m0.phase is Scopes || m0.phase is Row,
    ensures
        ({
            let asked = value_run(m0, events).1;
            forall|k: int| 0 <= k < asked.len() && (#[trigger] asked[k] is Decrypt || asked[k] is RefreshToken)
                ==> audited_in(asked, k)
        }),
{
    lemma_value_run_inv(m0, events);
}


/// The phases a create reaches only through its transaction.
pub open spec fn create_within_tx(p: CreatePhase) -> bool {
    p is Tx || p is Inserted || p is Audited || p is Committed || p is Deployed || p is Notified
}

/// A create writes nothing before it has opened its transaction: in every
/// run, the insert and its audit record come after the transaction was
/// begun.
pub proof fn law_create_writes_inside_its_transaction(m: VariableCreate, events: Seq<Event>)
    requires
        !create_within_tx(m.phase),
    ensures
        ({
            let asked = create_run(m, events).1;
            forall|k: int| 0 <= k < asked.len() && (#[trigger] asked[k] is InsertVariable || asked[k] is Audit)
                ==> exists|j: int| 0 <= j < k && asked[j] is BeginTx
        }),
        create_within_tx(create_run(m, events).0.phase) ==> exists|j: int|
            0 <= j < create_run(m, events).1.len() && create_run(m, events).1[j] is BeginTx,
    decreases events.len(),
{
    if events.len() > 0 {
        law_create_writes_inside_its_transaction(m, events.drop_last());
        let (m1, asked) = create_run(m, events.drop_last());
        let (m2, a) = create_step(m1, events.last());
        let all = asked.push(a);
        assert(create_run(m, events).1 == all);
        assert forall|k: int| 0 <= k < all.len() && (#[trigger] all[k] is InsertVariable || all[k] is Audit)
            implies exists|j: int| 0 <= j < k && all[j] is BeginTx by {
            if k < asked.len() {
                assert(all[k] == asked[k]);
                let j = choose|j: int| 0 <= j < k && asked[j] is BeginTx;
                assert(all[j] == asked[j]);
            } else {
                let j = choose|j: int| 0 <= j < asked.len() && asked[j] is BeginTx;
                assert(all[j] == asked[j]);
            }
        }
        if create_within_tx(m2.phase) {
            if create_within_tx(m1.phase) {
                let j = choose|j: int| 0 <= j < asked.len() && asked[j] is BeginTx;
                assert(all[j] == asked[j]);
            } else {
                assert(all[asked.len() as int] == a);
            }
        }
    }
}


/// The text a detail reply gives for the value of a row whose stored value
/// is `stored`: the stored value where the row comes back unchanged, the
/// replacement otherwise; no value reads as the empty text.
pub open spec fn detail_text(reply: VariableReplyV, stored: Option<Seq<char>>) -> Seq<char> {
    match reply {
        VariableReplyV::Unchanged => stored.unwrap_or(Seq::empty()),
        VariableReplyV::Value(v) => v.unwrap_or(Seq::empty()),
    }
}

/// The row the detail query returns for the same variable as `row`.
pub open spec fn listed_of(row: StoredRow) -> ListedRow {
    ListedRow { path: row.path, is_secret: row.is_secret, value: Some(row.value), is_expired: row.is_expired, account: row.account }
}

/// What a read gives back of a write, through the detail endpoint (with
/// its default of decrypting): a plain variable comes back with the value
/// the create stored; for a secret the endpoint audits, decrypts exactly
/// the text the create stored and answers what the decryption gave back.
pub proof fn law_detail_reads_back_created_value(
    var: NewVariable,
    cipher: String,
    row: ListedRow,
    plain: String,
    oauth2: bool,
)
    requires
        row.is_secret == var.is_secret,
        !token_expired(row.is_expired, row.account),
        var.is_secret ==> row.value == Some(cipher) && cipher@.len() != 0,
        !var.is_secret ==> (row.value matches Some(v) && v@ == var.value@),
    ensures
        ({
            let m0 = VariableCreate { var, already_encrypted: None, cloud_hosted: false, phase: CreatePhase::Scopes };
            let (m1, a1) = create_step(m0, Event::Done);
            let (m2, a2) = create_step(m1, Event::Done);
            let (m3, a3) = create_step(m2, Event::Flag(Some(false)));
            let (m4, a4) = create_step(m3, Event::Done);
            let (m5, a5) = create_step(m4, Event::Text(cipher));
            let (m6, a6) = create_step(m5, Event::Done);
            &&& !var.is_secret ==> a4 == inserted_row::<Seq<char>>(var, var.value@)
            &&& var.is_secret ==> a6 == inserted_row::<Seq<char>>(var, cipher@)
        }),
        ({
            let d0 = VariableReader { path: row.path, oauth2, decrypt_secret: None, include_encrypted: None, phase: VariablePhase::Row };
            let (d1, b1) = variable_step(d0, Event::Listed(Some(row)));
            let (d2, b2) = variable_step(d1, Event::Done);
            let (d3, b3) = variable_step(d2, Event::Done);
            let (d4, b4) = variable_step(d3, Event::Done);
            let (d5, b5) = variable_step(d4, Event::Text(plain));
            &&& !var.is_secret ==> b1 == ActionV::<VariableReplyV>::Finish(Ok(VariableReplyV::Unchanged))
                && detail_text(VariableReplyV::Unchanged, opt_text(row.value)) == var.value@
            &&& var.is_secret ==> {
                &&& b1 == decrypt_audit_v::<VariableReplyV>(row.path@)
                &&& b2 == ActionV::<VariableReplyV>::CommitIgnoringError
                &&& b3 == ActionV::<VariableReplyV>::BuildCrypt
                &&& b4 == ActionV::<VariableReplyV>::Decrypt(cipher@)
                &&& b5 == ActionV::<VariableReplyV>::Finish(Ok(VariableReplyV::Value(Some(plain@))))
            }
        }),
{
}

/// The value endpoint and the detail endpoint (with its defaults) read the
/// same value of a variable whose token has not expired, when every commit
/// succeeds: given the same replies, they answer the same text, or they
/// explain a missing row alike.
pub proof fn law_value_and_detail_reads_agree(path: String, oauth2: bool, row: Option<StoredRow>, decrypted: String)
    requires
        row matches Some(r) ==> !token_expired(r.is_expired, r.account),
    ensures
        ({
            let v0 = ValueReader { path, oauth2, phase: ValuePhase::Row };
            let d0 = VariableReader { path, oauth2, decrypt_secret: None, include_encrypted: None, phase: VariablePhase::Row };
            match row {
                None => {
                    let (v1, a1) = value_step(v0, Event::Stored(None));
                    let (d1, b1) = variable_step(d0, Event::Listed(None));
                    &&& a1 == ActionV::<Seq<char>>::LoadVariablePerms(path@)
                    &&& b1 == ActionV::<VariableReplyV>::LoadVariablePerms(path@)
                    &&& v1.phase == ValuePhase::Explaining(PermExplainer { path, phase: ExplainPhase::VariablePerms })
                    &&& d1.phase == VariablePhase::Explaining(PermExplainer { path, phase: ExplainPhase::VariablePerms })
                },
                Some(r) => {
                    let (v1, a1) = value_step(v0, Event::Stored(Some(r)));
                    let (d1, b1) = variable_step(d0, Event::Listed(Some(listed_of(r))));
                    if !r.is_secret {
                        &&& a1 == ActionV::<Seq<char>>::Finish(Ok(r.value@))
                        &&& b1 matches ActionV::Finish(Ok(reply)) && detail_text(reply, Some(r.value@)) == r.value@
                    } else if r.value@.len() == 0 {
                        let (v2, a2) = value_step(v1, Event::Done);
                        let (d2, b2) = variable_step(d1, Event::Done);
                        &&& a2 == ActionV::<Seq<char>>::Finish(Ok(Seq::empty()))
                        &&& b2 matches ActionV::Finish(Ok(reply)) && detail_text(reply, Some(r.value@)) == Seq::<char>::empty()
                    } else {
                        let (v2, a2) = value_step(v1, Event::Done);
                        let (d2, b2) = variable_step(d1, Event::Done);
                        let (v3, a3) = value_step(v2, Event::Done);
                        let (d3, b3) = variable_step(d2, Event::Done);
                        let (v4, a4) = value_step(v3, Event::Done);
                        let (d4, b4) = variable_step(d3, Event::Done);
                        let (v5, a5) = value_step(v4, Event::Text(decrypted));
                        let (d5, b5) = variable_step(d4, Event::Text(decrypted));
                        &&& a4 == ActionV::<Seq<char>>::Decrypt(r.value@)
                        &&& b4 == ActionV::<VariableReplyV>::Decrypt(r.value@)
                        &&& a5 == ActionV::<Seq<char>>::Finish(Ok(decrypted@))
                        &&& b5 matches ActionV::Finish(Ok(reply)) && detail_text(reply, Some(r.value@)) == decrypted@
                    }
                },
            }
        }),
{
}

/// One step of deleting a variable.
pub open spec fn delete_step(m: VariableDelete, e: Event) -> (VariableDelete, ActionV<Seq<char>>) {
    (VariableDelete { path: m.path, phase: delete_phase_next(m, e) }, delete_action(m, e))
}

/// The variable table as a map from path to stored text, after a write.
pub open spec fn table_after<R>(rows: Map<Seq<char>, Seq<char>>, a: ActionV<R>) -> Map<Seq<char>, Seq<char>> {
    match a {
        ActionV::InsertVariable { path, value, .. } => rows.insert(path, value),
        ActionV::DeleteVariable(path) => rows.remove(path),
        _ => rows,
    }
}

/// The existence query's reply on a table.
pub open spec fn exists_reply(rows: Map<Seq<char>, Seq<char>>, path: Seq<char>) -> Event {
    Event::Flag(Some(rows.contains_key(path)))
}

/// A delete whose steps all succeed asks for the same work and gives the
/// same answer whenever it runs for the same path: it deletes the variable
/// and the resource at the path, audits, commits, records and announces
/// the deletion, and answers that it deleted the variable.
pub proof fn law_delete_answers_alike(path: String)
    ensures
        ({
            let m0 = VariableDelete { path, phase: DeletePhase::Scopes };
            let (m1, a1) = delete_step(m0, Event::Done);
            let (m2, a2) = delete_step(m1, Event::Done);
            let (m3, a3) = delete_step(m2, Event::Done);
            let (m4, a4) = delete_step(m3, Event::Done);
            let (m5, a5) = delete_step(m4, Event::Done);
            let (m6, a6) = delete_step(m5, Event::Done);
            let (m7, a7) = delete_step(m6, Event::Done);
            let (m8, a8) = delete_step(m7, Event::Done);
            &&& a1 == ActionV::<Seq<char>>::BeginTx
            &&& a2 == ActionV::<Seq<char>>::DeleteVariable(path@)
            &&& a3 == ActionV::<Seq<char>>::DeleteResource(path@)
            &&& a4 == ActionV::<Seq<char>>::Audit { operation: "variables.delete"@, kind: AuditKind::Delete, path: path@ }
            &&& a5 == ActionV::<Seq<char>>::Commit
            &&& a6 == ActionV::<Seq<char>>::RecordDeployment {
                path: path@,
                parent_path: Some(path@),
                message: Some(deleted_deploy_text(path@)),
            }
            &&& a7 == ActionV::<Seq<char>>::Notify(NoticeV::Deleted { path: path@ })
            &&& a8 == ActionV::<Seq<char>>::Finish(Ok(deleted_text(path@)))
        }),
{
}

/// On a model of the variable table: after a create at a free path the
/// existence check finds the variable, after its delete it does not, and a
/// second delete leaves the table as the first one left it.
pub proof fn law_exists_after_create_and_delete(var: NewVariable, rows: Map<Seq<char>, Seq<char>>, cipher: String)
    requires
        !rows.contains_key(var.path@),
    ensures
        ({
            let p = var.path@;
            let m0 = VariableCreate { var, already_encrypted: None, cloud_hosted: false, phase: CreatePhase::Scopes };
            let (m1, a1) = create_step(m0, Event::Done);
            let (m2, a2) = create_step(m1, Event::Done);
            let (m3, a3) = create_step(m2, exists_reply(rows, p));
            let (m4, a4) = create_step(m3, Event::Done);
            let (m5, a5) = create_step(m4, Event::Text(cipher));
            let (m6, a6) = create_step(m5, Event::Done);
            let insert = if var.is_secret { a6 } else { a4 };
            let created = table_after(rows, insert);
            let d0 = VariableDelete { path: var.path, phase: DeletePhase::Scopes };
            let (d1, b1) = delete_step(d0, Event::Done);
            let (d2, b2) = delete_step(d1, Event::Done);
            let deleted = table_after(created, b2);
            let probe = ExistsProbe { phase: ProbePhase::Asked };
            &&& a2 == ActionV::<Seq<char>>::PathTaken(p)
            &&& insert is InsertVariable
            &&& exists_action(probe, exists_reply(created, p)) == ActionV::<bool>::Finish(Ok(true))
            &&& exists_action(probe, exists_reply(deleted, p)) == ActionV::<bool>::Finish(Ok(false))
            &&& table_after(deleted, b2) == deleted
        }),
{
    let p = var.path@;
    let insert_value = if var.is_secret { cipher@ } else { var.value@ };
    let created = rows.insert(p, insert_value);
    assert(created.remove(p).remove(p) =~= created.remove(p));
}

} // verus!
