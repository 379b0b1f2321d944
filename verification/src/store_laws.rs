//! What every change to the instance store keeps, and what repeating a change does.

use vstd::prelude::*;

use crate::store::{
    InstanceStore, InstanceProfile, UpdateInstanceParams, CreateInstanceParams, CreateInstancePlan,
    changed_first_instance, launch_recorded, with_pid, with_launch, has_instance, is_first_with_id,
    bindings_replaced, profile_rebound, binds, instance_deleted, instance_updated, update_rejection,
    profile_updated, lemma_uniqueness_failure_iff_taken, create_rejection, plan_matches,
    new_profile_matches, DefaultInstanceSettings, InstanceLaunchMode, default_settings_updated,
    instance_missing_message, name_empty_message, name_taken_message, dir_taken_message,
    uniqueness_failure, name_or_dir_taken, init_mode_named, InstanceInitMode, dir_empty_message,
    copy_source_missing_message, default_source_id, CopySource,
};
use crate::text::{trim, is_blank, ascii_lower};

verus! {

/// No two instances share an id, a name or a profile directory.
pub open spec fn store_well_formed(s: InstanceStore) -> bool {
    forall|i: int, j: int|
        0 <= i < s.instances@.len() && 0 <= j < s.instances@.len() && i != j ==> {
            &&& (#[trigger] s.instances@[i]).id@ != (#[trigger] s.instances@[j]).id@
            &&& s.instances@[i].name@ != s.instances@[j].name@
            &&& s.instances@[i].user_data_dir@ != s.instances@[j].user_data_dir@
        }
}

/// `a` and `b` have the same id, name and profile directory.
pub open spec fn same_identity(a: InstanceProfile, b: InstanceProfile) -> bool {
    &&& a.id@ == b.id@
    &&& a.name@ == b.name@
    &&& a.user_data_dir@ == b.user_data_dir@
}

proof fn lemma_pointwise_identity_keeps_well_formed(before: InstanceStore, after: InstanceStore)
    requires
        store_well_formed(before),
        after.instances@.len() == before.instances@.len(),
        forall|i: int|
            0 <= i < before.instances@.len() ==> same_identity(
                #[trigger] after.instances@[i],
                before.instances@[i],
            ),
    ensures
        store_well_formed(after),
{
    assert forall|i: int, j: int|
        0 <= i < after.instances@.len() && 0 <= j < after.instances@.len() && i != j implies {
        &&& (#[trigger] after.instances@[i]).id@ != (#[trigger] after.instances@[j]).id@
        &&& after.instances@[i].name@ != after.instances@[j].name@
        &&& after.instances@[i].user_data_dir@ != after.instances@[j].user_data_dir@
    } by {
        assert(same_identity(after.instances@[i], before.instances@[i]));
        assert(same_identity(after.instances@[j], before.instances@[j]));
        assert(before.instances@[i].id@ != before.instances@[j].id@);
    }
}

/// Changing one instance in a way that keeps ids, names and directories (recording a process
/// id or a launch) keeps the store well formed.
pub proof fn lemma_changed_instance_keeps_well_formed(
    before: InstanceStore,
    after: InstanceStore,
    id: Seq<char>,
    change: spec_fn(InstanceProfile) -> InstanceProfile,
    r: Result<InstanceProfile, String>,
)
    requires
        store_well_formed(before),
        changed_first_instance(before, after, id, change, r),
        forall|p: InstanceProfile| same_identity(#[trigger] change(p), p),
    ensures
        store_well_formed(after),
{
    if has_instance(before.instances@, id) {
        let w = choose|w: int| 0 <= w < before.instances@.len() && before.instances@[w].id@ == id;
        assert(is_first_with_id(before.instances@, id, w)) by {
            assert forall|j: int| 0 <= j < w implies before.instances@[j].id@ != id by {
                assert(before.instances@[j].id@ != before.instances@[w].id@);
            }
        }
        assert(same_identity(change(before.instances@[w]), before.instances@[w]));
        assert forall|i: int| 0 <= i < before.instances@.len() implies same_identity(
            #[trigger] after.instances@[i],
            before.instances@[i],
        ) by {}
        lemma_pointwise_identity_keeps_well_formed(before, after);
    }
}

/// Recording a process id keeps the store well formed.
pub proof fn lemma_update_instance_pid_keeps_well_formed(
    before: InstanceStore,
    after: InstanceStore,
    id: Seq<char>,
    pid: Option<u32>,
    r: Result<InstanceProfile, String>,
)
    requires
        store_well_formed(before),
        changed_first_instance(before, after, id, |p| with_pid(p, pid), r),
    ensures
        store_well_formed(after),
{
    lemma_changed_instance_keeps_well_formed(before, after, id, |p| with_pid(p, pid), r);
}

/// Recording a launch keeps the store well formed.
pub proof fn lemma_record_launch_keeps_well_formed(
    before: InstanceStore,
    after: InstanceStore,
    id: Seq<char>,
    pid: Option<u32>,
    at: i64,
    r: Result<InstanceProfile, String>,
)
    requires
        store_well_formed(before),
        launch_recorded(before, after, id, pid, at, r),
    ensures
        store_well_formed(after),
{
    lemma_changed_instance_keeps_well_formed(before, after, id, |p| with_launch(p, pid, at), r);
}

/// Forgetting every process id keeps the store well formed.
pub proof fn lemma_clear_all_pids_keeps_well_formed(before: InstanceStore, after: InstanceStore)
    requires
        store_well_formed(before),
        after.instances@.len() == before.instances@.len(),
        forall|i: int|
            0 <= i < before.instances@.len() ==> after.instances@[i] == with_pid(
                before.instances@[i],
                None,
            ),
    ensures
        store_well_formed(after),
{
    assert forall|i: int| 0 <= i < before.instances@.len() implies same_identity(
        #[trigger] after.instances@[i],
        before.instances@[i],
    ) by {
        assert(after.instances@[i] == with_pid(before.instances@[i], None));
    }
    lemma_pointwise_identity_keeps_well_formed(before, after);
}

/// Moving account bindings keeps the store well formed.
pub proof fn lemma_replace_bindings_keeps_well_formed(
    before: InstanceStore,
    after: InstanceStore,
    old_account: Seq<char>,
    new_account: Seq<char>,
    changed: bool,
)
    requires
        store_well_formed(before),
        bindings_replaced(before, after, old_account, new_account, changed),
    ensures
        store_well_formed(after),
{
    let o = trim(old_account);
    let n = trim(new_account);
    if !(o.len() == 0 || n.len() == 0 || o == n) {
        assert forall|i: int| 0 <= i < before.instances@.len() implies same_identity(
            #[trigger] after.instances@[i],
            before.instances@[i],
        ) by {
            assert(profile_rebound(before.instances@[i], after.instances@[i], o, n));
        }
        lemma_pointwise_identity_keeps_well_formed(before, after);
    }
}

/// Deleting an instance keeps the store well formed.
pub proof fn lemma_delete_instance_keeps_well_formed(
    before: InstanceStore,
    after: InstanceStore,
    id: Seq<char>,
    r: Result<Option<String>, String>,
)
    requires
        store_well_formed(before),
        instance_deleted(before, after, id, r),
    ensures
        store_well_formed(after),
{
    if has_instance(before.instances@, id) {
        let w = choose|w: int| 0 <= w < before.instances@.len() && before.instances@[w].id@ == id;
        assert(is_first_with_id(before.instances@, id, w)) by {
            assert forall|j: int| 0 <= j < w implies before.instances@[j].id@ != id by {
                assert(before.instances@[j].id@ != before.instances@[w].id@);
            }
        }
        let s = before.instances@;
        let t = after.instances@;
        assert(t == s.remove(w));
        assert forall|i: int, j: int| 0 <= i < t.len() && 0 <= j < t.len() && i != j implies {
            &&& (#[trigger] t[i]).id@ != (#[trigger] t[j]).id@
            &&& t[i].name@ != t[j].name@
            &&& t[i].user_data_dir@ != t[j].user_data_dir@
        } by {
            let si = if i < w { i } else { i + 1 };
            let sj = if j < w { j } else { j + 1 };
            assert(t[i] == s[si]);
            assert(t[j] == s[sj]);
            assert(s[si].id@ != s[sj].id@);
        }
    }
}

/// A successful update keeps the store well formed: a new name is checked against every other
/// instance, and the id and directory do not change.
pub proof fn lemma_update_instance_keeps_well_formed(
    before: InstanceStore,
    after: InstanceStore,
    params: UpdateInstanceParams,
    r: Result<InstanceProfile, String>,
)
    requires
        store_well_formed(before),
        instance_updated(before, after, params, r),
    ensures
        store_well_formed(after),
{
    let s = before.instances@;
    let id = params.instance_id@;
    if has_instance(s, id) {
        let w = choose|w: int| 0 <= w < s.len() && s[w].id@ == id;
        assert(is_first_with_id(s, id, w)) by {
            assert forall|j: int| 0 <= j < w implies s[j].id@ != id by {
                assert(s[j].id@ != s[w].id@);
            }
        }
        if update_rejection(s, w, params) is None {
            let p = after.instances@[w];
            let t = after.instances@;
            assert(profile_updated(s[w], p, params));
            if let Some(nm) = params.name {
                lemma_uniqueness_failure_iff_taken(
                    s,
                    trim(nm@),
                    s[w].user_data_dir@,
                    Some(s[w].id@),
                );
            }
            assert forall|i: int, j: int| 0 <= i < t.len() && 0 <= j < t.len() && i != j implies {
                &&& (#[trigger] t[i]).id@ != (#[trigger] t[j]).id@
                &&& t[i].name@ != t[j].name@
                &&& t[i].user_data_dir@ != t[j].user_data_dir@
            } by {
                assert(s[i].id@ != s[j].id@);
                if i == w {
                    assert(s[j].id@ != s[w].id@);
                } else if j == w {
                    assert(s[i].id@ != s[w].id@);
                }
            }
        }
    }
}

/// Adding a planned instance keeps the store well formed, as long as its fresh id is not already
/// in use (the id is random, and nothing rules out a collision).
pub proof fn lemma_create_instance_keeps_well_formed(
    before: InstanceStore,
    after: InstanceStore,
    params: CreateInstanceParams,
    plan: CreateInstancePlan,
    p: InstanceProfile,
)
    requires
        store_well_formed(before),
        create_rejection(before, params) is None,
        plan_matches(before, params, plan),
        new_profile_matches(plan, params, p),
        after.instances@ == before.instances@.push(p),
        !has_instance(before.instances@, p.id@),
    ensures
        store_well_formed(after),
{
    let s = before.instances@;
    let t = after.instances@;
    lemma_uniqueness_failure_iff_taken(s, trim(params.name@), trim(params.user_data_dir@), None);
    assert forall|i: int, j: int| 0 <= i < t.len() && 0 <= j < t.len() && i != j implies {
        &&& (#[trigger] t[i]).id@ != (#[trigger] t[j]).id@
        &&& t[i].name@ != t[j].name@
        &&& t[i].user_data_dir@ != t[j].user_data_dir@
    } by {
        if i < s.len() && j < s.len() {
            assert(t[i] == s[i]);
            assert(t[j] == s[j]);
        } else if i == s.len() {
            assert(t[j] == s[j]);
        } else {
            assert(t[i] == s[i]);
        }
    }
}

/// Replacing the same account a second time changes nothing: no reference to the old account is
/// left after the first replacement.
pub proof fn lemma_replace_bindings_idempotent(
    s1: InstanceStore,
    s2: InstanceStore,
    s3: InstanceStore,
    old_account: Seq<char>,
    new_account: Seq<char>,
    c1: bool,
    c2: bool,
)
    requires
        bindings_replaced(s1, s2, old_account, new_account, c1),
        bindings_replaced(s2, s3, old_account, new_account, c2),
    ensures
        !c2,
        s3.instances@ == s2.instances@,
        s3.default_settings == s2.default_settings,
{
    let o = trim(old_account);
    let n = trim(new_account);
    if !(o.len() == 0 || n.len() == 0 || o == n) {
        assert forall|i: int| 0 <= i < s2.instances@.len() implies !binds(
            #[trigger] s2.instances@[i].bind_account_id,
            o,
        ) by {
            assert(profile_rebound(s1.instances@[i], s2.instances@[i], o, n));
        }
        assert forall|i: int| 0 <= i < s2.instances@.len() implies s3.instances@[i]
            == s2.instances@[i] by {
            assert(profile_rebound(s2.instances@[i], s3.instances@[i], o, n));
        }
        assert(s3.instances@ =~= s2.instances@);
    }
}


/// In a well-formed store, a deleted instance is gone: no instance with its id is left.
pub proof fn lemma_deleted_instance_is_gone(
    before: InstanceStore,
    after: InstanceStore,
    id: Seq<char>,
    r: Result<Option<String>, String>,
)
    requires
        store_well_formed(before),
        instance_deleted(before, after, id, r),
    ensures
        !has_instance(after.instances@, id),
{
    if has_instance(before.instances@, id) {
        let s = before.instances@;
        let w = choose|w: int| 0 <= w < s.len() && s[w].id@ == id;
        assert(is_first_with_id(s, id, w)) by {
            assert forall|j: int| 0 <= j < w implies s[j].id@ != id by {
                assert(s[j].id@ != s[w].id@);
            }
        }
        let t = after.instances@;
        assert(t == s.remove(w));
        assert forall|i: int| 0 <= i < t.len() implies t[i].id@ != id by {
            let si = if i < w { i } else { i + 1 };
            assert(t[i] == s[si]);
            assert(s[si].id@ != s[w].id@);
        }
    }
}

/// Updating the default instance's settings: binding an account (or clearing the binding) stops
/// following the local account; asking to follow it clears the binding; asking not to follow
/// it only takes effect when no account is bound; extra arguments are stored trimmed; what is
/// not asked for stays as it was, and the process id is never touched.
pub proof fn lemma_default_settings_update(
    before: DefaultInstanceSettings,
    after: DefaultInstanceSettings,
    bind: Option<Option<String>>,
    extra_args: Option<String>,
    follow: Option<bool>,
    launch_mode: Option<InstanceLaunchMode>,
)
    requires
        default_settings_updated(before, after, bind, extra_args, follow, launch_mode),
    ensures
        bind is Some ==> after.bind_account_id == bind->0 && !after.follow_local_account,
        bind is None && follow == Some(true) ==> after.bind_account_id is None
            && after.follow_local_account,
        bind is None && follow == Some(false) ==> after.bind_account_id == before.bind_account_id
            && after.follow_local_account == (before.follow_local_account
            && before.bind_account_id is Some),
        bind is None && follow is None ==> after.bind_account_id == before.bind_account_id
            && after.follow_local_account == before.follow_local_account,
        extra_args is Some ==> after.extra_args@ == trim(extra_args->0@),
        extra_args is None ==> after.extra_args == before.extra_args,
        launch_mode is Some ==> after.launch_mode == launch_mode->0,
        launch_mode is None ==> after.launch_mode == before.launch_mode,
        after.last_pid == before.last_pid,
{
}

/// An update of an instance: the missing-instance error when the id is unknown; the blank-name
/// error for a blank new name; the taken-name error when another instance has the new name;
/// otherwise the profile keeps its id, directory, creation time, launch time and process id,
/// takes every field asked for (names, extra arguments and working directories trimmed, a blank
/// working directory cleared), keeps every field not asked for, and no other instance changes.
pub proof fn lemma_update_instance_outcomes(
    before: InstanceStore,
    after: InstanceStore,
    params: UpdateInstanceParams,
    r: Result<InstanceProfile, String>,
    i: int,
)
    requires
        instance_updated(before, after, params, r),
    ensures
        !has_instance(before.instances@, params.instance_id@) ==> (r matches Err(e) && e@
            == instance_missing_message() && after == before),
        is_first_with_id(before.instances@, params.instance_id@, i) ==> {
            let old_p = before.instances@[i];
            &&& (params.name is Some && is_blank(params.name->0@)) ==> (r matches Err(e) && e@
                == name_empty_message() && after == before)
            &&& (params.name is Some && !is_blank(params.name->0@) && exists|j: int|
                0 <= j < before.instances@.len() && before.instances@[j].id@ != old_p.id@
                    && before.instances@[j].name@ == trim(params.name->0@)) ==> (r is Err && after == before)
            &&& r is Ok ==> {
                let p = r->Ok_0;
                &&& after.instances@ == before.instances@.update(i, p)
                &&& p.id == old_p.id && p.user_data_dir == old_p.user_data_dir
                &&& p.created_at == old_p.created_at && p.last_launched_at == old_p.last_launched_at
                &&& p.last_pid == old_p.last_pid
                &&& (params.name is Some ==> p.name@ == trim(params.name->0@))
                &&& (params.name is None ==> p.name == old_p.name)
                &&& (params.extra_args is Some ==> p.extra_args@ == trim(params.extra_args->0@))
                &&& (params.extra_args is None ==> p.extra_args == old_p.extra_args)
                &&& (params.working_dir is Some && is_blank(params.working_dir->0@)
                    ==> p.working_dir is None)
                &&& (params.working_dir is Some && !is_blank(params.working_dir->0@)
                    ==> (p.working_dir matches Some(w) && w@ == trim(params.working_dir->0@)))
                &&& (params.working_dir is None ==> p.working_dir == old_p.working_dir)
                &&& (params.bind_account_id is Some ==> p.bind_account_id == params.bind_account_id->0)
                &&& (params.bind_account_id is None ==> p.bind_account_id == old_p.bind_account_id)
                &&& (params.launch_mode is Some ==> p.launch_mode == params.launch_mode->0)
                &&& (params.launch_mode is None ==> p.launch_mode == old_p.launch_mode)
            }
            &&& (params.name is None ==> r is Ok)
        },
{
    if is_first_with_id(before.instances@, params.instance_id@, i) {
        let s = before.instances@;
        if let Some(nm) = params.name {
            if !is_blank(nm@) {
                lemma_uniqueness_failure_iff_taken(s, trim(nm@), s[i].user_data_dir@, Some(s[i].id@));
                if exists|j: int| 0 <= j < s.len() && s[j].id@ != s[i].id@ && s[j].name@ == trim(nm@) {
                    let j = choose|j: int| 0 <= j < s.len() && s[j].id@ != s[i].id@ && s[j].name@ == trim(nm@);
                    assert(name_or_dir_taken(s, trim(nm@), s[i].user_data_dir@, Some(s[i].id@)));
                }
            }
        }
    }
}

/// The uniqueness check looks at the name first: when another instance has the name, the error
/// is the taken-name one; when only the directory is taken, the taken-directory one.
pub proof fn lemma_uniqueness_messages(
    s: Seq<InstanceProfile>,
    name: Seq<char>,
    dir: Seq<char>,
    exclude: Option<Seq<char>>,
)
    ensures
        uniqueness_failure(s, name, dir, exclude) is Some ==> (uniqueness_failure(s, name, dir, exclude)
            == Some(name_taken_message()) || uniqueness_failure(s, name, dir, exclude) == Some(
            dir_taken_message(),
        )),
        (forall|j: int| 0 <= j < s.len() && exclude != Some(s[j].id@) ==> #[trigger] s[j].user_data_dir@ != dir)
            && name_or_dir_taken(s, name, dir, exclude) ==> uniqueness_failure(s, name, dir, exclude)
            == Some(name_taken_message()),
        (forall|j: int| 0 <= j < s.len() && exclude != Some(s[j].id@) ==> #[trigger] s[j].name@ != name)
            && name_or_dir_taken(s, name, dir, exclude) ==> uniqueness_failure(s, name, dir, exclude)
            == Some(dir_taken_message()),
    decreases s.len(),
{
    lemma_uniqueness_failure_iff_taken(s, name, dir, exclude);
    if s.len() > 0 {
        lemma_uniqueness_messages(s.drop_first(), name, dir, exclude);
        lemma_uniqueness_failure_iff_taken(s.drop_first(), name, dir, exclude);
        if name_or_dir_taken(s, name, dir, exclude) && !(exclude != Some(s[0].id@) && (s[0].name@ == name
            || s[0].user_data_dir@ == dir)) {
            let j = choose|j: int|
                0 <= j < s.len() && exclude != Some(s[j].id@) && (s[j].name@ == name
                    || s[j].user_data_dir@ == dir);
            assert(j > 0);
            assert(s.drop_first()[j - 1] == s[j]);
            assert(name_or_dir_taken(s.drop_first(), name, dir, exclude));
        }
        assert forall|j: int| 0 <= j < s.drop_first().len() implies s.drop_first()[j] == s[j + 1] by {}
    }
}

/// The initialisation mode is read case-insensitively: any spelling of `empty` asks for an empty
/// directory, of `existingdir` or `existing_dir` for an existing one, and anything else,
/// including no mode at all, for a copy.
pub proof fn lemma_init_mode_case_insensitive(mode: String)
    ensures
        ascii_lower(mode@) == "empty"@ ==> init_mode_named(Some(mode)) == InstanceInitMode::Empty,
        (ascii_lower(mode@) == "existingdir"@ || ascii_lower(mode@) == "existing_dir"@)
            ==> init_mode_named(Some(mode)) == InstanceInitMode::ExistingDir,
        ascii_lower(mode@) != "empty"@ && ascii_lower(mode@) != "existingdir"@ && ascii_lower(mode@)
            != "existing_dir"@ ==> init_mode_named(Some(mode)) == InstanceInitMode::Copy,
        init_mode_named(None) == InstanceInitMode::Copy,
{
    reveal_strlit("copy");
    reveal_strlit("empty");
    reveal_strlit("existingdir");
    reveal_strlit("existing_dir");
    assert("copy"@ != "empty"@) by { assert("copy"@.len() != "empty"@.len()); }
    assert("copy"@ != "existingdir"@) by { assert("copy"@.len() != "existingdir"@.len()); }
    assert("copy"@ != "existing_dir"@) by { assert("copy"@.len() != "existing_dir"@.len()); }
}

/// After an account is replaced by another (both non-blank and different once trimmed), no
/// instance and not the default instance is bound to the old account any more; every binding to
/// it now names the new account; every other binding, and every other field, is as it was.
pub proof fn lemma_replace_bindings_moves_all(
    before: InstanceStore,
    after: InstanceStore,
    old_account: Seq<char>,
    new_account: Seq<char>,
    changed: bool,
)
    requires
        bindings_replaced(before, after, old_account, new_account, changed),
        trim(old_account).len() > 0,
        trim(new_account).len() > 0,
        trim(old_account) != trim(new_account),
    ensures
        !binds(after.default_settings.bind_account_id, trim(old_account)),
        after.instances@.len() == before.instances@.len(),
        forall|i: int|
            0 <= i < after.instances@.len() ==> !binds(
                #[trigger] after.instances@[i].bind_account_id,
                trim(old_account),
            ),
        forall|i: int|
            0 <= i < before.instances@.len() && binds(
                #[trigger] before.instances@[i].bind_account_id,
                trim(old_account),
            ) ==> binds(after.instances@[i].bind_account_id, trim(new_account)),
        forall|i: int|
            0 <= i < before.instances@.len() && !binds(
                #[trigger] before.instances@[i].bind_account_id,
                trim(old_account),
            ) ==> after.instances@[i] == before.instances@[i],
        changed == (binds(before.default_settings.bind_account_id, trim(old_account)) || exists|i: int|
            0 <= i < before.instances@.len() && binds(before.instances@[i].bind_account_id, trim(old_account))),
{
    let o = trim(old_account);
    let n = trim(new_account);
    assert forall|i: int| 0 <= i < after.instances@.len() implies !binds(
        #[trigger] after.instances@[i].bind_account_id,
        o,
    ) by {
        assert(profile_rebound(before.instances@[i], after.instances@[i], o, n));
    }
    assert forall|i: int|
        0 <= i < before.instances@.len() && binds(#[trigger] before.instances@[i].bind_account_id, o)
            implies binds(after.instances@[i].bind_account_id, n) by {
        assert(profile_rebound(before.instances@[i], after.instances@[i], o, n));
    }
    assert forall|i: int|
        0 <= i < before.instances@.len() && !binds(#[trigger] before.instances@[i].bind_account_id, o)
            implies after.instances@[i] == before.instances@[i] by {
        assert(profile_rebound(before.instances@[i], after.instances@[i], o, n));
    }
}

/// A creation request is refused for a blank name, then for a blank directory, then when
/// another instance has the name or the directory, then when a copy names an instance the store
/// does not hold; a request that passes all of these is accepted, and a copy then comes from the
/// default home unless it names an instance, whose profile directory it then comes from.
pub proof fn lemma_create_rejections(store: InstanceStore, params: CreateInstanceParams, plan: CreateInstancePlan)
    ensures
        is_blank(params.name@) ==> create_rejection(store, params) == Some(name_empty_message()),
        !is_blank(params.name@) && is_blank(params.user_data_dir@) ==> create_rejection(store, params)
            == Some(dir_empty_message()),
        !is_blank(params.name@) && !is_blank(params.user_data_dir@) && name_or_dir_taken(
            store.instances@,
            trim(params.name@),
            trim(params.user_data_dir@),
            None,
        ) ==> (create_rejection(store, params) == Some(name_taken_message()) || create_rejection(
            store,
            params,
        ) == Some(dir_taken_message())),
        !is_blank(params.name@) && !is_blank(params.user_data_dir@) && !name_or_dir_taken(
            store.instances@,
            trim(params.name@),
            trim(params.user_data_dir@),
            None,
        ) && init_mode_named(params.init_mode) == InstanceInitMode::Copy
            && params.copy_source_instance_id is Some && params.copy_source_instance_id->0@
            != default_source_id() && !has_instance(store.instances@, params.copy_source_instance_id->0@)
            ==> create_rejection(store, params) == Some(copy_source_missing_message()),
        create_rejection(store, params) is None ==> !is_blank(params.name@) && !is_blank(
            params.user_data_dir@,
        ) && !name_or_dir_taken(store.instances@, trim(params.name@), trim(params.user_data_dir@), None),
        plan_matches(store, params, plan) && plan.init_mode == InstanceInitMode::Copy
            && params.copy_source_instance_id is None ==> plan.copy_source == Some(CopySource::DefaultHome),
        plan_matches(store, params, plan) && plan.init_mode != InstanceInitMode::Copy
            ==> plan.copy_source is None,
{
    lemma_uniqueness_failure_iff_taken(store.instances@, trim(params.name@), trim(params.user_data_dir@), None);
    lemma_uniqueness_messages(store.instances@, trim(params.name@), trim(params.user_data_dir@), None);
}

} // verus!
