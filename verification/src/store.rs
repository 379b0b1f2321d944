//! The Codex instance store: the profiles of the instances and the settings of the default
//! instance, and every change the application makes to them.

use vstd::prelude::*;

use crate::text::{is_blank, trim, trimmed, str_eq, blank, owned, ascii_lower, str_to_ascii_lowercase};

verus! {

/// How an instance is started.
#[derive(Debug, Clone, Copy, PartialEq, Eq, Structural)]
pub enum InstanceLaunchMode {
    /// The desktop application.
    App,
    /// The command-line client.
    Cli,
}

impl Default for InstanceLaunchMode {
    fn default() -> (r: Self)
        ensures
            r == InstanceLaunchMode::App,
    {
        InstanceLaunchMode::App
    }
}

/// One Codex instance: its own profile directory and launch settings.
#[derive(Debug, Clone)]
pub struct InstanceProfile {
    pub id: String,
    pub name: String,
    pub user_data_dir: String,
    pub working_dir: Option<String>,
    pub extra_args: String,
    pub bind_account_id: Option<String>,
    pub launch_mode: InstanceLaunchMode,
    pub created_at: i64,
    pub last_launched_at: Option<i64>,
    pub last_pid: Option<u32>,
}

/// Settings of the default instance (the user's own Codex home).
#[derive(Debug, Clone)]
pub struct DefaultInstanceSettings {
    pub bind_account_id: Option<String>,
    pub extra_args: String,
    pub follow_local_account: bool,
    pub launch_mode: InstanceLaunchMode,
    pub last_pid: Option<u32>,
}

/// Everything the store file holds.
#[derive(Debug, Clone)]
pub struct InstanceStore {
    pub instances: Vec<InstanceProfile>,
    pub default_settings: DefaultInstanceSettings,
}

/// What `update_instance` is asked to change; `None` leaves a field as it is.
#[derive(Debug, Clone)]
pub struct UpdateInstanceParams {
    pub instance_id: String,
    pub name: Option<String>,
    pub working_dir: Option<String>,
    pub extra_args: Option<String>,
    pub bind_account_id: Option<Option<String>>,
    pub launch_mode: Option<InstanceLaunchMode>,
}

/// What `create_instance` is asked to make.
#[derive(Debug, Clone)]
pub struct CreateInstanceParams {
    pub name: String,
    pub user_data_dir: String,
    pub working_dir: Option<String>,
    pub extra_args: String,
    pub bind_account_id: Option<String>,
    pub copy_source_instance_id: Option<String>,
    pub init_mode: Option<String>,
    pub launch_mode: Option<InstanceLaunchMode>,
}

// ---------------------------------------------------------------------------
// Messages
// ---------------------------------------------------------------------------

/// The error of an operation on an instance id the store does not hold.
pub open spec fn instance_missing_message() -> Seq<char> {
    "实例不存在"@
}

/// The error of a name that is empty once trimmed.
pub open spec fn name_empty_message() -> Seq<char> {
    "实例名称不能为空"@
}

/// The error of a name another instance already has.
pub open spec fn name_taken_message() -> Seq<char> {
    "实例名称已存在"@
}

/// The error of a profile directory another instance already uses.
pub open spec fn dir_taken_message() -> Seq<char> {
    "实例目录已存在"@
}

fn instance_missing() -> (r: String)
    ensures
        r@ == instance_missing_message(),
{
    owned("实例不存在")
}

// ---------------------------------------------------------------------------
// Looking instances up
// ---------------------------------------------------------------------------

/// Some instance in `s` has the id `id`.
pub open spec fn has_instance(s: Seq<InstanceProfile>, id: Seq<char>) -> bool {
    exists|i: int| 0 <= i < s.len() && s[i].id@ == id
}

/// `i` is the first position in `s` of an instance with the id `id`.
pub open spec fn is_first_with_id(s: Seq<InstanceProfile>, id: Seq<char>, i: int) -> bool {
    &&& 0 <= i < s.len()
    &&& s[i].id@ == id
    &&& forall|j: int| 0 <= j < i ==> s[j].id@ != id
}

/// The first position of `id` is unique.
pub proof fn lemma_first_with_id_unique(s: Seq<InstanceProfile>, id: Seq<char>, i: int, j: int)
    requires
        is_first_with_id(s, id, i),
        is_first_with_id(s, id, j),
    ensures
        i == j,
{
}

/// The position of the first instance with the id `id`, as `iter().position(..)`.
pub fn find_instance_index(instances: &Vec<InstanceProfile>, id: &str) -> (r: Option<usize>)
    ensures
        match r {
            Some(i) => is_first_with_id(instances@, id@, i as int),
            None => !has_instance(instances@, id@),
        },
{
    let mut i: usize = 0;
    while i < instances.len()
        invariant
            i <= instances.len(),
            forall|j: int| 0 <= j < i ==> instances@[j].id@ != id@,
        decreases instances.len() - i,
    {
        if str_eq(instances[i].id.as_str(), id) {
            return Some(i);
        }
        i = i + 1;
    }
    None
}

fn copy_opt_string(o: &Option<String>) -> (r: Option<String>)
    ensures
        r == *o,
{
    match o {
        Some(s) => Some(s.clone()),
        None => None,
    }
}

fn copy_profile(p: &InstanceProfile) -> (r: InstanceProfile)
    ensures
        r == *p,
{
    InstanceProfile {
        id: p.id.clone(),
        name: p.name.clone(),
        user_data_dir: p.user_data_dir.clone(),
        working_dir: copy_opt_string(&p.working_dir),
        extra_args: p.extra_args.clone(),
        bind_account_id: copy_opt_string(&p.bind_account_id),
        launch_mode: p.launch_mode,
        created_at: p.created_at,
        last_launched_at: p.last_launched_at,
        last_pid: p.last_pid,
    }
}

fn copy_settings(s: &DefaultInstanceSettings) -> (r: DefaultInstanceSettings)
    ensures
        r == *s,
{
    DefaultInstanceSettings {
        bind_account_id: copy_opt_string(&s.bind_account_id),
        extra_args: s.extra_args.clone(),
        follow_local_account: s.follow_local_account,
        launch_mode: s.launch_mode,
        last_pid: s.last_pid,
    }
}

// ---------------------------------------------------------------------------
// Process ids and launch times
// ---------------------------------------------------------------------------

/// `p` with its last process id set to `pid`.
pub open spec fn with_pid(p: InstanceProfile, pid: Option<u32>) -> InstanceProfile {
    InstanceProfile { last_pid: pid, ..p }
}

/// `p` as it is after a launch at `at` that left the process `pid`.
pub open spec fn with_launch(p: InstanceProfile, pid: Option<u32>, at: i64) -> InstanceProfile {
    InstanceProfile { last_pid: pid, last_launched_at: Some(at), ..p }
}

/// The store after the first instance with id `id` was changed by `change`, and the result:
/// the changed profile, or the missing-instance error with the store left as it was.
pub open spec fn changed_first_instance(
    before: InstanceStore,
    after: InstanceStore,
    id: Seq<char>,
    change: spec_fn(InstanceProfile) -> InstanceProfile,
    r: Result<InstanceProfile, String>,
) -> bool {
    &&& !has_instance(before.instances@, id) ==> {
        &&& r matches Err(e) && e@ == instance_missing_message()
        &&& after == before
    }
    &&& has_instance(before.instances@, id) ==> r is Ok
    &&& forall|i: int|
        #[trigger] is_first_with_id(before.instances@, id, i) ==> {
            &&& r == Ok::<InstanceProfile, String>(change(before.instances@[i]))
            &&& after.instances@ == before.instances@.update(i, change(before.instances@[i]))
            &&& after.default_settings == before.default_settings
        }
}

/// Records the process id of an instance.
pub fn update_instance_pid(store: &mut InstanceStore, instance_id: &str, pid: Option<u32>) -> (r:
    Result<InstanceProfile, String>)
    ensures
        changed_first_instance(*old(store), *final(store), instance_id@, |p| with_pid(p, pid), r),
{
    match find_instance_index(&store.instances, instance_id) {
        None => Err(instance_missing()),
        Some(i) => {
            let mut p = copy_profile(&store.instances[i]);
            p.last_pid = pid;
            let out = copy_profile(&p);
            store.instances.set(i, p);
            proof {
                let before = old(store).instances@;
                assert forall|k: int| is_first_with_id(before, instance_id@, k) implies k == i by {
                    lemma_first_with_id_unique(before, instance_id@, k, i as int);
                }
            }
            Ok(out)
        },
    }
}


/// `chrono::Utc::now().timestamp_millis()`: the current time in milliseconds since the Unix
/// epoch. It depends on the clock, so nothing is stated of it.
#[verifier::external_body]
pub(crate) fn now_millis() -> i64 {
    chrono::Utc::now().timestamp_millis()
}

/// The first instance with id `id` was launched at `at`, leaving the process `pid`.
pub open spec fn launch_recorded(
    before: InstanceStore,
    after: InstanceStore,
    id: Seq<char>,
    pid: Option<u32>,
    at: i64,
    r: Result<InstanceProfile, String>,
) -> bool {
    changed_first_instance(before, after, id, |p| with_launch(p, pid, at), r)
}

/// Records a launch of an instance at the time `launched_at`, leaving the process `pid`.
pub fn record_instance_launch(
    store: &mut InstanceStore,
    instance_id: &str,
    pid: Option<u32>,
    launched_at: i64,
) -> (r: Result<InstanceProfile, String>)
    ensures
        launch_recorded(*old(store), *final(store), instance_id@, pid, launched_at, r),
{
    match find_instance_index(&store.instances, instance_id) {
        None => Err(instance_missing()),
        Some(i) => {
            let mut p = copy_profile(&store.instances[i]);
            p.last_pid = pid;
            p.last_launched_at = Some(launched_at);
            let out = copy_profile(&p);
            store.instances.set(i, p);
            proof {
                let before = old(store).instances@;
                assert forall|k: int| is_first_with_id(before, instance_id@, k) implies k == i by {
                    lemma_first_with_id_unique(before, instance_id@, k, i as int);
                }
            }
            Ok(out)
        },
    }
}

/// Records that an instance was started now and that its process is `pid`.
pub fn update_instance_after_start_resolved(
    store: &mut InstanceStore,
    instance_id: &str,
    pid: Option<u32>,
) -> (r: Result<InstanceProfile, String>)
    ensures
        exists|at: i64| #[trigger] launch_recorded(*old(store), *final(store), instance_id@, pid, at, r),
{
    let at = now_millis();
    let r = record_instance_launch(store, instance_id, pid, at);
    assert(launch_recorded(*old(store), *store, instance_id@, pid, at, r));
    r
}

/// Records that the command-line client of an instance was prepared now; no process is left.
pub fn update_instance_after_cli_prepare(store: &mut InstanceStore, instance_id: &str) -> (r:
    Result<InstanceProfile, String>)
    ensures
        exists|at: i64| #[trigger] launch_recorded(*old(store), *final(store), instance_id@, None, at, r),
{
    let at = now_millis();
    let r = record_instance_launch(store, instance_id, None, at);
    assert(launch_recorded(*old(store), *store, instance_id@, None, at, r));
    r
}

/// Records the process id of the default instance and returns its settings.
pub fn update_default_pid(store: &mut InstanceStore, pid: Option<u32>) -> (r:
    DefaultInstanceSettings)
    ensures
        r == (DefaultInstanceSettings { last_pid: pid, ..old(store).default_settings }),
        final(store).default_settings == r,
        final(store).instances == old(store).instances,
{
    store.default_settings.last_pid = pid;
    copy_settings(&store.default_settings)
}

/// Forgets every recorded process id, the default instance's included.
pub fn clear_all_pids(store: &mut InstanceStore)
    ensures
        final(store).default_settings == (DefaultInstanceSettings {
            last_pid: None,
            ..old(store).default_settings
        }),
        final(store).instances@.len() == old(store).instances@.len(),
        forall|i: int|
            0 <= i < old(store).instances@.len() ==> final(store).instances@[i] == with_pid(
                old(store).instances@[i],
                None,
            ),
{
    store.default_settings.last_pid = None;
    let mut i: usize = 0;
    while i < store.instances.len()
        invariant
            i <= store.instances.len(),
            store.instances@.len() == old(store).instances@.len(),
            store.default_settings == (DefaultInstanceSettings {
                last_pid: None,
                ..old(store).default_settings
            }),
            forall|j: int| 0 <= j < i ==> store.instances@[j] == with_pid(old(store).instances@[j], None),
            forall|j: int| i <= j < store.instances@.len() ==> store.instances@[j] == old(store).instances@[j],
        decreases store.instances.len() - i,
    {
        let mut p = copy_profile(&store.instances[i]);
        p.last_pid = None;
        store.instances.set(i, p);
        i = i + 1;
    }
}

/// The settings of the default instance, as the store holds them.
pub fn load_default_settings(store: &InstanceStore) -> (r: DefaultInstanceSettings)
    ensures
        r == store.default_settings,
{
    copy_settings(&store.default_settings)
}


// ---------------------------------------------------------------------------
// Default instance settings
// ---------------------------------------------------------------------------

/// The account binding after an update of the default settings.
pub open spec fn bind_after_update(
    before: Option<String>,
    bind: Option<Option<String>>,
    follow: Option<bool>,
) -> Option<String> {
    match bind {
        Some(b) => b,
        None => if follow == Some(true) {
            None
        } else {
            before
        },
    }
}

/// Whether the default instance follows the local account after an update: binding an account
/// stops following; asking to follow starts it; asking not to follow stops it only when no
/// account is bound.
pub open spec fn follow_after_update(
    before: DefaultInstanceSettings,
    bind: Option<Option<String>>,
    follow: Option<bool>,
) -> bool {
    if bind is Some {
        false
    } else if follow == Some(true) {
        true
    } else if follow == Some(false) && before.bind_account_id is None {
        false
    } else {
        before.follow_local_account
    }
}

/// `after` is `before` updated with the requested binding, extra arguments, following flag and
/// launch mode.
pub open spec fn default_settings_updated(
    before: DefaultInstanceSettings,
    after: DefaultInstanceSettings,
    bind: Option<Option<String>>,
    extra_args: Option<String>,
    follow: Option<bool>,
    launch_mode: Option<InstanceLaunchMode>,
) -> bool {
    &&& after.bind_account_id == bind_after_update(before.bind_account_id, bind, follow)
    &&& after.follow_local_account == follow_after_update(before, bind, follow)
    &&& match extra_args {
        Some(a) => after.extra_args@ == trim(a@),
        None => after.extra_args == before.extra_args,
    }
    &&& after.launch_mode == match launch_mode {
        Some(m) => m,
        None => before.launch_mode,
    }
    &&& after.last_pid == before.last_pid
}

/// Updates the settings of the default instance and returns them.
pub fn update_default_settings(
    store: &mut InstanceStore,
    bind_account_id: Option<Option<String>>,
    extra_args: Option<String>,
    follow_local_account: Option<bool>,
    launch_mode: Option<InstanceLaunchMode>,
) -> (r: DefaultInstanceSettings)
    ensures
        default_settings_updated(
            old(store).default_settings,
            r,
            bind_account_id,
            extra_args,
            follow_local_account,
            launch_mode,
        ),
        final(store).default_settings == r,
        final(store).instances == old(store).instances,
{
    let mut settings = copy_settings(&store.default_settings);
    if follow_local_account == Some(true) {
        settings.follow_local_account = true;
        settings.bind_account_id = None;
    }
    if let Some(bind) = bind_account_id {
        settings.bind_account_id = bind;
        settings.follow_local_account = false;
    }
    if follow_local_account == Some(false) && settings.bind_account_id.is_none() {
        settings.follow_local_account = false;
    }
    if let Some(args) = extra_args {
        settings.extra_args = trimmed(args.as_str());
    }
    if let Some(mode) = launch_mode {
        settings.launch_mode = mode;
    }
    let updated = copy_settings(&settings);
    store.default_settings = settings;
    updated
}

// ---------------------------------------------------------------------------
// Deleting instances
// ---------------------------------------------------------------------------

/// The first instance with id `id` is gone from the store; the result names the profile
/// directory to delete with it (none when the recorded directory is blank).
pub open spec fn instance_deleted(
    before: InstanceStore,
    after: InstanceStore,
    id: Seq<char>,
    r: Result<Option<String>, String>,
) -> bool {
    &&& !has_instance(before.instances@, id) ==> {
        &&& r matches Err(e) && e@ == instance_missing_message()
        &&& after == before
    }
    &&& has_instance(before.instances@, id) ==> r is Ok
    &&& forall|i: int|
        #[trigger] is_first_with_id(before.instances@, id, i) ==> {
            &&& after.instances@ == before.instances@.remove(i)
            &&& after.default_settings == before.default_settings
            &&& r == Ok::<Option<String>, String>(
                if is_blank(before.instances@[i].user_data_dir@) {
                    None
                } else {
                    Some(before.instances@[i].user_data_dir)
                },
            )
        }
}

/// Removes an instance from the store. The caller deletes the returned profile directory
/// before it saves the store.
pub fn delete_instance(store: &mut InstanceStore, instance_id: &str) -> (r: Result<
    Option<String>,
    String,
>)
    ensures
        instance_deleted(*old(store), *final(store), instance_id@, r),
{
    match find_instance_index(&store.instances, instance_id) {
        None => Err(instance_missing()),
        Some(i) => {
            let removed = store.instances.remove(i);
            proof {
                let before = old(store).instances@;
                assert forall|k: int| is_first_with_id(before, instance_id@, k) implies k == i by {
                    lemma_first_with_id_unique(before, instance_id@, k, i as int);
                }
            }
            if blank(removed.user_data_dir.as_str()) {
                Ok(None)
            } else {
                Ok(Some(removed.user_data_dir))
            }
        },
    }
}

// ---------------------------------------------------------------------------
// Account bindings
// ---------------------------------------------------------------------------

/// The binding `b` names the account `account`.
pub open spec fn binds(b: Option<String>, account: Seq<char>) -> bool {
    b matches Some(x) && x@ == account
}

/// `after` is `before` with a binding to `old_id` moved to `new_id`, every other field kept.
pub open spec fn profile_rebound(
    before: InstanceProfile,
    after: InstanceProfile,
    old_id: Seq<char>,
    new_id: Seq<char>,
) -> bool {
    if binds(before.bind_account_id, old_id) {
        &&& binds(after.bind_account_id, new_id)
        &&& after == InstanceProfile { bind_account_id: after.bind_account_id, ..before }
    } else {
        after == before
    }
}

/// Every reference to the account `old_account` moved to `new_account` (both trimmed), unless
/// either is blank or they are the same; the result says whether anything changed.
pub open spec fn bindings_replaced(
    before: InstanceStore,
    after: InstanceStore,
    old_account: Seq<char>,
    new_account: Seq<char>,
    changed: bool,
) -> bool {
    let o = trim(old_account);
    let n = trim(new_account);
    if o.len() == 0 || n.len() == 0 || o == n {
        !changed && after == before
    } else {
        &&& changed == (binds(before.default_settings.bind_account_id, o) || exists|i: int|
            0 <= i < before.instances@.len() && binds(before.instances@[i].bind_account_id, o))
        &&& if binds(before.default_settings.bind_account_id, o) {
            &&& binds(after.default_settings.bind_account_id, n)
            &&& after.default_settings == DefaultInstanceSettings {
                bind_account_id: after.default_settings.bind_account_id,
                follow_local_account: false,
                ..before.default_settings
            }
        } else {
            after.default_settings == before.default_settings
        }
        &&& after.instances@.len() == before.instances@.len()
        &&& forall|i: int|
            0 <= i < before.instances@.len() ==> profile_rebound(
                before.instances@[i],
                after.instances@[i],
                o,
                n,
            )
    }
}

/// Moves every binding to an account that was replaced by another one; the store needs saving
/// only when the result is `true`.
pub fn replace_bind_account_references(
    store: &mut InstanceStore,
    old_account_id: &str,
    new_account_id: &str,
) -> (changed: bool)
    ensures
        bindings_replaced(*old(store), *final(store), old_account_id@, new_account_id@, changed),
{
    let old_id = trimmed(old_account_id);
    let new_id = trimmed(new_account_id);
    if old_id.as_str().is_empty() || new_id.as_str().is_empty() || str_eq(
        old_id.as_str(),
        new_id.as_str(),
    ) {
        return false;
    }
    let mut changed = false;
    let default_binds = match &store.default_settings.bind_account_id {
        Some(b) => str_eq(b.as_str(), old_id.as_str()),
        None => false,
    };
    if default_binds {
        store.default_settings.bind_account_id = Some(new_id.clone());
        store.default_settings.follow_local_account = false;
        changed = true;
    }
    let mut i: usize = 0;
    while i < store.instances.len()
        invariant
            i <= store.instances.len(),
            old_id@ == trim(old_account_id@),
            new_id@ == trim(new_account_id@),
            store.instances@.len() == old(store).instances@.len(),
            store.default_settings == (if binds(old(store).default_settings.bind_account_id, old_id@) {
                DefaultInstanceSettings {
                    bind_account_id: Some(new_id),
                    follow_local_account: false,
                    ..old(store).default_settings
                }
            } else {
                old(store).default_settings
            }),
            changed == (binds(old(store).default_settings.bind_account_id, old_id@) || exists|j: int|
                0 <= j < i && binds(old(store).instances@[j].bind_account_id, old_id@)),
            forall|j: int|
                0 <= j < i ==> profile_rebound(
                    old(store).instances@[j],
                    #[trigger] store.instances@[j],
                    old_id@,
                    new_id@,
                ),
            forall|j: int| i <= j < store.instances@.len() ==> store.instances@[j] == old(store).instances@[j],
        decreases store.instances.len() - i,
    {
        let instance_binds = match &store.instances[i].bind_account_id {
            Some(b) => str_eq(b.as_str(), old_id.as_str()),
            None => false,
        };
        if instance_binds {
            let mut p = copy_profile(&store.instances[i]);
            p.bind_account_id = Some(new_id.clone());
            store.instances.set(i, p);
            changed = true;
        }
        i = i + 1;
    }
    changed
}


// ---------------------------------------------------------------------------
// Names and directories
// ---------------------------------------------------------------------------

/// The trimmed name, or the error of a blank name.
pub fn normalize_name(name: &str) -> (r: Result<String, String>)
    ensures
        is_blank(name@) ==> (r matches Err(e) && e@ == name_empty_message()),
        !is_blank(name@) ==> (r matches Ok(n) && n@ == trim(name@)),
{
    let n = trimmed(name);
    if n.as_str().is_empty() {
        Err(owned("实例名称不能为空"))
    } else {
        Ok(n)
    }
}

/// Why the name `name` and directory `dir` cannot be used, looking at the instances in order
/// and skipping those with the id `exclude`: the first other instance with the same name or
/// directory decides, the name being checked first.
pub open spec fn uniqueness_failure(
    s: Seq<InstanceProfile>,
    name: Seq<char>,
    dir: Seq<char>,
    exclude: Option<Seq<char>>,
) -> Option<Seq<char>>
    decreases s.len(),
{
    if s.len() == 0 {
        None
    } else if exclude == Some(s[0].id@) {
        uniqueness_failure(s.drop_first(), name, dir, exclude)
    } else if s[0].name@ == name {
        Some(name_taken_message())
    } else if s[0].user_data_dir@ == dir {
        Some(dir_taken_message())
    } else {
        uniqueness_failure(s.drop_first(), name, dir, exclude)
    }
}

/// An instance other than those with the id `exclude` has the name `name` or the directory
/// `dir`.
pub open spec fn name_or_dir_taken(
    s: Seq<InstanceProfile>,
    name: Seq<char>,
    dir: Seq<char>,
    exclude: Option<Seq<char>>,
) -> bool {
    exists|j: int|
        0 <= j < s.len() && exclude != Some(s[j].id@) && (s[j].name@ == name
            || s[j].user_data_dir@ == dir)
}

/// The check fails exactly when the name or the directory is taken.
pub proof fn lemma_uniqueness_failure_iff_taken(
    s: Seq<InstanceProfile>,
    name: Seq<char>,
    dir: Seq<char>,
    exclude: Option<Seq<char>>,
)
    ensures
        uniqueness_failure(s, name, dir, exclude) is Some <==> name_or_dir_taken(
            s,
            name,
            dir,
            exclude,
        ),
    decreases s.len(),
{
    if s.len() > 0 {
        lemma_uniqueness_failure_iff_taken(s.drop_first(), name, dir, exclude);
        if name_or_dir_taken(s.drop_first(), name, dir, exclude) {
            let j = choose|j: int|
                0 <= j < s.drop_first().len() && exclude != Some(s.drop_first()[j].id@) && (
                s.drop_first()[j].name@ == name || s.drop_first()[j].user_data_dir@ == dir);
            assert(s[j + 1] == s.drop_first()[j]);
        }
        if name_or_dir_taken(s, name, dir, exclude) {
            let j = choose|j: int|
                0 <= j < s.len() && exclude != Some(s[j].id@) && (s[j].name@ == name
                    || s[j].user_data_dir@ == dir);
            if j > 0 {
                assert(s.drop_first()[j - 1] == s[j]);
            }
        }
    }
}

/// Fails when another instance (not one with the id `exclude`) already has the name or the
/// profile directory.
pub fn ensure_unique(
    instances: &Vec<InstanceProfile>,
    name: &str,
    user_data_dir: &str,
    exclude: Option<&str>,
) -> (r: Result<(), String>)
    ensures
        match uniqueness_failure(
            instances@,
            name@,
            user_data_dir@,
            match exclude {
                Some(e) => Some(e@),
                None => None,
            },
        ) {
            None => r is Ok,
            Some(m) => r matches Err(e) && e@ == m,
        },
{
    let ghost ex = match exclude {
        Some(e) => Some(e@),
        None => None::<Seq<char>>,
    };
    let mut i: usize = 0;
    assert(instances@.subrange(0, instances@.len() as int) =~= instances@);
    while i < instances.len()
        invariant
            i <= instances.len(),
            ex == match exclude {
                Some(e) => Some(e@),
                None => None::<Seq<char>>,
            },
            uniqueness_failure(instances@, name@, user_data_dir@, ex) == uniqueness_failure(
                instances@.subrange(i as int, instances@.len() as int),
                name@,
                user_data_dir@,
                ex,
            ),
        decreases instances.len() - i,
    {
        let ghost rest = instances@.subrange(i as int, instances@.len() as int);
        assert(rest.drop_first() =~= instances@.subrange(i + 1, instances@.len() as int));
        assert(rest[0] == instances@[i as int]);
        let p = &instances[i];
        let skip = match exclude {
            Some(e) => str_eq(p.id.as_str(), e),
            None => false,
        };
        if !skip {
            if str_eq(p.name.as_str(), name) {
                return Err(owned("实例名称已存在"));
            }
            if str_eq(p.user_data_dir.as_str(), user_data_dir) {
                return Err(owned("实例目录已存在"));
            }
        }
        i = i + 1;
    }
    assert(instances@.subrange(i as int, instances@.len() as int) =~= Seq::<InstanceProfile>::empty());
    Ok(())
}


// ---------------------------------------------------------------------------
// Updating an instance
// ---------------------------------------------------------------------------

/// `after` is the profile `before` with the changes `params` asks for: names and extra
/// arguments are trimmed, a blank working directory clears it.
pub open spec fn profile_updated(
    before: InstanceProfile,
    after: InstanceProfile,
    params: UpdateInstanceParams,
) -> bool {
    &&& after.id == before.id
    &&& after.user_data_dir == before.user_data_dir
    &&& after.created_at == before.created_at
    &&& after.last_launched_at == before.last_launched_at
    &&& after.last_pid == before.last_pid
    &&& match params.name {
        Some(n) => after.name@ == trim(n@),
        None => after.name == before.name,
    }
    &&& match params.extra_args {
        Some(a) => after.extra_args@ == trim(a@),
        None => after.extra_args == before.extra_args,
    }
    &&& match params.working_dir {
        Some(w) => if is_blank(w@) {
            after.working_dir is None
        } else {
            after.working_dir matches Some(x) && x@ == trim(w@)
        },
        None => after.working_dir == before.working_dir,
    }
    &&& after.bind_account_id == match params.bind_account_id {
        Some(b) => b,
        None => before.bind_account_id,
    }
    &&& after.launch_mode == match params.launch_mode {
        Some(m) => m,
        None => before.launch_mode,
    }
}

/// Why the update of the instance at `i` is refused, if it is: a blank new name, or a new name
/// (or the instance's own directory) that another instance already has.
pub open spec fn update_rejection(
    s: Seq<InstanceProfile>,
    i: int,
    params: UpdateInstanceParams,
) -> Option<Seq<char>> {
    match params.name {
        Some(n) => if is_blank(n@) {
            Some(name_empty_message())
        } else {
            uniqueness_failure(s, trim(n@), s[i].user_data_dir@, Some(s[i].id@))
        },
        None => None,
    }
}

/// The outcome of `update_instance`: the missing-instance error, a refusal, or the updated
/// profile in place of the old one; a failed update leaves the store as it was.
pub open spec fn instance_updated(
    before: InstanceStore,
    after: InstanceStore,
    params: UpdateInstanceParams,
    r: Result<InstanceProfile, String>,
) -> bool {
    &&& !has_instance(before.instances@, params.instance_id@) ==> {
        &&& r matches Err(e) && e@ == instance_missing_message()
        &&& after == before
    }
    &&& forall|i: int|
        #[trigger] is_first_with_id(before.instances@, params.instance_id@, i) ==> match update_rejection(
            before.instances@,
            i,
            params,
        ) {
            Some(m) => r matches Err(e) && e@ == m && after == before,
            None => r matches Ok(p) && profile_updated(before.instances@[i], p, params)
                && after.instances@ == before.instances@.update(i, p) && after.default_settings
                == before.default_settings,
        }
}

/// Changes the name, working directory, extra arguments, account binding or launch mode of an
/// instance and returns the updated profile.
pub fn update_instance(store: &mut InstanceStore, params: UpdateInstanceParams) -> (r: Result<
    InstanceProfile,
    String,
>)
    ensures
        instance_updated(*old(store), *final(store), params, r),
{
    let index = match find_instance_index(&store.instances, params.instance_id.as_str()) {
        None => {
            return Err(instance_missing());
        },
        Some(i) => i,
    };
    proof {
        let before = old(store).instances@;
        assert forall|k: int|
            is_first_with_id(before, params.instance_id@, k) implies k == index by {
            lemma_first_with_id_unique(before, params.instance_id@, k, index as int);
        }
    }
    let next_name: Option<String> = match &params.name {
        Some(n) => match normalize_name(n.as_str()) {
            Ok(normalized) => Some(normalized),
            Err(e) => {
                return Err(e);
            },
        },
        None => None,
    };
    if let Some(normalized) = &next_name {
        let current = &store.instances[index];
        match ensure_unique(
            &store.instances,
            normalized.as_str(),
            current.user_data_dir.as_str(),
            Some(current.id.as_str()),
        ) {
            Ok(()) => {},
            Err(e) => {
                return Err(e);
            },
        }
    }
    let mut instance = copy_profile(&store.instances[index]);
    if let Some(normalized) = next_name {
        instance.name = normalized;
    }
    if let Some(extra_args) = &params.extra_args {
        instance.extra_args = trimmed(extra_args.as_str());
    }
    if let Some(working_dir) = &params.working_dir {
        instance.working_dir = if blank(working_dir.as_str()) {
            None
        } else {
            Some(trimmed(working_dir.as_str()))
        };
    }
    if let Some(bind) = &params.bind_account_id {
        instance.bind_account_id = copy_opt_string(bind);
    }
    if let Some(mode) = params.launch_mode {
        instance.launch_mode = mode;
    }
    let updated = copy_profile(&instance);
    store.instances.set(index, instance);
    Ok(updated)
}


// ---------------------------------------------------------------------------
// Creating an instance
// ---------------------------------------------------------------------------

/// How the profile directory of a new instance is prepared.
#[derive(Debug, Clone, Copy, PartialEq, Eq, Structural)]
pub enum InstanceInitMode {
    /// A copy of another profile directory (the default).
    Copy,
    /// An empty directory; the new instance is bound to no account.
    Empty,
    /// A directory that already exists, used as it is.
    ExistingDir,
}

/// Where a copied instance comes from.
#[derive(Debug, Clone)]
pub enum CopySource {
    /// The user's own Codex home.
    DefaultHome,
    /// The profile directory of another instance.
    InstanceDir(String),
}

/// What was decided about a new instance before its directory is prepared.
#[derive(Debug, Clone)]
pub struct CreateInstancePlan {
    pub name: String,
    pub user_data_dir: String,
    pub init_mode: InstanceInitMode,
    pub copy_source: Option<CopySource>,
}

/// The initialisation mode named by `mode` (`copy` when none is given), read case-insensitively
/// in ASCII: `empty`, `existingdir` or `existing_dir`, anything else meaning a copy.
pub open spec fn init_mode_named(mode: Option<String>) -> InstanceInitMode {
    let m = match mode {
        Some(t) => ascii_lower(t@),
        None => "copy"@,
    };
    if m == "empty"@ {
        InstanceInitMode::Empty
    } else if m == "existingdir"@ || m == "existing_dir"@ {
        InstanceInitMode::ExistingDir
    } else {
        InstanceInitMode::Copy
    }
}

/// Reads the initialisation mode a creation request asks for.
pub fn parse_init_mode(init_mode: &Option<String>) -> (r: InstanceInitMode)
    ensures
        r == init_mode_named(*init_mode),
{
    let lowered = match init_mode {
        Some(t) => str_to_ascii_lowercase(t.as_str()),
        None => owned("copy"),
    };
    if str_eq(lowered.as_str(), "empty") {
        InstanceInitMode::Empty
    } else if str_eq(lowered.as_str(), "existingdir") || str_eq(lowered.as_str(), "existing_dir") {
        InstanceInitMode::ExistingDir
    } else {
        InstanceInitMode::Copy
    }
}

/// The error of a blank profile directory.
pub open spec fn dir_empty_message() -> Seq<char> {
    "实例目录不能为空"@
}

/// The error of a copy from an instance the store does not hold.
pub open spec fn copy_source_missing_message() -> Seq<char> {
    "复制来源实例不存在"@
}

/// The id that names the default instance as a copy source.
pub open spec fn default_source_id() -> Seq<char> {
    "__default__"@
}

/// The plan `plan` follows from the request: trimmed name and directory, the requested mode,
/// and for a copy the source it names.
pub open spec fn plan_matches(
    store: InstanceStore,
    params: CreateInstanceParams,
    plan: CreateInstancePlan,
) -> bool {
    &&& plan.name@ == trim(params.name@)
    &&& plan.user_data_dir@ == trim(params.user_data_dir@)
    &&& plan.init_mode == init_mode_named(params.init_mode)
    &&& if plan.init_mode == InstanceInitMode::Copy {
        match params.copy_source_instance_id {
            None => plan.copy_source == Some(CopySource::DefaultHome),
            Some(src) => if src@ == default_source_id() {
                plan.copy_source == Some(CopySource::DefaultHome)
            } else {
                exists|k: int|
                    is_first_with_id(store.instances@, src@, k) && plan.copy_source == Some(
                        CopySource::InstanceDir(store.instances@[k].user_data_dir),
                    )
            },
        }
    } else {
        plan.copy_source is None
    }
}

/// Why a creation request is refused before anything is written, if it is, in the order the
/// checks run: blank name, blank directory, name or directory taken, missing copy source.
pub open spec fn create_rejection(store: InstanceStore, params: CreateInstanceParams) -> Option<
    Seq<char>,
> {
    if is_blank(params.name@) {
        Some(name_empty_message())
    } else if is_blank(params.user_data_dir@) {
        Some(dir_empty_message())
    } else if uniqueness_failure(
        store.instances@,
        trim(params.name@),
        trim(params.user_data_dir@),
        None,
    ) is Some {
        uniqueness_failure(
            store.instances@,
            trim(params.name@),
            trim(params.user_data_dir@),
            None,
        )
    } else if init_mode_named(params.init_mode) == InstanceInitMode::Copy && (
    params.copy_source_instance_id matches Some(src) && src@ != default_source_id()
        && !has_instance(store.instances@, src@)) {
        Some(copy_source_missing_message())
    } else {
        None
    }
}

/// Checks a creation request against the store and decides how the new profile directory is
/// prepared; the caller prepares it and then calls `create_instance`.
pub fn plan_create_instance(store: &InstanceStore, params: &CreateInstanceParams) -> (r: Result<
    CreateInstancePlan,
    String,
>)
    ensures
        match create_rejection(*store, *params) {
            Some(m) => r matches Err(e) && e@ == m,
            None => r matches Ok(plan) && plan_matches(*store, *params, plan),
        },
{
    let name = match normalize_name(params.name.as_str()) {
        Ok(n) => n,
        Err(e) => {
            return Err(e);
        },
    };
    let user_data_dir = trimmed(params.user_data_dir.as_str());
    if user_data_dir.as_str().is_empty() {
        return Err(owned("实例目录不能为空"));
    }
    match ensure_unique(&store.instances, name.as_str(), user_data_dir.as_str(), None) {
        Ok(()) => {},
        Err(e) => {
            return Err(e);
        },
    }
    let init_mode = parse_init_mode(&params.init_mode);
    let copy_source = if init_mode == InstanceInitMode::Copy {
        match &params.copy_source_instance_id {
            None => Some(CopySource::DefaultHome),
            Some(src) => {
                if str_eq(src.as_str(), "__default__") {
                    Some(CopySource::DefaultHome)
                } else {
                    match find_instance_index(&store.instances, src.as_str()) {
                        Some(k) => Some(
                            CopySource::InstanceDir(store.instances[k].user_data_dir.clone()),
                        ),
                        None => {
                            return Err(owned("复制来源实例不存在"));
                        },
                    }
                }
            },
        }
    } else {
        None
    };
    Ok(CreateInstancePlan { name, user_data_dir, init_mode, copy_source })
}

/// The profile of a new instance with the id `id`, created at `created_at`: extra arguments
/// trimmed, no account bound to an empty instance, the default launch mode when none is asked.
pub open spec fn new_profile_matches(
    plan: CreateInstancePlan,
    params: CreateInstanceParams,
    p: InstanceProfile,
) -> bool {
    &&& p.name == plan.name
    &&& p.user_data_dir == plan.user_data_dir
    &&& p.working_dir == params.working_dir
    &&& p.extra_args@ == trim(params.extra_args@)
    &&& p.bind_account_id == if plan.init_mode == InstanceInitMode::Empty {
        None
    } else {
        params.bind_account_id
    }
    &&& p.launch_mode == match params.launch_mode {
        Some(m) => m,
        None => InstanceLaunchMode::App,
    }
    &&& p.last_launched_at is None
    &&& p.last_pid is None
}

/// `c` is a lower-case hexadecimal digit.
pub open spec fn is_lower_hex(c: char) -> bool {
    ('0' <= c && c <= '9') || ('a' <= c && c <= 'f')
}

/// `t` is the hyphenated lower-case text of a version 4 UUID: 36 characters, hyphens at 8, 13,
/// 18 and 23, the version digit `4` at 14, a variant digit among `8`, `9`, `a`, `b` at 19, and
/// lower-case hexadecimal digits everywhere else.
pub open spec fn is_uuid_v4_text(t: Seq<char>) -> bool {
    &&& t.len() == 36
    &&& forall|i: int|
        0 <= i < 36 ==> if i == 8 || i == 13 || i == 18 || i == 23 {
            #[trigger] t[i] == '-'
        } else {
            is_lower_hex(t[i])
        }
    &&& t[14] == '4'
    &&& (t[19] == '8' || t[19] == '9' || t[19] == 'a' || t[19] == 'b')
}

/// `uuid::Uuid::new_v4().to_string()`: a random version 4 UUID, printed hyphenated in lower
/// case. Which UUID is drawn rests on chance and is not stated; its shape is.
#[verifier::external_body]
fn new_instance_id() -> (r: String)
    ensures
        is_uuid_v4_text(r@),
{
    uuid::Uuid::new_v4().to_string()
}

/// The profile a creation builds from its plan, its request, a fresh id and the current time.
pub fn new_instance_profile(
    plan: CreateInstancePlan,
    params: CreateInstanceParams,
    id: String,
    created_at: i64,
) -> (p: InstanceProfile)
    ensures
        new_profile_matches(plan, params, p),
        p.id == id,
        p.created_at == created_at,
{
    let bind_account_id = if plan.init_mode == InstanceInitMode::Empty {
        None
    } else {
        params.bind_account_id
    };
    let launch_mode = match params.launch_mode {
        Some(m) => m,
        None => InstanceLaunchMode::default(),
    };
    InstanceProfile {
        id,
        name: plan.name,
        user_data_dir: plan.user_data_dir,
        working_dir: params.working_dir,
        extra_args: trimmed(params.extra_args.as_str()),
        bind_account_id,
        launch_mode,
        created_at,
        last_launched_at: None,
        last_pid: None,
    }
}

/// Adds the new instance to the store once its directory is prepared, with a fresh id and the
/// current time, and returns its profile.
pub fn create_instance(
    store: &mut InstanceStore,
    plan: CreateInstancePlan,
    params: CreateInstanceParams,
) -> (p: InstanceProfile)
    ensures
        new_profile_matches(plan, params, p),
        is_uuid_v4_text(p.id@),
        final(store).instances@ == old(store).instances@.push(p),
        final(store).default_settings == old(store).default_settings,
{
    let id = new_instance_id();
    let created_at = now_millis();
    let p = new_instance_profile(plan, params, id, created_at);
    store.instances.push(copy_profile(&p));
    p
}


// ---------------------------------------------------------------------------
// The API service pseudo-account
// ---------------------------------------------------------------------------

/// The account id an instance is bound to when it uses the API service instead of an account.
pub const CODEX_API_SERVICE_BIND_ACCOUNT_ID: &'static str = "__api_service__";

/// Whether an account id (trimmed) names the API service.
pub fn is_api_service_bind_account_id(account_id: &str) -> (r: bool)
    ensures
        r == (trim(account_id@) == "__api_service__"@),
{
    str_eq(crate::text::str_trim(account_id), CODEX_API_SERVICE_BIND_ACCOUNT_ID)
}

} // verus!
