//! Keeping an instance's shared folders and files linked to the default Codex home: what each
//! observed state of the instance's side calls for.

use vstd::prelude::*;

verus! {

/// Directories every instance shares with the default home (skills, rules, imported skills).
pub const CODEX_SHARED_SKILLS_DIR_NAME: &'static str = "skills";
pub const CODEX_SHARED_RULES_DIR_NAME: &'static str = "rules";
pub const CODEX_SHARED_VENDOR_IMPORTS_SKILLS_DIR: &'static str = "vendor_imports/skills";
/// The instruction file every instance shares with the default home.
pub const CODEX_SHARED_AGENTS_FILE_NAME: &'static str = "AGENTS.md";
/// The history every instance shares with the default home.
pub const CODEX_SHARED_SESSIONS_DIR_NAME: &'static str = "sessions";
pub const CODEX_SHARED_ARCHIVED_SESSIONS_DIR_NAME: &'static str = "archived_sessions";
pub const CODEX_SHARED_SESSION_INDEX_FILE_NAME: &'static str = "session_index.jsonl";
pub const CODEX_SHARED_GLOBAL_STATE_FILE_NAME: &'static str = ".codex-global-state.json";
pub const CODEX_SHARED_STATE_DB_FILE_NAME: &'static str = "state_5.sqlite";
pub const CODEX_SHARED_STATE_DB_WAL_FILE_NAME: &'static str = "state_5.sqlite-wal";
pub const CODEX_SHARED_STATE_DB_SHM_FILE_NAME: &'static str = "state_5.sqlite-shm";
/// Where isolated history files are kept before a shared link replaces them.
pub const CODEX_SHARED_HISTORY_BACKUP_DIR_NAME: &'static str = ".cockpit-shared-history-backups";
/// The record written beside each backed-up history file.
pub const CODEX_SHARED_HISTORY_BACKUP_RECORD_FILE_NAME: &'static str = "backup-info.json";
/// The file of the instance store, in the application's data directory.
pub const CODEX_INSTANCES_FILE: &'static str = "codex_instances.json";

// ---------------------------------------------------------------------------
// Shared directories (skills, rules)
// ---------------------------------------------------------------------------

/// The instance's side of a shared directory.
#[derive(Debug, Clone, Copy, PartialEq, Eq, Structural)]
pub enum SharedDirState {
    /// Nothing there (or a link to nothing).
    Missing,
    /// A symbolic link; whether it resolves to the shared directory.
    Link { to_shared: bool },
    /// Something that is neither a link nor a directory.
    NotDirectory,
    /// A directory of its own: whether it is empty, and whether the shared one is.
    Directory { empty: bool, shared_empty: bool },
}

/// What to do with the instance's side of a shared directory.
#[derive(Debug, Clone, Copy, PartialEq, Eq, Structural)]
pub enum SharedDirAction {
    /// Already linked to the shared directory.
    Keep,
    /// Create the link.
    Link,
    /// Remove the link that points elsewhere, then link.
    Relink,
    /// Refuse: the path is not a directory.
    Reject,
    /// Remove the empty directory, then link.
    ReplaceEmpty,
    /// The shared directory is empty: move the instance's directory there, then link.
    MigrateToShared,
    /// Both hold entries: remove the instance's directory, then link (the shared one wins).
    Replace,
}

/// The action for each state of a shared directory.
pub open spec fn shared_dir_action(state: SharedDirState) -> SharedDirAction {
    match state {
        SharedDirState::Missing => SharedDirAction::Link,
        SharedDirState::Link { to_shared } => if to_shared {
            SharedDirAction::Keep
        } else {
            SharedDirAction::Relink
        },
        SharedDirState::NotDirectory => SharedDirAction::Reject,
        SharedDirState::Directory { empty, shared_empty } => if empty {
            SharedDirAction::ReplaceEmpty
        } else if shared_empty {
            SharedDirAction::MigrateToShared
        } else {
            SharedDirAction::Replace
        },
    }
}

/// Decides how to link an instance's shared directory (skills, rules) to the default home's.
pub fn sync_shared_directory(state: SharedDirState) -> (r: SharedDirAction)
    ensures
        r == shared_dir_action(state),
{
    match state {
        SharedDirState::Missing => SharedDirAction::Link,
        SharedDirState::Link { to_shared } => if to_shared {
            SharedDirAction::Keep
        } else {
            SharedDirAction::Relink
        },
        SharedDirState::NotDirectory => SharedDirAction::Reject,
        SharedDirState::Directory { empty, shared_empty } => if empty {
            SharedDirAction::ReplaceEmpty
        } else if shared_empty {
            SharedDirAction::MigrateToShared
        } else {
            SharedDirAction::Replace
        },
    }
}

// ---------------------------------------------------------------------------
// Shared history directories (sessions), which keep the instance's own entries
// ---------------------------------------------------------------------------

/// The instance's side of a shared history directory.
#[derive(Debug, Clone, Copy, PartialEq, Eq, Structural)]
pub enum HistoryDirState {
    Missing,
    Link { to_shared: bool },
    /// A directory; whether it already is the shared directory (a junction, for instance).
    Directory { same_as_shared: bool },
    NotDirectory,
}

/// What to do with the instance's side of a shared history directory.
#[derive(Debug, Clone, Copy, PartialEq, Eq, Structural)]
pub enum HistoryDirAction {
    Keep,
    Link,
    Relink,
    Reject,
    /// Copy the entries the shared directory lacks into it, remove the instance's directory,
    /// then link: nothing of the instance's history is lost.
    MergeThenLink,
}

/// The action for each state of a shared history directory.
pub open spec fn history_dir_action(state: HistoryDirState) -> HistoryDirAction {
    match state {
        HistoryDirState::Missing => HistoryDirAction::Link,
        HistoryDirState::Link { to_shared } => if to_shared {
            HistoryDirAction::Keep
        } else {
            HistoryDirAction::Relink
        },
        HistoryDirState::Directory { same_as_shared } => if same_as_shared {
            HistoryDirAction::Keep
        } else {
            HistoryDirAction::MergeThenLink
        },
        HistoryDirState::NotDirectory => HistoryDirAction::Reject,
    }
}

/// Decides how to link an instance's history directory (sessions) to the default home's while
/// keeping the instance's own entries.
pub fn sync_shared_directory_preserving_entries(state: HistoryDirState) -> (r: HistoryDirAction)
    ensures
        r == history_dir_action(state),
{
    match state {
        HistoryDirState::Missing => HistoryDirAction::Link,
        HistoryDirState::Link { to_shared } => if to_shared {
            HistoryDirAction::Keep
        } else {
            HistoryDirAction::Relink
        },
        HistoryDirState::Directory { same_as_shared } => if same_as_shared {
            HistoryDirAction::Keep
        } else {
            HistoryDirAction::MergeThenLink
        },
        HistoryDirState::NotDirectory => HistoryDirAction::Reject,
    }
}

// ---------------------------------------------------------------------------
// Shared files (AGENTS.md)
// ---------------------------------------------------------------------------

/// The default home's side of a shared file, following links.
#[derive(Debug, Clone, Copy, PartialEq, Eq, Structural)]
pub enum SharedFileEntry {
    Missing,
    File,
    Other,
}

/// The instance's side of a shared file: missing when nothing exists there following links,
/// otherwise what the path itself is.
#[derive(Debug, Clone, Copy, PartialEq, Eq, Structural)]
pub enum InstanceFileState {
    Missing,
    Link { to_shared: bool },
    /// A file; whether it is the shared file itself (a hard link).
    File { same_entry: bool },
    Other,
}

/// What to do with the instance's side of a shared file.
#[derive(Debug, Clone, Copy, PartialEq, Eq, Structural)]
pub enum SharedFileAction {
    /// Neither side has the file: nothing to share.
    Nothing,
    /// The instance links to a file that is not shared: remove the link; the shared file is
    /// still missing, which is an error.
    DropLinkThenFail,
    /// Only the instance has the file: move it to the default home, then link it back.
    PromoteThenLink,
    /// One side is not a file.
    Reject,
    /// Link (or copy) the shared file into the instance.
    Link,
    /// Already shared.
    Keep,
    /// Remove the link that points elsewhere, then link.
    Relink,
    /// Remove the instance's own copy, then link (the shared file wins).
    Replace,
}

/// The action for each pair of states of a shared file.
pub open spec fn shared_file_action(shared: SharedFileEntry, instance: InstanceFileState) -> SharedFileAction {
    match shared {
        SharedFileEntry::Missing => match instance {
            InstanceFileState::Missing => SharedFileAction::Nothing,
            InstanceFileState::Link { .. } => SharedFileAction::DropLinkThenFail,
            InstanceFileState::File { .. } => SharedFileAction::PromoteThenLink,
            InstanceFileState::Other => SharedFileAction::Reject,
        },
        SharedFileEntry::Other => SharedFileAction::Reject,
        SharedFileEntry::File => match instance {
            InstanceFileState::Missing => SharedFileAction::Link,
            InstanceFileState::Link { to_shared } => if to_shared {
                SharedFileAction::Keep
            } else {
                SharedFileAction::Relink
            },
            InstanceFileState::File { same_entry } => if same_entry {
                SharedFileAction::Keep
            } else {
                SharedFileAction::Replace
            },
            InstanceFileState::Other => SharedFileAction::Reject,
        },
    }
}

/// Decides how to share a file (such as `AGENTS.md`) between an instance and the default home.
pub fn sync_shared_file(shared: SharedFileEntry, instance: InstanceFileState) -> (r: SharedFileAction)
    ensures
        r == shared_file_action(shared, instance),
{
    match shared {
        SharedFileEntry::Missing => match instance {
            InstanceFileState::Missing => SharedFileAction::Nothing,
            InstanceFileState::Link { .. } => SharedFileAction::DropLinkThenFail,
            InstanceFileState::File { .. } => SharedFileAction::PromoteThenLink,
            InstanceFileState::Other => SharedFileAction::Reject,
        },
        SharedFileEntry::Other => SharedFileAction::Reject,
        SharedFileEntry::File => match instance {
            InstanceFileState::Missing => SharedFileAction::Link,
            InstanceFileState::Link { to_shared } => if to_shared {
                SharedFileAction::Keep
            } else {
                SharedFileAction::Relink
            },
            InstanceFileState::File { same_entry } => if same_entry {
                SharedFileAction::Keep
            } else {
                SharedFileAction::Replace
            },
            InstanceFileState::Other => SharedFileAction::Reject,
        },
    }
}

// ---------------------------------------------------------------------------
// Live history files (session index, global state, state database)
// ---------------------------------------------------------------------------

/// The instance's side of a live history file, not following links.
#[derive(Debug, Clone, Copy, PartialEq, Eq, Structural)]
pub enum LiveFileState {
    Absent,
    Link { to_shared: bool },
    /// A file or directory of the instance's own.
    Entry,
}

/// The steps that make an instance's history file a live link to the default home's.
#[derive(Debug, Clone, Copy, PartialEq, Eq, Structural)]
pub struct LiveFilePlan {
    /// Already linked: nothing else to do.
    pub keep: bool,
    /// Remove a link that points elsewhere.
    pub remove_link: bool,
    /// Back the instance's own file up, then remove it.
    pub backup_and_remove: bool,
    /// Create the shared file empty first.
    pub create_empty_shared: bool,
    /// Create the link.
    pub link: bool,
}

/// The steps for each state: an existing link to the shared file stays; another link goes; an
/// own file is backed up and removed; then the link is made, the shared file created empty
/// first when it is missing and that is allowed.
pub open spec fn live_file_plan(
    instance: LiveFileState,
    shared_exists: bool,
    allow_missing_shared: bool,
) -> LiveFilePlan {
    if instance == (LiveFileState::Link { to_shared: true }) {
        LiveFilePlan {
            keep: true,
            remove_link: false,
            backup_and_remove: false,
            create_empty_shared: false,
            link: false,
        }
    } else {
        let create = !shared_exists && allow_missing_shared;
        LiveFilePlan {
            keep: false,
            remove_link: instance == (LiveFileState::Link { to_shared: false }),
            backup_and_remove: instance == LiveFileState::Entry,
            create_empty_shared: create,
            link: shared_exists || create,
        }
    }
}

/// Decides the steps that make an instance's history file a live link to the default home's.
pub fn sync_shared_live_file(
    instance: LiveFileState,
    shared_exists: bool,
    allow_missing_shared: bool,
) -> (r: LiveFilePlan)
    ensures
        r == live_file_plan(instance, shared_exists, allow_missing_shared),
{
    match instance {
        LiveFileState::Link { to_shared: true } => LiveFilePlan {
            keep: true,
            remove_link: false,
            backup_and_remove: false,
            create_empty_shared: false,
            link: false,
        },
        _ => {
            let create = !shared_exists && allow_missing_shared;
            LiveFilePlan {
                keep: false,
                remove_link: match instance {
                    LiveFileState::Link { .. } => true,
                    _ => false,
                },
                backup_and_remove: match instance {
                    LiveFileState::Entry => true,
                    _ => false,
                },
                create_empty_shared: create,
                link: shared_exists || create,
            }
        },
    }
}

/// The history file an instance keeps live-linked, and whether the shared file may be created
/// empty when missing (only the state database and its sidecar files may).
pub fn sync_shared_history_file(instance: LiveFileState, shared_exists: bool) -> (r: LiveFilePlan)
    ensures
        r == live_file_plan(instance, shared_exists, false),
{
    sync_shared_live_file(instance, shared_exists, false)
}

// ---------------------------------------------------------------------------
// Falling back when a shared directory cannot be linked
// ---------------------------------------------------------------------------

/// The ways a shared directory is made available inside an instance, in the order they are
/// tried where directory symbolic links may be refused (Windows): a symbolic link, a junction,
/// and last a copy.
#[derive(Debug, Clone, Copy, PartialEq, Eq, Structural)]
pub enum DirLinkMethod {
    Symlink,
    Junction,
    Copy,
}

/// The way to try after `failed` did not work; none after the copy.
pub open spec fn next_dir_link_method_of(failed: DirLinkMethod) -> Option<DirLinkMethod> {
    match failed {
        DirLinkMethod::Symlink => Some(DirLinkMethod::Junction),
        DirLinkMethod::Junction => Some(DirLinkMethod::Copy),
        DirLinkMethod::Copy => None,
    }
}

/// The way to try after one failed.
pub fn next_dir_link_method(failed: DirLinkMethod) -> (r: Option<DirLinkMethod>)
    ensures
        r == next_dir_link_method_of(failed),
{
    match failed {
        DirLinkMethod::Symlink => Some(DirLinkMethod::Junction),
        DirLinkMethod::Junction => Some(DirLinkMethod::Copy),
        DirLinkMethod::Copy => None,
    }
}

/// What stands where a copied shared directory is to go.
#[derive(Debug, Clone, Copy, PartialEq, Eq, Structural)]
pub enum CopyTargetState {
    Absent,
    Link,
    EmptyDirectory,
    /// A directory with entries, or anything else.
    Occupied,
}

/// What to do before copying a shared directory to its target.
#[derive(Debug, Clone, Copy, PartialEq, Eq, Structural)]
pub enum CopyTargetAction {
    Proceed,
    RemoveLink,
    RemoveEmptyDirectory,
    /// Refuse: the copy would mix with what is there.
    Refuse,
}

/// Nothing there, or only a link or an empty directory that can go: the copy proceeds; anything
/// else is refused.
pub open spec fn copy_target_action(state: CopyTargetState) -> CopyTargetAction {
    match state {
        CopyTargetState::Absent => CopyTargetAction::Proceed,
        CopyTargetState::Link => CopyTargetAction::RemoveLink,
        CopyTargetState::EmptyDirectory => CopyTargetAction::RemoveEmptyDirectory,
        CopyTargetState::Occupied => CopyTargetAction::Refuse,
    }
}

/// Decides how the target of a copied shared directory is cleared first.
pub fn prepare_directory_copy_fallback_target(state: CopyTargetState) -> (r: CopyTargetAction)
    ensures
        r == copy_target_action(state),
{
    match state {
        CopyTargetState::Absent => CopyTargetAction::Proceed,
        CopyTargetState::Link => CopyTargetAction::RemoveLink,
        CopyTargetState::EmptyDirectory => CopyTargetAction::RemoveEmptyDirectory,
        CopyTargetState::Occupied => CopyTargetAction::Refuse,
    }
}

// ---------------------------------------------------------------------------
// Laws of the sharing decisions
// ---------------------------------------------------------------------------

/// A shared directory already linked is kept; a missing one is linked; a link elsewhere is
/// replaced by the right link; an empty directory of the instance's own is replaced by the link;
/// a non-empty one is moved into the default home when the shared directory is empty (nothing
/// of the instance's is lost), and gives way to the shared one only when both hold entries.
pub proof fn lemma_shared_directory_actions(state: SharedDirState)
    ensures
        state == (SharedDirState::Link { to_shared: true }) <==> shared_dir_action(state)
            == SharedDirAction::Keep,
        state == SharedDirState::Missing ==> shared_dir_action(state) == SharedDirAction::Link,
        state == (SharedDirState::Link { to_shared: false }) ==> shared_dir_action(state)
            == SharedDirAction::Relink,
        state == SharedDirState::NotDirectory <==> shared_dir_action(state) == SharedDirAction::Reject,
        (state matches SharedDirState::Directory { empty, .. } && empty) ==> shared_dir_action(state)
            == SharedDirAction::ReplaceEmpty,
        state == (SharedDirState::Directory { empty: false, shared_empty: true })
            <==> shared_dir_action(state) == SharedDirAction::MigrateToShared,
        shared_dir_action(state) == SharedDirAction::Replace <==> state == (SharedDirState::Directory {
            empty: false,
            shared_empty: false,
        }),
{
}

/// A history directory already shared is kept; a missing one is linked; a link elsewhere is
/// replaced; a directory of the instance's own is always merged into the shared one before it
/// is linked, so no conversation of the instance is lost.
pub proof fn lemma_history_directory_actions(state: HistoryDirState)
    ensures
        (state == (HistoryDirState::Link { to_shared: true }) || state == (HistoryDirState::Directory {
            same_as_shared: true,
        })) <==> history_dir_action(state) == HistoryDirAction::Keep,
        state == HistoryDirState::Missing ==> history_dir_action(state) == HistoryDirAction::Link,
        state == (HistoryDirState::Link { to_shared: false }) ==> history_dir_action(state)
            == HistoryDirAction::Relink,
        state == (HistoryDirState::Directory { same_as_shared: false }) <==> history_dir_action(state)
            == HistoryDirAction::MergeThenLink,
        state == HistoryDirState::NotDirectory <==> history_dir_action(state)
            == HistoryDirAction::Reject,
{
}

/// The instance's side of a shared file already resolves to the shared file.
pub open spec fn already_shared(instance: InstanceFileState) -> bool {
    instance == (InstanceFileState::Link { to_shared: true }) || instance == (InstanceFileState::File {
        same_entry: true,
    })
}

/// `action` makes the instance's path resolve to the shared file when applied to `instance`:
/// keeping only what already resolves to it, linking only a free path, relinking only a link,
/// replacing only a file.
pub open spec fn leaves_instance_shared(instance: InstanceFileState, action: SharedFileAction) -> bool {
    match action {
        SharedFileAction::Keep => already_shared(instance),
        SharedFileAction::Link => instance == InstanceFileState::Missing,
        SharedFileAction::Relink => instance is Link,
        SharedFileAction::Replace => instance is File,
        _ => false,
    }
}

/// When the default home has the shared file, the action leaves the instance's path resolving
/// to it (an instance without the file gets it), and what already resolves to it is kept; only
/// an instance path that is not a file is refused. When the default home lacks it, an instance's
/// own file is promoted to the default home (never dropped), an instance with neither is left
/// alone, and a shared entry that is not a file is refused.
pub proof fn lemma_shared_file_actions(shared: SharedFileEntry, instance: InstanceFileState)
    ensures
        shared == SharedFileEntry::File && instance != InstanceFileState::Other
            ==> leaves_instance_shared(instance, shared_file_action(shared, instance)),
        shared == SharedFileEntry::File && already_shared(instance) ==> shared_file_action(shared, instance)
            == SharedFileAction::Keep,
        shared == SharedFileEntry::File ==> shared_file_action(shared, instance)
            != SharedFileAction::Nothing,
        shared == SharedFileEntry::File && instance == InstanceFileState::Other ==> shared_file_action(
            shared,
            instance,
        ) == SharedFileAction::Reject,
        shared == SharedFileEntry::Missing && instance is File ==> shared_file_action(shared, instance)
            == SharedFileAction::PromoteThenLink,
        shared == SharedFileEntry::Missing && instance == InstanceFileState::Missing
            ==> shared_file_action(shared, instance) == SharedFileAction::Nothing,
        shared == SharedFileEntry::Missing && instance is Link ==> shared_file_action(shared, instance)
            == SharedFileAction::DropLinkThenFail,
        shared == SharedFileEntry::Other ==> shared_file_action(shared, instance)
            == SharedFileAction::Reject,
{
}

/// A live history file already linked to the shared file is kept and nothing else is done.
/// Otherwise a link elsewhere is removed, an own file is backed up before it is removed, the
/// shared file is created empty exactly when it is missing and that is allowed, and the instance
/// path is linked exactly when the shared file exists or was just created.
pub proof fn lemma_live_file_plan(instance: LiveFileState, shared_exists: bool, allow_missing_shared: bool)
    ensures
        ({
            let plan = live_file_plan(instance, shared_exists, allow_missing_shared);
            &&& plan.keep == (instance == (LiveFileState::Link { to_shared: true }))
            &&& plan.keep ==> !plan.remove_link && !plan.backup_and_remove && !plan.create_empty_shared
                && !plan.link
            &&& !plan.keep ==> plan.create_empty_shared == (!shared_exists && allow_missing_shared)
            &&& !plan.keep ==> plan.link == (shared_exists || plan.create_empty_shared)
            &&& plan.remove_link == (instance == (LiveFileState::Link { to_shared: false }))
            &&& plan.backup_and_remove == (instance == LiveFileState::Entry)
        }),
{
}

/// The ways to share a directory are tried each once, symbolic link first and copy last.
pub proof fn lemma_dir_link_methods_in_order()
    ensures
        next_dir_link_method_of(DirLinkMethod::Symlink) == Some(DirLinkMethod::Junction),
        next_dir_link_method_of(DirLinkMethod::Junction) == Some(DirLinkMethod::Copy),
        next_dir_link_method_of(DirLinkMethod::Copy) is None,
{
}

/// A copied shared directory never lands on entries already there: the copy proceeds at once
/// only onto nothing, after removing a link or an empty directory, and is refused otherwise.
pub proof fn lemma_copy_target_actions(state: CopyTargetState)
    ensures
        copy_target_action(state) == CopyTargetAction::Proceed <==> state == CopyTargetState::Absent,
        copy_target_action(state) == CopyTargetAction::Refuse <==> state == CopyTargetState::Occupied,
        state == CopyTargetState::Link ==> copy_target_action(state) == CopyTargetAction::RemoveLink,
        state == CopyTargetState::EmptyDirectory ==> copy_target_action(state)
            == CopyTargetAction::RemoveEmptyDirectory,
{
}

} // verus!
