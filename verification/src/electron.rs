//! The Electron user-data directory of an instance: when its saved login state must be cleared
//! for the account bound to it, and the marker that records which account it was prepared for.

use vstd::prelude::*;

use crate::store::now_millis;
use crate::text::{
    concatenate, contains, int_text, owned, render_i64, replace_char, str_contains, str_replace_char,
};

verus! {

/// The Electron user-data directory inside an instance's profile directory.
pub const CODEX_ELECTRON_USER_DATA_DIR_NAME: &'static str = "electron-user-data";
/// The marker file inside the Electron user-data directory.
pub const CODEX_ELECTRON_AUTH_MARKER_FILE_NAME: &'static str = ".cockpit_codex_electron_auth.json";

/// The account id as the marker matcher escapes it: quotes preceded by a backslash.
pub open spec fn quote_escaped(account: Seq<char>) -> Seq<char> {
    replace_char(account, '"', "\\\""@)
}

/// The account id as the marker writer escapes it: backslashes doubled, then quotes escaped.
pub open spec fn json_escaped(account: Seq<char>) -> Seq<char> {
    replace_char(replace_char(account, '\\', "\\\\"@), '"', "\\\""@)
}

/// `"account_id":"<account>"`, without a space.
pub open spec fn tight_marker_pattern(account: Seq<char>) -> Seq<char> {
    "\"account_id\":\""@ + quote_escaped(account) + "\""@
}

/// `"account_id": "<account>"`, with a space after the colon.
pub open spec fn spaced_marker_pattern(account: Seq<char>) -> Seq<char> {
    "\"account_id\": \""@ + quote_escaped(account) + "\""@
}

/// A marker names the account when it holds either form of the `account_id` member for it
/// (an unreadable marker names none).
pub open spec fn marker_names(marker: Option<String>, account: Seq<char>) -> bool {
    match marker {
        Some(m) => marker_text_names(m@, account),
        None => false,
    }
}

/// The marker text `m` holds either form of the `account_id` member for `account`.
pub open spec fn marker_text_names(m: Seq<char>, account: Seq<char>) -> bool {
    contains(m, tight_marker_pattern(account)) || contains(m, spaced_marker_pattern(account))
}

/// The marker written for `account` at the time `at`.
pub open spec fn marker_content(account: Seq<char>, at: i64) -> Seq<char> {
    "{\"account_id\":\""@ + json_escaped(account) + "\",\"prepared_at\":"@ + int_text(at as int)
        + "}\n"@
}

/// The entries of an Electron user-data directory that hold a login.
pub open spec fn electron_auth_state_paths() -> Seq<Seq<char>> {
    seq![
        "Local Storage"@,
        "Session Storage"@,
        "IndexedDB"@,
        "Network"@,
        "Service Worker"@,
        "Cache"@,
        "Code Cache"@,
        "DawnGraphiteCache"@,
        "DawnWebGPUCache"@,
        "GPUCache"@,
        "Shared Dictionary"@,
        "blob_storage"@,
        "databases"@,
        "DIPS"@,
        "Local State"@,
        "Preferences"@,
    ]
}

/// Whether the marker of an Electron user-data directory names the account `account_id`.
pub fn electron_auth_marker_matches(marker: &Option<String>, account_id: &str) -> (r: bool)
    ensures
        r == marker_names(*marker, account_id@),
{
    match marker {
        None => false,
        Some(m) => {
            let escaped = str_replace_char(account_id, '"', "\\\"");
            let tight_head = concatenate("\"account_id\":\"", escaped.as_str());
            let tight = concatenate(tight_head.as_str(), "\"");
            let spaced_head = concatenate("\"account_id\": \"", escaped.as_str());
            let spaced = concatenate(spaced_head.as_str(), "\"");
            str_contains(m.as_str(), tight.as_str()) || str_contains(m.as_str(), spaced.as_str())
        },
    }
}

/// The marker recording that the directory was prepared for `account_id` at `prepared_at`.
pub fn electron_auth_marker_content(account_id: &str, prepared_at: i64) -> (r: String)
    ensures
        r@ == marker_content(account_id@, prepared_at),
{
    let backslashes = str_replace_char(account_id, '\\', "\\\\");
    let escaped = str_replace_char(backslashes.as_str(), '"', "\\\"");
    let a = concatenate("{\"account_id\":\"", escaped.as_str());
    let b = concatenate(a.as_str(), "\",\"prepared_at\":");
    let t = render_i64(prepared_at);
    let c = concatenate(b.as_str(), t.as_str());
    concatenate(c.as_str(), "}\n")
}

/// What resetting an Electron user-data directory takes: the entries to remove, then the marker
/// to write.
#[derive(Debug, Clone)]
pub struct ElectronAuthReset {
    pub remove: Vec<String>,
    pub marker: String,
}

fn auth_state_paths() -> (r: Vec<String>)
    ensures
        crate::text::views(r@) == electron_auth_state_paths(),
{
    let mut v: Vec<String> = Vec::new();
    v.push(owned("Local Storage"));
    v.push(owned("Session Storage"));
    v.push(owned("IndexedDB"));
    v.push(owned("Network"));
    v.push(owned("Service Worker"));
    v.push(owned("Cache"));
    v.push(owned("Code Cache"));
    v.push(owned("DawnGraphiteCache"));
    v.push(owned("DawnWebGPUCache"));
    v.push(owned("GPUCache"));
    v.push(owned("Shared Dictionary"));
    v.push(owned("blob_storage"));
    v.push(owned("databases"));
    v.push(owned("DIPS"));
    v.push(owned("Local State"));
    v.push(owned("Preferences"));
    assert(crate::text::views(v@) =~= electron_auth_state_paths());
    v
}

/// Nothing to do when the marker already names the account; otherwise the login entries to
/// remove and the marker for the account, prepared at `prepared_at`.
pub fn electron_auth_reset_plan(marker: &Option<String>, account_id: &str, prepared_at: i64) -> (r:
    Option<ElectronAuthReset>)
    ensures
        marker_names(*marker, account_id@) ==> r is None,
        !marker_names(*marker, account_id@) ==> (r matches Some(plan) && crate::text::views(
            plan.remove@,
        ) == electron_auth_state_paths() && plan.marker@ == marker_content(account_id@, prepared_at)),
{
    if electron_auth_marker_matches(marker, account_id) {
        None
    } else {
        Some(
            ElectronAuthReset {
                remove: auth_state_paths(),
                marker: electron_auth_marker_content(account_id, prepared_at),
            },
        )
    }
}

/// Decides whether the saved login of an instance's Electron user-data directory must be
/// cleared for `account_id`, given its marker (`None` when it could not be read), stamping a new
/// marker with the current time.
pub fn clear_electron_user_data_auth_state(marker: &Option<String>, account_id: &str) -> (r: Option<
    ElectronAuthReset,
>)
    ensures
        marker_names(*marker, account_id@) ==> r is None,
        !marker_names(*marker, account_id@) ==> (r matches Some(plan) && crate::text::views(
            plan.remove@,
        ) == electron_auth_state_paths() && exists|at: i64| #[trigger] marker_content(account_id@, at) == plan.marker@),
{
    let at = now_millis();
    let r = electron_auth_reset_plan(marker, account_id, at);
    assert(r is Some ==> marker_content(account_id@, at) == r->0.marker@);
    r
}

proof fn lemma_replace_absent(s: Seq<char>, c: char, with: Seq<char>)
    requires
        !s.contains(c),
    ensures
        replace_char(s, c, with) == s,
    decreases s.len(),
{
    if s.len() > 0 {
        assert(!s.drop_first().contains(c)) by {
            if s.drop_first().contains(c) {
                let k = choose|k: int| 0 <= k < s.drop_first().len() && s.drop_first()[k] == c;
                assert(s[k + 1] == c);
            }
        }
        lemma_replace_absent(s.drop_first(), c, with);
        assert(s[0] != c);
        assert(seq![s[0]] + s.drop_first() =~= s);
    }
}

/// The marker written for an account is recognised as that account's marker, for every account
/// id without a backslash (the writer doubles backslashes, the matcher does not).
pub proof fn lemma_marker_round_trip(account: Seq<char>, at: i64)
    requires
        !account.contains('\\'),
    ensures
        marker_text_names(marker_content(account, at), account),
{
    lemma_replace_absent(account, '\\', "\\\\"@);
    reveal_strlit("{\"account_id\":\"");
    reveal_strlit("\"account_id\":\"");
    reveal_strlit("\"");
    reveal_strlit("\",\"prepared_at\":");
    let m = marker_content(account, at);
    let p = tight_marker_pattern(account);
    let rest = ",\"prepared_at\":"@ + int_text(at as int) + "}\n"@;
    reveal_strlit(",\"prepared_at\":");
    assert("{\"account_id\":\""@ =~= seq!['{'] + "\"account_id\":\""@);
    assert("\",\"prepared_at\":"@ =~= "\""@ + ",\"prepared_at\":"@);
    assert(m =~= seq!['{'] + p + rest);
    assert(m.subrange(1, 1 + p.len() as int) =~= p);
    assert(crate::text::occurs_at(m, p, 1));
}

/// Resetting a login removes each of the sixteen entries Electron keeps it in: local and session
/// storage, IndexedDB, network state, service workers, the caches, shared dictionaries, blob
/// storage, databases, DIPS, the local state and the preferences.
pub proof fn lemma_auth_state_paths()
    ensures
        electron_auth_state_paths().len() == 16,
        electron_auth_state_paths().contains("Local Storage"@),
        electron_auth_state_paths().contains("Session Storage"@),
        electron_auth_state_paths().contains("IndexedDB"@),
        electron_auth_state_paths().contains("Network"@),
        electron_auth_state_paths().contains("Service Worker"@),
        electron_auth_state_paths().contains("Cache"@),
        electron_auth_state_paths().contains("Code Cache"@),
        electron_auth_state_paths().contains("DawnGraphiteCache"@),
        electron_auth_state_paths().contains("DawnWebGPUCache"@),
        electron_auth_state_paths().contains("GPUCache"@),
        electron_auth_state_paths().contains("Shared Dictionary"@),
        electron_auth_state_paths().contains("blob_storage"@),
        electron_auth_state_paths().contains("databases"@),
        electron_auth_state_paths().contains("DIPS"@),
        electron_auth_state_paths().contains("Local State"@),
        electron_auth_state_paths().contains("Preferences"@),
{
    let p = electron_auth_state_paths();
    assert(p[0] == "Local Storage"@);
    assert(p[1] == "Session Storage"@);
    assert(p[2] == "IndexedDB"@);
    assert(p[3] == "Network"@);
    assert(p[4] == "Service Worker"@);
    assert(p[5] == "Cache"@);
    assert(p[6] == "Code Cache"@);
    assert(p[7] == "DawnGraphiteCache"@);
    assert(p[8] == "DawnWebGPUCache"@);
    assert(p[9] == "GPUCache"@);
    assert(p[10] == "Shared Dictionary"@);
    assert(p[11] == "blob_storage"@);
    assert(p[12] == "databases"@);
    assert(p[13] == "DIPS"@);
    assert(p[14] == "Local State"@);
    assert(p[15] == "Preferences"@);
}

} // verus!
