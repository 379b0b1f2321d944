//! The kiro-proxy sidecar: its configuration, the environment it is started with, the status
//! reported to the front end, the Node.js version check and the replies of its HTTP API.

use vstd::prelude::*;

use crate::text::{
    concatenate, int_text, is_blank, owned, parse_u32, parse_u32_spec, render_u64, split_on,
    str_split, str_trim_start_matches, strip_leading, trim, trimmed, utf8_lossy, utf8_lossy_of,
    blank, join, join_strings, views, pair_views, decimal, is_digit, lemma_decimal,
    lemma_u32_text_round_trip,
};

verus! {

/// The port the sidecar listens on unless told otherwise.
pub const DEFAULT_PORT: u16 = 3456;
/// How long a request to the sidecar may take, in seconds.
pub const REQUEST_TIMEOUT_SECS: u64 = 10;
/// How long a model test may take, in seconds.
pub const TEST_MODEL_TIMEOUT_SECS: u64 = 60;
/// The oldest Node.js major version the sidecar runs on.
pub const MIN_NODE_MAJOR: u32 = 18;

/// How the sidecar is started.
#[derive(Debug, Clone)]
pub struct KiroProxyConfig {
    pub port: u16,
    /// An optional API key; clients must then send it as a bearer token.
    pub api_key: Option<String>,
    /// An optional HTTPS proxy handed on to the Node process.
    pub https_proxy: Option<String>,
}

impl Default for KiroProxyConfig {
    fn default() -> (r: Self)
        ensures
            r.port == DEFAULT_PORT,
            r.api_key is None,
            r.https_proxy is None,
    {
        KiroProxyConfig { port: DEFAULT_PORT, api_key: None, https_proxy: None }
    }
}

/// What the front end is told about the sidecar.
#[derive(Debug, Clone)]
pub struct KiroProxyStatus {
    pub running: bool,
    pub port: Option<u16>,
    pub pid: Option<u32>,
    /// Whether the sidecar's `node_modules` is installed.
    pub deps_installed: bool,
    pub server_path: Option<String>,
}

impl Default for KiroProxyStatus {
    fn default() -> (r: Self)
        ensures
            !r.running,
            r.port is None,
            r.pid is None,
            !r.deps_installed,
            r.server_path is None,
    {
        KiroProxyStatus { running: false, port: None, pid: None, deps_installed: false, server_path: None }
    }
}

/// Whether Node.js can run the sidecar.
#[derive(Debug, Clone)]
pub struct NodeAvailability {
    pub available: bool,
    pub version: Option<String>,
    pub error: Option<String>,
}

/// The status of a sidecar that was just started.
pub fn started_status(port: u16, pid: u32, server_path: String) -> (r: KiroProxyStatus)
    ensures
        r.running,
        r.port == Some(port),
        r.pid == Some(pid),
        r.deps_installed,
        r.server_path == Some(server_path),
{
    KiroProxyStatus {
        running: true,
        port: Some(port),
        pid: Some(pid),
        deps_installed: true,
        server_path: Some(server_path),
    }
}

/// The status of the sidecar: running with its port and process id when one is held, together
/// with what is known of its installation.
pub fn current_status(
    running: Option<(u16, u32)>,
    deps_installed: bool,
    server_path: Option<String>,
) -> (r: KiroProxyStatus)
    ensures
        r.running == running is Some,
        r.port == match running {
            Some((port, _)) => Some(port),
            None => None,
        },
        r.pid == match running {
            Some((_, pid)) => Some(pid),
            None => None,
        },
        r.deps_installed == deps_installed,
        r.server_path == server_path,
{
    match running {
        Some((port, pid)) => KiroProxyStatus {
            running: true,
            port: Some(port),
            pid: Some(pid),
            deps_installed,
            server_path,
        },
        None => KiroProxyStatus { running: false, port: None, pid: None, deps_installed, server_path },
    }
}

// ---------------------------------------------------------------------------
// Environment of the sidecar process
// ---------------------------------------------------------------------------

/// An optional setting that is passed on only when it is present and not blank.
pub open spec fn optional_env(name: Seq<char>, value: Option<String>) -> Seq<(Seq<char>, Seq<char>)> {
    match value {
        Some(v) => if is_blank(v@) {
            Seq::empty()
        } else {
            seq![(name, v@)]
        },
        None => Seq::empty(),
    }
}

/// The environment of the sidecar: its port, then the API key and the HTTPS proxy when set.
pub open spec fn sidecar_env_of(cfg: KiroProxyConfig) -> Seq<(Seq<char>, Seq<char>)> {
    seq![("PORT"@, int_text(cfg.port as int))] + optional_env("PROXY_API_KEY"@, cfg.api_key)
        + optional_env("HTTPS_PROXY"@, cfg.https_proxy)
}

fn push_optional_env(env: &mut Vec<(String, String)>, name: &str, value: &Option<String>)
    ensures
        pair_views(final(env)@) == pair_views(old(env)@) + optional_env(name@, *value),
{
    let ghost before = env@;
    match value {
        Some(v) => {
            if !blank(v.as_str()) {
                env.push((owned(name), v.clone()));
                assert(pair_views(env@) =~= pair_views(before) + optional_env(name@, *value));
            } else {
                assert(pair_views(env@) =~= pair_views(before) + optional_env(name@, *value));
            }
        },
        None => {
            assert(pair_views(env@) =~= pair_views(before) + optional_env(name@, *value));
        },
    }
}

/// The environment variables the sidecar process is started with.
pub fn sidecar_env(cfg: &KiroProxyConfig) -> (r: Vec<(String, String)>)
    ensures
        pair_views(r@) == sidecar_env_of(*cfg),
{
    let mut env: Vec<(String, String)> = Vec::new();
    env.push((owned("PORT"), render_u64(cfg.port as u64)));
    assert(pair_views(env@) =~= seq![("PORT"@, int_text(cfg.port as int))]);
    push_optional_env(&mut env, "PROXY_API_KEY", &cfg.api_key);
    push_optional_env(&mut env, "HTTPS_PROXY", &cfg.https_proxy);
    env
}

// ---------------------------------------------------------------------------
// Node.js
// ---------------------------------------------------------------------------

/// The major version in a `node --version` line such as `v18.17.0`: the leading `v`s dropped,
/// the text before the first `.` read as a number; 0 when it is not one.
pub open spec fn node_major_of(version: Seq<char>) -> u32 {
    match parse_u32_spec(split_on(strip_leading(version, 'v'), '.')[0]) {
        Some(m) => m,
        None => 0,
    }
}

/// The major version of a `node --version` line.
pub fn node_major_version(version: &str) -> (r: u32)
    ensures
        r == node_major_of(version@),
{
    let stripped = str_trim_start_matches(version, 'v');
    let pieces = str_split(stripped, '.');
    assert(views(pieces@).len() >= 1) by {
        lemma_split_nonempty(stripped@, '.');
    }
    assert(views(pieces@)[0] == pieces@[0]@);
    match parse_u32(pieces[0].as_str()) {
        Some(m) => m,
        None => 0,
    }
}

/// Splitting always yields at least one piece.
proof fn lemma_split_nonempty(s: Seq<char>, sep: char)
    ensures
        split_on(s, sep).len() >= 1,
    decreases s.len(),
{
    if s.len() > 0 {
        lemma_split_nonempty(s.drop_first(), sep);
    }
}

/// How running `node --version` went.
#[derive(Debug, Clone)]
pub enum NodeProbe {
    /// The command ran: whether it succeeded, and what it wrote.
    Finished { success: bool, stdout: Vec<u8>, stderr: Vec<u8> },
    /// The command could not be started; the error as text.
    SpawnFailed(String),
}

/// The message of a Node.js that is too old.
pub open spec fn node_too_old_message() -> Seq<char> {
    "需要 Node.js >= 18"@
}

/// The message of a missing `node` command, followed by the error.
pub open spec fn node_missing_message(err: Seq<char>) -> Seq<char> {
    "未检测到 node 命令: "@ + err
}

/// The verdict on Node.js from the outcome of `node --version`: a version at least 18 is
/// available; an older one is reported with its version; a failing command with its error output;
/// a missing command with the spawn error.
pub open spec fn node_verdict(probe: NodeProbe, r: NodeAvailability) -> bool {
    match probe {
        NodeProbe::Finished { success, stdout, stderr } => if success {
            let version = trim(utf8_lossy_of(stdout@));
            &&& r.available == (node_major_of(version) >= 18)
            &&& r.version matches Some(v) && v@ == version
            &&& if node_major_of(version) >= 18 {
                r.error is None
            } else {
                r.error matches Some(e) && e@ == node_too_old_message()
            }
        } else {
            &&& !r.available
            &&& r.version is None
            &&& r.error matches Some(e) && e@ == trim(utf8_lossy_of(stderr@))
        },
        NodeProbe::SpawnFailed(err) => {
            &&& !r.available
            &&& r.version is None
            &&& r.error matches Some(e) && e@ == node_missing_message(err@)
        },
    }
}

/// Decides whether Node.js can run the sidecar from the outcome of `node --version`.
pub fn check_node(probe: NodeProbe) -> (r: NodeAvailability)
    ensures
        node_verdict(probe, r),
{
    match probe {
        NodeProbe::Finished { success, stdout, stderr } => {
            if success {
                let raw = utf8_lossy(stdout.as_slice());
                let version = trimmed(raw.as_str());
                let major = node_major_version(version.as_str());
                if major >= MIN_NODE_MAJOR {
                    NodeAvailability { available: true, version: Some(version), error: None }
                } else {
                    NodeAvailability {
                        available: false,
                        version: Some(version),
                        error: Some(owned("需要 Node.js >= 18")),
                    }
                }
            } else {
                let raw = utf8_lossy(stderr.as_slice());
                NodeAvailability { available: false, version: None, error: Some(trimmed(raw.as_str())) }
            }
        },
        NodeProbe::SpawnFailed(err) => NodeAvailability {
            available: false,
            version: None,
            error: Some(concatenate("未检测到 node 命令: ", err.as_str())),
        },
    }
}

// ---------------------------------------------------------------------------
// The HTTP API of the sidecar
// ---------------------------------------------------------------------------

/// The error of a request made while the sidecar is not running.
pub open spec fn not_running_message() -> Seq<char> {
    "kiro-proxy 未运行"@
}

/// The URL of an endpoint of the sidecar on the loopback interface.
pub open spec fn endpoint_url_of(port: u16, path: Seq<char>) -> Seq<char> {
    "http://127.0.0.1:"@ + int_text(port as int) + path
}

/// The URL of an endpoint of the running sidecar, or the not-running error.
pub fn proxy_endpoint(port: Option<u16>, path: &str) -> (r: Result<String, String>)
    ensures
        match port {
            Some(p) => r matches Ok(u) && u@ == endpoint_url_of(p, path@),
            None => r matches Err(e) && e@ == not_running_message(),
        },
{
    match port {
        Some(p) => {
            let digits = render_u64(p as u64);
            let head = concatenate("http://127.0.0.1:", digits.as_str());
            Ok(concatenate(head.as_str(), path))
        },
        None => Err(owned("kiro-proxy 未运行")),
    }
}

/// The path of the credits endpoint for a period (`today` when none is given).
pub open spec fn credits_path_of(period: Option<String>) -> Seq<char> {
    "/credits?period="@ + match period {
        Some(p) => p@,
        None => "today"@,
    }
}

/// The path of the credits endpoint for a period.
pub fn credits_path(period: &Option<String>) -> (r: String)
    ensures
        r@ == credits_path_of(*period),
{
    match period {
        Some(p) => concatenate("/credits?period=", p.as_str()),
        None => concatenate("/credits?period=", "today"),
    }
}

/// The bearer token a request carries: the API key when it is set and not blank.
pub fn bearer_token(api_key: Option<String>) -> (r: Option<String>)
    ensures
        match api_key {
            Some(k) => if is_blank(k@) {
                r is None
            } else {
                r == Some(k)
            },
            None => r is None,
        },
{
    match api_key {
        Some(k) => if blank(k.as_str()) {
            None
        } else {
            Some(k)
        },
        None => None,
    }
}

/// What a reply of the messages endpoint holds that a model test reads: the `text` of each
/// `content` block (when `content` is an array), `error.message` and `message`.
#[derive(Debug, Clone)]
pub struct ModelReply {
    pub content_texts: Option<Vec<Option<String>>>,
    pub error_message: Option<String>,
    pub message: Option<String>,
}

/// The texts among the content blocks, concatenated.
pub open spec fn reply_text_of(texts: Option<Vec<Option<String>>>) -> Seq<char> {
    match texts {
        Some(v) => join(crate::history::string_values(crate::history::opt_views(v@)), Seq::empty()),
        None => Seq::empty(),
    }
}

/// The error message of a failed reply: `error.message`, else `message`, else `unknown error`.
pub open spec fn reply_error_of(reply: ModelReply) -> Seq<char> {
    match reply.error_message {
        Some(m) => m@,
        None => match reply.message {
            Some(m) => m@,
            None => "unknown error"@,
        },
    }
}

/// The outcome of a model test: a successful reply gives its text; another gives
/// `HTTP <status>: <message>`.
pub open spec fn test_model_outcome_of(success: bool, status: u16, reply: ModelReply) -> (bool, Seq<
    char,
>) {
    if success {
        (true, reply_text_of(reply.content_texts))
    } else {
        (false, "HTTP "@ + int_text(status as int) + ": "@ + reply_error_of(reply))
    }
}

/// Reads the outcome of a model test from the status and reply of the messages endpoint.
pub fn test_model_outcome(success: bool, status: u16, reply: &ModelReply) -> (r: (bool, String))
    ensures
        (r.0, r.1@) == test_model_outcome_of(success, status, *reply),
{
    if success {
        let text = match &reply.content_texts {
            Some(items) => {
                let strings = crate::history::string_items(items);
                join_strings(&strings, "")
            },
            None => String::new(),
        };
        proof {
            reveal_strlit("");
            assert(""@ =~= Seq::<char>::empty());
        }
        assert(text@ == reply_text_of(reply.content_texts));
        (true, text)
    } else {
        let message = match &reply.error_message {
            Some(m) => m.clone(),
            None => match &reply.message {
                Some(m) => m.clone(),
                None => owned("unknown error"),
            },
        };
        let code = render_u64(status as u64);
        let a = concatenate("HTTP ", code.as_str());
        let b = concatenate(a.as_str(), ": ");
        (false, concatenate(b.as_str(), message.as_str()))
    }
}

// ---------------------------------------------------------------------------
// The running sidecar
// ---------------------------------------------------------------------------

/// What is known of the sidecar process the application holds: its port and process id while
/// one runs.
#[derive(Debug, Clone, Copy)]
pub struct SidecarState {
    pub running: Option<(u16, u32)>,
}

/// The port of the running sidecar, if one runs.
pub open spec fn port_of(state: SidecarState) -> Option<u16> {
    match state.running {
        Some((port, _)) => Some(port),
        None => None,
    }
}

/// The process id of the running sidecar, if one runs.
pub open spec fn pid_of(state: SidecarState) -> Option<u32> {
    match state.running {
        Some((_, pid)) => Some(pid),
        None => None,
    }
}

/// The error of a start in a sidecar directory whose dependencies are not installed.
pub open spec fn deps_missing_message(dir: Seq<char>) -> Seq<char> {
    dir + " 下尚未安装依赖,请先调用安装"@
}

/// The first step of a start from `before`: whatever ran is stopped (`r.0` is its process id),
/// and the start goes on only when the dependencies are installed.
pub open spec fn start_begun(
    before: SidecarState,
    after: SidecarState,
    deps_installed: bool,
    dir: Seq<char>,
    r: (Option<u32>, Result<(), String>),
) -> bool {
    &&& after.running is None
    &&& r.0 == pid_of(before)
    &&& deps_installed ==> r.1 is Ok
    &&& !deps_installed ==> (r.1 matches Err(e) && e@ == deps_missing_message(dir))
}

/// The last step of a start: the process `pid` serves on the configured port, and `st` reports
/// it running with its dependencies installed.
pub open spec fn start_finished(
    after: SidecarState,
    cfg: KiroProxyConfig,
    pid: u32,
    server_path: String,
    st: KiroProxyStatus,
) -> bool {
    &&& after.running == Some((cfg.port, pid))
    &&& st.running
    &&& st.port == Some(cfg.port)
    &&& st.pid == Some(pid)
    &&& st.deps_installed
    &&& st.server_path == Some(server_path)
}

impl SidecarState {
    /// No sidecar runs.
    pub fn stopped() -> (r: Self)
        ensures
            r.running is None,
    {
        SidecarState { running: None }
    }

    /// The port requests go to, as long as a sidecar runs.
    pub fn current_port(&self) -> (r: Option<u16>)
        ensures
            r == port_of(*self),
    {
        match self.running {
            Some((port, _)) => Some(port),
            None => None,
        }
    }

    /// Forgets the running sidecar and returns the process id to stop, if there was one.
    pub fn stop(&mut self) -> (pid: Option<u32>)
        ensures
            final(self).running is None,
            pid == pid_of(*old(self)),
    {
        let pid = match self.running {
            Some((_, pid)) => Some(pid),
            None => None,
        };
        self.running = None;
        pid
    }

    /// The first step of a start: whatever runs is stopped (its process id is returned), then a
    /// start is refused when the sidecar's dependencies are not installed in `dir`.
    pub fn begin_start(&mut self, deps_installed: bool, dir: &str) -> (r: (Option<u32>, Result<(), String>))
        ensures
            start_begun(*old(self), *final(self), deps_installed, dir@, r),
    {
        let pid = self.stop();
        if deps_installed {
            (pid, Ok(()))
        } else {
            (pid, Err(concatenate(dir, " 下尚未安装依赖,请先调用安装")))
        }
    }

    /// The last step of a start: the process `pid` now serves on the configured port, and its
    /// status is returned.
    pub fn finish_start(&mut self, cfg: &KiroProxyConfig, pid: u32, server_path: String) -> (r:
        KiroProxyStatus)
        ensures
            start_finished(*final(self), *cfg, pid, server_path, r),
    {
        self.running = Some((cfg.port, pid));
        started_status(cfg.port, pid, server_path)
    }
}

/// A start first stops whatever ran, so when it fails (dependencies missing, or the process
/// could not be spawned) no sidecar is held and requests find none running; a start in a
/// directory without dependencies always fails. When a start succeeds, its status reports the
/// sidecar running on the configured port with a process id and installed dependencies, and
/// requests go to that port.
pub proof fn lemma_start_protocol(
    s0: SidecarState,
    s1: SidecarState,
    deps_installed: bool,
    dir: Seq<char>,
    begun: (Option<u32>, Result<(), String>),
    s2: SidecarState,
    cfg: KiroProxyConfig,
    pid: u32,
    server_path: String,
    st: KiroProxyStatus,
)
    requires
        start_begun(s0, s1, deps_installed, dir, begun),
    ensures
        port_of(s1) is None,
        !deps_installed ==> begun.1 is Err,
        start_finished(s2, cfg, pid, server_path, st) ==> {
            &&& st.running
            &&& st.port == Some(cfg.port)
            &&& st.pid is Some
            &&& st.deps_installed
            &&& port_of(s2) == Some(cfg.port)
            &&& pid_of(s2) == st.pid
        },
{
}

// ---------------------------------------------------------------------------
// Laws of the sidecar
// ---------------------------------------------------------------------------

/// The sidecar's environment: the port first, as a numeral that reads back as the port; the API
/// key and the HTTPS proxy each present, with their value, exactly when configured and not blank;
/// and no other variable.
pub proof fn lemma_sidecar_env(cfg: KiroProxyConfig)
    ensures
        ({
            let env = sidecar_env_of(cfg);
            &&& env.len() >= 1
            &&& env[0].0 == "PORT"@
            &&& parse_u32_spec(env[0].1) == Some(cfg.port as u32)
            &&& (cfg.https_proxy matches Some(p) && !is_blank(p@)) ==> env.contains(
                ("HTTPS_PROXY"@, cfg.https_proxy->0@),
            )
            &&& (cfg.api_key matches Some(k) && !is_blank(k@)) ==> env.contains(
                ("PROXY_API_KEY"@, cfg.api_key->0@),
            )
            &&& (exists|i: int| 0 <= i < env.len() && env[i].0 == "HTTPS_PROXY"@) <==> (
            cfg.https_proxy matches Some(p) && !is_blank(p@))
            &&& (exists|i: int| 0 <= i < env.len() && env[i].0 == "PROXY_API_KEY"@) <==> (
            cfg.api_key matches Some(k) && !is_blank(k@))
            &&& forall|i: int|
                0 <= i < env.len() ==> (env[i].0 == "PORT"@ || env[i].0 == "PROXY_API_KEY"@
                    || env[i].0 == "HTTPS_PROXY"@)
        }),
{
    reveal_strlit("PORT");
    reveal_strlit("PROXY_API_KEY");
    reveal_strlit("HTTPS_PROXY");
    lemma_u32_text_round_trip(cfg.port as u32);
    let env = sidecar_env_of(cfg);
    let a = optional_env("PROXY_API_KEY"@, cfg.api_key);
    let h = optional_env("HTTPS_PROXY"@, cfg.https_proxy);
    assert(env =~= seq![("PORT"@, int_text(cfg.port as int))] + a + h);
    assert("PORT"@.len() != "HTTPS_PROXY"@.len());
    assert("PROXY_API_KEY"@.len() != "HTTPS_PROXY"@.len());
    assert("PORT"@.len() != "PROXY_API_KEY"@.len());
    if cfg.https_proxy matches Some(p) && !is_blank(p@) {
        assert(env[env.len() - 1] == ("HTTPS_PROXY"@, cfg.https_proxy->0@));
    }
    if cfg.api_key matches Some(k) && !is_blank(k@) {
        assert(env[1] == ("PROXY_API_KEY"@, cfg.api_key->0@));
    }
}

/// The outcome of a model test: it succeeds exactly when the reply does. A failed reply reads
/// `HTTP <status>: ` followed by `error.message`, else `message`, else `unknown error`; the
/// status reads back as the number. A successful reply gives the texts of its content blocks,
/// concatenated in order, and nothing when it has no content array.
pub proof fn lemma_test_model_outcome(success: bool, status: u16, reply: ModelReply)
    ensures
        ({
            let (ok, text) = test_model_outcome_of(success, status, reply);
            &&& ok == success
            &&& !success ==> text.subrange(0, 5) == "HTTP "@
            &&& !success ==> exists|k: int|
                5 < k <= text.len() && parse_u32_spec(text.subrange(5, k)) == Some(status as u32)
                    && text.subrange(k, k + 2) == ": "@ && text.subrange(k + 2, text.len() as int)
                    == (match reply.error_message {
                    Some(m) => m@,
                    None => match reply.message {
                        Some(m) => m@,
                        None => "unknown error"@,
                    },
                })
            &&& (!success && reply.error_message matches Some(m)) ==> text == "HTTP "@ + int_text(
                status as int,
            ) + ": "@ + reply.error_message->0@
            &&& (success && reply.content_texts is None) ==> text.len() == 0
            &&& (success && reply.content_texts is Some) ==> text == join(
                crate::history::string_values(crate::history::opt_views(reply.content_texts->0@)),
                Seq::empty(),
            )
        }),
{
    reveal_strlit("HTTP ");
    reveal_strlit(": ");
    lemma_u32_text_round_trip(status as u32);
    if !success {
        let (ok, text) = test_model_outcome_of(success, status, reply);
        let digits = int_text(status as int);
        let m = reply_error_of(reply);
        assert(text == "HTTP "@ + digits + ": "@ + m);
        let k: int = 5 + digits.len() as int;
        assert(text.subrange(0, 5) =~= "HTTP "@);
        assert(text.subrange(5, k) =~= digits);
        assert(text.subrange(k, k + 2) =~= ": "@);
        assert(text.subrange(k + 2, text.len() as int) =~= m);
        lemma_decimal(status as nat);
    }
}

/// Splitting at `.` keeps a first piece that holds no `.`.
proof fn lemma_split_first_piece(s: Seq<char>, rest: Seq<char>)
    requires
        !s.contains('.'),
    ensures
        split_on(s + seq!['.'] + rest, '.')[0] == s,
    decreases s.len(),
{
    if s.len() == 0 {
        assert((s + seq!['.'] + rest)[0] == '.');
        lemma_split_nonempty((s + seq!['.'] + rest).drop_first(), '.');
    } else {
        let whole = s + seq!['.'] + rest;
        assert(!s.drop_first().contains('.')) by {
            if s.drop_first().contains('.') {
                let k = choose|k: int| 0 <= k < s.drop_first().len() && s.drop_first()[k] == '.';
                assert(s[k + 1] == '.');
            }
        }
        lemma_split_first_piece(s.drop_first(), rest);
        assert(whole.drop_first() =~= s.drop_first() + seq!['.'] + rest);
        assert(s[0] != '.') by {
            if s[0] == '.' {
                assert(s.contains('.'));
            }
        }
        lemma_split_nonempty(whole.drop_first(), '.');
        assert(split_on(whole, '.')[0] =~= seq![s[0]] + s.drop_first());
        assert(seq![s[0]] + s.drop_first() =~= s);
    }
}

/// The major version of a `node --version` line `v<n>.<rest>` is `n`, for every `n` that fits in
/// `u32` and whatever follows the first dot.
pub proof fn lemma_node_major_reads_version(n: u32, rest: Seq<char>)
    ensures
        node_major_of(seq!['v'] + decimal(n as nat) + seq!['.'] + rest) == n,
{
    let d = decimal(n as nat);
    lemma_decimal(n as nat);
    lemma_u32_text_round_trip(n);
    let line = seq!['v'] + d + seq!['.'] + rest;
    assert(!d.contains('.')) by {
        if d.contains('.') {
            let k = choose|k: int| 0 <= k < d.len() && d[k] == '.';
            assert(is_digit(d[k]));
        }
    }
    assert(is_digit(d[0]));
    assert(line.drop_first() =~= d + seq!['.'] + rest);
    assert(strip_leading(line, 'v') == strip_leading(line.drop_first(), 'v'));
    assert(line.drop_first()[0] == d[0]);
    assert(strip_leading(line.drop_first(), 'v') == line.drop_first());
    lemma_split_first_piece(d, rest);
}

/// A Node.js that reports `v<n>.<rest>` can run the sidecar exactly when `n` is at least 18, and
/// the reported version is kept.
pub proof fn lemma_check_node_version(
    stdout: Vec<u8>,
    stderr: Vec<u8>,
    n: u32,
    rest: Seq<char>,
    r: NodeAvailability,
)
    requires
        trim(utf8_lossy_of(stdout@)) == seq!['v'] + decimal(n as nat) + seq!['.'] + rest,
        node_verdict(NodeProbe::Finished { success: true, stdout, stderr }, r),
    ensures
        r.available == (n >= 18),
        r.version matches Some(v) && v@ == seq!['v'] + decimal(n as nat) + seq!['.'] + rest,
        r.available ==> r.error is None,
{
    lemma_node_major_reads_version(n, rest);
}

/// A command that fails or cannot be started never makes Node.js available.
pub proof fn lemma_check_node_failures(probe: NodeProbe, r: NodeAvailability)
    requires
        node_verdict(probe, r),
        !(probe matches NodeProbe::Finished { success, .. } && success),
    ensures
        !r.available,
        r.version is None,
        r.error is Some,
{
}

/// An endpoint URL is `http://127.0.0.1:`, then a numeral that reads back as the port, then the
/// path; without a port there is only the not-running error.
pub proof fn lemma_endpoint_url(port: u16, path: Seq<char>)
    ensures
        ({
            let u = endpoint_url_of(port, path);
            let k = u.len() - path.len();
            &&& u.subrange(0, 17) == "http://127.0.0.1:"@
            &&& 17 < k <= u.len()
            &&& parse_u32_spec(u.subrange(17, k)) == Some(port as u32)
            &&& u.subrange(k, u.len() as int) == path
        }),
{
    reveal_strlit("http://127.0.0.1:");
    lemma_u32_text_round_trip(port as u32);
    lemma_decimal(port as nat);
    let u = endpoint_url_of(port, path);
    let d = int_text(port as int);
    assert(u == "http://127.0.0.1:"@ + d + path);
    assert(u.subrange(0, 17) =~= "http://127.0.0.1:"@);
    let e: int = 17 + d.len() as int;
    assert(u.subrange(17, e) =~= d);
    assert(u.subrange(e, u.len() as int) =~= path);
}

/// The credits path asks for the given period, `today` when none is given.
pub proof fn lemma_credits_path(period: Option<String>)
    ensures
        credits_path_of(period).subrange(0, 16) == "/credits?period="@,
        credits_path_of(period).subrange(16, credits_path_of(period).len() as int) == match period {
            Some(p) => p@,
            None => "today"@,
        },
{
    reveal_strlit("/credits?period=");
    let c = credits_path_of(period);
    assert(c.subrange(0, 16) =~= "/credits?period="@);
    assert(c.subrange(16, c.len() as int) =~= match period {
        Some(p) => p@,
        None => "today"@,
    });
}

} // verus!
