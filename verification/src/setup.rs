//! What the first-run wizard needs to know: whether this is a first run,
//! which of the tools that the gateway needs are installed, which proxy
//! was detected, how an installation of the gateway ended, and the token
//! that a new configuration is protected with.

use crate::command::command_text;
use crate::command::CommandLine;
use crate::command::CommandLineView;
use crate::command::CommandOutput;
use crate::command::commands_view;
use crate::command::run_command_output;
use crate::proxy::DesktopProxy;
use crate::proxy::env_all;
use crate::proxy::env_http;
use crate::proxy::EnvProxy;
use crate::proxy::first_of;
use crate::proxy::store_is_manual;
use crate::text::decode_lossy;
use crate::text::lossy_text;
use crate::text::opt_view;
use crate::text::signed_decimal;
use crate::text::signed_decimal_string;
use crate::text::str_eq;
use crate::text::trim;
use crate::text::trimmed;
use crate::text::views;
use std::collections::hash_map::DefaultHasher;
use std::hash::BuildHasher;
use std::hash::Hasher;
use std::hash::RandomState;
use vstd::prelude::*;
use vstd::string::StringExecFns;
use vstd::string::StrSliceExecFns;

verus! {

/// The port that a new configuration gives the gateway.
pub const DEFAULT_GATEWAY_PORT: u16 = 18789;

/// How many characters a generated token has.
pub const TOKEN_LENGTH: usize = 32;

/// Which of the gateway's prerequisites are met.
#[derive(Debug, Clone, PartialEq, Eq)]
pub struct PrereqStatus {
    pub node_installed: bool,
    pub node_version: String,
    pub npm_installed: bool,
    pub openclaw_installed: bool,
    pub openclaw_version: String,
    pub config_exists: bool,
    pub proxy_detected: Option<String>,
}

/// `PrereqStatus` as mathematical values.
pub struct PrereqStatusView {
    pub node_installed: bool,
    pub node_version: Seq<char>,
    pub npm_installed: bool,
    pub openclaw_installed: bool,
    pub openclaw_version: Seq<char>,
    pub config_exists: bool,
    pub proxy_detected: Option<Seq<char>>,
}

impl View for PrereqStatus {
    type V = PrereqStatusView;

    open spec fn view(&self) -> PrereqStatusView {
        PrereqStatusView {
            node_installed: self.node_installed,
            node_version: self.node_version@,
            npm_installed: self.npm_installed,
            openclaw_installed: self.openclaw_installed,
            openclaw_version: self.openclaw_version@,
            config_exists: self.config_exists,
            proxy_detected: opt_view(self.proxy_detected),
        }
    }
}

/// The proxy that was detected, and where.
#[derive(Debug, Clone, PartialEq, Eq)]
pub struct ProxyInfo {
    pub detected: bool,
    pub http: String,
    pub socks: String,
    pub source: String,
}

/// `ProxyInfo` as mathematical values.
pub struct ProxyInfoView {
    pub detected: bool,
    pub http: Seq<char>,
    pub socks: Seq<char>,
    pub source: Seq<char>,
}

impl View for ProxyInfo {
    type V = ProxyInfoView;

    open spec fn view(&self) -> ProxyInfoView {
        ProxyInfoView {
            detected: self.detected,
            http: self.http@,
            socks: self.socks@,
            source: self.source@,
        }
    }
}

/// Whether the wizard is due: when there is no configuration file, or no
/// place where it could lie. `config_exists` is `None` when the location
/// of the file is unknown.
pub fn is_first_run(config_exists: Option<bool>) -> (first: bool)
    ensures
        first == (config_exists != Some(true)),
{
    match config_exists {
        Some(exists) => !exists,
        None => true,
    }
}

/// The text of an optional text, the empty text for none.
pub open spec fn text_or_empty(o: Option<Seq<char>>) -> Seq<char> {
    match o {
        Some(s) => s,
        None => Seq::empty(),
    }
}

/// The address that the wizard shows for a host and a port of the desktop
/// store; the empty text when the host is empty or the port is `0`. A
/// value that could not be read counts as empty.
pub open spec fn shown_endpoint(
    scheme: Seq<char>,
    host: Option<Seq<char>>,
    port: Option<Seq<char>>,
) -> Seq<char> {
    let h = text_or_empty(host);
    let p = text_or_empty(port);
    if h.len() > 0 && p != "0"@ {
        scheme + "://"@ + h + ":"@ + p
    } else {
        Seq::empty()
    }
}

/// The proxy that the wizard reports. The environment wins; the desktop
/// store counts in manual mode, and only if it names an HTTP or a SOCKS
/// proxy.
pub open spec fn detected_proxy(env: EnvProxy, desktop: DesktopProxy) -> ProxyInfoView {
    let http = shown_endpoint("http"@, opt_view(desktop.http_host), opt_view(desktop.http_port));
    let socks = shown_endpoint(
        "socks"@,
        opt_view(desktop.socks_host),
        opt_view(desktop.socks_port),
    );
    if env_http(env) is Some {
        ProxyInfoView {
            detected: true,
            http: env_http(env)->0,
            socks: text_or_empty(env_all(env)),
            source: "env"@,
        }
    } else if store_is_manual(desktop) && (http.len() > 0 || socks.len() > 0) {
        ProxyInfoView { detected: true, http, socks, source: "gsettings"@ }
    } else {
        ProxyInfoView {
            detected: false,
            http: Seq::empty(),
            socks: Seq::empty(),
            source: "none"@,
        }
    }
}

fn or_empty(o: &Option<String>) -> (r: String)
    ensures
        r@ == text_or_empty(opt_view(*o)),
{
    match o {
        Some(s) => s.clone(),
        None => String::new(),
    }
}

fn first_or_empty(a: &Option<String>, b: &Option<String>) -> (r: String)
    ensures
        r@ == text_or_empty(first_of(opt_view(*a), opt_view(*b))),
{
    if a.is_some() {
        or_empty(a)
    } else {
        or_empty(b)
    }
}

fn shown(scheme: &str, host: &Option<String>, port: &Option<String>) -> (r: String)
    ensures
        r@ == shown_endpoint(scheme@, opt_view(*host), opt_view(*port)),
{
    let h = or_empty(host);
    let p = or_empty(port);
    if !h.as_str().is_empty() && !str_eq(p.as_str(), "0") {
        let mut r = String::from_str(scheme);
        r.append("://");
        r.append(h.as_str());
        r.append(":");
        r.append(p.as_str());
        r
    } else {
        String::new()
    }
}

/// Detects the proxy for the wizard, from the proxy variables of the
/// environment and the desktop's proxy store.
pub fn detect_proxy(env: &EnvProxy, desktop: &DesktopProxy) -> (info: ProxyInfo)
    ensures
        info@ == detected_proxy(*env, *desktop),
{
    if env.http_upper.is_some() || env.http_lower.is_some() {
        return ProxyInfo {
            detected: true,
            http: first_or_empty(&env.http_upper, &env.http_lower),
            socks: first_or_empty(&env.all_upper, &env.all_lower),
            source: String::from_str("env"),
        };
    }
    let manual = match &desktop.mode {
        Some(m) => str_eq(m.as_str(), "manual"),
        None => false,
    };
    if manual {
        let http = shown("http", &desktop.http_host, &desktop.http_port);
        let socks = shown("socks", &desktop.socks_host, &desktop.socks_port);
        if !http.as_str().is_empty() || !socks.as_str().is_empty() {
            return ProxyInfo { detected: true, http, socks, source: String::from_str("gsettings") };
        }
    }
    ProxyInfo {
        detected: false,
        http: String::new(),
        socks: String::new(),
        source: String::from_str("none"),
    }
}

/// What the version query of a tool says: the version that it printed, or
/// the empty text when the tool could not be run or failed.
pub open spec fn version_text(output: Option<CommandOutput>) -> Seq<char> {
    text_or_empty(command_text(output))
}

/// The prerequisites as the wizard shows them. A tool counts as installed
/// when its version query printed something.
pub open spec fn prerequisites_of(
    node: Option<CommandOutput>,
    npm: Option<CommandOutput>,
    openclaw: Option<CommandOutput>,
    config_exists: Option<bool>,
    proxy: ProxyInfoView,
) -> PrereqStatusView {
    PrereqStatusView {
        node_installed: version_text(node).len() > 0,
        node_version: version_text(node),
        npm_installed: version_text(npm).len() > 0,
        openclaw_installed: version_text(openclaw).len() > 0,
        openclaw_version: version_text(openclaw),
        config_exists: config_exists == Some(true),
        proxy_detected: if proxy.detected {
            Some(proxy.http)
        } else {
            None
        },
    }
}

fn version_of(output: Option<CommandOutput>) -> (r: String)
    ensures
        r@ == version_text(output),
{
    match run_command_output(output) {
        Some(text) => text,
        None => String::new(),
    }
}

/// Sums up the prerequisites from the version queries of the three tools,
/// from whether the configuration file exists (`None`: its location is
/// unknown), and from the proxy that was detected.
pub fn check_prerequisites(
    node: Option<CommandOutput>,
    npm: Option<CommandOutput>,
    openclaw: Option<CommandOutput>,
    config_exists: Option<bool>,
    proxy: &ProxyInfo,
) -> (status: PrereqStatus)
    ensures
        status@ == prerequisites_of(node, npm, openclaw, config_exists, proxy@),
{
    let node_version = version_of(node);
    let node_installed = !node_version.as_str().is_empty();
    let npm_version = version_of(npm);
    let npm_installed = !npm_version.as_str().is_empty();
    let openclaw_version = version_of(openclaw);
    let openclaw_installed = !openclaw_version.as_str().is_empty();
    let config_exists = match config_exists {
        Some(exists) => exists,
        None => false,
    };
    let proxy_detected = if proxy.detected {
        Some(proxy.http.clone())
    } else {
        None
    };
    PrereqStatus {
        node_installed,
        node_version,
        npm_installed,
        openclaw_installed,
        openclaw_version,
        config_exists,
        proxy_detected,
    }
}

/// How the installation of the gateway went.
#[derive(Debug, Clone, PartialEq, Eq)]
pub enum InstallRun {
    /// The task that was to run the installer did not come back, for
    /// `reason`.
    TaskFailed { reason: String },
    /// The installer could not be run, for `reason`.
    NotRun { reason: String },
    /// The installer ran to its end.
    Finished(CommandOutput),
}

/// The exit code in a report: `-1` for an installer that did not exit by
/// itself.
pub open spec fn reported_code(code: Option<i32>) -> int {
    match code {
        Some(c) => c as int,
        None => -1,
    }
}

/// What the wizard is told of an installer that ran to its end and wrote
/// `stdout` and `stderr`: its output when it succeeded, else its exit code
/// and its output.
pub open spec fn finished_report(
    success: bool,
    code: Option<i32>,
    stdout: Seq<char>,
    stderr: Seq<char>,
) -> Result<Seq<char>, Seq<char>> {
    if success {
        Ok(trimmed(stdout + "\n"@ + stderr))
    } else {
        Err(
            "npm install failed (exit code "@ + signed_decimal(reported_code(code)) + "):\n"@
                + stdout + "\n"@ + stderr,
        )
    }
}

/// What the wizard is told of an installation: the installer's output
/// when it succeeded, else why it did not.
pub open spec fn install_report(run: InstallRun) -> Result<Seq<char>, Seq<char>> {
    match run {
        InstallRun::TaskFailed { reason } => Err("Task join error: "@ + reason@),
        InstallRun::NotRun { reason } => Err("Failed to run npm: "@ + reason@),
        InstallRun::Finished(o) => finished_report(
            o.success,
            o.code,
            lossy_text(o.stdout@),
            lossy_text(o.stderr@),
        ),
    }
}

/// The text of a result, on either side.
pub open spec fn result_view(r: Result<String, String>) -> Result<Seq<char>, Seq<char>> {
    match r {
        Ok(s) => Ok(s@),
        Err(e) => Err(e@),
    }
}

/// Reports an installer that ran to its end, from what it wrote as text.
pub fn report_finished_install(success: bool, code: Option<i32>, stdout: &str, stderr: &str) -> (r:
    Result<String, String>)
    ensures
        result_view(r) == finished_report(success, code, stdout@, stderr@),
{
    if success {
        let mut all = String::from_str(stdout);
        all.append("\n");
        all.append(stderr);
        Ok(trim(all.as_str()))
    } else {
        let code = match code {
            Some(c) => c,
            None => -1,
        };
        let mut e = String::from_str("npm install failed (exit code ");
        e.append(signed_decimal_string(code).as_str());
        e.append("):\n");
        e.append(stdout);
        e.append("\n");
        e.append(stderr);
        Err(e)
    }
}

/// Reports an installation of the gateway to the wizard.
pub fn install_openclaw(run: InstallRun) -> (r: Result<String, String>)
    ensures
        result_view(r) == install_report(run),
{
    match run {
        InstallRun::TaskFailed { reason } => {
            let mut e = String::from_str("Task join error: ");
            e.append(reason.as_str());
            Err(e)
        },
        InstallRun::NotRun { reason } => {
            let mut e = String::from_str("Failed to run npm: ");
            e.append(reason.as_str());
            Err(e)
        },
        InstallRun::Finished(o) => {
            let stdout = decode_lossy(&o.stdout);
            let stderr = decode_lossy(&o.stderr);
            report_finished_install(o.success, o.code, stdout.as_str(), stderr.as_str())
        },
    }
}

/// Whether an optional setting was given: it is there and not empty.
pub open spec fn is_given(o: Option<Seq<char>>) -> bool {
    o is Some && o->0.len() > 0
}

/// Tells whether an optional setting was given.
pub fn given(o: &Option<String>) -> (yes: bool)
    ensures
        yes == is_given(opt_view(*o)),
{
    match o {
        Some(s) => !s.as_str().is_empty(),
        None => false,
    }
}

/// The command that adds a channel of `kind` with `token` to the gateway.
pub open spec fn channel_command_of(kind: Seq<char>, token: Seq<char>) -> CommandLineView {
    CommandLineView {
        program: "openclaw"@,
        args: seq!["channels"@, "add"@, kind, "--token"@, token],
    }
}

/// The commands that add the channels whose tokens were given: the
/// Telegram channel first, then the Discord channel.
pub open spec fn channel_commands_of(telegram: Option<Seq<char>>, discord: Option<Seq<char>>)
    -> Seq<CommandLineView> {
    let first = if is_given(telegram) {
        seq![channel_command_of("telegram"@, telegram->0)]
    } else {
        Seq::empty()
    };
    let second = if is_given(discord) {
        seq![channel_command_of("discord"@, discord->0)]
    } else {
        Seq::empty()
    };
    first + second
}

/// The command that adds a channel of `kind` with `token` to the gateway.
pub fn add_channel(kind: &str, token: &str) -> (r: CommandLine)
    ensures
        r@ == channel_command_of(kind@, token@),
{
    let mut args: Vec<String> = Vec::new();
    args.push(String::from_str("channels"));
    args.push(String::from_str("add"));
    args.push(String::from_str(kind));
    args.push(String::from_str("--token"));
    args.push(String::from_str(token));
    assert(views(args@) =~= seq!["channels"@, "add"@, kind@, "--token"@, token@]);
    CommandLine { program: String::from_str("openclaw"), args }
}

/// The commands that add the channels whose tokens were given.
pub fn channel_commands(telegram: &Option<String>, discord: &Option<String>) -> (r: Vec<
    CommandLine,
>)
    ensures
        commands_view(r@) == channel_commands_of(opt_view(*telegram), opt_view(*discord)),
{
    let mut r: Vec<CommandLine> = Vec::new();
    match telegram {
        Some(token) => {
            if !token.as_str().is_empty() {
                r.push(add_channel("telegram", token.as_str()));
            }
        },
        None => {},
    }
    match discord {
        Some(token) => {
            if !token.as_str().is_empty() {
                r.push(add_channel("discord", token.as_str()));
            }
        },
        None => {},
    }
    assert(commands_view(r@) =~= channel_commands_of(opt_view(*telegram), opt_view(*discord)));
    r
}

/// The configuration that the wizard writes.
#[derive(Debug, Clone, PartialEq, Eq)]
pub struct InitialConfig {
    pub port: u16,
    pub bind: String,
    pub auth_mode: String,
    pub auth_token: String,
    pub provider: String,
    pub api_key: String,
    pub default_model: String,
    /// The proxy to go through; `None` leaves the entry out of the file.
    pub proxy_url: Option<String>,
}

/// `InitialConfig` as mathematical values.
pub struct InitialConfigView {
    pub port: u16,
    pub bind: Seq<char>,
    pub auth_mode: Seq<char>,
    pub auth_token: Seq<char>,
    pub provider: Seq<char>,
    pub api_key: Seq<char>,
    pub default_model: Seq<char>,
    pub proxy_url: Option<Seq<char>>,
}

impl View for InitialConfig {
    type V = InitialConfigView;

    open spec fn view(&self) -> InitialConfigView {
        InitialConfigView {
            port: self.port,
            bind: self.bind@,
            auth_mode: self.auth_mode@,
            auth_token: self.auth_token@,
            provider: self.provider@,
            api_key: self.api_key@,
            default_model: self.default_model@,
            proxy_url: opt_view(self.proxy_url),
        }
    }
}

/// The configuration for the wizard's answers: a gateway on the default
/// port of the loopback interface, protected by `token`; the provider with
/// its key and the model; the proxy only if one was given.
pub open spec fn initial_config_of(
    provider: Seq<char>,
    api_key: Seq<char>,
    model: Seq<char>,
    token: Seq<char>,
    proxy_url: Option<Seq<char>>,
) -> InitialConfigView {
    InitialConfigView {
        port: DEFAULT_GATEWAY_PORT,
        bind: "loopback"@,
        auth_mode: "token"@,
        auth_token: token,
        provider,
        api_key,
        default_model: model,
        proxy_url: if is_given(proxy_url) {
            proxy_url
        } else {
            None
        },
    }
}

/// Puts the wizard's answers into a configuration.
pub fn initial_config(
    provider: String,
    api_key: String,
    model: String,
    token: String,
    proxy_url: Option<String>,
) -> (config: InitialConfig)
    ensures
        config@ == initial_config_of(provider@, api_key@, model@, token@, opt_view(proxy_url)),
{
    let proxy_url = if given(&proxy_url) {
        proxy_url
    } else {
        None
    };
    InitialConfig {
        port: DEFAULT_GATEWAY_PORT,
        bind: String::from_str("loopback"),
        auth_mode: String::from_str("token"),
        auth_token: token,
        provider,
        api_key,
        default_model: model,
        proxy_url,
    }
}

/// How far the writing of the first configuration got.
#[derive(Debug, Clone, PartialEq, Eq)]
pub enum SaveOutcome {
    /// The home directory is unknown.
    NoHome,
    /// The configuration directory could not be created, for `reason`.
    DirectoryFailed { reason: String },
    /// The configuration could not be put into text, for `reason`.
    SerializeFailed { reason: String },
    /// The file could not be written, for `reason`.
    WriteFailed { reason: String },
    /// The file was written.
    Saved,
}

/// The message for a configuration that was not saved.
pub open spec fn save_error(outcome: SaveOutcome) -> Seq<char> {
    match outcome {
        SaveOutcome::NoHome => "Could not determine home directory"@,
        SaveOutcome::DirectoryFailed { reason } => "Failed to create ~/.openclaw: "@ + reason@,
        SaveOutcome::SerializeFailed { reason } => "Failed to serialize config: "@ + reason@,
        SaveOutcome::WriteFailed { reason } => "Failed to write config: "@ + reason@,
        SaveOutcome::Saved => Seq::empty(),
    }
}

/// Reports the writing of the first configuration to the wizard: success
/// when the file was written, else the message that says what failed.
pub fn save_initial_config(outcome: SaveOutcome) -> (r: Result<(), String>)
    ensures
        r is Ok <==> outcome is Saved,
        r matches Err(e) ==> e@ == save_error(outcome),
{
    match outcome {
        SaveOutcome::NoHome => Err(String::from_str("Could not determine home directory")),
        SaveOutcome::DirectoryFailed { reason } => {
            let mut e = String::from_str("Failed to create ~/.openclaw: ");
            e.append(reason.as_str());
            Err(e)
        },
        SaveOutcome::SerializeFailed { reason } => {
            let mut e = String::from_str("Failed to serialize config: ");
            e.append(reason.as_str());
            Err(e)
        },
        SaveOutcome::WriteFailed { reason } => {
            let mut e = String::from_str("Failed to write config: ");
            e.append(reason.as_str());
            Err(e)
        },
        SaveOutcome::Saved => Ok(()),
    }
}

/// The outcome of adding a channel, as the caller saw it.
#[derive(Debug, Clone, PartialEq, Eq)]
pub enum ChannelRun {
    /// The command could not be run, for `reason`.
    NotRun { reason: String },
    /// The command ran to its end.
    Finished(CommandOutput),
}

/// What the log says of a channel of `kind` whose command failed and
/// wrote `stderr`.
pub open spec fn channel_rejection(kind: Seq<char>, stderr: Seq<char>) -> Seq<char> {
    "Failed to add "@ + kind + " channel: "@ + stderr
}

/// What the log says of a channel of `kind` that was not added; nothing
/// when the command succeeded.
pub open spec fn channel_failure(kind: Seq<char>, run: ChannelRun) -> Option<Seq<char>> {
    match run {
        ChannelRun::NotRun { reason } => Some("Failed to run openclaw channels add: "@ + reason@),
        ChannelRun::Finished(o) => if o.success {
            None
        } else {
            Some(channel_rejection(kind, lossy_text(o.stderr@)))
        },
    }
}

/// The log line for a channel of `kind` whose command failed and wrote
/// `stderr`.
pub fn channel_rejection_line(kind: &str, stderr: &str) -> (line: String)
    ensures
        line@ == channel_rejection(kind@, stderr@),
{
    let mut line = String::from_str("Failed to add ");
    line.append(kind);
    line.append(" channel: ");
    line.append(stderr);
    line
}

/// The log line for a channel of `kind` that was not added, if it was
/// not.
pub fn channel_log_line(kind: &str, run: ChannelRun) -> (line: Option<String>)
    ensures
        opt_view(line) == channel_failure(kind@, run),
{
    match run {
        ChannelRun::NotRun { reason } => {
            let mut line = String::from_str("Failed to run openclaw channels add: ");
            line.append(reason.as_str());
            Some(line)
        },
        ChannelRun::Finished(o) => {
            if o.success {
                None
            } else {
                let stderr = decode_lossy(&o.stderr);
                Some(channel_rejection_line(kind, stderr.as_str()))
            }
        },
    }
}

/// The characters that a token is made of: the lower-case letters and the
/// digits.
pub open spec fn token_alphabet() -> Seq<char> {
    "abcdefghijklmnopqrstuvwxyz0123456789"@
}

/// The token that random words stand for: one character for each word,
/// the one at the word's position in the alphabet, counted round.
pub open spec fn token_of(words: Seq<u64>) -> Seq<char> {
    Seq::new(words.len(), |i: int| token_alphabet()[words[i] as int % 36])
}

/// Makes a token from random words, one character for each word.
pub fn token_from_words(words: &Vec<u64>) -> (token: String)
    ensures
        token@ == token_of(words@),
{
    proof {
        reveal_strlit("abcdefghijklmnopqrstuvwxyz0123456789");
    }
    let alphabet = "abcdefghijklmnopqrstuvwxyz0123456789";
    let mut token = String::new();
    let mut i: usize = 0;
    while i < words.len()
        invariant
            i <= words@.len(),
            alphabet@ == token_alphabet(),
            alphabet@.len() == 36,
            token@ == token_of(words@.take(i as int)),
        decreases words@.len() - i,
    {
        let idx: usize = (words[i] % 36) as usize;
        token.append(alphabet.substring_char(idx, idx + 1));
        assert(token@ =~= token_of(words@.take(i + 1)));
        i = i + 1;
    }
    assert(words@.take(words@.len() as int) =~= words@);
    token
}

/// Calls `RandomState::new`, which draws fresh random keys. Nothing is
/// promised of them.
#[verifier::external_body]
fn random_state() -> (state: RandomState) {
    RandomState::new()
}

/// Calls `RandomState::build_hasher`. Nothing is promised of the hasher:
/// it starts from the state's random keys.
#[verifier::external_body]
fn keyed_hasher(state: &RandomState) -> (hasher: DefaultHasher) {
    state.build_hasher()
}

/// Calls `Hasher::write_u8`, which feeds one byte to the hasher. Nothing
/// is promised of the hasher afterwards.
#[verifier::external_body]
fn feed_byte(hasher: &mut DefaultHasher, byte: u8) {
    hasher.write_u8(byte)
}

fn random_word() -> u64 {
    let state = random_state();
    let mut hasher = keyed_hasher(&state);
    feed_byte(&mut hasher, 0);
    hasher.finish()
}

/// A fresh access token: as many characters of the token alphabet as a
/// token has, each drawn from a random word of its own.
pub fn generate_token() -> (token: String)
    ensures
        token@.len() == TOKEN_LENGTH,
        exists|words: Seq<u64>| words.len() == TOKEN_LENGTH && token@ == token_of(words),
        forall|i: int| 0 <= i < token@.len() ==> token_alphabet().contains(#[trigger] token@[i]),
{
    let mut words: Vec<u64> = Vec::new();
    let mut i: usize = 0;
    while i < TOKEN_LENGTH
        invariant
            i <= TOKEN_LENGTH,
            words@.len() == i,
        decreases TOKEN_LENGTH - i,
    {
        words.push(random_word());
        i = i + 1;
    }
    let token = token_from_words(&words);
    proof {
        law_token_alphabet(words@);
    }
    token
}

/// A token has one character for each word, and every character of it is
/// a lower-case letter or a digit.
pub proof fn law_token_alphabet(words: Seq<u64>)
    ensures
        token_of(words).len() == words.len(),
        forall|i: int|
            0 <= i < words.len() ==> token_alphabet().contains(#[trigger] token_of(words)[i]),
{
    reveal_strlit("abcdefghijklmnopqrstuvwxyz0123456789");
    assert forall|i: int| 0 <= i < words.len() implies token_alphabet().contains(
        #[trigger] token_of(words)[i],
    ) by {
        let k = words[i] as int % 36;
        assert(token_of(words)[i] == token_alphabet()[k]);
    }
}

} // verus!
