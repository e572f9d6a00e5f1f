//! Proxy resolution: which outbound proxy the gateway is started with, and
//! the environment assignments that carry it to the gateway and to every
//! process that the gateway starts in turn.
//!
//! The proxy variables of the current environment win; the desktop's proxy
//! store is consulted only when they are absent, and counts only in manual
//! mode. Whatever the source, and also when no proxy is found at all, the
//! default exclusion list is set, so that local traffic to the gateway is
//! never sent through a proxy.
//!
//! The assignments are delivered as shell text in front of the gateway's
//! command line, so that they survive a gateway that starts its children
//! with a cleared environment. Every value is quoted for the shell, so
//! that no value, whatever it holds, is read as anything but that value.

use crate::command::command_text;
use crate::command::CommandOutput;
use crate::command::run_command_output;
use crate::shell::shell_quote;
use crate::shell::shell_quoted;
use crate::text::join;
use crate::text::joined_with;
use crate::text::opt_view;
use crate::text::str_eq;
use crate::text::trim_matches;
use crate::text::trimmed_of;
use crate::text::views;
use vstd::prelude::*;
use vstd::string::StringExecFns;

verus! {

/// The proxy variables of the current environment; `None` is a variable
/// that is not set. A variable that is set to the empty text counts as set.
#[derive(Debug, Clone, PartialEq, Eq)]
pub struct EnvProxy {
    /// `HTTP_PROXY`
    pub http_upper: Option<String>,
    /// `http_proxy`
    pub http_lower: Option<String>,
    /// `ALL_PROXY`
    pub all_upper: Option<String>,
    /// `all_proxy`
    pub all_lower: Option<String>,
}

/// The desktop's proxy store, each value as it was read; `None` is a value
/// that could not be read.
#[derive(Debug, Clone, PartialEq, Eq)]
pub struct DesktopProxy {
    pub mode: Option<String>,
    pub http_host: Option<String>,
    pub http_port: Option<String>,
    pub socks_host: Option<String>,
    pub socks_port: Option<String>,
}

/// The proxy that the gateway is started with.
#[derive(Debug, Clone, PartialEq, Eq)]
pub struct ProxySettings {
    pub http_proxy: Option<String>,
    pub socks_proxy: Option<String>,
    pub no_proxy: String,
}

/// One assignment of the environment overlay.
#[derive(Debug, Clone, PartialEq, Eq)]
pub struct EnvAssignment {
    pub name: String,
    pub value: String,
}

/// `ProxySettings` as mathematical values.
pub struct ProxyView {
    pub http: Option<Seq<char>>,
    pub socks: Option<Seq<char>>,
    pub no_proxy: Seq<char>,
}

impl View for ProxySettings {
    type V = ProxyView;

    open spec fn view(&self) -> ProxyView {
        ProxyView {
            http: opt_view(self.http_proxy),
            socks: opt_view(self.socks_proxy),
            no_proxy: self.no_proxy@,
        }
    }
}

impl View for EnvAssignment {
    type V = (Seq<char>, Seq<char>);

    open spec fn view(&self) -> (Seq<char>, Seq<char>) {
        (self.name@, self.value@)
    }
}

/// The hosts and networks that are never reached through a proxy: the
/// loopback names and the private address ranges.
pub open spec fn default_no_proxy() -> Seq<char> {
    "localhost,127.0.0.1,192.168.0.0/16,10.0.0.0/8,172.16.0.0/12,::1"@
}

/// `a` if it is there, else `b`.
pub open spec fn first_of(a: Option<Seq<char>>, b: Option<Seq<char>>) -> Option<Seq<char>> {
    if a is Some {
        a
    } else {
        b
    }
}

/// The HTTP proxy that the environment names, the upper-case variable first.
pub open spec fn env_http(env: EnvProxy) -> Option<Seq<char>> {
    first_of(opt_view(env.http_upper), opt_view(env.http_lower))
}

/// The catch-all proxy that the environment names, the upper-case variable
/// first.
pub open spec fn env_all(env: EnvProxy) -> Option<Seq<char>> {
    first_of(opt_view(env.all_upper), opt_view(env.all_lower))
}

/// The proxy address that a host and a port of the desktop store stand
/// for. Both must have been read, the host must not be empty, and the port
/// must not be `0`, which stands for a port that is not set.
pub open spec fn store_endpoint(
    scheme: Seq<char>,
    host: Option<Seq<char>>,
    port: Option<Seq<char>>,
) -> Option<Seq<char>> {
    if host is Some && port is Some && host->0.len() > 0 && port->0 != "0"@ {
        Some(scheme + "://"@ + host->0 + ":"@ + port->0 + "/"@)
    } else {
        None
    }
}

/// Whether the desktop store is in manual mode.
pub open spec fn store_is_manual(desktop: DesktopProxy) -> bool {
    opt_view(desktop.mode) == Some("manual"@)
}

/// The proxy settings that an environment and a desktop store resolve to.
/// The exclusion list is the default one in every case; when neither the
/// environment nor a store in manual mode names a proxy, it is all that
/// the settings hold.
pub open spec fn resolved(env: EnvProxy, desktop: DesktopProxy) -> ProxyView {
    if env_http(env) is Some {
        ProxyView { http: env_http(env), socks: env_all(env), no_proxy: default_no_proxy() }
    } else if store_is_manual(desktop) {
        ProxyView {
            http: store_endpoint(
                "http"@,
                opt_view(desktop.http_host),
                opt_view(desktop.http_port),
            ),
            socks: store_endpoint(
                "socks"@,
                opt_view(desktop.socks_host),
                opt_view(desktop.socks_port),
            ),
            no_proxy: default_no_proxy(),
        }
    } else {
        ProxyView { http: None, socks: None, no_proxy: default_no_proxy() }
    }
}

/// The assignments that carry an HTTP proxy: the usual variables in both
/// cases, for plain and for secure connections.
pub open spec fn http_group(p: Seq<char>) -> Seq<(Seq<char>, Seq<char>)> {
    seq![("HTTP_PROXY"@, p), ("http_proxy"@, p), ("HTTPS_PROXY"@, p), ("https_proxy"@, p)]
}

/// The assignments that carry an HTTP proxy to the runtime that the
/// gateway embeds, whose HTTP clients read names of their own.
pub open spec fn agent_group(p: Seq<char>) -> Seq<(Seq<char>, Seq<char>)> {
    seq![("GLOBAL_AGENT_HTTP_PROXY"@, p), ("GLOBAL_AGENT_HTTPS_PROXY"@, p)]
}

/// The assignments that carry a catch-all proxy.
pub open spec fn all_group(s: Seq<char>) -> Seq<(Seq<char>, Seq<char>)> {
    seq![("ALL_PROXY"@, s), ("all_proxy"@, s)]
}

/// The assignments that carry the exclusion list.
pub open spec fn no_proxy_group(n: Seq<char>) -> Seq<(Seq<char>, Seq<char>)> {
    seq![("NO_PROXY"@, n), ("no_proxy"@, n)]
}

/// The export statements for some settings, each a group of assignments:
/// the HTTP proxy if there is one, then the catch-all proxy if there is
/// one, then the exclusion list.
pub open spec fn statements_of(v: ProxyView) -> Seq<Seq<(Seq<char>, Seq<char>)>> {
    let http = match v.http {
        Some(p) => seq![http_group(p), agent_group(p)],
        None => Seq::empty(),
    };
    let socks = match v.socks {
        Some(s) => seq![all_group(s)],
        None => Seq::empty(),
    };
    http + socks + seq![no_proxy_group(v.no_proxy)]
}

/// The environment overlay for some settings: the assignments of all its
/// statements, in order.
pub open spec fn overlay_of(v: ProxyView) -> Seq<(Seq<char>, Seq<char>)> {
    let http = match v.http {
        Some(p) => http_group(p) + agent_group(p),
        None => Seq::empty(),
    };
    let socks = match v.socks {
        Some(s) => all_group(s),
        None => Seq::empty(),
    };
    http + socks + no_proxy_group(v.no_proxy)
}

/// One assignment as shell text: the name, `=`, and the value, quoted
/// for the shell.
pub open spec fn assignment_text(a: (Seq<char>, Seq<char>)) -> Seq<char> {
    a.0 + "="@ + shell_quoted(a.1)
}

/// One export statement as shell text.
pub open spec fn statement_text(group: Seq<(Seq<char>, Seq<char>)>) -> Seq<char> {
    "export "@ + joined_with(group.map_values(|a: (Seq<char>, Seq<char>)| assignment_text(a)), " "@)
        + ";"@
}

/// Export statements as shell text, one blank between each two.
pub open spec fn statements_text(groups: Seq<Seq<(Seq<char>, Seq<char>)>>) -> Seq<char> {
    joined_with(
        groups.map_values(|g: Seq<(Seq<char>, Seq<char>)>| statement_text(g)),
        " "@,
    )
}

/// The shell text that exports some settings.
pub open spec fn exports_text(v: ProxyView) -> Seq<char> {
    statements_text(statements_of(v))
}

/// The shell text in front of the gateway's command line: the exports of
/// the resolved settings.
pub open spec fn proxy_exports_of(env: EnvProxy, desktop: DesktopProxy) -> Seq<char> {
    exports_text(resolved(env, desktop))
}

/// The value that an overlay gives to the variable `name`: that of the
/// first assignment to it, if there is one.
pub open spec fn value_of(overlay: Seq<(Seq<char>, Seq<char>)>, name: Seq<char>) -> Option<
    Seq<char>,
>
    decreases overlay.len(),
{
    if overlay.len() == 0 {
        None
    } else if overlay[0].0 == name {
        Some(overlay[0].1)
    } else {
        value_of(overlay.drop_first(), name)
    }
}

proof fn lemma_names_differ()
    ensures
        "HTTP_PROXY"@.len() == 10 && "HTTP_PROXY"@[0] == 'H',
        "http_proxy"@.len() == 10 && "http_proxy"@[0] == 'h',
        "HTTPS_PROXY"@.len() == 11 && "HTTPS_PROXY"@[0] == 'H',
        "https_proxy"@.len() == 11 && "https_proxy"@[0] == 'h',
        "GLOBAL_AGENT_HTTP_PROXY"@.len() == 23,
        "GLOBAL_AGENT_HTTPS_PROXY"@.len() == 24,
        "ALL_PROXY"@.len() == 9 && "ALL_PROXY"@[0] == 'A',
        "all_proxy"@.len() == 9 && "all_proxy"@[0] == 'a',
        "NO_PROXY"@.len() == 8 && "NO_PROXY"@[0] == 'N',
        "no_proxy"@.len() == 8 && "no_proxy"@[0] == 'n',
{
    reveal_strlit("HTTP_PROXY");
    reveal_strlit("http_proxy");
    reveal_strlit("HTTPS_PROXY");
    reveal_strlit("https_proxy");
    reveal_strlit("GLOBAL_AGENT_HTTP_PROXY");
    reveal_strlit("GLOBAL_AGENT_HTTPS_PROXY");
    reveal_strlit("ALL_PROXY");
    reveal_strlit("all_proxy");
    reveal_strlit("NO_PROXY");
    reveal_strlit("no_proxy");
}

/// What every variable of an overlay is set to. A variable is set in its
/// upper-case and in its lower-case form or in neither, and to the same
/// value in both. The HTTP variables, those of the embedded runtime among
/// them, are set exactly when there is an HTTP proxy, and to it; the
/// catch-all variables exactly when there is a catch-all proxy; the
/// exclusion list always.
pub proof fn law_overlay(v: ProxyView)
    ensures
        value_of(overlay_of(v), "HTTP_PROXY"@) == v.http,
        value_of(overlay_of(v), "http_proxy"@) == v.http,
        value_of(overlay_of(v), "HTTPS_PROXY"@) == v.http,
        value_of(overlay_of(v), "https_proxy"@) == v.http,
        value_of(overlay_of(v), "GLOBAL_AGENT_HTTP_PROXY"@) == v.http,
        value_of(overlay_of(v), "GLOBAL_AGENT_HTTPS_PROXY"@) == v.http,
        value_of(overlay_of(v), "ALL_PROXY"@) == v.socks,
        value_of(overlay_of(v), "all_proxy"@) == v.socks,
        value_of(overlay_of(v), "NO_PROXY"@) == Some(v.no_proxy),
        value_of(overlay_of(v), "no_proxy"@) == Some(v.no_proxy),
{
    lemma_names_differ();
    let o = overlay_of(v);
    reveal_with_fuel(value_of, 11);
    match v.http {
        Some(p) => {
            match v.socks {
                Some(s) => {
                    assert(o =~= seq![
                        ("HTTP_PROXY"@, p),
                        ("http_proxy"@, p),
                        ("HTTPS_PROXY"@, p),
                        ("https_proxy"@, p),
                        ("GLOBAL_AGENT_HTTP_PROXY"@, p),
                        ("GLOBAL_AGENT_HTTPS_PROXY"@, p),
                        ("ALL_PROXY"@, s),
                        ("all_proxy"@, s),
                        ("NO_PROXY"@, v.no_proxy),
                        ("no_proxy"@, v.no_proxy),
                    ]);
                },
                None => {
                    assert(o =~= seq![
                        ("HTTP_PROXY"@, p),
                        ("http_proxy"@, p),
                        ("HTTPS_PROXY"@, p),
                        ("https_proxy"@, p),
                        ("GLOBAL_AGENT_HTTP_PROXY"@, p),
                        ("GLOBAL_AGENT_HTTPS_PROXY"@, p),
                        ("NO_PROXY"@, v.no_proxy),
                        ("no_proxy"@, v.no_proxy),
                    ]);
                },
            }
        },
        None => {
            match v.socks {
                Some(s) => {
                    assert(o =~= seq![
                        ("ALL_PROXY"@, s),
                        ("all_proxy"@, s),
                        ("NO_PROXY"@, v.no_proxy),
                        ("no_proxy"@, v.no_proxy),
                    ]);
                },
                None => {
                    assert(o =~= seq![("NO_PROXY"@, v.no_proxy), ("no_proxy"@, v.no_proxy)]);
                },
            }
        },
    }
}

/// The overlay holds the assignments of the export statements, in the
/// order of the statements, and nothing else.
pub proof fn law_overlay_is_statements(v: ProxyView)
    ensures
        statements_of(v).flatten() == overlay_of(v),
{
    let groups = statements_of(v);
    reveal_with_fuel(Seq::flatten, 5);
    assert(groups.flatten() =~= overlay_of(v));
}

/// The environment wins: when it names an HTTP proxy, the settings are
/// those of the environment, whatever the desktop store holds. Without
/// one, the desktop store counts in manual mode only, and otherwise no
/// proxy is set.
pub proof fn law_resolution_order(env: EnvProxy, desktop: DesktopProxy, other: DesktopProxy)
    ensures
        env_http(env) is Some ==> resolved(env, desktop) == resolved(env, other),
        env_http(env) is Some ==> resolved(env, desktop) == (ProxyView {
            http: env_http(env),
            socks: env_all(env),
            no_proxy: default_no_proxy(),
        }),
        env_http(env) is None && !store_is_manual(desktop) ==> resolved(env, desktop) == (
        ProxyView { http: None, socks: None, no_proxy: default_no_proxy() }),
{
}

/// The default exclusion list is always set, in both cases, whatever the
/// environment and the desktop store hold: also when neither names a
/// proxy.
pub proof fn law_no_proxy_always(env: EnvProxy, desktop: DesktopProxy)
    ensures
        resolved(env, desktop).no_proxy == default_no_proxy(),
        value_of(overlay_of(resolved(env, desktop)), "NO_PROXY"@) == Some(default_no_proxy()),
        value_of(overlay_of(resolved(env, desktop)), "no_proxy"@) == Some(default_no_proxy()),
        statements_of(resolved(env, desktop)).last() == no_proxy_group(default_no_proxy()),
{
    law_overlay(resolved(env, desktop));
}

/// The assignments that a vector holds.
pub open spec fn group_view(group: Seq<EnvAssignment>) -> Seq<(Seq<char>, Seq<char>)> {
    group.map_values(|a: EnvAssignment| a@)
}

/// The groups of assignments that a vector holds.
pub open spec fn groups_view(groups: Seq<Vec<EnvAssignment>>) -> Seq<Seq<(Seq<char>, Seq<char>)>> {
    groups.map_values(|g: Vec<EnvAssignment>| group_view(g@))
}

fn clone_opt(o: &Option<String>) -> (r: Option<String>)
    ensures
        opt_view(r) == opt_view(*o),
{
    match o {
        Some(s) => Some(s.clone()),
        None => None,
    }
}

fn first_set(a: &Option<String>, b: &Option<String>) -> (r: Option<String>)
    ensures
        opt_view(r) == first_of(opt_view(*a), opt_view(*b)),
{
    if a.is_some() {
        clone_opt(a)
    } else {
        clone_opt(b)
    }
}

fn endpoint(scheme: &str, host: &Option<String>, port: &Option<String>) -> (r: Option<String>)
    ensures
        opt_view(r) == store_endpoint(scheme@, opt_view(*host), opt_view(*port)),
{
    match (host, port) {
        (Some(h), Some(p)) => {
            if !h.as_str().is_empty() && !str_eq(p.as_str(), "0") {
                let mut r = String::from_str(scheme);
                r.append("://");
                r.append(h.as_str());
                r.append(":");
                r.append(p.as_str());
                r.append("/");
                Some(r)
            } else {
                None
            }
        },
        _ => None,
    }
}

/// Whether the desktop store has to be consulted: only when the
/// environment names no HTTP proxy.
pub fn needs_desktop_store(env: &EnvProxy) -> (needed: bool)
    ensures
        needed == (env_http(*env) is None),
{
    env.http_upper.is_none() && env.http_lower.is_none()
}

/// Whether a mode of the desktop store is the manual one, in which the
/// store's hosts and ports count; in every other mode, and when the mode
/// could not be read, they need not be read at all.
pub fn store_is_read(mode: &Option<String>) -> (manual: bool)
    ensures
        manual == (opt_view(*mode) == Some("manual"@)),
{
    match mode {
        Some(m) => str_eq(m.as_str(), "manual"),
        None => false,
    }
}

/// Resolves the proxy settings. The environment wins; the desktop store
/// counts only in manual mode; the exclusion list is always the default
/// one.
pub fn resolve(env: &EnvProxy, desktop: &DesktopProxy) -> (r: ProxySettings)
    ensures
        r@ == resolved(*env, *desktop),
{
    let no_proxy = String::from_str(
        "localhost,127.0.0.1,192.168.0.0/16,10.0.0.0/8,172.16.0.0/12,::1",
    );
    let http = first_set(&env.http_upper, &env.http_lower);
    if http.is_some() {
        let socks = first_set(&env.all_upper, &env.all_lower);
        return ProxySettings { http_proxy: http, socks_proxy: socks, no_proxy };
    }
    if store_is_read(&desktop.mode) {
        let http_proxy = endpoint("http", &desktop.http_host, &desktop.http_port);
        let socks_proxy = endpoint("socks", &desktop.socks_host, &desktop.socks_port);
        ProxySettings { http_proxy, socks_proxy, no_proxy }
    } else {
        ProxySettings { http_proxy: None, socks_proxy: None, no_proxy }
    }
}

fn assign(name: &str, value: &str) -> (a: EnvAssignment)
    ensures
        a@ == (name@, value@),
{
    EnvAssignment { name: String::from_str(name), value: String::from_str(value) }
}

fn pair(upper: &str, lower: &str, value: &str) -> (g: Vec<EnvAssignment>)
    ensures
        group_view(g@) == seq![(upper@, value@), (lower@, value@)],
{
    let mut g: Vec<EnvAssignment> = Vec::new();
    g.push(assign(upper, value));
    g.push(assign(lower, value));
    assert(group_view(g@) =~= seq![(upper@, value@), (lower@, value@)]);
    g
}

/// The export statements for some settings, each a group of assignments.
pub fn statements(settings: &ProxySettings) -> (groups: Vec<Vec<EnvAssignment>>)
    ensures
        groups_view(groups@) == statements_of(settings@),
{
    let mut groups: Vec<Vec<EnvAssignment>> = Vec::new();
    match &settings.http_proxy {
        Some(p) => {
            let mut http: Vec<EnvAssignment> = Vec::new();
            http.push(assign("HTTP_PROXY", p.as_str()));
            http.push(assign("http_proxy", p.as_str()));
            http.push(assign("HTTPS_PROXY", p.as_str()));
            http.push(assign("https_proxy", p.as_str()));
            assert(group_view(http@) =~= http_group(p@));
            groups.push(http);
            groups.push(pair("GLOBAL_AGENT_HTTP_PROXY", "GLOBAL_AGENT_HTTPS_PROXY", p.as_str()));
        },
        None => {},
    }
    match &settings.socks_proxy {
        Some(s) => {
            groups.push(pair("ALL_PROXY", "all_proxy", s.as_str()));
        },
        None => {},
    }
    groups.push(pair("NO_PROXY", "no_proxy", settings.no_proxy.as_str()));
    assert(groups_view(groups@) =~= statements_of(settings@));
    groups
}

/// The environment overlay for some settings: every assignment, in the
/// order of the statements.
pub fn overlay(settings: &ProxySettings) -> (all: Vec<EnvAssignment>)
    ensures
        group_view(all@) == overlay_of(settings@),
{
    let mut all: Vec<EnvAssignment> = Vec::new();
    match &settings.http_proxy {
        Some(p) => {
            all.push(assign("HTTP_PROXY", p.as_str()));
            all.push(assign("http_proxy", p.as_str()));
            all.push(assign("HTTPS_PROXY", p.as_str()));
            all.push(assign("https_proxy", p.as_str()));
            all.push(assign("GLOBAL_AGENT_HTTP_PROXY", p.as_str()));
            all.push(assign("GLOBAL_AGENT_HTTPS_PROXY", p.as_str()));
        },
        None => {},
    }
    match &settings.socks_proxy {
        Some(s) => {
            all.push(assign("ALL_PROXY", s.as_str()));
            all.push(assign("all_proxy", s.as_str()));
        },
        None => {},
    }
    all.push(assign("NO_PROXY", settings.no_proxy.as_str()));
    all.push(assign("no_proxy", settings.no_proxy.as_str()));
    assert(group_view(all@) =~= overlay_of(settings@));
    all
}

/// One export statement as shell text.
pub fn render_statement(group: &Vec<EnvAssignment>) -> (r: String)
    ensures
        r@ == statement_text(group_view(group@)),
{
    let mut parts: Vec<String> = Vec::new();
    let mut i: usize = 0;
    while i < group.len()
        invariant
            i <= group@.len(),
            parts@.len() == i,
            forall|k: int| 0 <= k < i ==> (#[trigger] parts@[k])@ == assignment_text(group@[k]@),
        decreases group@.len() - i,
    {
        let mut part = group[i].name.clone();
        part.append("=");
        part.append(shell_quote(group[i].value.as_str()).as_str());
        parts.push(part);
        i = i + 1;
    }
    assert(views(parts@) =~= group_view(group@).map_values(
        |a: (Seq<char>, Seq<char>)| assignment_text(a),
    ));
    let body = join(&parts, " ");
    let mut r = String::from_str("export ");
    r.append(body.as_str());
    r.append(";");
    r
}

/// The shell text that exports some settings: one `export` statement for
/// each group of assignments, one blank between each two statements.
pub fn render_exports(settings: &ProxySettings) -> (r: String)
    ensures
        r@ == exports_text(settings@),
{
    let groups = statements(settings);
    let mut parts: Vec<String> = Vec::new();
    let mut i: usize = 0;
    while i < groups.len()
        invariant
            i <= groups@.len(),
            parts@.len() == i,
            forall|k: int|
                0 <= k < i ==> (#[trigger] parts@[k])@ == statement_text(group_view(groups@[k]@)),
        decreases groups@.len() - i,
    {
        parts.push(render_statement(&groups[i]));
        i = i + 1;
    }
    assert(views(parts@) =~= groups_view(groups@).map_values(
        |g: Seq<(Seq<char>, Seq<char>)>| statement_text(g),
    ));
    join(&parts, " ")
}

/// The shell text that is put in front of the gateway's command line:
/// the exports of the resolved proxy, and in every case those of the
/// default exclusion list.
pub fn build_proxy_exports(env: &EnvProxy, desktop: &DesktopProxy) -> (r: String)
    ensures
        r@ == proxy_exports_of(*env, *desktop),
{
    let settings = resolve(env, desktop);
    render_exports(&settings)
}

/// What the log says of the proxy that was found: the HTTP proxy and where
/// it comes from. Nothing is said when no HTTP proxy was found.
pub open spec fn proxy_notice_of(env: EnvProxy, desktop: DesktopProxy) -> Option<Seq<char>> {
    if env_http(env) is Some {
        Some("Proxy from env: "@ + env_http(env)->0)
    } else {
        match resolved(env, desktop).http {
            Some(p) => Some("Proxy from gsettings: "@ + p),
            None => None,
        }
    }
}

/// The log line that names the HTTP proxy and its source, if one was
/// found.
pub fn proxy_notice(env: &EnvProxy, desktop: &DesktopProxy) -> (line: Option<String>)
    ensures
        opt_view(line) == proxy_notice_of(*env, *desktop),
{
    let from_env = env.http_upper.is_some() || env.http_lower.is_some();
    match resolve(env, desktop).http_proxy {
        Some(p) => {
            let mut line = if from_env {
                String::from_str("Proxy from env: ")
            } else {
                String::from_str("Proxy from gsettings: ")
            };
            line.append(p.as_str());
            Some(line)
        },
        None => None,
    }
}

/// A value of the desktop store, as the store's command-line tool prints
/// it: its output without surrounding whitespace and single quotes.
pub open spec fn store_value(output: Option<CommandOutput>) -> Option<Seq<char>> {
    match command_text(output) {
        Some(text) => Some(trimmed_of(text, '\'')),
        None => None,
    }
}

/// Reads a value of the desktop store from the output of the store's
/// command-line tool. `None` when the tool could not be run, failed, or
/// wrote no valid text.
pub fn gsettings_get(output: Option<CommandOutput>) -> (r: Option<String>)
    ensures
        opt_view(r) == store_value(output),
{
    match run_command_output(output) {
        Some(text) => Some(trim_matches(text.as_str(), '\'')),
        None => None,
    }
}

} // verus!
