//! The process supervisor: the one owner of the gateway process.
//!
//! The supervisor decides and the caller acts. Each event that the caller
//! reports moves the supervisor to its next state and yields the actions
//! that the caller performs before it reports the next event. The
//! supervisor itself starts no process, reads no file and writes no log.
//!
//! A start always begins afresh: every running gateway, tracked or not, is
//! terminated before a new one is spawned, so that the new one runs with
//! the proxy environment that was just resolved. A healthy gateway is
//! interrupted for a moment; no stale one is left behind.

use crate::command::CommandLine;
use crate::command::CommandLineView;
use crate::command::commands_view;
use crate::config::base_url_of;
use crate::config::config_error;
use crate::config::ConfigRead;
use crate::config::load_config;
use crate::config::OpenClawConfig;
use crate::proxy::build_proxy_exports;
use crate::proxy::DesktopProxy;
use crate::proxy::EnvProxy;
use crate::proxy::proxy_exports_of;
use crate::proxy::proxy_notice;
use crate::proxy::proxy_notice_of;
use crate::shell::shell_quote;
use crate::shell::shell_quoted;
use crate::text::decimal;
use crate::text::decimal_string;
use crate::text::opt_view;
use crate::text::views;
use vstd::prelude::*;
use vstd::string::StringExecFns;

verus! {

/// How long a newly started gateway is waited for, in seconds: twenty
/// probes, half a second apart.
pub const READINESS_BUDGET_SECS: u32 = 10;

/// How long the port is given to become free after running gateways were
/// terminated, in milliseconds.
pub const SETTLE_DELAY_MS: u64 = 2000;

/// The live gateway process that the supervisor owns, named by its process
/// identifier. The caller keeps what it needs to terminate the process and
/// to wait for its exit.
#[derive(Debug, Clone, Copy, PartialEq, Eq, Structural)]
pub struct GatewayProcessHandle {
    pub pid: u32,
}

/// Where a standard stream of a spawned process goes.
#[derive(Debug, Clone, PartialEq, Eq)]
pub enum Stream {
    /// Nowhere: the stream is closed off.
    Discard,
    /// To the end of the file at `path`, which is created if need be, and
    /// nowhere if the file cannot be opened.
    AppendTo { path: String },
}

/// `Stream` as mathematical values.
pub enum StreamView {
    Discard,
    AppendTo { path: Seq<char> },
}

impl View for Stream {
    type V = StreamView;

    open spec fn view(&self) -> StreamView {
        match *self {
            Stream::Discard => StreamView::Discard,
            Stream::AppendTo { path } => StreamView::AppendTo { path: path@ },
        }
    }
}

/// Where a start sequence stands.
#[derive(Debug, Clone, PartialEq, Eq)]
pub enum Phase {
    /// No start is under way.
    Idle,
    /// The configuration was asked for.
    AwaitingConfig,
    /// Running gateways are being terminated and the launch is being
    /// prepared, for a gateway at `base_url`.
    Preparing { base_url: String },
    /// The gateway executable `bin` is being spawned.
    Spawning { base_url: String, bin: String },
}

/// `Phase` as mathematical values.
pub enum PhaseView {
    Idle,
    AwaitingConfig,
    Preparing { base_url: Seq<char> },
    Spawning { base_url: Seq<char>, bin: Seq<char> },
}

impl View for Phase {
    type V = PhaseView;

    open spec fn view(&self) -> PhaseView {
        match *self {
            Phase::Idle => PhaseView::Idle,
            Phase::AwaitingConfig => PhaseView::AwaitingConfig,
            Phase::Preparing { base_url } => PhaseView::Preparing { base_url: base_url@ },
            Phase::Spawning { base_url, bin } => PhaseView::Spawning {
                base_url: base_url@,
                bin: bin@,
            },
        }
    }
}

/// The supervisor: the handle of the gateway process, if one is tracked,
/// and the phase of the start sequence.
#[derive(Debug, Clone, PartialEq, Eq)]
pub struct Supervisor {
    pub handle: Option<GatewayProcessHandle>,
    pub phase: Phase,
}

/// `Supervisor` as mathematical values.
pub struct SupervisorView {
    pub handle: Option<GatewayProcessHandle>,
    pub phase: PhaseView,
}

impl View for Supervisor {
    type V = SupervisorView;

    open spec fn view(&self) -> SupervisorView {
        SupervisorView { handle: self.handle, phase: self.phase@ }
    }
}

/// What the caller found while it prepared the launch.
#[derive(Debug, Clone, PartialEq, Eq)]
pub struct LaunchInputs {
    /// The gateway executable, if one was found.
    pub found_bin: Option<String>,
    /// The proxy variables of the environment.
    pub env: EnvProxy,
    /// The desktop's proxy store. It need not be read when the environment
    /// names an HTTP proxy.
    pub desktop: DesktopProxy,
    /// The file that the gateway's standard error is appended to.
    pub log_path: String,
}

/// What came of spawning the gateway.
#[derive(Debug, Clone, PartialEq, Eq)]
pub enum SpawnOutcome {
    /// The process runs, with this process identifier.
    Started { pid: u32 },
    /// No process was created, for `reason`.
    Failed { reason: String },
}

/// What the caller reports to the supervisor.
#[derive(Debug, Clone, PartialEq, Eq)]
pub enum Event {
    /// The gateway is to be started.
    StartRequested,
    /// The configuration file was read, with this result.
    ConfigRead(ConfigRead),
    /// Running gateways were terminated, and the launch is prepared.
    Prepared(LaunchInputs),
    /// The spawn was attempted.
    SpawnFinished(SpawnOutcome),
    /// The application is about to exit.
    ShutdownRequested,
}

/// What the supervisor asks the caller to do.
#[derive(Debug, Clone, PartialEq, Eq)]
pub enum Action {
    /// Read the configuration file and report `Event::ConfigRead`.
    LoadConfig,
    /// Write this line to the log.
    Log(String),
    /// Terminate the process `terminate`, if there is one, and wait for its
    /// exit; run each command of `kill` and ignore how it ends; sleep for
    /// `settle_ms` milliseconds; then find the gateway executable, read the
    /// proxy environment and report `Event::Prepared`.
    Prepare { terminate: Option<GatewayProcessHandle>, kill: Vec<CommandLine>, settle_ms: u64 },
    /// Spawn `command` with its standard streams connected as given, then
    /// report `Event::SpawnFinished`.
    Spawn { command: CommandLine, stdin: Stream, stdout: Stream, stderr: Stream },
    /// Wait until the gateway at `base_url` is healthy, for `max_secs`
    /// seconds at most. The outcome is not reported back.
    AwaitReady { base_url: String, max_secs: u32 },
    /// Kill the process outright and wait for its exit. Failures are
    /// ignored.
    Terminate(GatewayProcessHandle),
}

/// `Action` as mathematical values.
pub enum ActionView {
    LoadConfig,
    Log(Seq<char>),
    Prepare { terminate: Option<GatewayProcessHandle>, kill: Seq<CommandLineView>, settle_ms: u64 },
    Spawn { command: CommandLineView, stdin: StreamView, stdout: StreamView, stderr: StreamView },
    AwaitReady { base_url: Seq<char>, max_secs: u32 },
    Terminate(GatewayProcessHandle),
}

impl View for Action {
    type V = ActionView;

    open spec fn view(&self) -> ActionView {
        match *self {
            Action::LoadConfig => ActionView::LoadConfig,
            Action::Log(line) => ActionView::Log(line@),
            Action::Prepare { terminate, kill, settle_ms } => ActionView::Prepare {
                terminate,
                kill: commands_view(kill@),
                settle_ms,
            },
            Action::Spawn { command, stdin, stdout, stderr } => ActionView::Spawn {
                command: command@,
                stdin: stdin@,
                stdout: stdout@,
                stderr: stderr@,
            },
            Action::AwaitReady { base_url, max_secs } => ActionView::AwaitReady {
                base_url: base_url@,
                max_secs,
            },
            Action::Terminate(handle) => ActionView::Terminate(handle),
        }
    }
}

/// The actions that a vector holds.
pub open spec fn actions_view(v: Seq<Action>) -> Seq<ActionView> {
    v.map_values(|a: Action| a@)
}

/// The commands that terminate every running gateway, whoever started it:
/// by the name of its process, by its command line, and as a user service.
pub open spec fn kill_commands_of() -> Seq<CommandLineView> {
    seq![
        CommandLineView { program: "pkill"@, args: seq!["-9"@, "-f"@, "openclaw-gateway"@] },
        CommandLineView { program: "pkill"@, args: seq!["-9"@, "-f"@, "openclaw gateway"@] },
        CommandLineView {
            program: "systemctl"@,
            args: seq!["--user"@, "stop"@, "openclaw-gateway.service"@],
        },
    ]
}

/// The executable that is started: the one that was found, or the bare
/// command name, which leaves the lookup, and the failure, to the system.
pub open spec fn bin_or_default(found: Option<Seq<char>>) -> Seq<char> {
    match found {
        Some(bin) => bin,
        None => "openclaw"@,
    }
}

/// The shell text that starts the gateway: the proxy exports, then the
/// gateway's foreground subcommand in place of the shell, so that the
/// gateway does not detach and its descendants inherit the exports. The
/// executable's path is quoted for the shell.
pub open spec fn shell_command_of(exports: Seq<char>, bin: Seq<char>) -> Seq<char> {
    exports + "exec "@ + shell_quoted(bin) + " gateway run"@
}

/// The command that starts the gateway through a shell.
pub open spec fn launch_command_of(shell_command: Seq<char>) -> CommandLineView {
    CommandLineView { program: "bash"@, args: seq!["-c"@, shell_command] }
}

/// The log line for a gateway that was spawned.
pub open spec fn spawned_message(pid: u32, bin: Seq<char>) -> Seq<char> {
    "Gateway spawned (pid "@ + decimal(pid as nat) + ") via "@ + bin
}

/// The proxy notice as a list of log actions: one or none.
pub open spec fn notice_actions(notice: Option<Seq<char>>) -> Seq<ActionView> {
    match notice {
        Some(line) => seq![ActionView::Log(line)],
        None => Seq::empty(),
    }
}

/// The actions that launch `bin` for `inputs`: the proxy notice, if there
/// is one; the command line, for the log; and the spawn itself, detached
/// from the caller's terminal, with no standard input, standard output
/// discarded and standard error appended to the log file.
pub open spec fn launch_actions(inputs: LaunchInputs, bin: Seq<char>) -> Seq<ActionView> {
    let command = shell_command_of(proxy_exports_of(inputs.env, inputs.desktop), bin);
    notice_actions(proxy_notice_of(inputs.env, inputs.desktop)) + seq![
        ActionView::Log("Shell command: "@ + command),
        ActionView::Spawn {
            command: launch_command_of(command),
            stdin: StreamView::Discard,
            stdout: StreamView::Discard,
            stderr: StreamView::AppendTo { path: inputs.log_path@ },
        },
    ]
}

/// The supervisor's transition: the state after `event` and the actions
/// that `event` calls for. An event that the current phase does not expect
/// changes nothing and calls for nothing, with one exception: a process
/// that was started while no spawn was awaited is terminated at once.
pub open spec fn step_of(s: SupervisorView, event: Event) -> (SupervisorView, Seq<ActionView>) {
    match event {
        Event::StartRequested => {
            if s.phase is Idle {
                (
                    SupervisorView { handle: s.handle, phase: PhaseView::AwaitingConfig },
                    seq![ActionView::LoadConfig],
                )
            } else {
                (s, Seq::empty())
            }
        },
        Event::ConfigRead(read) => {
            if s.phase is AwaitingConfig {
                match read {
                    ConfigRead::Parsed(cfg) => (
                        SupervisorView {
                            handle: None,
                            phase: PhaseView::Preparing {
                                base_url: base_url_of(cfg.gateway.port),
                            },
                        },
                        seq![
                            ActionView::Prepare {
                                terminate: s.handle,
                                kill: kill_commands_of(),
                                settle_ms: SETTLE_DELAY_MS,
                            },
                        ],
                    ),
                    _ => (
                        SupervisorView { handle: s.handle, phase: PhaseView::Idle },
                        seq![
                            ActionView::Log(
                                "Cannot read config to start gateway: "@ + config_error(read),
                            ),
                        ],
                    ),
                }
            } else {
                (s, Seq::empty())
            }
        },
        Event::Prepared(inputs) => {
            match s.phase {
                PhaseView::Preparing { base_url } => {
                    let bin = bin_or_default(opt_view(inputs.found_bin));
                    (
                        SupervisorView {
                            handle: s.handle,
                            phase: PhaseView::Spawning { base_url, bin },
                        },
                        launch_actions(inputs, bin),
                    )
                },
                _ => (s, Seq::empty()),
            }
        },
        Event::SpawnFinished(outcome) => {
            match s.phase {
                PhaseView::Spawning { base_url, bin } => match outcome {
                    SpawnOutcome::Started { pid } => (
                        SupervisorView {
                            handle: Some(GatewayProcessHandle { pid }),
                            phase: PhaseView::Idle,
                        },
                        seq![
                            ActionView::Log(spawned_message(pid, bin)),
                            ActionView::AwaitReady { base_url, max_secs: READINESS_BUDGET_SECS },
                        ],
                    ),
                    SpawnOutcome::Failed { reason } => (
                        SupervisorView { handle: s.handle, phase: PhaseView::Idle },
                        seq![ActionView::Log("Failed to start gateway: "@ + reason@)],
                    ),
                },
                _ => match outcome {
                    SpawnOutcome::Started { pid } => (
                        s,
                        seq![ActionView::Terminate(GatewayProcessHandle { pid })],
                    ),
                    SpawnOutcome::Failed { .. } => (s, Seq::empty()),
                },
            }
        },
        Event::ShutdownRequested => {
            match s.handle {
                Some(handle) => (
                    SupervisorView { handle: None, phase: s.phase },
                    seq![ActionView::Terminate(handle), ActionView::Log("Gateway process stopped"@)],
                ),
                None => (s, Seq::empty()),
            }
        },
    }
}

/// The state after a run of events, reported one after the other.
pub open spec fn run_of(s: SupervisorView, events: Seq<Event>) -> SupervisorView
    decreases events.len(),
{
    if events.len() == 0 {
        s
    } else {
        step_of(run_of(s, events.drop_last()), events.last()).0
    }
}

/// While a launch is prepared or a spawn is awaited, no process is
/// tracked: the one that was tracked has been handed over for termination.
pub open spec fn consistent(s: SupervisorView) -> bool {
    (s.phase is Preparing || s.phase is Spawning) ==> s.handle is None
}

/// Whether one of the actions spawns a process.
pub open spec fn spawns(actions: Seq<ActionView>) -> bool {
    exists|i: int| 0 <= i < actions.len() && (#[trigger] actions[i]) is Spawn
}

/// Every event leaves a consistent supervisor consistent.
pub proof fn law_step_keeps_consistent(s: SupervisorView, event: Event)
    requires
        consistent(s),
    ensures
        consistent(step_of(s, event).0),
{
}

/// Whatever is reported to a new supervisor, in whatever order, it stays
/// consistent.
pub proof fn law_run_keeps_consistent(events: Seq<Event>)
    ensures
        consistent(run_of(SupervisorView { handle: None, phase: PhaseView::Idle }, events)),
    decreases events.len(),
{
    if events.len() > 0 {
        law_run_keeps_consistent(events.drop_last());
        law_step_keeps_consistent(
            run_of(
                SupervisorView { handle: None, phase: PhaseView::Idle },
                events.drop_last(),
            ),
            events.last(),
        );
    }
}

/// No process is spawned before the configuration was read: a spawn is
/// asked for only when a prepared launch is reported, a launch is
/// prepared only after a configuration was parsed, and a read that yields
/// no configuration ends the start with a log line and nothing else.
pub proof fn law_spawn_needs_config(s: SupervisorView, event: Event)
    ensures
        spawns(step_of(s, event).1) ==> s.phase is Preparing && event is Prepared,
        step_of(s, event).0.phase is Preparing && !(s.phase is Preparing) ==> s.phase
            is AwaitingConfig && (event matches Event::ConfigRead(read) && read is Parsed),
        s.phase is AwaitingConfig && (event matches Event::ConfigRead(read) && !(read is Parsed))
            ==> step_of(s, event).0 == (SupervisorView { handle: s.handle, phase: PhaseView::Idle })
            && step_of(s, event).1.len() == 1 && step_of(s, event).1[0] is Log,
{
    let actions = step_of(s, event).1;
    if spawns(actions) {
        let i = choose|i: int| 0 <= i < actions.len() && (#[trigger] actions[i]) is Spawn;
        assert(actions[i] is Spawn);
    }
}

/// The tracked process changes in three ways only: a shutdown gives it
/// up, a start that has its configuration hands it over for termination,
/// and a spawn that was awaited and went through puts the new process in
/// its place. Nothing else touches it.
pub proof fn law_tracking(s: SupervisorView, event: Event)
    ensures
        step_of(s, event).0.handle != s.handle ==> {
            ||| event is ShutdownRequested && step_of(s, event).0.handle is None
            ||| s.phase is AwaitingConfig && (event matches Event::ConfigRead(read) && read
                is Parsed) && step_of(s, event).0.handle is None
            ||| s.phase is Spawning && (event matches Event::SpawnFinished(
                SpawnOutcome::Started { pid },
            ) && step_of(s, event).0.handle == Some(GatewayProcessHandle { pid }))
        },
{
}

/// A start that goes through leaves exactly the new process tracked, and
/// the process that was tracked before is handed over for termination
/// before the new one is spawned. So two starts in a row leave one tracked
/// process, the second one, and the first one terminated.
pub proof fn law_start_twice(
    before: Option<GatewayProcessHandle>,
    cfg1: OpenClawConfig,
    inputs1: LaunchInputs,
    pid1: u32,
    cfg2: OpenClawConfig,
    inputs2: LaunchInputs,
    pid2: u32,
)
    ensures
        ({
            let s0 = SupervisorView { handle: before, phase: PhaseView::Idle };
            let a1 = step_of(s0, Event::StartRequested);
            let a2 = step_of(a1.0, Event::ConfigRead(ConfigRead::Parsed(cfg1)));
            let a3 = step_of(a2.0, Event::Prepared(inputs1));
            let a4 = step_of(a3.0, Event::SpawnFinished(SpawnOutcome::Started { pid: pid1 }));
            let b1 = step_of(a4.0, Event::StartRequested);
            let b2 = step_of(b1.0, Event::ConfigRead(ConfigRead::Parsed(cfg2)));
            let b3 = step_of(b2.0, Event::Prepared(inputs2));
            let b4 = step_of(b3.0, Event::SpawnFinished(SpawnOutcome::Started { pid: pid2 }));
            &&& a2.1 == seq![
                ActionView::Prepare {
                    terminate: before,
                    kill: kill_commands_of(),
                    settle_ms: SETTLE_DELAY_MS,
                },
            ]
            &&& spawns(a3.1)
            &&& a4.0 == (SupervisorView {
                handle: Some(GatewayProcessHandle { pid: pid1 }),
                phase: PhaseView::Idle,
            })
            &&& b2.1 == seq![
                ActionView::Prepare {
                    terminate: Some(GatewayProcessHandle { pid: pid1 }),
                    kill: kill_commands_of(),
                    settle_ms: SETTLE_DELAY_MS,
                },
            ]
            &&& b2.0.handle is None
            &&& !spawns(b1.1) && !spawns(b2.1) && spawns(b3.1)
            &&& b4.0 == (SupervisorView {
                handle: Some(GatewayProcessHandle { pid: pid2 }),
                phase: PhaseView::Idle,
            })
        }),
{
    let s0 = SupervisorView { handle: before, phase: PhaseView::Idle };
    let a1 = step_of(s0, Event::StartRequested);
    let a2 = step_of(a1.0, Event::ConfigRead(ConfigRead::Parsed(cfg1)));
    let a3 = step_of(a2.0, Event::Prepared(inputs1));
    let a4 = step_of(a3.0, Event::SpawnFinished(SpawnOutcome::Started { pid: pid1 }));
    let b1 = step_of(a4.0, Event::StartRequested);
    let b2 = step_of(b1.0, Event::ConfigRead(ConfigRead::Parsed(cfg2)));
    let b3 = step_of(b2.0, Event::Prepared(inputs2));
    assert(a3.1[a3.1.len() - 1] is Spawn);
    assert(b3.1[b3.1.len() - 1] is Spawn);
    law_spawn_needs_config(a4.0, Event::StartRequested);
    law_spawn_needs_config(b1.0, Event::ConfigRead(ConfigRead::Parsed(cfg2)));
}

/// A shutdown while no process is tracked changes nothing and asks for
/// nothing; any other shutdown hands the tracked process over for
/// termination and leaves none tracked.
pub proof fn law_shutdown(s: SupervisorView)
    ensures
        s.handle is None ==> step_of(s, Event::ShutdownRequested) == (s, Seq::<ActionView>::empty()),
        s.handle matches Some(handle) ==> step_of(s, Event::ShutdownRequested).1[0]
            == ActionView::Terminate(handle),
        step_of(s, Event::ShutdownRequested).0.handle is None,
        step_of(
            SupervisorView { handle: None, phase: PhaseView::Idle },
            Event::ShutdownRequested,
        ) == (SupervisorView { handle: None, phase: PhaseView::Idle }, Seq::<ActionView>::empty()),
{
}

/// A start that finds no configuration logs why, spawns nothing and
/// leaves the supervisor as it was; a shutdown after it, with no process
/// tracked, is without effect.
pub proof fn law_start_without_config(read: ConfigRead)
    requires
        !(read is Parsed),
    ensures
        ({
            let s0 = SupervisorView { handle: None, phase: PhaseView::Idle };
            let a1 = step_of(s0, Event::StartRequested);
            let a2 = step_of(a1.0, Event::ConfigRead(read));
            let a3 = step_of(a2.0, Event::ShutdownRequested);
            &&& a1.1 == seq![ActionView::LoadConfig]
            &&& a2.1 == seq![
                ActionView::Log("Cannot read config to start gateway: "@ + config_error(read)),
            ]
            &&& a2.0 == s0
            &&& a3 == (s0, Seq::<ActionView>::empty())
        }),
{
}

fn command_line3(program: &str, a: &str, b: &str, c: &str) -> (r: CommandLine)
    ensures
        r@ == (CommandLineView { program: program@, args: seq![a@, b@, c@] }),
{
    let mut args: Vec<String> = Vec::new();
    args.push(String::from_str(a));
    args.push(String::from_str(b));
    args.push(String::from_str(c));
    assert(views(args@) =~= seq![a@, b@, c@]);
    CommandLine { program: String::from_str(program), args }
}

/// The commands that terminate every running gateway.
pub fn kill_commands() -> (r: Vec<CommandLine>)
    ensures
        commands_view(r@) == kill_commands_of(),
{
    let mut r: Vec<CommandLine> = Vec::new();
    r.push(command_line3("pkill", "-9", "-f", "openclaw-gateway"));
    r.push(command_line3("pkill", "-9", "-f", "openclaw gateway"));
    r.push(command_line3("systemctl", "--user", "stop", "openclaw-gateway.service"));
    assert(commands_view(r@) =~= kill_commands_of());
    r
}

/// The shell text that starts the gateway executable `bin` behind the
/// exports `exports`.
pub fn shell_command(exports: &str, bin: &str) -> (r: String)
    ensures
        r@ == shell_command_of(exports@, bin@),
{
    let mut r = String::from_str(exports);
    r.append("exec ");
    r.append(shell_quote(bin).as_str());
    r.append(" gateway run");
    r
}

/// The command that runs `shell_command` through a shell.
pub fn launch_command(shell_command: &str) -> (r: CommandLine)
    ensures
        r@ == launch_command_of(shell_command@),
{
    let mut args: Vec<String> = Vec::new();
    args.push(String::from_str("-c"));
    args.push(String::from_str(shell_command));
    assert(views(args@) =~= seq!["-c"@, shell_command@]);
    CommandLine { program: String::from_str("bash"), args }
}

fn log2(prefix: &str, rest: &str) -> (a: Action)
    ensures
        a@ == ActionView::Log(prefix@ + rest@),
{
    let mut line = String::from_str(prefix);
    line.append(rest);
    Action::Log(line)
}

fn launch(inputs: &LaunchInputs, bin: &str) -> (actions: Vec<Action>)
    ensures
        actions_view(actions@) == launch_actions(*inputs, bin@),
{
    let mut actions: Vec<Action> = Vec::new();
    match proxy_notice(&inputs.env, &inputs.desktop) {
        Some(line) => {
            actions.push(Action::Log(line));
        },
        None => {},
    }
    let exports = build_proxy_exports(&inputs.env, &inputs.desktop);
    let command = shell_command(exports.as_str(), bin);
    actions.push(log2("Shell command: ", command.as_str()));
    actions.push(
        Action::Spawn {
            command: launch_command(command.as_str()),
            stdin: Stream::Discard,
            stdout: Stream::Discard,
            stderr: Stream::AppendTo { path: inputs.log_path.clone() },
        },
    );
    assert(actions_view(actions@) =~= launch_actions(*inputs, bin@));
    actions
}

impl Supervisor {
    /// A supervisor that tracks no process and is not starting one.
    pub fn new() -> (s: Supervisor)
        ensures
            s@ == (SupervisorView { handle: None, phase: PhaseView::Idle }),
    {
        Supervisor { handle: None, phase: Phase::Idle }
    }

    /// The process that is tracked, if any.
    pub fn handle(&self) -> (h: Option<GatewayProcessHandle>)
        ensures
            h == self@.handle,
    {
        self.handle
    }

    /// Takes an event and says what the caller is to do.
    pub fn step(&mut self, event: Event) -> (actions: Vec<Action>)
        ensures
            (final(self)@, actions_view(actions@)) == step_of(old(self)@, event),
    {
        let mut actions: Vec<Action> = Vec::new();
        match event {
            Event::StartRequested => {
                match &self.phase {
                    Phase::Idle => {
                        self.phase = Phase::AwaitingConfig;
                        actions.push(Action::LoadConfig);
                        assert(actions_view(actions@) =~= seq![ActionView::LoadConfig]);
                    },
                    _ => {
                        assert(actions_view(actions@) =~= Seq::empty());
                    },
                }
            },
            Event::ConfigRead(read) => {
                match &self.phase {
                    Phase::AwaitingConfig => {
                        match load_config(read) {
                            Ok(cfg) => {
                                let terminate = self.handle;
                                self.handle = None;
                                self.phase = Phase::Preparing { base_url: cfg.gateway.base_url() };
                                actions.push(
                                    Action::Prepare {
                                        terminate,
                                        kill: kill_commands(),
                                        settle_ms: SETTLE_DELAY_MS,
                                    },
                                );
                                assert(actions_view(actions@) =~= seq![
                                    ActionView::Prepare {
                                        terminate,
                                        kill: kill_commands_of(),
                                        settle_ms: SETTLE_DELAY_MS,
                                    },
                                ]);
                            },
                            Err(msg) => {
                                self.phase = Phase::Idle;
                                actions.push(
                                    log2("Cannot read config to start gateway: ", msg.as_str()),
                                );
                                assert(actions_view(actions@) =~= seq![
                                    ActionView::Log(
                                        "Cannot read config to start gateway: "@ + config_error(
                                            read,
                                        ),
                                    ),
                                ]);
                            },
                        }
                    },
                    _ => {
                        assert(actions_view(actions@) =~= Seq::empty());
                    },
                }
            },
            Event::Prepared(inputs) => {
                match &self.phase {
                    Phase::Preparing { base_url } => {
                        let base_url = base_url.clone();
                        let bin = match &inputs.found_bin {
                            Some(bin) => bin.clone(),
                            None => String::from_str("openclaw"),
                        };
                        actions = launch(&inputs, bin.as_str());
                        self.phase = Phase::Spawning { base_url, bin };
                    },
                    _ => {
                        assert(actions_view(actions@) =~= Seq::empty());
                    },
                }
            },
            Event::SpawnFinished(outcome) => {
                match &self.phase {
                    Phase::Spawning { base_url, bin } => {
                        let base_url = base_url.clone();
                        let bin = bin.clone();
                        match outcome {
                            SpawnOutcome::Started { pid } => {
                                let mut line = String::from_str("Gateway spawned (pid ");
                                line.append(decimal_string(pid as u64).as_str());
                                line.append(") via ");
                                line.append(bin.as_str());
                                actions.push(Action::Log(line));
                                actions.push(
                                    Action::AwaitReady {
                                        base_url,
                                        max_secs: READINESS_BUDGET_SECS,
                                    },
                                );
                                self.handle = Some(GatewayProcessHandle { pid });
                                self.phase = Phase::Idle;
                                assert(actions_view(actions@) =~= seq![
                                    ActionView::Log(spawned_message(pid, bin@)),
                                    ActionView::AwaitReady {
                                        base_url: base_url@,
                                        max_secs: READINESS_BUDGET_SECS,
                                    },
                                ]);
                            },
                            SpawnOutcome::Failed { reason } => {
                                actions.push(log2("Failed to start gateway: ", reason.as_str()));
                                self.phase = Phase::Idle;
                                assert(actions_view(actions@) =~= seq![
                                    ActionView::Log("Failed to start gateway: "@ + reason@),
                                ]);
                            },
                        }
                    },
                    _ => {
                        match outcome {
                            SpawnOutcome::Started { pid } => {
                                actions.push(Action::Terminate(GatewayProcessHandle { pid }));
                                assert(actions_view(actions@) =~= seq![
                                    ActionView::Terminate(GatewayProcessHandle { pid }),
                                ]);
                            },
                            SpawnOutcome::Failed { .. } => {
                                assert(actions_view(actions@) =~= Seq::empty());
                            },
                        }
                    },
                }
            },
            Event::ShutdownRequested => {
                match self.handle {
                    Some(handle) => {
                        self.handle = None;
                        actions.push(Action::Terminate(handle));
                        actions.push(Action::Log(String::from_str("Gateway process stopped")));
                        assert(actions_view(actions@) =~= seq![
                            ActionView::Terminate(handle),
                            ActionView::Log("Gateway process stopped"@),
                        ]);
                    },
                    None => {
                        assert(actions_view(actions@) =~= Seq::empty());
                    },
                }
            },
        }
        actions
    }

    /// Begins a start of the gateway: asks for the configuration, unless a
    /// start is under way already.
    pub fn ensure_started(&mut self) -> (actions: Vec<Action>)
        ensures
            (final(self)@, actions_view(actions@)) == step_of(old(self)@, Event::StartRequested),
    {
        self.step(Event::StartRequested)
    }

    /// Gives up the tracked process: it is to be terminated and waited for.
    /// Nothing happens when no process is tracked.
    pub fn shutdown(&mut self) -> (actions: Vec<Action>)
        ensures
            (final(self)@, actions_view(actions@)) == step_of(
                old(self)@,
                Event::ShutdownRequested,
            ),
            old(self)@.handle is None ==> final(self)@ == old(self)@ && actions@.len() == 0,
            final(self)@.handle is None,
    {
        let actions = self.step(Event::ShutdownRequested);
        assert(actions_view(actions@).len() == actions@.len());
        actions
    }
}

} // verus!
