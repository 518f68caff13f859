//! The server supervisor: at most one server child at a time.
//!
//! The supervisor is a state machine. The host performs the effects (the
//! port probe, the spawn, reading the child's output) and reports each
//! result; the supervisor answers with the next thing to do. The host keeps
//! the supervisor behind one lock, so that reports arrive one at a time.

use crate::address::{
    decimal, decimal_text, notification_address, server_address, SERVER_PORT,
};
use crate::credentials::{variable, Bundle, Credentials};
use crate::failure::{ErrorKind, Failure};
use crate::readiness::{classification, classify_line, LineClass};
use vstd::prelude::*;
use vstd::string::*;

verus! {

/// How a child ended: its exit code, or the signal that ended it.
#[derive(Clone, Copy, Debug, PartialEq, Eq, Structural)]
pub struct ExitStatus {
    pub code: Option<i32>,
    pub signal: Option<i32>,
}

/// The server that the supervisor counts on.
#[derive(Clone, Copy, Debug, PartialEq, Eq, Structural)]
pub enum ChildHandle {
    /// A server that somebody else started and owns, as in development.
    External,
    /// The child that the supervisor had spawned, by its process id.
    Process { pid: u32 },
}

/// The supervisor's state.
#[derive(Clone, Copy, Debug, PartialEq, Eq, Structural)]
pub enum SupervisorState {
    /// No server is known.
    Idle,
    /// A start was requested; no child is confirmed yet.
    Starting,
    /// A server is counted on.
    Running { child: ChildHandle },
    /// The child was seen to end.
    Exited { status: ExitStatus },
}

/// What the host does after asking for a start.
#[derive(Clone, Copy, Debug, PartialEq, Eq, Structural)]
pub enum StartStep {
    /// A server is starting or running already: nothing to do.
    AlreadyRunning,
    /// An outside server is taken to be present: nothing to spawn.
    UseExternal,
    /// Probe the port, then report with `resolve_probe`.
    ProbePort { port: u16 },
}

/// What the host does after the port probe.
#[derive(Clone, Copy, Debug, PartialEq, Eq, Structural)]
pub enum ProbeStep {
    /// No start is under way: the report is dropped.
    Stale,
    /// Something listens already: show it, spawn nothing.
    Notify,
    /// Nothing listens: spawn the server, then report with `spawn_finished`.
    Spawn,
}

/// What the host does after an event of the child's output channel.
#[derive(Clone, Copy, Debug, PartialEq, Eq, Structural)]
pub struct Reaction {
    /// Tell the window to show the server's address.
    pub notify: bool,
    /// Go on reading the channel.
    pub keep_monitoring: bool,
}

/// An event of the child's output channel.
#[derive(Debug)]
pub enum ServerEvent {
    /// A line that the child wrote to its standard output.
    Stdout(Vec<u8>),
    /// A line that the child wrote to its standard error.
    Stderr(Vec<u8>),
    /// The channel itself reported a problem.
    Error(String),
    /// The child ended. No event follows this one.
    Terminated(ExitStatus),
}

/// How the server is spawned.
#[derive(Debug)]
pub struct LaunchPlan {
    /// Name of the bundled runtime that executes the server.
    pub program: String,
    /// Directory of the server bundle, relative to the application's
    /// resource directory as found at run time.
    pub directory: String,
    /// The server's entry point, relative to `directory`.
    pub script: String,
    /// The variables of the child's environment, in the order in which
    /// they are set.
    pub environment: Vec<(String, String)>,
}

/// A launch plan as character sequences.
pub struct PlanModel {
    pub program: Seq<char>,
    pub directory: Seq<char>,
    pub script: Seq<char>,
    pub environment: Seq<(Seq<char>, Seq<char>)>,
}

impl View for LaunchPlan {
    type V = PlanModel;

    open spec fn view(&self) -> PlanModel {
        PlanModel {
            program: self.program@,
            directory: self.directory@,
            script: self.script@,
            environment: self.environment.deep_view(),
        }
    }
}

/// The variables that every server child gets, whatever the credentials:
/// its own address, the trusted-host flag, the runtime mode and the port.
pub open spec fn operational_environment() -> Seq<(Seq<char>, Seq<char>)> {
    seq![
        ("AUTH_URL"@, server_address()),
        ("AUTH_TRUST_HOST"@, "true"@),
        ("NODE_ENV"@, "production"@),
        ("PORT"@, decimal(SERVER_PORT as nat)),
    ]
}

/// The plan by which the server is spawned with the given credentials.
pub open spec fn plan_for(bundle: Bundle) -> PlanModel {
    PlanModel {
        program: "node"@,
        directory: "next-bundle"@,
        script: "server.js"@,
        environment: bundle.environment() + operational_environment(),
    }
}

/// The text with which a spawn without credentials fails.
pub open spec fn no_credentials_text() -> Seq<char> {
    "no credentials to start the server with"@
}

/// The state in which a request to start is a no-op.
pub open spec fn is_active(state: SupervisorState) -> bool {
    state is Starting || state is Running
}

/// The answer to a request to start.
pub open spec fn start_step(state: SupervisorState, external_server: bool) -> StartStep {
    if is_active(state) {
        StartStep::AlreadyRunning
    } else if external_server {
        StartStep::UseExternal
    } else {
        StartStep::ProbePort { port: SERVER_PORT }
    }
}

/// The state after a request to start.
pub open spec fn state_after_start(
    state: SupervisorState,
    external_server: bool,
) -> SupervisorState {
    if is_active(state) {
        state
    } else if external_server {
        SupervisorState::Running { child: ChildHandle::External }
    } else {
        SupervisorState::Starting
    }
}

/// The answer to the report of a port probe.
pub open spec fn probe_step(state: SupervisorState, listening: bool) -> ProbeStep {
    if !(state is Starting) {
        ProbeStep::Stale
    } else if listening {
        ProbeStep::Notify
    } else {
        ProbeStep::Spawn
    }
}

/// The state after the report of a port probe.
pub open spec fn state_after_probe(state: SupervisorState, listening: bool) -> SupervisorState {
    if state is Starting && listening {
        SupervisorState::Idle
    } else {
        state
    }
}

/// The state after the report of a spawn: with the child's process id when
/// it came to life, with nothing when it did not.
pub open spec fn state_after_spawn(state: SupervisorState, child: Option<u32>) -> SupervisorState {
    if !(state is Starting) {
        state
    } else {
        match child {
            Some(pid) => SupervisorState::Running { child: ChildHandle::Process { pid } },
            None => SupervisorState::Idle,
        }
    }
}

/// The reaction to a line of output of the given class.
pub open spec fn reaction_to_line(class: LineClass) -> Reaction {
    match class {
        LineClass::Ready => Reaction { notify: true, keep_monitoring: true },
        LineClass::PortConflict => Reaction { notify: true, keep_monitoring: false },
        LineClass::Ignored => Reaction { notify: false, keep_monitoring: true },
    }
}

/// The reaction to an event of the child's output channel.
pub open spec fn reaction_to(event: ServerEvent) -> Reaction {
    match event {
        ServerEvent::Stdout(line) => reaction_to_line(classification(line@)),
        ServerEvent::Stderr(line) => reaction_to_line(classification(line@)),
        ServerEvent::Error(_) => Reaction { notify: false, keep_monitoring: true },
        ServerEvent::Terminated(_) => Reaction { notify: false, keep_monitoring: false },
    }
}

/// The state after an event of the child's output channel. Only the end of
/// the child changes it.
pub open spec fn state_after_event(state: SupervisorState, event: ServerEvent) -> SupervisorState {
    match event {
        ServerEvent::Terminated(status) => SupervisorState::Exited { status },
        _ => state,
    }
}

/// The child that one whole start attempt brings to life, if any: the
/// request, the probe where one is asked for, and the spawn where the probe
/// found nothing listening.
pub open spec fn child_of_attempt(
    state: SupervisorState,
    external_server: bool,
    listening: bool,
    spawned: Option<u32>,
) -> Option<u32> {
    if start_step(state, external_server) is ProbePort && !listening {
        spawned
    } else {
        None
    }
}

/// The state after one whole start attempt.
pub open spec fn state_after_attempt(
    state: SupervisorState,
    external_server: bool,
    listening: bool,
    spawned: Option<u32>,
) -> SupervisorState {
    let requested = state_after_start(state, external_server);
    if !(start_step(state, external_server) is ProbePort) {
        requested
    } else if listening {
        state_after_probe(requested, listening)
    } else {
        state_after_spawn(state_after_probe(requested, listening), spawned)
    }
}

/// Builds the plan by which the server is spawned with these credentials.
pub fn launch_plan(credentials: &Credentials) -> (plan: LaunchPlan)
    ensures
        plan@ == plan_for(credentials@),
{
    let mut environment = credentials.environment();
    environment.push(variable("AUTH_URL", notification_address().as_str()));
    environment.push(variable("AUTH_TRUST_HOST", "true"));
    environment.push(variable("NODE_ENV", "production"));
    environment.push(variable("PORT", decimal_text(SERVER_PORT).as_str()));
    assert(environment.deep_view() =~= credentials@.environment() + operational_environment());
    LaunchPlan {
        program: String::from_str("node"),
        directory: String::from_str("next-bundle"),
        script: String::from_str("server.js"),
        environment,
    }
}

/// The supervisor. Its state changes through its methods only.
#[derive(Debug)]
pub struct Supervisor {
    state: SupervisorState,
}

impl View for Supervisor {
    type V = SupervisorState;

    closed spec fn view(&self) -> SupervisorState {
        self.state
    }
}

impl Supervisor {
    /// A supervisor that knows of no server.
    pub fn new() -> (supervisor: Supervisor)
        ensures
            supervisor@ == SupervisorState::Idle,
    {
        Supervisor { state: SupervisorState::Idle }
    }

    /// The present state.
    pub fn state(&self) -> (state: SupervisorState)
        ensures
            state == self@,
    {
        self.state
    }

    /// Asks for the server to be started. While a server is starting or
    /// running nothing happens. Otherwise, with `external_server` the
    /// supervisor counts on a server that the host says is present, and
    /// without it the supervisor enters `Starting` and asks for a probe of
    /// the port.
    pub fn ensure_started(&mut self, external_server: bool) -> (step: StartStep)
        ensures
            step == start_step(old(self)@, external_server),
            final(self)@ == state_after_start(old(self)@, external_server),
    {
        match self.state {
            SupervisorState::Starting => StartStep::AlreadyRunning,
            SupervisorState::Running { child: _ } => StartStep::AlreadyRunning,
            _ => {
                if external_server {
                    self.state = SupervisorState::Running { child: ChildHandle::External };
                    StartStep::UseExternal
                } else {
                    self.state = SupervisorState::Starting;
                    StartStep::ProbePort { port: SERVER_PORT }
                }
            },
        }
    }

    /// Takes the result of the port probe. Where something listens already
    /// the start is over, with no child, and the window is to show the
    /// server's address; where nothing listens the server is to be spawned.
    pub fn resolve_probe(&mut self, listening: bool) -> (step: ProbeStep)
        ensures
            step == probe_step(old(self)@, listening),
            final(self)@ == state_after_probe(old(self)@, listening),
    {
        match self.state {
            SupervisorState::Starting => {
                if listening {
                    self.state = SupervisorState::Idle;
                    ProbeStep::Notify
                } else {
                    ProbeStep::Spawn
                }
            },
            _ => ProbeStep::Stale,
        }
    }

    /// Plans the spawn that the probe called for. With credentials the plan
    /// is the one of `launch_plan`, and the supervisor waits for the result
    /// of the spawn. Without credentials there is nothing to spawn the
    /// server with: the start is over as a spawn that failed.
    pub fn plan_spawn(&mut self, credentials: Option<&Credentials>) -> (plan: Result<
        LaunchPlan,
        Failure,
    >)
        ensures
            match credentials {
                Some(bundle) => {
                    &&& plan matches Ok(made) && made@ == plan_for(bundle@)
                    &&& final(self)@ == old(self)@
                },
                None => {
                    &&& plan matches Err(failure) && failure.kind == ErrorKind::SpawnFailed
                        && failure.detail@ == no_credentials_text()
                    &&& final(self)@ == state_after_spawn(old(self)@, None)
                },
            },
    {
        match credentials {
            Some(bundle) => Ok(launch_plan(bundle)),
            None => {
                match self.state {
                    SupervisorState::Starting => {
                        self.state = SupervisorState::Idle;
                    },
                    _ => {},
                }
                Err(Failure::new(ErrorKind::SpawnFailed, "no credentials to start the server with"))
            },
        }
    }

    /// Takes the result of the spawn: the child's process id, or the reason
    /// why there is no child. A failed spawn leaves the supervisor idle, so
    /// that a later request can try again, and is handed back as a failure.
    pub fn spawn_finished(&mut self, outcome: Result<u32, String>) -> (result: Result<(), Failure>)
        ensures
            final(self)@ == state_after_spawn(
                old(self)@,
                match outcome {
                    Ok(pid) => Some(pid),
                    Err(_) => None,
                },
            ),
            match outcome {
                Ok(_) => result is Ok,
                Err(reason) => result matches Err(failure) && failure.kind == ErrorKind::SpawnFailed
                    && failure.detail@ == reason@,
            },
    {
        match outcome {
            Ok(pid) => {
                match self.state {
                    SupervisorState::Starting => {
                        self.state = SupervisorState::Running { child: ChildHandle::Process { pid } };
                    },
                    _ => {},
                }
                Ok(())
            },
            Err(reason) => {
                match self.state {
                    SupervisorState::Starting => {
                        self.state = SupervisorState::Idle;
                    },
                    _ => {},
                }
                Err(Failure { kind: ErrorKind::SpawnFailed, detail: reason })
            },
        }
    }

    /// Takes one event of the child's output channel. A line that announces
    /// readiness has the window notified; one that announces a port conflict
    /// has it notified too and ends the monitoring; the end of the child is
    /// recorded and ends the monitoring; everything else is passed over.
    pub fn on_event(&mut self, event: &ServerEvent) -> (reaction: Reaction)
        ensures
            reaction == reaction_to(*event),
            final(self)@ == state_after_event(old(self)@, *event),
    {
        match event {
            ServerEvent::Stdout(line) => react_to_line(classify_line(line.as_slice())),
            ServerEvent::Stderr(line) => react_to_line(classify_line(line.as_slice())),
            ServerEvent::Error(_) => Reaction { notify: false, keep_monitoring: true },
            ServerEvent::Terminated(status) => {
                self.state = SupervisorState::Exited { status: *status };
                Reaction { notify: false, keep_monitoring: false }
            },
        }
    }
}

/// The reaction to a line of output of the given class.
pub fn react_to_line(class: LineClass) -> (reaction: Reaction)
    ensures
        reaction == reaction_to_line(class),
{
    match class {
        LineClass::Ready => Reaction { notify: true, keep_monitoring: true },
        LineClass::PortConflict => Reaction { notify: true, keep_monitoring: false },
        LineClass::Ignored => Reaction { notify: false, keep_monitoring: true },
    }
}

/// A request to start that follows one that was not a no-op is a no-op: it
/// finds the server starting or running and leaves the state as it is. So
/// of two requests that arrive at an idle supervisor, in either order, one
/// starts the server and the other does nothing.
pub proof fn lemma_second_request_is_noop(
    state: SupervisorState,
    first_external: bool,
    second_external: bool,
)
    requires
        start_step(state, first_external) != StartStep::AlreadyRunning,
    ensures
        is_active(state_after_start(state, first_external)),
        start_step(state_after_start(state, first_external), second_external)
            == StartStep::AlreadyRunning,
        state_after_start(state_after_start(state, first_external), second_external)
            == state_after_start(state, first_external),
{
}

/// Two start attempts in a row bring at most one child to life, whatever
/// the probes and the spawns give; and none at all where both probes find
/// something listening.
pub proof fn lemma_two_attempts_one_child(
    state: SupervisorState,
    external_server: bool,
    first_listening: bool,
    first_spawned: Option<u32>,
    second_listening: bool,
    second_spawned: Option<u32>,
)
    ensures
        ({
            let first = child_of_attempt(state, external_server, first_listening, first_spawned);
            let between = state_after_attempt(
                state,
                external_server,
                first_listening,
                first_spawned,
            );
            let second = child_of_attempt(
                between,
                external_server,
                second_listening,
                second_spawned,
            );
            &&& !(first is Some && second is Some)
            &&& first_listening && second_listening ==> first is None && second is None
            &&& first matches Some(pid) ==> between == (SupervisorState::Running {
                child: ChildHandle::Process { pid },
            })
        }),
{
}

/// Once the child has ended, a request to start is not a no-op: the
/// supervisor either counts on an outside server or sets out to spawn anew.
pub proof fn lemma_restart_after_exit(
    state: SupervisorState,
    status: ExitStatus,
    external_server: bool,
)
    ensures
        ({
            let ended = state_after_event(state, ServerEvent::Terminated(status));
            &&& ended == SupervisorState::Exited { status }
            &&& start_step(ended, external_server) != StartStep::AlreadyRunning
            &&& is_active(state_after_start(ended, external_server))
        }),
{
}

} // verus!
