//! The supervisor as a state machine: the host reports what happened, the
//! supervisor answers with what to do next and what to tell the operator.

use crate::launch::{start_backend, LaunchPlan, Platform, SpawnError};
use crate::paths::{exe_bytes, spec_resolve, spec_starting_line, starting_line};
use std::path::PathBuf;
use vstd::prelude::*;

verus! {

/// How long the host waits after a successful spawn before the shell goes
/// on, in seconds. Nothing shortens or cancels the wait.
pub const WARM_UP_SECONDS: u64 = 3;

/// How far the backend is on its way to answering requests.
#[derive(Clone, Copy, Debug, PartialEq, Eq, Structural)]
pub enum ReadinessState {
    /// The process exists and is given time to come up.
    Starting,
    /// The backend is taken to answer requests.
    Ready,
    /// The time allowed for coming up passed without the backend being ready.
    TimedOut,
    /// No process could be created.
    SpawnFailed,
}

/// Where the supervisor stands.
#[derive(Clone, Copy, Debug, PartialEq, Eq, Structural)]
pub enum Phase {
    /// Nothing has been asked of the supervisor yet.
    Idle,
    /// The host has been told to create the process and has not answered.
    Launching,
    /// The spawn has been answered; the backend is in the given state.
    Backend(ReadinessState),
    /// The working directory could not be found: startup is over.
    Aborted,
}

impl Phase {
    /// No event changes the phase any more.
    pub open spec fn is_settled(self) -> bool {
        match self {
            Phase::Idle => false,
            Phase::Launching => false,
            Phase::Backend(state) => state != ReadinessState::Starting,
            Phase::Aborted => true,
        }
    }
}

/// What the host reports to the supervisor.
#[derive(Debug, PartialEq, Eq)]
pub enum Event {
    /// The shell starts up. `exe_path` is the path of its executable, or the
    /// cause for which the host could not determine it.
    ShellStarting { exe_path: Result<PathBuf, String>, platform: Platform },
    /// The operating system created the backend process.
    ChildSpawned,
    /// The operating system did not create the process, for the given reason.
    SpawnRefused { os_error: String },
    /// The warm-up wait is over.
    WarmUpElapsed,
    /// The host watched for readiness and gave up.
    ReadinessTimedOut,
}

/// What the host is to do next.
#[derive(Debug, PartialEq, Eq)]
pub enum Action {
    /// Create the process that the plan describes, without waiting for it to
    /// exit, and report `ChildSpawned` or `SpawnRefused`.
    Spawn(LaunchPlan),
    /// Wait for the given number of seconds, then report `WarmUpElapsed`.
    WarmUp { seconds: u64 },
    /// Go on with the shell's own startup.
    RunShell,
    /// Go on with the shell's own startup, though there is no backend.
    RunShellWithoutBackend(SpawnError),
    /// Give up: without a working directory no backend can be started.
    Abort(SpawnError),
    /// Nothing: the event has no meaning in the current phase.
    Ignore,
}

/// The stream a line for the operator is written to.
#[derive(Clone, Copy, Debug, PartialEq, Eq, Structural)]
pub enum Stream {
    Stdout,
    Stderr,
}

/// One line for the operator.
#[derive(Clone, Debug, PartialEq, Eq)]
pub struct Diagnostic {
    pub stream: Stream,
    pub text: String,
}

/// The supervisor's answer to an event.
#[derive(Debug, PartialEq, Eq)]
pub struct Step {
    pub action: Action,
    /// The lines to write before acting, in order.
    pub diagnostics: Vec<Diagnostic>,
}

/// The lines of a sequence of diagnostics, each with its stream.
pub open spec fn lines(v: Seq<Diagnostic>) -> Seq<(Stream, Seq<char>)> {
    Seq::new(v.len(), |i: int| (v[i].stream, v[i].text@))
}

/// The phase after `event` has been reported in `phase`.
pub open spec fn spec_next(phase: Phase, event: Event) -> Phase {
    match (phase, event) {
        (Phase::Idle, Event::ShellStarting { exe_path, platform }) => {
            if spec_resolve(exe_bytes(exe_path)) is Ok {
                Phase::Launching
            } else {
                Phase::Aborted
            }
        },
        (Phase::Launching, Event::ChildSpawned) => Phase::Backend(ReadinessState::Starting),
        (Phase::Launching, Event::SpawnRefused { os_error }) => Phase::Backend(
            ReadinessState::SpawnFailed,
        ),
        (Phase::Backend(ReadinessState::Starting), Event::WarmUpElapsed) => Phase::Backend(
            ReadinessState::Ready,
        ),
        (Phase::Backend(ReadinessState::Starting), Event::ReadinessTimedOut) => Phase::Backend(
            ReadinessState::TimedOut,
        ),
        _ => phase,
    }
}

/// `action` is the answer to `event` reported in `phase`.
pub open spec fn spec_action_fits(phase: Phase, event: Event, action: Action) -> bool {
    match (phase, event) {
        (Phase::Idle, Event::ShellStarting { exe_path, platform }) => {
            match spec_resolve(exe_bytes(exe_path)) {
                Ok(root) => action matches Action::Spawn(plan) && plan.is_for(platform, root),
                Err(e) => action == Action::Abort(SpawnError::PathResolution(e)),
            }
        },
        (Phase::Launching, Event::ChildSpawned) => action == (Action::WarmUp {
            seconds: WARM_UP_SECONDS,
        }),
        (Phase::Launching, Event::SpawnRefused { os_error }) => action
            == Action::RunShellWithoutBackend(SpawnError::LaunchFailed(os_error)),
        (Phase::Backend(ReadinessState::Starting), Event::WarmUpElapsed) => action
            == Action::RunShell,
        (Phase::Backend(ReadinessState::Starting), Event::ReadinessTimedOut) => action
            == Action::RunShell,
        _ => action == Action::Ignore,
    }
}

/// The lines for the operator when `event` is reported in `phase`.
pub open spec fn spec_diagnostics(phase: Phase, event: Event) -> Seq<(Stream, Seq<char>)> {
    match (phase, event) {
        (Phase::Idle, Event::ShellStarting { exe_path, platform }) => {
            match spec_resolve(exe_bytes(exe_path)) {
                Ok(root) => seq![(Stream::Stdout, spec_starting_line(root))],
                Err(e) => Seq::empty(),
            }
        },
        (Phase::Launching, Event::ChildSpawned) => seq![
            (Stream::Stdout, "✅ FastAPI backend started"@),
        ],
        (Phase::Launching, Event::SpawnRefused { os_error }) => seq![
            (Stream::Stderr, SpawnError::LaunchFailed(os_error).spec_message()),
            (Stream::Stderr, "Make sure Python and dependencies are installed"@),
        ],
        _ => Seq::empty(),
    }
}

/// `event` reported in `phase` makes the supervisor ask for a process.
pub open spec fn spec_spawns(phase: Phase, event: Event) -> bool {
    &&& phase is Idle
    &&& event matches Event::ShellStarting { exe_path, platform }
    &&& spec_resolve(exe_bytes(exe_path)) is Ok
}

/// The supervisor of one backend process.
#[derive(Debug)]
pub struct Supervisor {
    phase: Phase,
}

impl View for Supervisor {
    type V = Phase;

    closed spec fn view(&self) -> Phase {
        self.phase
    }
}

fn ignored() -> (step: Step)
    ensures
        step.action == Action::Ignore,
        step.diagnostics@.len() == 0,
{
    Step { action: Action::Ignore, diagnostics: Vec::new() }
}

fn one_line(stream: Stream, text: String) -> (out: Vec<Diagnostic>)
    ensures
        lines(out@) == seq![(stream, text@)],
{
    let mut out: Vec<Diagnostic> = Vec::new();
    out.push(Diagnostic { stream, text });
    assert(lines(out@) =~= seq![(stream, text@)]);
    out
}

impl Supervisor {
    /// A supervisor of which nothing has been asked yet.
    pub fn new() -> (supervisor: Supervisor)
        ensures
            supervisor@ == Phase::Idle,
    {
        Supervisor { phase: Phase::Idle }
    }

    /// Where the supervisor stands.
    pub fn phase(&self) -> (phase: Phase)
        ensures
            phase == self@,
    {
        self.phase
    }

    /// The backend's state, once the spawn has been answered.
    pub fn readiness(&self) -> (state: Option<ReadinessState>)
        ensures
            match self@ {
                Phase::Backend(s) => state == Some(s),
                _ => state is None,
            },
    {
        match self.phase {
            Phase::Backend(s) => Some(s),
            _ => None,
        }
    }

    /// Takes one event from the host and answers with the next action and
    /// the lines for the operator.
    ///
    /// A spawn that the operating system refuses never stops the shell: the
    /// answer is to go on without a backend. Only a working directory that
    /// cannot be found ends startup: the answer is `Abort` with the error,
    /// whose message the host reports as it gives up. An event that has no meaning in the
    /// current phase changes nothing and is answered with `Ignore`.
    pub fn step(&mut self, event: Event) -> (step: Step)
        ensures
            final(self)@ == spec_next(old(self)@, event),
            spec_action_fits(old(self)@, event, step.action),
            lines(step.diagnostics@) == spec_diagnostics(old(self)@, event),
            step.action is Spawn <==> spec_spawns(old(self)@, event),
    {
        match self.phase {
            Phase::Idle => match event {
                Event::ShellStarting { exe_path, platform } => {
                    match start_backend(&exe_path, platform) {
                        Ok(plan) => {
                            let text = starting_line(&plan.working_dir);
                            self.phase = Phase::Launching;
                            Step {
                                action: Action::Spawn(plan),
                                diagnostics: one_line(Stream::Stdout, text),
                            }
                        },
                        Err(e) => {
                            self.phase = Phase::Aborted;
                            Step { action: Action::Abort(e), diagnostics: Vec::new() }
                        },
                    }
                },
                _ => ignored(),
            },
            Phase::Launching => match event {
                Event::ChildSpawned => {
                    self.phase = Phase::Backend(ReadinessState::Starting);
                    Step {
                        action: Action::WarmUp { seconds: WARM_UP_SECONDS },
                        diagnostics: one_line(
                            Stream::Stdout,
                            "✅ FastAPI backend started".to_owned(),
                        ),
                    }
                },
                Event::SpawnRefused { os_error } => {
                    let error = SpawnError::LaunchFailed(os_error);
                    let mut diagnostics: Vec<Diagnostic> = Vec::new();
                    diagnostics.push(Diagnostic { stream: Stream::Stderr, text: error.message() });
                    diagnostics.push(
                        Diagnostic {
                            stream: Stream::Stderr,
                            text: "Make sure Python and dependencies are installed".to_owned(),
                        },
                    );
                    assert(lines(diagnostics@) =~= spec_diagnostics(old(self)@, event));
                    self.phase = Phase::Backend(ReadinessState::SpawnFailed);
                    Step { action: Action::RunShellWithoutBackend(error), diagnostics }
                },
                _ => ignored(),
            },
            Phase::Backend(ReadinessState::Starting) => match event {
                Event::WarmUpElapsed => {
                    self.phase = Phase::Backend(ReadinessState::Ready);
                    Step { action: Action::RunShell, diagnostics: Vec::new() }
                },
                Event::ReadinessTimedOut => {
                    self.phase = Phase::Backend(ReadinessState::TimedOut);
                    Step { action: Action::RunShell, diagnostics: Vec::new() }
                },
                _ => ignored(),
            },
            _ => ignored(),
        }
    }
}

/// The phase after a whole sequence of events, reported in order from
/// `phase` on.
pub open spec fn spec_run(phase: Phase, events: Seq<Event>) -> Phase
    decreases events.len(),
{
    if events.len() == 0 {
        phase
    } else {
        spec_run(spec_next(phase, events[0]), events.drop_first())
    }
}

/// How often the supervisor asks for a process while `events` are reported
/// in order from `phase` on.
pub open spec fn spec_spawn_count(phase: Phase, events: Seq<Event>) -> nat
    decreases events.len(),
{
    if events.len() == 0 {
        0
    } else {
        let rest = spec_spawn_count(spec_next(phase, events[0]), events.drop_first());
        if spec_spawns(phase, events[0]) {
            rest + 1
        } else {
            rest
        }
    }
}

/// No event brings the supervisor back to where it began.
pub proof fn lemma_never_idle_again(phase: Phase, event: Event)
    requires
        phase != Phase::Idle,
    ensures
        spec_next(phase, event) != Phase::Idle,
{
}

/// A spawn that the operating system refuses never ends startup and never
/// leads to a second attempt: where a spawn was awaited, the shell goes on
/// without a backend and the refusal is handed on as `LaunchFailed`; anywhere
/// else the report is ignored.
pub proof fn lemma_refused_spawn_keeps_the_shell(phase: Phase, os_error: String, action: Action)
    requires
        spec_action_fits(phase, Event::SpawnRefused { os_error }, action),
    ensures
        !(action is Abort),
        !(action is Spawn),
        phase is Launching ==> action == Action::RunShellWithoutBackend(
            SpawnError::LaunchFailed(os_error),
        ) && spec_next(phase, Event::SpawnRefused { os_error }) == Phase::Backend(
            ReadinessState::SpawnFailed,
        ),
{
}

/// The changes of phase there are, and no others: from `Idle` to `Launching`
/// or `Aborted`, from `Launching` to a backend that is `Starting` or to
/// `SpawnFailed`, and from `Starting` to `Ready` or `TimedOut`.
pub proof fn lemma_phase_changes(phase: Phase, event: Event)
    requires
        spec_next(phase, event) != phase,
    ensures
        match phase {
            Phase::Idle => spec_next(phase, event) == Phase::Launching || spec_next(phase, event)
                == Phase::Aborted,
            Phase::Launching => spec_next(phase, event) == Phase::Backend(
                ReadinessState::Starting,
            ) || spec_next(phase, event) == Phase::Backend(ReadinessState::SpawnFailed),
            Phase::Backend(state) => state == ReadinessState::Starting && (spec_next(phase, event)
                == Phase::Backend(ReadinessState::Ready) || spec_next(phase, event)
                == Phase::Backend(ReadinessState::TimedOut)),
            Phase::Aborted => false,
        },
{
}

/// The backend's state only moves forward: from `Starting` to `Ready` or
/// `TimedOut`. A settled phase (`Ready`, `TimedOut`, `SpawnFailed`, or an
/// aborted startup) stays as it is, whatever is reported afterwards.
pub proof fn lemma_settled_phase_is_final(phase: Phase, events: Seq<Event>)
    requires
        phase.is_settled(),
    ensures
        spec_run(phase, events) == phase,
    decreases events.len(),
{
    if events.len() > 0 {
        lemma_settled_phase_is_final(phase, events.drop_first());
    }
}

/// Once startup has been asked for, no further event makes the supervisor
/// ask for a process.
pub proof fn lemma_no_spawn_once_started(phase: Phase, events: Seq<Event>)
    requires
        phase != Phase::Idle,
    ensures
        spec_spawn_count(phase, events) == 0,
    decreases events.len(),
{
    if events.len() > 0 {
        lemma_never_idle_again(phase, events[0]);
        lemma_no_spawn_once_started(spec_next(phase, events[0]), events.drop_first());
    }
}

/// Whatever the host reports, in whatever order and however often, the
/// supervisor asks for at most one process.
pub proof fn lemma_at_most_one_spawn(phase: Phase, events: Seq<Event>)
    ensures
        spec_spawn_count(phase, events) <= 1,
    decreases events.len(),
{
    if events.len() > 0 {
        let next = spec_next(phase, events[0]);
        if spec_spawns(phase, events[0]) {
            lemma_no_spawn_once_started(next, events.drop_first());
        } else {
            lemma_at_most_one_spawn(next, events.drop_first());
        }
    }
}

} // verus!
