use backend_supervisor::launch::{LaunchPlan, Platform, SpawnError};
use backend_supervisor::paths::PathResolutionError;
use std::path::PathBuf;
use backend_supervisor::supervisor::{
    Action, Diagnostic, Event, Phase, ReadinessState, Step, Stream, Supervisor, WARM_UP_SECONDS,
};

fn shell_starting(exe: &str) -> Event {
    Event::ShellStarting { exe_path: Ok(PathBuf::from(exe)), platform: Platform::Other }
}

fn refused(reason: &str) -> Event {
    Event::SpawnRefused { os_error: reason.to_string() }
}

fn line(stream: Stream, text: &str) -> Diagnostic {
    Diagnostic { stream, text: text.to_string() }
}

fn unknown_executable(platform: Platform) -> Event {
    Event::ShellStarting { exe_path: Err("Kind(NotFound)".to_string()), platform }
}

fn ignored() -> Step {
    Step { action: Action::Ignore, diagnostics: Vec::new() }
}

fn launching() -> Supervisor {
    let mut supervisor = Supervisor::new();
    supervisor.step(shell_starting("/opt/studio/frontend/bin/shell"));
    assert_eq!(supervisor.phase(), Phase::Launching);
    supervisor
}

#[test]
fn new_supervisor_is_idle() {
    let supervisor = Supervisor::new();
    assert_eq!(supervisor.phase(), Phase::Idle);
    assert_eq!(supervisor.readiness(), None);
}

#[test]
fn warm_up_lasts_three_seconds() {
    assert_eq!(WARM_UP_SECONDS, 3);
}

#[test]
fn startup_asks_for_the_backend_process() {
    let mut supervisor = Supervisor::new();
    let step = supervisor.step(shell_starting("/opt/studio/frontend/bin/shell"));
    let plan = LaunchPlan::new(PathBuf::from("/opt/studio/frontend/bin/../.."), Platform::Other);
    assert_eq!(
        step,
        Step {
            action: Action::Spawn(plan),
            diagnostics: vec![line(
                Stream::Stdout,
                "Starting FastAPI backend from: \"/opt/studio/frontend/bin/../..\""
            )],
        }
    );
    assert_eq!(supervisor.phase(), Phase::Launching);
    assert_eq!(supervisor.readiness(), None);
}

#[test]
fn successful_spawn_warms_up_then_runs_the_shell() {
    let mut supervisor = launching();
    let step = supervisor.step(Event::ChildSpawned);
    assert_eq!(
        step,
        Step {
            action: Action::WarmUp { seconds: 3 },
            diagnostics: vec![line(Stream::Stdout, "✅ FastAPI backend started")],
        }
    );
    assert_eq!(supervisor.readiness(), Some(ReadinessState::Starting));
    let step = supervisor.step(Event::WarmUpElapsed);
    assert_eq!(step, Step { action: Action::RunShell, diagnostics: Vec::new() });
    assert_eq!(supervisor.phase(), Phase::Backend(ReadinessState::Ready));
}

#[test]
fn startup_spawns_in_the_resolved_directory() {
    let mut supervisor = Supervisor::new();
    let step = supervisor.step(shell_starting("/a/b/c/shell"));
    match step.action {
        Action::Spawn(plan) => {
            assert_eq!(plan.program, "python3");
            assert_eq!(plan.working_dir.to_str(), Some("/a/b/c/../.."));
        }
        other => panic!("expected a spawn, got {:?}", other),
    }
    assert_eq!(
        step.diagnostics,
        vec![line(Stream::Stdout, "Starting FastAPI backend from: \"/a/b/c/../..\"")]
    );
}

#[test]
fn refused_spawn_writes_the_marked_line_then_the_hint() {
    let mut supervisor = Supervisor::new();
    supervisor.step(shell_starting("/a/b/c/shell"));
    let step = supervisor.step(refused("entity not found"));
    assert_eq!(
        step.diagnostics,
        vec![
            line(Stream::Stderr, "❌ Failed to start backend: entity not found"),
            line(Stream::Stderr, "Make sure Python and dependencies are installed"),
        ]
    );
    assert_eq!(
        step.action,
        Action::RunShellWithoutBackend(SpawnError::LaunchFailed("entity not found".to_string()))
    );
}

#[test]
fn spawned_backend_binds_loopback_port_8001() {
    let mut supervisor = Supervisor::new();
    let step = supervisor.step(shell_starting("/opt/studio/frontend/bin/shell"));
    match step.action {
        Action::Spawn(plan) => {
            assert_eq!(plan.args[2], "app.main:app");
            assert_eq!(plan.args[3], "--host");
            assert_eq!(plan.args[4], "127.0.0.1");
            assert_eq!(plan.args[5], "--port");
            assert_eq!(plan.args[6], "8001");
        }
        other => panic!("expected a spawn, got {:?}", other),
    }
}

#[test]
fn refused_spawn_is_reported_and_the_shell_runs_without_backend() {
    let mut supervisor = launching();
    let step = supervisor.step(refused("No such file or directory (os error 2)"));
    assert_eq!(
        step,
        Step {
            action: Action::RunShellWithoutBackend(SpawnError::LaunchFailed(
                "No such file or directory (os error 2)".to_string()
            )),
            diagnostics: vec![
                line(
                    Stream::Stderr,
                    "❌ Failed to start backend: No such file or directory (os error 2)"
                ),
                line(Stream::Stderr, "Make sure Python and dependencies are installed"),
            ],
        }
    );
    assert_eq!(supervisor.phase(), Phase::Backend(ReadinessState::SpawnFailed));
    assert_eq!(supervisor.readiness(), Some(ReadinessState::SpawnFailed));
}

#[test]
fn refused_spawn_never_warms_up() {
    let mut supervisor = launching();
    supervisor.step(refused("Permission denied (os error 13)"));
    assert_eq!(supervisor.step(Event::WarmUpElapsed), ignored());
    assert_eq!(supervisor.step(Event::ChildSpawned), ignored());
    assert_eq!(supervisor.phase(), Phase::Backend(ReadinessState::SpawnFailed));
}

#[test]
fn startup_is_answered_with_a_spawn_only_once() {
    let mut supervisor = Supervisor::new();
    let first = supervisor.step(shell_starting("/opt/studio/frontend/bin/shell"));
    assert!(matches!(first.action, Action::Spawn(_)));
    let second = supervisor.step(shell_starting("/opt/studio/frontend/bin/shell"));
    assert_eq!(second, ignored());
    assert_eq!(supervisor.phase(), Phase::Launching);
    supervisor.step(Event::ChildSpawned);
    assert_eq!(supervisor.step(shell_starting("/opt/studio/frontend/bin/shell")), ignored());
    supervisor.step(Event::WarmUpElapsed);
    assert_eq!(supervisor.step(shell_starting("/opt/studio/frontend/bin/shell")), ignored());
    assert_eq!(supervisor.phase(), Phase::Backend(ReadinessState::Ready));
}

#[test]
fn unknown_executable_aborts_startup() {
    let mut supervisor = Supervisor::new();
    let step = supervisor.step(unknown_executable(Platform::Windows));
    assert_eq!(
        step,
        Step {
            action: Action::Abort(SpawnError::PathResolution(
                PathResolutionError::ExecutableUnknown("Kind(NotFound)".to_string())
            )),
            diagnostics: Vec::new(),
        }
    );
    assert_eq!(supervisor.phase(), Phase::Aborted);
    assert_eq!(supervisor.readiness(), None);
}

#[test]
fn executable_without_containing_directory_aborts_startup() {
    let mut supervisor = Supervisor::new();
    let step = supervisor.step(shell_starting("/"));
    assert_eq!(
        step.action,
        Action::Abort(SpawnError::PathResolution(PathResolutionError::NoContainingDirectory))
    );
    assert_eq!(supervisor.phase(), Phase::Aborted);
}

#[test]
fn aborted_startup_ignores_every_event() {
    let mut supervisor = Supervisor::new();
    supervisor.step(unknown_executable(Platform::Other));
    assert_eq!(supervisor.step(shell_starting("/opt/studio/bin/shell")), ignored());
    assert_eq!(supervisor.step(Event::ChildSpawned), ignored());
    assert_eq!(supervisor.step(refused("late")), ignored());
    assert_eq!(supervisor.step(Event::WarmUpElapsed), ignored());
    assert_eq!(supervisor.step(Event::ReadinessTimedOut), ignored());
    assert_eq!(supervisor.phase(), Phase::Aborted);
}

#[test]
fn readiness_can_time_out() {
    let mut supervisor = launching();
    supervisor.step(Event::ChildSpawned);
    let step = supervisor.step(Event::ReadinessTimedOut);
    assert_eq!(step, Step { action: Action::RunShell, diagnostics: Vec::new() });
    assert_eq!(supervisor.phase(), Phase::Backend(ReadinessState::TimedOut));
    assert_eq!(supervisor.step(Event::WarmUpElapsed), ignored());
    assert_eq!(supervisor.phase(), Phase::Backend(ReadinessState::TimedOut));
}

#[test]
fn ready_backend_stays_ready() {
    let mut supervisor = launching();
    supervisor.step(Event::ChildSpawned);
    supervisor.step(Event::WarmUpElapsed);
    assert_eq!(supervisor.step(Event::ReadinessTimedOut), ignored());
    assert_eq!(supervisor.step(Event::WarmUpElapsed), ignored());
    assert_eq!(supervisor.step(refused("late")), ignored());
    assert_eq!(supervisor.step(Event::ChildSpawned), ignored());
    assert_eq!(supervisor.phase(), Phase::Backend(ReadinessState::Ready));
}

#[test]
fn idle_supervisor_ignores_everything_but_startup() {
    let mut supervisor = Supervisor::new();
    assert_eq!(supervisor.step(Event::ChildSpawned), ignored());
    assert_eq!(supervisor.step(refused("early")), ignored());
    assert_eq!(supervisor.step(Event::WarmUpElapsed), ignored());
    assert_eq!(supervisor.step(Event::ReadinessTimedOut), ignored());
    assert_eq!(supervisor.phase(), Phase::Idle);
}

#[test]
fn launching_supervisor_ignores_readiness_reports() {
    let mut supervisor = launching();
    assert_eq!(supervisor.step(Event::WarmUpElapsed), ignored());
    assert_eq!(supervisor.step(Event::ReadinessTimedOut), ignored());
    assert_eq!(supervisor.phase(), Phase::Launching);
}
