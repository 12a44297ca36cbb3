use vault_shell::shell::startup_plan;
use vault_shell::shell::StartupStep;
use vault_shell::supervisor::next_action;
use vault_shell::supervisor::server_command;
use vault_shell::supervisor::step;
use vault_shell::supervisor::supervisor_init;
use vault_shell::supervisor::SupervisorAction;
use vault_shell::supervisor::SupervisorEvent;
use vault_shell::supervisor::SupervisorPhase;
use vault_shell::supervisor::RETRY_WAIT_MS;

#[test]
fn spawn_failure_waits_once_then_retries() {
    let s = supervisor_init();
    assert!(s.is_wf());
    assert_eq!(next_action(&s), SupervisorAction::Spawn);
    let s = step(s, SupervisorEvent::SpawnFailed);
    assert_eq!(next_action(&s), SupervisorAction::Wait { ms: RETRY_WAIT_MS });
    let s = step(s, SupervisorEvent::WaitElapsed);
    assert_eq!(next_action(&s), SupervisorAction::Spawn);
}

#[test]
fn every_failure_count_waits_exactly_once() {
    let mut s = supervisor_init();
    for expected_attempts in 1..=3u32 {
        assert_eq!(next_action(&s), SupervisorAction::Spawn);
        s = step(s, SupervisorEvent::SpawnFailed);
        assert_eq!(s.attempts, expected_attempts);
        assert_eq!(next_action(&s), SupervisorAction::Wait { ms: 1000 });
        s = step(s, SupervisorEvent::WaitElapsed);
        assert_ne!(next_action(&s), SupervisorAction::Wait { ms: 1000 });
    }
    assert_eq!(s.phase, SupervisorPhase::GivenUp);
    assert_eq!(next_action(&s), SupervisorAction::Stop);
}

#[test]
fn successful_spawn_blocks_until_exit_and_never_respawns() {
    let s = supervisor_init();
    let s = step(s, SupervisorEvent::SpawnOk);
    assert_eq!(s.phase, SupervisorPhase::Running);
    assert_eq!(next_action(&s), SupervisorAction::AwaitExit);
    let s = step(s, SupervisorEvent::ProcessExited);
    assert_eq!(s.phase, SupervisorPhase::Exited);
    assert_eq!(next_action(&s), SupervisorAction::Stop);
    let s2 = step(s, SupervisorEvent::SpawnFailed);
    assert_eq!(s2, s);
    assert_eq!(next_action(&s2), SupervisorAction::Stop);
}

#[test]
fn one_failure_then_success_does_not_respawn_after_exit() {
    let s = supervisor_init();
    let s = step(s, SupervisorEvent::SpawnFailed);
    let s = step(s, SupervisorEvent::WaitElapsed);
    let s = step(s, SupervisorEvent::SpawnOk);
    assert_eq!(next_action(&s), SupervisorAction::AwaitExit);
    let s = step(s, SupervisorEvent::ProcessExited);
    assert_eq!(next_action(&s), SupervisorAction::Stop);
}

#[test]
fn failing_executable_gives_up_after_three_attempts_and_app_still_starts() {
    let mut s = supervisor_init();
    let mut actions = Vec::new();
    loop {
        let a = next_action(&s);
        actions.push(a);
        match a {
            SupervisorAction::Spawn => s = step(s, SupervisorEvent::SpawnFailed),
            SupervisorAction::Wait { .. } => s = step(s, SupervisorEvent::WaitElapsed),
            SupervisorAction::AwaitExit => s = step(s, SupervisorEvent::ProcessExited),
            SupervisorAction::Stop => break,
        }
    }
    assert_eq!(
        actions,
        vec![
            SupervisorAction::Spawn,
            SupervisorAction::Wait { ms: 1000 },
            SupervisorAction::Spawn,
            SupervisorAction::Wait { ms: 1000 },
            SupervisorAction::Spawn,
            SupervisorAction::Wait { ms: 1000 },
            SupervisorAction::Stop,
        ]
    );
    assert_eq!(s.phase, SupervisorPhase::GivenUp);
    let plan = startup_plan();
    assert_eq!(plan.last(), Some(&StartupStep::RunApp));
}

#[test]
fn server_command_is_the_fixed_invocation() {
    let c = server_command();
    assert_eq!(c.program, "node");
    assert_eq!(c.arg, "server.js");
    assert_eq!(c.port_var, "PORT");
    assert_eq!(c.port_value, "8888");
}
