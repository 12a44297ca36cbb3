//! Retry state machine of the server supervisor.
//!
//! The supervisor brings up exactly one background server process. It tries
//! to spawn the process up to [`MAX_SPAWN_ATTEMPTS`] times; after a failed
//! spawn it waits [`RETRY_WAIT_MS`] milliseconds before the next attempt, and
//! after the last failure it gives up silently. After a successful spawn it
//! only waits for the process to exit and never respawns it.
//!
//! The machine is pure: the supervising thread asks [`next_action`] what to
//! do, performs the spawn, sleep or wait itself, and reports what happened
//! through [`step`].

use vstd::prelude::*;

verus! {

/// Number of spawn attempts before the supervisor gives up.
pub const MAX_SPAWN_ATTEMPTS: u32 = 3;

/// Milliseconds the supervisor waits after a failed spawn.
pub const RETRY_WAIT_MS: u64 = 1000;

#[derive(Clone, Copy, Debug, PartialEq, Eq, Structural)]
pub enum SupervisorPhase {
    /// Ready to attempt a spawn.
    Idle,
    /// A spawn failed; the fixed backoff wait is due.
    Backoff,
    /// The process is running; the supervisor blocks until it exits.
    Running,
    /// The process exited; supervision is over, with no respawn.
    Exited,
    /// Every attempt failed; supervision is over.
    GivenUp,
}

/// State of the supervisor: how many spawns have failed, and where in its
/// lifecycle it stands.
#[derive(Clone, Copy, Debug, PartialEq, Eq, Structural)]
pub struct SupervisorState {
    pub attempts: u32,
    pub phase: SupervisorPhase,
}

/// What the supervising thread must do next.
#[derive(Clone, Copy, Debug, PartialEq, Eq, Structural)]
pub enum SupervisorAction {
    /// Try to spawn the server process.
    Spawn,
    /// Sleep for `ms` milliseconds.
    Wait { ms: u64 },
    /// Block until the spawned process exits.
    AwaitExit,
    /// Supervision is over.
    Stop,
}

/// What the supervising thread observed while carrying out the last action.
#[derive(Clone, Copy, Debug, PartialEq, Eq, Structural)]
pub enum SupervisorEvent {
    /// The spawn call returned a live process handle.
    SpawnOk,
    /// The spawn call failed at the OS level.
    SpawnFailed,
    /// The backoff sleep elapsed.
    WaitElapsed,
    /// The supervised process exited.
    ProcessExited,
}

impl SupervisorState {
    /// `attempts` counts failed spawns, so it never passes the budget, a
    /// spawn is attempted only while budget remains, and the supervisor has
    /// given up exactly when the whole budget is spent.
    pub open spec fn wf(self) -> bool {
        &&& self.attempts <= MAX_SPAWN_ATTEMPTS
        &&& (self.phase is Idle ==> self.attempts < MAX_SPAWN_ATTEMPTS)
        &&& (self.phase is Backoff ==> 1 <= self.attempts)
        &&& (self.phase is GivenUp ==> self.attempts == MAX_SPAWN_ATTEMPTS)
    }

    /// Runtime check of [`Self::wf`], for callers outside the library.
    pub fn is_wf(&self) -> (b: bool)
        ensures
            b == self.wf(),
    {
        self.attempts <= MAX_SPAWN_ATTEMPTS && (match self.phase {
            SupervisorPhase::Idle => self.attempts < MAX_SPAWN_ATTEMPTS,
            SupervisorPhase::Backoff => 1 <= self.attempts,
            SupervisorPhase::GivenUp => self.attempts == MAX_SPAWN_ATTEMPTS,
            SupervisorPhase::Running => true,
            SupervisorPhase::Exited => true,
        })
    }
}

/// How the server process is invoked: program, argument, and the PORT
/// environment variable. The launcher additionally sets the child's working
/// directory to the directory holding the running executable and discards
/// the child's standard output and error streams.
pub struct ServerCommand {
    pub program: String,
    pub arg: String,
    pub port_var: String,
    pub port_value: String,
}

/// The fixed invocation of the server process.
pub fn server_command() -> (c: ServerCommand)
    ensures
        c.program@ == "node"@,
        c.arg@ == "server.js"@,
        c.port_var@ == "PORT"@,
        c.port_value@ == "8888"@,
{
    ServerCommand {
        program: "node".to_owned(),
        arg: "server.js".to_owned(),
        port_var: "PORT".to_owned(),
        port_value: "8888".to_owned(),
    }
}

/// The state a supervisor starts in: nothing attempted yet.
pub open spec fn init_state() -> SupervisorState {
    SupervisorState { attempts: 0, phase: SupervisorPhase::Idle }
}

/// What the supervising thread must do in state `s`.
pub open spec fn spec_next_action(s: SupervisorState) -> SupervisorAction {
    match s.phase {
        SupervisorPhase::Idle => SupervisorAction::Spawn,
        SupervisorPhase::Backoff => SupervisorAction::Wait { ms: RETRY_WAIT_MS },
        SupervisorPhase::Running => SupervisorAction::AwaitExit,
        SupervisorPhase::Exited => SupervisorAction::Stop,
        SupervisorPhase::GivenUp => SupervisorAction::Stop,
    }
}

/// How state `s` changes when the supervising thread reports event `e`.
/// An event that does not belong to the current phase changes nothing.
pub open spec fn spec_step(s: SupervisorState, e: SupervisorEvent) -> SupervisorState {
    match (s.phase, e) {
        (SupervisorPhase::Idle, SupervisorEvent::SpawnOk) => SupervisorState {
            phase: SupervisorPhase::Running,
            ..s
        },
        (SupervisorPhase::Idle, SupervisorEvent::SpawnFailed) => SupervisorState {
            attempts: (s.attempts + 1) as u32,
            phase: SupervisorPhase::Backoff,
        },
        (SupervisorPhase::Backoff, SupervisorEvent::WaitElapsed) => SupervisorState {
            attempts: s.attempts,
            phase: if s.attempts < MAX_SPAWN_ATTEMPTS {
                SupervisorPhase::Idle
            } else {
                SupervisorPhase::GivenUp
            },
        },
        (SupervisorPhase::Running, SupervisorEvent::ProcessExited) => SupervisorState {
            phase: SupervisorPhase::Exited,
            ..s
        },
        _ => s,
    }
}

/// Make the starting state of a supervisor.
pub fn supervisor_init() -> (s: SupervisorState)
    ensures
        s == init_state(),
        s.wf(),
{
    SupervisorState { attempts: 0, phase: SupervisorPhase::Idle }
}

/// What the supervising thread must do in state `s`.
pub fn next_action(s: &SupervisorState) -> (a: SupervisorAction)
    ensures
        a == spec_next_action(*s),
{
    match s.phase {
        SupervisorPhase::Idle => SupervisorAction::Spawn,
        SupervisorPhase::Backoff => SupervisorAction::Wait { ms: RETRY_WAIT_MS },
        SupervisorPhase::Running => SupervisorAction::AwaitExit,
        SupervisorPhase::Exited => SupervisorAction::Stop,
        SupervisorPhase::GivenUp => SupervisorAction::Stop,
    }
}

/// Advance state `s` on event `e`.
pub fn step(s: SupervisorState, e: SupervisorEvent) -> (s2: SupervisorState)
    requires
        s.wf(),
    ensures
        s2 == spec_step(s, e),
        s2.wf(),
{
    match (s.phase, e) {
        (SupervisorPhase::Idle, SupervisorEvent::SpawnOk) => SupervisorState {
            phase: SupervisorPhase::Running,
            ..s
        },
        (SupervisorPhase::Idle, SupervisorEvent::SpawnFailed) => SupervisorState {
            attempts: s.attempts + 1,
            phase: SupervisorPhase::Backoff,
        },
        (SupervisorPhase::Backoff, SupervisorEvent::WaitElapsed) => SupervisorState {
            attempts: s.attempts,
            phase: if s.attempts < MAX_SPAWN_ATTEMPTS {
                SupervisorPhase::Idle
            } else {
                SupervisorPhase::GivenUp
            },
        },
        (SupervisorPhase::Running, SupervisorEvent::ProcessExited) => SupervisorState {
            phase: SupervisorPhase::Exited,
            ..s
        },
        _ => s,
    }
}

/// The state after the supervisor has seen the events `es` in order.
pub open spec fn spec_run(s: SupervisorState, es: Seq<SupervisorEvent>) -> SupervisorState
    decreases es.len(),
{
    if es.len() == 0 {
        s
    } else {
        spec_run(spec_step(s, es[0]), es.drop_first())
    }
}

/// The actions the supervising thread performs while the events `es` come in:
/// before each event it carries out the action the then-current state asks for.
pub open spec fn spec_action_trace(
    s: SupervisorState,
    es: Seq<SupervisorEvent>,
) -> Seq<SupervisorAction>
    decreases es.len(),
{
    if es.len() == 0 {
        Seq::empty()
    } else {
        seq![spec_next_action(s)] + spec_action_trace(spec_step(s, es[0]), es.drop_first())
    }
}

/// The trace holds one action per event.
pub proof fn lemma_trace_len(s: SupervisorState, es: Seq<SupervisorEvent>)
    ensures
        spec_action_trace(s, es).len() == es.len(),
    decreases es.len(),
{
    if es.len() > 0 {
        lemma_trace_len(spec_step(s, es[0]), es.drop_first());
    }
}

/// A failed spawn is followed by exactly one backoff wait of
/// [`RETRY_WAIT_MS`] milliseconds, the failure is counted, and once the wait
/// has elapsed the next action is a fresh spawn attempt if attempts remain
/// and nothing at all if the whole budget is spent.
pub proof fn lemma_spawn_failure_waits_once(s: SupervisorState)
    requires
        s.wf(),
        s.phase is Idle,
    ensures
        ({
            let after_fail = spec_step(s, SupervisorEvent::SpawnFailed);
            let after_wait = spec_step(after_fail, SupervisorEvent::WaitElapsed);
            &&& spec_next_action(after_fail) == (SupervisorAction::Wait { ms: RETRY_WAIT_MS })
            &&& after_fail.attempts == s.attempts + 1
            &&& after_fail.wf()
            &&& spec_next_action(after_wait) == if s.attempts + 1 < MAX_SPAWN_ATTEMPTS {
                SupervisorAction::Spawn
            } else {
                SupervisorAction::Stop
            }
        }),
{
}

/// Once the supervisor has given up, it stays given up: whatever events
/// still come in, every further action is `Stop` and no spawn is ever
/// attempted again.
pub proof fn lemma_given_up_is_final(s: SupervisorState, es: Seq<SupervisorEvent>)
    requires
        s.phase is GivenUp,
    ensures
        spec_run(s, es).phase is GivenUp,
        forall|i: int|
            0 <= i < es.len() ==> spec_action_trace(s, es)[i] == SupervisorAction::Stop,
    decreases es.len(),
{
    if es.len() > 0 {
        let s2 = spec_step(s, es[0]);
        assert(s2 == s);
        lemma_given_up_is_final(s2, es.drop_first());
        lemma_trace_len(s2, es.drop_first());
        assert forall|i: int| 0 <= i < es.len() implies spec_action_trace(s, es)[i]
            == SupervisorAction::Stop by {
            if i > 0 {
                assert(spec_action_trace(s, es)[i] == spec_action_trace(s2, es.drop_first())[i - 1]);
            }
        }
    }
}

/// After a successful spawn the supervisor only ever awaits the process or,
/// once it has exited, stops: from a running or exited state no sequence of
/// events leads back to a spawn attempt or a backoff wait.
pub proof fn lemma_no_respawn(s: SupervisorState, es: Seq<SupervisorEvent>)
    requires
        s.phase is Running || s.phase is Exited,
    ensures
        spec_run(s, es).phase is Running || spec_run(s, es).phase is Exited,
        forall|i: int|
            0 <= i < es.len() ==> (spec_action_trace(s, es)[i] == SupervisorAction::AwaitExit
                || spec_action_trace(s, es)[i] == SupervisorAction::Stop),
    decreases es.len(),
{
    if es.len() > 0 {
        let s2 = spec_step(s, es[0]);
        assert(s2.phase is Running || s2.phase is Exited);
        lemma_no_respawn(s2, es.drop_first());
        lemma_trace_len(s2, es.drop_first());
        assert forall|i: int| 0 <= i < es.len() implies (spec_action_trace(s, es)[i]
            == SupervisorAction::AwaitExit || spec_action_trace(s, es)[i]
            == SupervisorAction::Stop) by {
            if i > 0 {
                assert(spec_action_trace(s, es)[i] == spec_action_trace(s2, es.drop_first())[i - 1]);
            }
        }
    }
}

/// Started fresh against a spawn that always fails, the supervisor makes
/// exactly [`MAX_SPAWN_ATTEMPTS`] attempts, each failure followed by one
/// backoff wait, and then gives up for good.
pub proof fn lemma_exhausted_budget_gives_up()
    ensures
        ({
            let es = seq![
                SupervisorEvent::SpawnFailed,
                SupervisorEvent::WaitElapsed,
                SupervisorEvent::SpawnFailed,
                SupervisorEvent::WaitElapsed,
                SupervisorEvent::SpawnFailed,
                SupervisorEvent::WaitElapsed,
            ];
            &&& spec_action_trace(init_state(), es) =~= seq![
                SupervisorAction::Spawn,
                (SupervisorAction::Wait { ms: RETRY_WAIT_MS }),
                SupervisorAction::Spawn,
                (SupervisorAction::Wait { ms: RETRY_WAIT_MS }),
                SupervisorAction::Spawn,
                (SupervisorAction::Wait { ms: RETRY_WAIT_MS }),
            ]
            &&& spec_run(init_state(), es).phase is GivenUp
            &&& spec_next_action(spec_run(init_state(), es)) is Stop
        }),
{
    let es = seq![
        SupervisorEvent::SpawnFailed,
        SupervisorEvent::WaitElapsed,
        SupervisorEvent::SpawnFailed,
        SupervisorEvent::WaitElapsed,
        SupervisorEvent::SpawnFailed,
        SupervisorEvent::WaitElapsed,
    ];
    reveal_with_fuel(spec_action_trace, 8);
    reveal_with_fuel(spec_run, 8);
    let s0 = init_state();
    let s1 = spec_step(s0, es[0]);
    let s2 = spec_step(s1, es.drop_first()[0]);
    let s3 = spec_step(s2, es.drop_first().drop_first()[0]);
    let s4 = spec_step(s3, es.drop_first().drop_first().drop_first()[0]);
    let s5 = spec_step(s4, es.drop_first().drop_first().drop_first().drop_first()[0]);
    let s6 = spec_step(
        s5,
        es.drop_first().drop_first().drop_first().drop_first().drop_first()[0],
    );
    assert(s1 == SupervisorState { attempts: 1, phase: SupervisorPhase::Backoff });
    assert(s2 == SupervisorState { attempts: 1, phase: SupervisorPhase::Idle });
    assert(s3 == SupervisorState { attempts: 2, phase: SupervisorPhase::Backoff });
    assert(s4 == SupervisorState { attempts: 2, phase: SupervisorPhase::Idle });
    assert(s5 == SupervisorState { attempts: 3, phase: SupervisorPhase::Backoff });
    assert(s6 == SupervisorState { attempts: 3, phase: SupervisorPhase::GivenUp });
    assert(spec_run(s0, es) == s6);
    assert(spec_action_trace(s0, es) =~= seq![
        SupervisorAction::Spawn,
        (SupervisorAction::Wait { ms: RETRY_WAIT_MS }),
        SupervisorAction::Spawn,
        (SupervisorAction::Wait { ms: RETRY_WAIT_MS }),
        SupervisorAction::Spawn,
        (SupervisorAction::Wait { ms: RETRY_WAIT_MS }),
    ]);
}

} // verus!
