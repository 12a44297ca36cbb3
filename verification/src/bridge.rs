//! Window bridge: the delayed navigation sequence of the primary window and
//! the in-page interception rule it installs.
//!
//! Once the primary window exists, the bridge waits [`PRE_NAV_WAIT_MS`]
//! milliseconds, navigates the window to [`working_url`], waits
//! [`PRE_EVAL_WAIT_MS`] milliseconds, and injects [`bridge_script`] into the
//! page. Navigation and injection failures are discarded: the sequence moves
//! on whatever their outcome. The injected script redirects every in-page
//! window-open call whose target contains `player.html` to the native
//! `open_player_window` command; [`intercept_open`] states that rule.

use vstd::prelude::*;
use crate::text::contains_seq;
use crate::text::contains_substr;

verus! {

/// Milliseconds the bridge waits before navigating the primary window.
pub const PRE_NAV_WAIT_MS: u64 = 1000;

/// Milliseconds the bridge waits between navigation and script injection.
pub const PRE_EVAL_WAIT_MS: u64 = 500;

/// The local page the primary window is navigated to.
pub fn working_url() -> (r: &'static str)
    ensures
        r@ == "http://localhost:8888/working.html"@,
{
    "http://localhost:8888/working.html"
}

/// The script the bridge injects into the primary window. It defines the
/// global forwarding function and wraps the page's window-open entry point
/// with the rule that [`intercept_open`] states.
pub fn bridge_script() -> (r: &'static str)
    ensures
        r@
            == "window.__tauri_open_player = function(url) {\n    window.__TAURI__.invoke('open_player_window', { url: url });\n};\n\nconst originalOpen = window.open;\nwindow.open = function(url, name, features) {\n    if (url && url.includes('player.html')) {\n        window.__tauri_open_player(url);\n        return null;\n    }\n    return originalOpen.call(window, url, name, features);\n};\n"@,
{
    "window.__tauri_open_player = function(url) {\n    window.__TAURI__.invoke('open_player_window', { url: url });\n};\n\nconst originalOpen = window.open;\nwindow.open = function(url, name, features) {\n    if (url && url.includes('player.html')) {\n        window.__tauri_open_player(url);\n        return null;\n    }\n    return originalOpen.call(window, url, name, features);\n};\n"
}

/// Where the bridge stands in its once-per-launch sequence.
#[derive(Clone, Copy, Debug, PartialEq, Eq, Structural)]
pub enum BridgePhase {
    /// The primary window exists; nothing done yet.
    Start,
    /// The pre-navigation wait has elapsed.
    PreNavWaited,
    /// Navigation has been issued (its outcome does not matter).
    Navigated,
    /// The pre-injection wait has elapsed.
    PreEvalWaited,
    /// The script has been injected; the sequence is over.
    Injected,
}

/// What the bridge task must do next.
#[derive(Clone, Copy, Debug, PartialEq, Eq, Structural)]
pub enum BridgeAction {
    /// Sleep for `ms` milliseconds.
    Wait { ms: u64 },
    /// Navigate the primary window to [`working_url`].
    Navigate,
    /// Evaluate [`bridge_script`] in the primary window.
    Inject,
    /// The sequence is over.
    Done,
}

/// What the bridge task must do in phase `p`.
pub open spec fn spec_bridge_next(p: BridgePhase) -> BridgeAction {
    match p {
        BridgePhase::Start => BridgeAction::Wait { ms: PRE_NAV_WAIT_MS },
        BridgePhase::PreNavWaited => BridgeAction::Navigate,
        BridgePhase::Navigated => BridgeAction::Wait { ms: PRE_EVAL_WAIT_MS },
        BridgePhase::PreEvalWaited => BridgeAction::Inject,
        BridgePhase::Injected => BridgeAction::Done,
    }
}

/// The phase after the current action has been carried out. It does not
/// depend on how the action went: failures are discarded.
pub open spec fn spec_bridge_advance(p: BridgePhase) -> BridgePhase {
    match p {
        BridgePhase::Start => BridgePhase::PreNavWaited,
        BridgePhase::PreNavWaited => BridgePhase::Navigated,
        BridgePhase::Navigated => BridgePhase::PreEvalWaited,
        BridgePhase::PreEvalWaited => BridgePhase::Injected,
        BridgePhase::Injected => BridgePhase::Injected,
    }
}

/// The phase a bridge starts in.
pub fn bridge_init() -> (p: BridgePhase)
    ensures
        p == BridgePhase::Start,
{
    BridgePhase::Start
}

/// What the bridge task must do in phase `p`.
pub fn next_bridge_action(p: &BridgePhase) -> (a: BridgeAction)
    ensures
        a == spec_bridge_next(*p),
{
    match p {
        BridgePhase::Start => BridgeAction::Wait { ms: PRE_NAV_WAIT_MS },
        BridgePhase::PreNavWaited => BridgeAction::Navigate,
        BridgePhase::Navigated => BridgeAction::Wait { ms: PRE_EVAL_WAIT_MS },
        BridgePhase::PreEvalWaited => BridgeAction::Inject,
        BridgePhase::Injected => BridgeAction::Done,
    }
}

/// Advance past the current action. The second argument reports how the
/// action went; the new phase does not depend on it, which is the
/// best-effort policy: a failed navigation or injection is discarded, never
/// retried.
pub fn advance_bridge(p: BridgePhase, _outcome_ok: bool) -> (p2: BridgePhase)
    ensures
        p2 == spec_bridge_advance(p),
{
    match p {
        BridgePhase::Start => BridgePhase::PreNavWaited,
        BridgePhase::PreNavWaited => BridgePhase::Navigated,
        BridgePhase::Navigated => BridgePhase::PreEvalWaited,
        BridgePhase::PreEvalWaited => BridgePhase::Injected,
        BridgePhase::Injected => BridgePhase::Injected,
    }
}

/// The phase after `n` actions have been carried out, whatever their
/// outcomes (which the machine ignores).
pub open spec fn spec_bridge_run(p: BridgePhase, n: nat) -> BridgePhase
    decreases n,
{
    if n == 0 {
        p
    } else {
        spec_bridge_run(spec_bridge_advance(p), (n - 1) as nat)
    }
}

/// The actions the bridge task performs, starting in phase `p`, over `n`
/// steps.
pub open spec fn spec_bridge_trace(p: BridgePhase, n: nat) -> Seq<BridgeAction>
    decreases n,
{
    if n == 0 {
        Seq::empty()
    } else {
        seq![spec_bridge_next(p)] + spec_bridge_trace(spec_bridge_advance(p), (n - 1) as nat)
    }
}

/// The bridge's whole run is the fixed sequence: one wait of
/// [`PRE_NAV_WAIT_MS`] milliseconds, then the navigation, then one wait of
/// [`PRE_EVAL_WAIT_MS`] milliseconds, then the injection, and nothing more —
/// and this holds whatever the navigation's or the injection's outcome,
/// since [`spec_bridge_advance`] never reads an outcome.
pub proof fn lemma_bridge_sequence()
    ensures
        spec_bridge_trace(BridgePhase::Start, 4) =~= seq![
            (BridgeAction::Wait { ms: PRE_NAV_WAIT_MS }),
            BridgeAction::Navigate,
            (BridgeAction::Wait { ms: PRE_EVAL_WAIT_MS }),
            BridgeAction::Inject,
        ],
        spec_bridge_run(BridgePhase::Start, 4) == BridgePhase::Injected,
        spec_bridge_next(spec_bridge_run(BridgePhase::Start, 4)) == BridgeAction::Done,
{
    reveal_with_fuel(spec_bridge_trace, 6);
    reveal_with_fuel(spec_bridge_run, 6);
}

/// The sequence runs once: from the final phase, every further step leaves
/// the bridge where it is and asks for nothing more.
pub proof fn lemma_bridge_runs_once(n: nat)
    ensures
        spec_bridge_run(BridgePhase::Injected, n) == BridgePhase::Injected,
        forall|i: int|
            0 <= i < spec_bridge_trace(BridgePhase::Injected, n).len()
                ==> spec_bridge_trace(BridgePhase::Injected, n)[i] == BridgeAction::Done,
    decreases n,
{
    if n > 0 {
        lemma_bridge_runs_once((n - 1) as nat);
    }
}

/// How many times the page's wrapped open call invokes the native
/// `open_player_window` command, and what it hands back to the page.
#[derive(Clone, Copy, Debug, PartialEq, Eq, Structural)]
pub struct OpenOutcome {
    /// Number of native command invocations the call makes.
    pub native_calls: u32,
    /// True when the call returns a null window reference; false when it
    /// falls through unchanged to the page's original open behavior.
    pub returns_null: bool,
}

/// The target of an in-page open call asks for the player page.
pub open spec fn is_player_url(u: Seq<char>) -> bool {
    contains_seq(u, "player.html"@)
}

/// The interception rule the injected script wraps around the page's
/// window-open entry point. A missing target (`None`, the page passed
/// nothing) falls through like any other non-player target.
pub fn intercept_open(url: Option<&str>) -> (o: OpenOutcome)
    ensures
        (url matches Some(u) && is_player_url(u@)) ==> (o.native_calls == 1 && o.returns_null),
        !(url matches Some(u) && is_player_url(u@)) ==> (o.native_calls == 0 && !o.returns_null),
{
    match url {
        Some(u) => {
            if contains_substr(u, "player.html") {
                OpenOutcome { native_calls: 1, returns_null: true }
            } else {
                OpenOutcome { native_calls: 0, returns_null: false }
            }
        },
        None => OpenOutcome { native_calls: 0, returns_null: false },
    }
}

} // verus!
