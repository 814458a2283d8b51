//! Post-write durable-checkpoint settings: the environment kill-switch and
//! the debounce window.

use vstd::prelude::*;
use crate::text::{
    eq_ignore_ascii_case, eq_ignore_ascii_case_spec, parse_unsigned, parse_unsigned_spec, str_eq,
};

verus! {

/// Environment kill-switch for the post-write checkpoint.
pub const POST_WRITE_CHECKPOINT_DISABLE_ENV: &'static str = "ABERP_POST_WRITE_CHECKPOINT_DISABLE";

/// Environment override (seconds) of the debounce window.
pub const POST_WRITE_CHECKPOINT_DEBOUNCE_ENV: &'static str = "ABERP_POST_WRITE_CHECKPOINT_DEBOUNCE_SECS";

/// Debounce window when the override is absent or unusable.
pub const DEFAULT_DEBOUNCE_SECS: u64 = 60;

/// `s.parse::<u64>()`: an optional `+` followed by ASCII digits, within
/// range.
fn parse_u64(s: &str) -> (r: Option<u64>)
    ensures
        r is Some <==> parse_unsigned_spec(s@, u64::MAX as nat) is Some,
        r is Some ==> r->0 as nat == parse_unsigned_spec(s@, u64::MAX as nat)->0,
{
    parse_unsigned(s, u64::MAX)
}

pub open spec fn disabled_spec(value: Option<Seq<char>>) -> bool {
    match value {
        Some(v) => v == "1"@ || eq_ignore_ascii_case_spec(v, "true"@),
        None => false,
    }
}

/// The kill-switch value (`None` when unset) disables the checkpoint when
/// it is `1` or `true` in any ASCII case.
pub fn is_disabled(value: Option<&str>) -> (r: bool)
    ensures
        r == disabled_spec(
            match value {
                Some(v) => Some(v@),
                None => None,
            },
        ),
{
    match value {
        Some(v) => str_eq(v, "1") || eq_ignore_ascii_case(v, "true"),
        None => false,
    }
}

pub open spec fn debounce_spec(value: Option<Seq<char>>) -> u64 {
    match value {
        Some(v) => match parse_unsigned_spec(v, u64::MAX as nat) {
            Some(n) => if n > 0 {
                n as u64
            } else {
                DEFAULT_DEBOUNCE_SECS
            },
            None => DEFAULT_DEBOUNCE_SECS,
        },
        None => DEFAULT_DEBOUNCE_SECS,
    }
}

/// Debounce window in seconds: the override when it parses as a positive
/// integer, else the default.
pub fn debounce_secs(value: Option<&str>) -> (r: u64)
    ensures
        r == debounce_spec(
            match value {
                Some(v) => Some(v@),
                None => None,
            },
        ),
        r > 0,
{
    match value {
        Some(v) => match parse_u64(v) {
            Some(n) => {
                if n > 0 {
                    n
                } else {
                    DEFAULT_DEBOUNCE_SECS
                }
            },
            None => DEFAULT_DEBOUNCE_SECS,
        },
        None => DEFAULT_DEBOUNCE_SECS,
    }
}

// ── Debouncer ────────────────────────────────────────────────────────

/// Where the post-write debouncer stands.
#[derive(Clone, Copy, Debug, PartialEq, Eq, Structural)]
pub enum DebounceState {
    /// Waiting for a write to be signalled.
    Idle,
    /// A write was signalled; the debounce window is running so that a
    /// burst of writes is folded into one checkpoint.
    Coalescing,
    /// The checkpoint is running off the request path.
    Checkpointing,
}

/// What the debouncer's loop observed.
#[derive(Clone, Copy, Debug, PartialEq, Eq, Structural)]
pub enum DebounceEvent {
    /// Graceful shutdown was requested.
    Cancelled,
    /// A regulated write committed.
    Triggered,
    /// The debounce window ran out.
    WindowElapsed,
    /// The checkpoint task ended (successfully or not).
    CheckpointFinished,
}

/// What the loop does next.
#[derive(Clone, Copy, Debug, PartialEq, Eq, Structural)]
pub enum DebounceAction {
    /// Leave the loop.
    Stop,
    /// Wait for the next signalled write (or shutdown).
    AwaitTrigger,
    /// Sleep for the debounce window (or until shutdown).
    AwaitWindow,
    /// Start one durable checkpoint off the request path.
    RunCheckpoint,
    /// Keep waiting for the running checkpoint to end.
    AwaitCheckpoint,
}

pub open spec fn debounce_step_spec(state: DebounceState, event: DebounceEvent) -> (
    DebounceState,
    DebounceAction,
) {
    match state {
        DebounceState::Idle => match event {
            DebounceEvent::Cancelled => (DebounceState::Idle, DebounceAction::Stop),
            DebounceEvent::Triggered => (DebounceState::Coalescing, DebounceAction::AwaitWindow),
            _ => (DebounceState::Idle, DebounceAction::AwaitTrigger),
        },
        DebounceState::Coalescing => match event {
            DebounceEvent::Cancelled => (DebounceState::Coalescing, DebounceAction::Stop),
            DebounceEvent::WindowElapsed => (
                DebounceState::Checkpointing,
                DebounceAction::RunCheckpoint,
            ),
            _ => (DebounceState::Coalescing, DebounceAction::AwaitWindow),
        },
        DebounceState::Checkpointing => match event {
            DebounceEvent::CheckpointFinished => (DebounceState::Idle, DebounceAction::AwaitTrigger),
            _ => (DebounceState::Checkpointing, DebounceAction::AwaitCheckpoint),
        },
    }
}

/// One decision of the debounce loop. A write wakes the idle debouncer,
/// which then waits out the window — writes arriving meanwhile fold into
/// the same checkpoint — takes one checkpoint, and goes back to waiting.
/// Shutdown stops the loop while it waits; a running checkpoint is always
/// awaited to its end. An event that cannot occur in a state leaves it
/// waiting as before.
pub fn debounce_step(state: DebounceState, event: DebounceEvent) -> (r: (
    DebounceState,
    DebounceAction,
))
    ensures
        r == debounce_step_spec(state, event),
        r.1 is RunCheckpoint <==> (state is Coalescing && event is WindowElapsed),
        r.1 is Stop ==> event is Cancelled && !(state is Checkpointing),
{
    match state {
        DebounceState::Idle => match event {
            DebounceEvent::Cancelled => (DebounceState::Idle, DebounceAction::Stop),
            DebounceEvent::Triggered => (DebounceState::Coalescing, DebounceAction::AwaitWindow),
            _ => (DebounceState::Idle, DebounceAction::AwaitTrigger),
        },
        DebounceState::Coalescing => match event {
            DebounceEvent::Cancelled => (DebounceState::Coalescing, DebounceAction::Stop),
            DebounceEvent::WindowElapsed => (
                DebounceState::Checkpointing,
                DebounceAction::RunCheckpoint,
            ),
            _ => (DebounceState::Coalescing, DebounceAction::AwaitWindow),
        },
        DebounceState::Checkpointing => match event {
            DebounceEvent::CheckpointFinished => (DebounceState::Idle, DebounceAction::AwaitTrigger),
            _ => (DebounceState::Checkpointing, DebounceAction::AwaitCheckpoint),
        },
    }
}

/// The state reached and the actions issued when the loop observes
/// `events` in order, starting in `state`.
pub open spec fn run_events(state: DebounceState, events: Seq<DebounceEvent>) -> (
    DebounceState,
    Seq<DebounceAction>,
)
    decreases events.len(),
{
    if events.len() == 0 {
        (state, Seq::empty())
    } else {
        let (next, action) = debounce_step_spec(state, events[0]);
        let (last, rest) = run_events(next, events.drop_first());
        (last, seq![action] + rest)
    }
}

/// How many checkpoints the actions start.
pub open spec fn checkpoints_started(actions: Seq<DebounceAction>) -> nat
    decreases actions.len(),
{
    if actions.len() == 0 {
        0
    } else {
        (if actions[0] is RunCheckpoint {
            1nat
        } else {
            0nat
        }) + checkpoints_started(actions.drop_first())
    }
}

/// A write, `burst` further writes inside the debounce window, the window
/// running out, and the checkpoint ending.
pub open spec fn burst_events(burst: nat) -> Seq<DebounceEvent> {
    seq![DebounceEvent::Triggered] + Seq::new(burst, |i: int| DebounceEvent::Triggered) + seq![
        DebounceEvent::WindowElapsed,
        DebounceEvent::CheckpointFinished,
    ]
}

proof fn lemma_coalescing_absorbs(k: nat, tail: Seq<DebounceEvent>)
    ensures
        run_events(
            DebounceState::Coalescing,
            Seq::new(k, |i: int| DebounceEvent::Triggered) + tail,
        ).0 == run_events(DebounceState::Coalescing, tail).0,
        checkpoints_started(
            run_events(
                DebounceState::Coalescing,
                Seq::new(k, |i: int| DebounceEvent::Triggered) + tail,
            ).1,
        ) == checkpoints_started(run_events(DebounceState::Coalescing, tail).1),
    decreases k,
{
    let evs = Seq::new(k, |i: int| DebounceEvent::Triggered) + tail;
    if k == 0 {
        assert(evs =~= tail);
    } else {
        let shorter = Seq::new((k - 1) as nat, |i: int| DebounceEvent::Triggered) + tail;
        assert(evs[0] == DebounceEvent::Triggered);
        assert(evs.drop_first() =~= shorter);
        lemma_coalescing_absorbs((k - 1) as nat, tail);
        let (last, rest) = run_events(DebounceState::Coalescing, shorter);
        let acts = seq![DebounceAction::AwaitWindow] + rest;
        assert(acts[0] == DebounceAction::AwaitWindow);
        assert(acts.drop_first() =~= rest);
    }
}

/// A burst of writes is folded into a single checkpoint: however many
/// writes arrive while the debounce window runs, the loop starts exactly
/// one checkpoint and returns to waiting once it ends.
pub proof fn lemma_burst_yields_one_checkpoint(burst: nat)
    ensures
        run_events(DebounceState::Idle, burst_events(burst)).0 == DebounceState::Idle,
        checkpoints_started(run_events(DebounceState::Idle, burst_events(burst)).1) == 1,
{
    let evs = burst_events(burst);
    let tail = seq![DebounceEvent::WindowElapsed, DebounceEvent::CheckpointFinished];
    let middle = Seq::new(burst, |i: int| DebounceEvent::Triggered) + tail;
    assert(evs[0] == DebounceEvent::Triggered);
    assert(evs.drop_first() =~= middle);
    lemma_coalescing_absorbs(burst, tail);
    // The tail: the window elapses, the checkpoint runs and finishes.
    let t1 = tail.drop_first();
    assert(tail[0] == DebounceEvent::WindowElapsed);
    assert(t1.len() == 1 && t1[0] == DebounceEvent::CheckpointFinished);
    assert(t1.drop_first() =~= Seq::<DebounceEvent>::empty());
    let none = Seq::<DebounceAction>::empty();
    assert(run_events(DebounceState::Idle, t1.drop_first()) == (DebounceState::Idle, none));
    let inner = seq![DebounceAction::AwaitTrigger] + none;
    assert(run_events(DebounceState::Checkpointing, t1) == (DebounceState::Idle, inner));
    assert(inner.len() == 1 && inner[0] == DebounceAction::AwaitTrigger);
    assert(inner.drop_first() =~= none);
    assert(checkpoints_started(none) == 0);
    assert(checkpoints_started(inner) == 0);
    let tail_acts = seq![DebounceAction::RunCheckpoint] + inner;
    assert(run_events(DebounceState::Coalescing, tail) == (DebounceState::Idle, tail_acts));
    assert(tail_acts[0] == DebounceAction::RunCheckpoint);
    assert(tail_acts.drop_first() =~= inner);
    assert(checkpoints_started(tail_acts) == 1);
    let (last, rest) = run_events(DebounceState::Coalescing, middle);
    let acts = seq![DebounceAction::AwaitWindow] + rest;
    assert(acts.drop_first() =~= rest);
}

} // verus!
