//! The pulse engine: a state machine that turns each fresh configuration
//! snapshot into the action the sender performs next.
//!
//! The engine itself does no timing or network work. One `step` consumes a
//! snapshot and yields an [`EngineAction`]; the caller performs the emissions
//! and sleeps it prescribes, then steps again with the next snapshot. The
//! `was_sending` flag is the machine's only memory: it records whether the
//! previous iteration pulsed, so that a single release is emitted on the
//! iteration after sending is disabled.

use vstd::prelude::*;
use crate::config::Config;

verus! {

/// What the sender must do for one iteration of its loop.
#[derive(Clone, Copy, Debug)]
pub enum EngineAction {
    /// Emit value 1, sleep `hold_ms`, emit value 0, sleep `rest_ms`.
    Pulse { port: u16, hold_ms: u64, rest_ms: u64 },
    /// Emit a single value 0 (the release owed from earlier pulsing),
    /// then sleep `idle_ms`.
    Release { port: u16, idle_ms: u64 },
    /// Emit nothing; sleep `idle_ms`.
    Idle { idle_ms: u64 },
}

impl EngineAction {
    /// Every sleep the action prescribes lasts at least one millisecond,
    /// so the loop around the engine never spins.
    pub open spec fn sleeps_at_least_one(self) -> bool {
        match self {
            EngineAction::Pulse { hold_ms, rest_ms, .. } => hold_ms >= 1 && rest_ms >= 1,
            EngineAction::Release { idle_ms, .. } => idle_ms >= 1,
            EngineAction::Idle { idle_ms } => idle_ms >= 1,
        }
    }

    /// How long the action's sleeps last in total: the time from the start
    /// of its iteration to the start of the next.
    pub open spec fn duration_ms(self) -> int {
        match self {
            EngineAction::Pulse { hold_ms, rest_ms, .. } => hold_ms + rest_ms,
            EngineAction::Release { idle_ms, .. } => idle_ms as int,
            EngineAction::Idle { idle_ms } => idle_ms as int,
        }
    }

    /// The values the action emits, in order.
    pub open spec fn emitted_values(self) -> Seq<i32> {
        match self {
            EngineAction::Pulse { .. } => seq![1i32, 0i32],
            EngineAction::Release { .. } => seq![0i32],
            EngineAction::Idle { .. } => Seq::empty(),
        }
    }
}

/// The action one iteration takes, as a function of the machine's memory and
/// the snapshot it read: pulse while enabled, release once on the iteration
/// after sending stops, otherwise stay idle. Durations of zero are coerced
/// up to one; the rest period is the interval less the hold, floored at one.
pub open spec fn action_of(was_sending: bool, cfg: Config) -> EngineAction {
    if cfg.enabled {
        EngineAction::Pulse {
            port: cfg.dest_port,
            hold_ms: if cfg.hold_ms >= 1 { cfg.hold_ms } else { 1 },
            rest_ms: if cfg.interval_ms > cfg.hold_ms { (cfg.interval_ms - cfg.hold_ms) as u64 } else { 1 },
        }
    } else if was_sending {
        EngineAction::Release {
            port: cfg.dest_port,
            idle_ms: if cfg.interval_ms >= 1 { cfg.interval_ms } else { 1 },
        }
    } else {
        EngineAction::Idle {
            idle_ms: if cfg.interval_ms >= 1 { cfg.interval_ms } else { 1 },
        }
    }
}

/// The pulse engine's state machine memory.
pub struct PulseEngine {
    /// Whether the previous iteration pulsed (was in the sending state).
    pub was_sending: bool,
}

impl PulseEngine {
    /// A fresh engine starts idle: no release is owed.
    pub fn new() -> (e: PulseEngine)
        ensures
            !e.was_sending,
    {
        PulseEngine { was_sending: false }
    }

    /// One iteration: decide the action for the snapshot just read and
    /// record whether this iteration pulsed. The action is exactly
    /// [`action_of`] on the old memory, and every sleep it prescribes is
    /// at least one millisecond.
    pub fn step(&mut self, cfg: &Config) -> (action: EngineAction)
        ensures
            action == action_of(old(self).was_sending, *cfg),
            final(self).was_sending == cfg.enabled,
            action.sleeps_at_least_one(),
    {
        if cfg.enabled {
            let hold: u64 = if cfg.hold_ms >= 1 { cfg.hold_ms } else { 1 };
            let rest: u64 = if cfg.interval_ms > cfg.hold_ms { cfg.interval_ms - cfg.hold_ms } else { 1 };
            self.was_sending = true;
            EngineAction::Pulse { port: cfg.dest_port, hold_ms: hold, rest_ms: rest }
        } else {
            let idle: u64 = if cfg.interval_ms >= 1 { cfg.interval_ms } else { 1 };
            let owed_release = self.was_sending;
            self.was_sending = false;
            if owed_release {
                EngineAction::Release { port: cfg.dest_port, idle_ms: idle }
            } else {
                EngineAction::Idle { idle_ms: idle }
            }
        }
    }
}

/// The actions a run of the engine takes: one per snapshot read, starting
/// from the given memory, each iteration's memory feeding the next.
pub open spec fn run(init_was_sending: bool, snaps: Seq<Config>) -> Seq<EngineAction>
    decreases snaps.len(),
{
    if snaps.len() == 0 {
        Seq::empty()
    } else {
        seq![action_of(init_was_sending, snaps[0])] + run(
            snaps[0].enabled,
            snaps.subrange(1, snaps.len() as int),
        )
    }
}

/// Whether the iteration before step `i` of a run had pulsed.
pub open spec fn sending_before(init_was_sending: bool, snaps: Seq<Config>, i: int) -> bool {
    if i == 0 {
        init_was_sending
    } else {
        snaps[i - 1].enabled
    }
}

/// Each action of a run is [`action_of`] applied to the snapshot read at
/// that iteration and the memory left by the iteration before.
pub proof fn lemma_run_characterized(init_was_sending: bool, snaps: Seq<Config>)
    ensures
        run(init_was_sending, snaps).len() == snaps.len(),
        forall|i: int|
            0 <= i < snaps.len() ==> run(init_was_sending, snaps)[i] == action_of(
                sending_before(init_was_sending, snaps, i),
                snaps[i],
            ),
    decreases snaps.len(),
{
    if snaps.len() > 0 {
        let tail = snaps.subrange(1, snaps.len() as int);
        lemma_run_characterized(snaps[0].enabled, tail);
        assert forall|i: int|
            0 <= i < snaps.len() implies run(init_was_sending, snaps)[i] == action_of(
            sending_before(init_was_sending, snaps, i),
            snaps[i],
        ) by {
            if i > 0 {
                assert(run(init_was_sending, snaps)[i] == run(snaps[0].enabled, tail)[i - 1]);
                assert(tail[i - 1] == snaps[i]);
            }
        }
    }
}

/// Law: along any run, iteration `i` emits a release exactly when sending is
/// off in its snapshot and the iteration before had pulsed — so each
/// true-to-false transition of `enabled` yields exactly one release, on the
/// very next iteration; it pulses exactly when sending is on; and it emits
/// nothing exactly when sending is off and no release is owed.
pub proof fn lemma_release_on_disable(init_was_sending: bool, snaps: Seq<Config>, i: int)
    requires
        0 <= i < snaps.len(),
    ensures
        run(init_was_sending, snaps)[i] is Release <==> (!snaps[i].enabled && sending_before(
            init_was_sending,
            snaps,
            i,
        )),
        run(init_was_sending, snaps)[i] is Pulse <==> snaps[i].enabled,
        run(init_was_sending, snaps)[i] is Idle <==> (!snaps[i].enabled && !sending_before(
            init_was_sending,
            snaps,
            i,
        )),
{
    lemma_run_characterized(init_was_sending, snaps);
}

/// Law: after the release that follows a disable, further iterations emit
/// nothing for as long as `enabled` stays false.
pub proof fn lemma_idempotent_disable(init_was_sending: bool, snaps: Seq<Config>, i: int, j: int)
    requires
        0 <= i < j < snaps.len(),
        forall|m: int| i <= m <= j ==> !snaps[m].enabled,
    ensures
        run(init_was_sending, snaps)[j] is Idle,
        run(init_was_sending, snaps)[j].emitted_values() == Seq::<i32>::empty(),
{
    lemma_run_characterized(init_was_sending, snaps);
    assert(!snaps[j - 1].enabled);
}

/// Law: while enabled with a hold of at least one millisecond and shorter
/// than the interval, each iteration lasts exactly one interval, so the
/// press/hold/release cadence repeats with period `interval_ms` — and a
/// disable is observed within one interval of the transition.
pub proof fn lemma_pulse_period(was_sending: bool, cfg: Config)
    requires
        cfg.enabled,
        1 <= cfg.hold_ms < cfg.interval_ms,
    ensures
        action_of(was_sending, cfg).duration_ms() == cfg.interval_ms,
{
}

/// Law: whatever the configuration — a zero interval or hold included —
/// every sleep the engine prescribes lasts at least one millisecond, so the
/// loop around it never busy-waits.
pub proof fn lemma_no_busy_loop(was_sending: bool, cfg: Config)
    ensures
        action_of(was_sending, cfg).sleeps_at_least_one(),
{
}

} // verus!
