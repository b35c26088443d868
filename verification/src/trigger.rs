//! The hotkey trigger pipeline: raw key-state decoding, the debounce rule
//! that spaces accepted triggers apart, and the per-tick decision of the
//! polling loop.

use vstd::prelude::*;

verus! {

/// Milliseconds that must elapse between two accepted triggers.
pub const DEBOUNCE_MS: u64 = 700;

/// Tick interval of the trigger polling loop, in milliseconds.
pub const TICK_INTERVAL_MS: u64 = 40;

/// True when a raw key-state word (as returned by the asynchronous key-state
/// accessor) reports the key as currently held down: its high bit is set.
pub fn key_state_down(raw: u16) -> (down: bool)
    ensures
        down == (raw & 0x8000u16 != 0u16),
{
    raw & 0x8000 != 0
}

/// Debounce state of the trigger loop: the time of the last accepted trigger,
/// or `None` before the first one.
#[derive(Clone, Copy, Debug)]
pub struct Debouncer {
    pub last_accept_ms: Option<u64>,
}

impl Debouncer {
    /// A trigger observed at `now_ms` is accepted when none has been accepted
    /// yet, or when strictly more than `DEBOUNCE_MS` have passed since the
    /// last accepted one.
    pub open spec fn accepts(self, now_ms: u64) -> bool {
        match self.last_accept_ms {
            Option::None => true,
            Option::Some(t) => now_ms > t + DEBOUNCE_MS,
        }
    }

    /// The state after accepting a trigger at `now_ms`.
    pub open spec fn accepted(self, now_ms: u64) -> Debouncer {
        Debouncer { last_accept_ms: Option::Some(now_ms) }
    }

    /// A fresh debouncer; it accepts the first trigger at any time.
    pub fn new() -> (d: Debouncer)
        ensures
            d.last_accept_ms == Option::<u64>::None,
            forall|now_ms: u64| d.accepts(now_ms),
    {
        Debouncer { last_accept_ms: None }
    }

    /// Accepts or rejects a trigger observed at `now_ms`.  On acceptance the
    /// timestamp is recorded immediately, so a second chord observed within
    /// the debounce window is rejected even while the first trigger's work is
    /// still in flight.
    pub fn try_accept(&mut self, now_ms: u64) -> (fired: bool)
        ensures
            fired == old(self).accepts(now_ms),
            fired ==> *final(self) == old(self).accepted(now_ms),
            !fired ==> *final(self) == *old(self),
    {
        let fire = match self.last_accept_ms {
            None => true,
            Some(t) => now_ms > t && now_ms - t > DEBOUNCE_MS,
        };
        if fire {
            self.last_accept_ms = Some(now_ms);
        }
        fire
    }
}

/// Two accepted triggers can never lie `DEBOUNCE_MS` or closer together:
/// whenever a trigger accepted at `t1` is followed by one accepted at `t2`,
/// then `t2 > t1 + DEBOUNCE_MS`, whatever the poll tick granularity was.
pub proof fn lemma_debounce_spacing(d: Debouncer, t1: u64, t2: u64)
    requires
        d.accepts(t1),
        d.accepted(t1).accepts(t2),
    ensures
        t2 > t1 + DEBOUNCE_MS,
{
}

/// What one tick of the trigger loop decides to do.
#[derive(Clone, Copy, Debug, PartialEq, Eq, Structural)]
pub enum TickAction {
    /// The shutdown signal is raised: leave the loop.
    Exit,
    /// The full hotkey chord is down and the debounce window has passed:
    /// run one focus-snapshot / enumerate / select / apply round.
    Fire,
    /// Nothing to do this tick.
    Idle,
}

/// What a tick decides, as a function of what it observes: exit when the
/// shutdown signal is raised; otherwise fire exactly when all three chord
/// keys are down and the debouncer accepts the trigger at `now_ms`.
pub open spec fn tick_action(
    shutdown_raised: bool,
    control_down: bool,
    shift_down: bool,
    chord_key_down: bool,
    deb: Debouncer,
    now_ms: u64,
) -> TickAction {
    if shutdown_raised {
        TickAction::Exit
    } else if control_down && shift_down && chord_key_down && deb.accepts(now_ms) {
        TickAction::Fire
    } else {
        TickAction::Idle
    }
}

/// One tick of the trigger loop: exit when the shutdown signal is raised;
/// otherwise fire exactly when all three chord keys are down and the
/// debouncer accepts the trigger at `now_ms`.
pub fn trigger_tick(
    shutdown_raised: bool,
    control_down: bool,
    shift_down: bool,
    chord_key_down: bool,
    deb: &mut Debouncer,
    now_ms: u64,
) -> (action: TickAction)
    ensures
        action == tick_action(
            shutdown_raised,
            control_down,
            shift_down,
            chord_key_down,
            *old(deb),
            now_ms,
        ),
        action == TickAction::Fire ==> *final(deb) == old(deb).accepted(now_ms),
        action != TickAction::Fire ==> *final(deb) == *old(deb),
{
    if shutdown_raised {
        return TickAction::Exit;
    }
    if control_down && shift_down && chord_key_down {
        if deb.try_accept(now_ms) {
            return TickAction::Fire;
        }
    }
    TickAction::Idle
}

} // verus!
