//! The fadeout transition: a full-screen overlay that ramps its opacity over
//! a configured duration and then replaces the current state with a
//! configured next state, exactly once.

use vstd::prelude::*;

use crate::geometry::Vec2;
use crate::state::{AppState, StateStack, Transition};

verus! {

/// Largest allowed duration or tick, in milliseconds.
pub const TIME_LIMIT: i64 = 1000000000;

/// A non-repeating countdown over a fixed duration, in milliseconds.
#[derive(Debug, Clone, Copy, PartialEq, Eq, Structural)]
pub struct FadeTimer {
    elapsed: i64,
    duration: i64,
}

impl FadeTimer {
    /// The duration is positive and capped, and the elapsed time is clamped
    /// to the duration.
    pub open spec fn wf(self) -> bool {
        &&& 0 < self.spec_duration() <= TIME_LIMIT
        &&& 0 <= self.spec_elapsed() <= self.spec_duration()
    }

    /// The time this timer has accumulated, in milliseconds.
    pub closed spec fn spec_elapsed(self) -> int {
        self.elapsed as int
    }

    /// The full duration of this timer, in milliseconds.
    pub closed spec fn spec_duration(self) -> int {
        self.duration as int
    }

    /// A fresh timer over the given duration.
    pub fn new(duration_ms: i64) -> (t: Self)
        requires
            0 < duration_ms <= TIME_LIMIT,
        ensures
            t.wf(),
            t.spec_elapsed() == 0,
            t.spec_duration() == duration_ms,
    {
        FadeTimer { elapsed: 0, duration: duration_ms }
    }

    /// Advances the timer; the elapsed time is clamped to the duration.
    pub fn tick(&mut self, delta_ms: i64)
        requires
            old(self).wf(),
            0 <= delta_ms <= TIME_LIMIT,
        ensures
            final(self).wf(),
            final(self).spec_duration() == old(self).spec_duration(),
            final(self).spec_elapsed() == if old(self).spec_elapsed() + delta_ms
                <= old(self).spec_duration() {
                old(self).spec_elapsed() + delta_ms
            } else {
                old(self).spec_duration()
            },
    {
        if self.elapsed + delta_ms <= self.duration {
            self.elapsed = self.elapsed + delta_ms;
        } else {
            self.elapsed = self.duration;
        }
    }

    /// Whether the timer has run its full duration.
    pub fn finished(&self) -> (r: bool)
        requires
            self.wf(),
        ensures
            r == (self.spec_elapsed() == self.spec_duration()),
    {
        self.elapsed >= self.duration
    }

    /// How far the timer has run, in thousandths of its duration.
    pub fn percent_permille(&self) -> (r: i64)
        requires
            self.wf(),
        ensures
            r == self.spec_elapsed() * 1000 / self.spec_duration(),
            0 <= r <= 1000,
    {
        proof {
            vstd::arithmetic::div_mod::lemma_div_pos_is_pos(
                self.spec_elapsed() * 1000,
                self.spec_duration(),
            );
            vstd::arithmetic::div_mod::lemma_div_is_ordered(
                self.spec_elapsed() * 1000,
                self.spec_duration() * 1000,
                self.spec_duration(),
            );
            vstd::arithmetic::div_mod::lemma_div_multiples_vanish(1000, self.spec_duration());
        }
        self.elapsed * 1000 / self.duration
    }
}

/// The opacity the fadeout overlay shows while its timer runs, in
/// thousandths: the timer's progress plus a floor of 0.3, so the overlay is
/// never fully transparent. The renderer clamps anything above full opacity.
pub fn fadeout_alpha_permille(timer: &FadeTimer) -> (r: i64)
    requires
        timer.wf(),
    ensures
        r == timer.spec_elapsed() * 1000 / timer.spec_duration() + 300,
        300 <= r <= 1300,
{
    timer.percent_permille() + 300
}

/// One-shot configuration for a fadeout, produced by whoever triggers it
/// (for example the encounter check) and consumed exactly once when the
/// fadeout state is entered.
#[derive(Debug, Clone, Copy, PartialEq, Eq, Structural)]
pub struct FadeoutConfigResource {
    /// How long the opacity ramp runs, in milliseconds.
    pub fadeout_duration: i64,
    /// The state set once the ramp completes.
    pub next_state: AppState,
    /// Where the overlay is centred: the screen position at trigger time.
    pub position: Vec2,
}

/// A live fadeout overlay: its countdown and the state it will set.
#[derive(Debug, Clone, Copy, PartialEq, Eq, Structural)]
pub struct FadeoutStatus {
    pub next_state: AppState,
    pub position: Vec2,
    pub timer: FadeTimer,
}

impl FadeoutStatus {
    /// The timer is well formed.
    pub open spec fn wf(self) -> bool {
        self.timer.wf()
    }
}

/// Entering the fadeout state: consumes the one-shot configuration and
/// spawns the overlay with a fresh timer over the configured duration.
/// The configuration must be present; entering a fadeout without one is a
/// programmer-invariant violation.
pub fn create_fadeout(config: &mut Option<FadeoutConfigResource>) -> (s: FadeoutStatus)
    requires
        (*old(config)) matches Some(c) && 0 < c.fadeout_duration <= TIME_LIMIT,
    ensures
        (*final(config)).is_none(),
        s.wf(),
        s.next_state == old(config)->Some_0.next_state,
        s.position == old(config)->Some_0.position,
        s.timer.spec_elapsed() == 0,
        s.timer.spec_duration() == old(config)->Some_0.fadeout_duration,
{
    let c = config.unwrap();
    *config = None;
    FadeoutStatus {
        next_state: c.next_state,
        position: c.position,
        timer: FadeTimer::new(c.fadeout_duration),
    }
}

/// One frame of a live fadeout: the countdown advances, and on completion
/// the overlay despawns (the slot empties) and the configured next state
/// replaces the current state, exactly once. Returns the fired transitions
/// when that happens. An empty slot does nothing.
pub fn update_fadeout(
    slot: &mut Option<FadeoutStatus>,
    stack: &mut StateStack,
    delta_ms: i64,
) -> (t: Option<Vec<Transition>>)
    requires
        (*old(slot)) matches Some(s) ==> s.wf(),
        old(stack).wf(),
        0 <= delta_ms <= TIME_LIMIT,
    ensures
        final(stack).wf(),
        (*final(slot)) matches Some(s) ==> s.wf(),
        match *old(slot) {
            None => {
                &&& *final(slot) == *old(slot)
                &&& *final(stack) == *old(stack)
                &&& t.is_none()
            },
            Some(s) => {
                if s.timer.spec_elapsed() + delta_ms >= s.timer.spec_duration() {
                    &&& (*final(slot)).is_none()
                    &&& final(stack)@ == old(stack)@.update(
                        old(stack)@.len() - 1,
                        s.next_state,
                    )
                    &&& t matches Some(fired) && fired@ == seq![
                        Transition::Exit(old(stack)@.last()),
                        Transition::Enter(s.next_state),
                    ]
                } else {
                    &&& ((*final(slot)) matches Some(after) && {
                        &&& after.timer.spec_elapsed() == s.timer.spec_elapsed() + delta_ms
                        &&& after.timer.spec_duration() == s.timer.spec_duration()
                        &&& after.next_state == s.next_state
                        &&& after.position == s.position
                    })
                    &&& *final(stack) == *old(stack)
                    &&& t.is_none()
                }
            },
        },
{
    let finished_next: Option<AppState> = match slot {
        None => None,
        Some(status) => {
            status.timer.tick(delta_ms);
            if status.timer.finished() {
                Some(status.next_state)
            } else {
                None
            }
        },
    };
    match finished_next {
        None => None,
        Some(next) => {
            let fired = stack.set(next);
            *slot = None;
            Some(fired)
        },
    }
}

} // verus!
