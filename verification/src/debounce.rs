//! Debounce scheduler: coalesces a rapid burst of trigger events into at
//! most one fire per quiet period.
//!
//! The scheduler is a timer-coalescing state machine with the states
//! `Idle` and `Armed { payload, deadline }` and a single transition rule:
//! a new event while armed replaces both the payload and the deadline; a
//! poll at or past the deadline while armed fires exactly once with the
//! latest payload and returns to `Idle`. Two independent instances exist
//! in the system (query text and terminal resize); a burst on one never
//! delays a pending fire on the other because each owns its whole state.
//!
//! Time is a monotone instant in milliseconds supplied by the caller, so
//! the machine itself is pure and every transition is verified.

use vstd::prelude::*;

verus! {

/// What a debounce scheduler is doing right now.
pub enum DebounceState<T> {
    /// No trigger is pending.
    Idle,
    /// The latest event is held until the quiet period elapses.
    Armed { payload: T, deadline: u64 },
}

/// A timer-coalescing scheduler for one event stream.
pub struct Debounce<T> {
    /// Quiet period in milliseconds.
    pub quiet_period: u64,
    pub state: DebounceState<T>,
    /// Once torn down, `schedule` is a no-op rather than an error.
    pub torn_down: bool,
}

impl<T> Debounce<T> {
    pub fn new(quiet_period: u64) -> (r: Self)
        ensures
            r.quiet_period == quiet_period,
            r.state is Idle,
            !r.torn_down,
    {
        Debounce { quiet_period, state: DebounceState::Idle, torn_down: false }
    }

    /// Records the latest event and (re)starts the quiet-period timer:
    /// whatever was pending is replaced, so a later `fire` can only ever
    /// deliver the newest payload. After teardown the call changes nothing.
    pub fn schedule(&mut self, event: T, now: u64)
        requires
            now + old(self).quiet_period <= u64::MAX,
        ensures
            final(self).quiet_period == old(self).quiet_period,
            final(self).torn_down == old(self).torn_down,
            old(self).torn_down ==> final(self).state == old(self).state,
            !old(self).torn_down ==> final(self).state == (DebounceState::Armed {
                payload: event,
                deadline: (now + old(self).quiet_period) as u64,
            }),
    {
        if self.torn_down {
            return;
        }
        let deadline = now + self.quiet_period;
        self.state = DebounceState::Armed { payload: event, deadline };
    }

    /// Polls the timer: fires exactly when armed and the deadline has been
    /// reached, returning the latest payload and going back to idle;
    /// otherwise nothing changes and nothing fires.
    pub fn poll(&mut self, now: u64) -> (fired: Option<T>)
        ensures
            final(self).quiet_period == old(self).quiet_period,
            final(self).torn_down == old(self).torn_down,
            match old(self).state {
                DebounceState::Armed { payload, deadline } => {
                    if now >= deadline {
                        &&& fired == Some(payload)
                        &&& final(self).state is Idle
                    } else {
                        &&& fired is None
                        &&& final(self).state == old(self).state
                    }
                },
                DebounceState::Idle => {
                    &&& fired is None
                    &&& final(self).state is Idle
                },
            },
    {
        let due = match &self.state {
            DebounceState::Armed { payload: _, deadline } => now >= *deadline,
            DebounceState::Idle => false,
        };
        if due {
            let mut fired_state = DebounceState::Idle;
            core::mem::swap(&mut self.state, &mut fired_state);
            match fired_state {
                DebounceState::Armed { payload, deadline: _ } => Some(payload),
                DebounceState::Idle => None,
            }
        } else {
            None
        }
    }

    /// After teardown every further `schedule` is a no-op.
    pub fn tear_down(&mut self)
        ensures
            final(self).quiet_period == old(self).quiet_period,
            final(self).state == old(self).state,
            final(self).torn_down,
    {
        self.torn_down = true;
    }
}

/// Debounce law: given a burst of `schedule` calls each spaced less than
/// the quiet period apart, the trigger fires exactly once, with the payload
/// of the last call. The timer is checked when each event arrives — every
/// one of those checks provably stays silent, because the next event comes
/// before the pending deadline — and the one fire is the check at the last
/// deadline, after which the machine is idle again.
pub fn schedule_burst<T>(d: &mut Debounce<T>, events: Vec<(u64, T)>) -> (fired: Option<T>)
    requires
        !old(d).torn_down,
        old(d).state is Idle,
        events@.len() > 0,
        forall|i: int|
            0 <= i < events@.len() ==> #[trigger] events@[i].0 + old(d).quiet_period <= u64::MAX,
        forall|i: int|
            0 < i < events@.len() ==> events@[i - 1].0 <= #[trigger] events@[i].0
                && events@[i].0 < events@[i - 1].0 + old(d).quiet_period,
    ensures
        fired == Some(events@.last().1),
        final(d).state is Idle,
        final(d).quiet_period == old(d).quiet_period,
{
    let ghost all = events@;
    let last_t = events[events.len() - 1].0;
    let mut pending = events;
    // every call simply re-arms the machine with its own payload, so the
    // invariant tracks exactly which payload is held
    while pending.len() > 0
        invariant
            !d.torn_down,
            d.quiet_period == old(d).quiet_period,
            all.len() > 0,
            pending@.len() <= all.len(),
            pending@ == all.skip(all.len() - pending@.len()),
            forall|j: int| 0 <= j < all.len() ==> #[trigger] all[j].0 + d.quiet_period <= u64::MAX,
            forall|j: int|
                0 < j < all.len() ==> all[j - 1].0 <= #[trigger] all[j].0 && all[j].0 < all[j
                    - 1].0 + d.quiet_period,
            pending@.len() == all.len() ==> d.state is Idle,
            pending@.len() < all.len() ==> d.state == (DebounceState::Armed {
                payload: all[all.len() - pending@.len() - 1].1,
                deadline: (all[all.len() - pending@.len() - 1].0 + d.quiet_period) as u64,
            }),
        decreases pending@.len(),
    {
        let ghost k = all.len() - pending@.len();
        let (t, e) = pending.remove(0);
        proof {
            assert(all[k] == (t, e));
            assert(pending@ =~= all.skip(all.len() - pending@.len()));
        }
        // the timer check at this event's arrival: it never fires, because
        // the event arrived before the pending deadline
        let early = d.poll(t);
        assert(early is None);
        d.schedule(e, t);
    }
    proof {
        assert(all.last() == all[all.len() - 1]);
    }
    d.poll(last_t + d.quiet_period)
}

} // verus!
