//! Spinner coordinator: a progress indicator synchronized with in-flight
//! work.
//!
//! The evaluator and the loader bracket their asynchronous spans with
//! `mark_busy` / `mark_idle`; the coordinator keeps a reference count of
//! busy units. The spinner is active exactly while the count is positive,
//! and its animation phase advances only on ticks that arrive while it is
//! active. `mark_idle` saturates at zero so that no ordering of busy/idle
//! pairs can ever drive the count negative, and a unit that fails or is
//! cancelled calls `mark_idle` on that exit path too, so the count never
//! leaks.

use vstd::prelude::*;

verus! {

/// What the renderer needs to draw the spinner glyph.
#[derive(Clone, Copy, Debug, PartialEq, Eq, Structural)]
pub struct SpinnerState {
    /// True exactly while at least one tracked unit is in flight.
    pub active: bool,
    /// Animation frame index; advances only while active.
    pub phase: u64,
}

/// Reference-counting coordinator for the busy units.
pub struct SpinnerCoordinator {
    pub busy_units: u64,
    pub phase: u64,
}

impl SpinnerCoordinator {
    pub fn new() -> (r: Self)
        ensures
            r.busy_units == 0,
            r.phase == 0,
    {
        SpinnerCoordinator { busy_units: 0, phase: 0 }
    }

    /// The spinner is active iff the reference count is positive.
    pub open spec fn spec_active(&self) -> bool {
        self.busy_units > 0
    }

    pub fn active(&self) -> (r: bool)
        ensures
            r == self.spec_active(),
    {
        self.busy_units > 0
    }

    /// A unit enters its asynchronous span.
    pub fn mark_busy(&mut self)
        requires
            old(self).busy_units < u64::MAX,
        ensures
            final(self).busy_units == old(self).busy_units + 1,
            final(self).phase == old(self).phase,
            final(self).spec_active(),
    {
        self.busy_units = self.busy_units + 1;
    }

    /// A unit leaves its span on any exit path (success, error or
    /// cancellation). Saturates at zero: an unmatched call never drives
    /// the count negative.
    pub fn mark_idle(&mut self)
        ensures
            old(self).busy_units > 0 ==> final(self).busy_units == old(self).busy_units - 1,
            old(self).busy_units == 0 ==> final(self).busy_units == 0,
            final(self).phase == old(self).phase,
    {
        if self.busy_units > 0 {
            self.busy_units = self.busy_units - 1;
        }
    }

    /// A fixed-interval tick: advances the phase only while active; a tick
    /// arriving while idle changes nothing.
    pub fn tick(&mut self)
        ensures
            final(self).busy_units == old(self).busy_units,
            old(self).spec_active() ==> final(self).phase == ((old(self).phase + 1) as u64)
                || final(self).phase == 0,
            old(self).spec_active() && old(self).phase < u64::MAX ==> final(self).phase == (
            old(self).phase + 1) as u64,
            !old(self).spec_active() ==> final(self).phase == old(self).phase,
    {
        if self.busy_units > 0 {
            self.phase = self.phase.wrapping_add(1);
        }
    }

    /// The state published into render snapshots.
    pub fn state(&self) -> (r: SpinnerState)
        ensures
            r.active == self.spec_active(),
            r.phase == self.phase,
    {
        SpinnerState { active: self.busy_units > 0, phase: self.phase }
    }
}

/// One bracketing call seen by the coordinator.
#[derive(Clone, Copy, Debug, PartialEq, Eq, Structural)]
pub enum SpinnerOp {
    Busy,
    Idle,
}

/// How one call changes the reference count: `Busy` increments, `Idle`
/// decrements but saturates at zero.
pub open spec fn spec_step(count: int, op: SpinnerOp) -> int {
    match op {
        SpinnerOp::Busy => count + 1,
        SpinnerOp::Idle => if count > 0 {
            count - 1
        } else {
            0
        },
    }
}

/// The reference count after a whole sequence of calls.
pub open spec fn spec_run(count: int, ops: Seq<SpinnerOp>) -> int
    decreases ops.len(),
{
    if ops.len() == 0 {
        count
    } else {
        spec_run(spec_step(count, ops[0]), ops.skip(1))
    }
}

impl SpinnerCoordinator {
    /// Replays a sequence of bracketing calls; the resulting count is
    /// exactly the mathematical run of the sequence.
    pub fn run_ops(&mut self, ops: &Vec<SpinnerOp>)
        requires
            old(self).busy_units + ops@.len() <= u64::MAX,
        ensures
            final(self).busy_units == spec_run(old(self).busy_units as int, ops@),
            final(self).phase == old(self).phase,
    {
        proof {
            assert(ops@.take(0) =~= Seq::<SpinnerOp>::empty());
        }
        let mut i: usize = 0;
        while i < ops.len()
            invariant
                i <= ops@.len(),
                old(self).busy_units + ops@.len() <= u64::MAX,
                self.busy_units as int == spec_run(old(self).busy_units as int, ops@.take(i as int)),
                self.busy_units + (ops@.len() - i) <= u64::MAX,
                self.phase == old(self).phase,
            decreases ops@.len() - i,
        {
            proof {
                lemma_run_snoc(old(self).busy_units as int, ops@, i as int);
            }
            match ops[i] {
                SpinnerOp::Busy => self.mark_busy(),
                SpinnerOp::Idle => self.mark_idle(),
            }
            i = i + 1;
        }
        proof {
            assert(ops@.take(ops@.len() as int) =~= ops@);
        }
    }
}

/// Extending a run by one call steps the count once more.
proof fn lemma_run_snoc(count: int, ops: Seq<SpinnerOp>, i: int)
    requires
        0 <= i < ops.len(),
    ensures
        spec_run(count, ops.take(i + 1)) == spec_step(spec_run(count, ops.take(i)), ops[i]),
    decreases i,
{
    reveal_with_fuel(spec_run, 3);
    if i == 0 {
        assert(ops.take(1)[0] == ops[0]);
        assert(ops.take(1).skip(1) =~= Seq::<SpinnerOp>::empty());
        assert(ops.take(0) =~= Seq::<SpinnerOp>::empty());
        assert(spec_run(count, ops.take(1)) == spec_step(count, ops[0]));
    } else {
        assert(ops.take(i + 1)[0] == ops[0]);
        assert(ops.take(i + 1).skip(1) =~= ops.skip(1).take(i));
        assert(ops.take(i).skip(1) =~= ops.skip(1).take(i - 1));
        lemma_run_snoc(spec_step(count, ops[0]), ops.skip(1), i - 1);
        assert(ops.skip(1)[i - 1] == ops[i]);
    }
}

/// Spinner law: starting from a non-negative count, no sequence of calls —
/// any interleaving of busy/idle pairs included — ever drives the
/// reference count negative, because `Idle` saturates at zero; and the
/// count never grows past one step per call.
pub proof fn lemma_run_bounded(count: int, ops: Seq<SpinnerOp>)
    requires
        count >= 0,
    ensures
        spec_run(count, ops) >= 0,
        spec_run(count, ops) <= count + ops.len(),
    decreases ops.len(),
{
    if ops.len() > 0 {
        lemma_run_bounded(spec_step(count, ops[0]), ops.skip(1));
    }
}

/// Spinner law: the sequence busy, busy, idle, idle ends with the count at
/// zero, so the spinner reports inactive afterwards.
pub proof fn lemma_two_pairs_end_idle()
    ensures
        spec_run(
            0,
            seq![SpinnerOp::Busy, SpinnerOp::Busy, SpinnerOp::Idle, SpinnerOp::Idle],
        ) == 0,
{
    reveal_with_fuel(spec_run, 5);
    let ops = seq![SpinnerOp::Busy, SpinnerOp::Busy, SpinnerOp::Idle, SpinnerOp::Idle];
    assert(ops.skip(1) =~= seq![SpinnerOp::Busy, SpinnerOp::Idle, SpinnerOp::Idle]);
    assert(ops.skip(1).skip(1) =~= seq![SpinnerOp::Idle, SpinnerOp::Idle]);
    assert(ops.skip(1).skip(1).skip(1) =~= seq![SpinnerOp::Idle]);
    assert(ops.skip(1).skip(1).skip(1).skip(1) =~= Seq::<SpinnerOp>::empty());
}

} // verus!
