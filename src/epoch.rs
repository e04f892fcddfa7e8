//! When a run is restarted: the bookkeeping of an epoch, from one reset of
//! the machine to the next.

use vstd::prelude::*;

verus! {

/// What the driver does after a step.
#[derive(Clone, Copy, Debug, PartialEq, Eq, Structural)]
pub struct Tick {
    /// Render and emit a frame.
    pub render: bool,
    /// Start a new epoch: a fresh table, a blank tape, head and state back to 0.
    pub reset: bool,
}

/// The abstract contents of an epoch tracker.
pub struct EpochView {
    /// The step budget of an epoch.
    pub reset_steps: nat,
    /// A frame is emitted every `picture_steps` steps.
    pub picture_steps: nat,
    /// Steps taken in the current epoch.
    pub steps: nat,
    /// Whether a step of the current epoch changed the tape.
    pub changed: bool,
}

impl EpochView {
    /// The invariant every tracker keeps.
    pub open spec fn wf(self) -> bool {
        &&& self.picture_steps >= 1
        &&& self.picture_steps <= u32::MAX
        &&& self.reset_steps <= u32::MAX
        &&& (self.steps == 0 || self.steps < self.reset_steps)
    }

    /// At the start of an epoch.
    pub open spec fn is_fresh(self) -> bool {
        self.steps == 0 && !self.changed
    }

    /// The decision after one more step, which changed the tape or not.
    /// A frame is due when the step count reaches a multiple of
    /// `picture_steps`; the epoch ends when a frame is due and no step of
    /// the epoch changed the tape, or when the step count reaches the budget.
    pub open spec fn tick(self, step_changed: bool) -> Tick {
        let n = self.steps + 1;
        let render = n % self.picture_steps == 0;
        Tick {
            render,
            reset: (render && !(self.changed || step_changed)) || n >= self.reset_steps,
        }
    }

    /// The tracker after one more step.
    pub open spec fn after(self, step_changed: bool) -> EpochView {
        if self.tick(step_changed).reset {
            EpochView { steps: 0, changed: false, ..self }
        } else {
            EpochView { steps: self.steps + 1, changed: self.changed || step_changed, ..self }
        }
    }
}

/// The tracker after a run of steps, `changes[i]` telling whether step `i`
/// changed the tape.
pub open spec fn run_epoch(e: EpochView, changes: Seq<bool>) -> EpochView
    decreases changes.len(),
{
    if changes.len() == 0 {
        e
    } else {
        run_epoch(e, changes.drop_last()).after(changes.last())
    }
}

/// The decision after the last step of a non-empty run.
pub open spec fn last_tick(e: EpochView, changes: Seq<bool>) -> Tick
    recommends
        changes.len() >= 1,
{
    run_epoch(e, changes.drop_last()).tick(changes.last())
}

/// Tracks one epoch of a run for its driver.
pub struct Epoch {
    reset_steps: u32,
    picture_steps: u32,
    steps: u32,
    changed: bool,
}

impl View for Epoch {
    type V = EpochView;

    closed spec fn view(&self) -> EpochView {
        EpochView {
            reset_steps: self.reset_steps as nat,
            picture_steps: self.picture_steps as nat,
            steps: self.steps as nat,
            changed: self.changed,
        }
    }
}

impl Epoch {
    /// A tracker at the start of an epoch, with a budget of `reset_steps`
    /// steps and a frame every `picture_steps` steps.
    pub fn new(reset_steps: u32, picture_steps: u32) -> (r: Epoch)
        requires
            picture_steps >= 1,
        ensures
            r@.wf(),
            r@.is_fresh(),
            r@.reset_steps == reset_steps,
            r@.picture_steps == picture_steps,
    {
        Epoch { reset_steps, picture_steps, steps: 0, changed: false }
    }

    /// Records one step, which changed the tape or not, and returns what the
    /// driver does next.
    pub fn record(&mut self, step_changed: bool) -> (r: Tick)
        requires
            old(self)@.wf(),
        ensures
            r == old(self)@.tick(step_changed),
            final(self)@ == old(self)@.after(step_changed),
            final(self)@.wf(),
    {
        let n = self.steps + 1;
        let any_change = self.changed || step_changed;
        let render = n % self.picture_steps == 0;
        let reset = (render && !any_change) || n >= self.reset_steps;
        if reset {
            self.steps = 0;
            self.changed = false;
        } else {
            self.steps = n;
            self.changed = any_change;
        }
        Tick { render, reset }
    }

    /// Steps taken in the current epoch.
    pub fn steps(&self) -> (r: u32)
        ensures
            r == self@.steps,
    {
        self.steps
    }

    /// Whether a step of the current epoch changed the tape.
    pub fn changed(&self) -> (r: bool)
        ensures
            r == self@.changed,
    {
        self.changed
    }

    /// The step budget of an epoch.
    pub fn reset_steps(&self) -> (r: u32)
        ensures
            r == self@.reset_steps,
    {
        self.reset_steps
    }

    /// The number of steps between two frames.
    pub fn picture_steps(&self) -> (r: u32)
        ensures
            r == self@.picture_steps,
    {
        self.picture_steps
    }
}

/// A step keeps the tracker's invariant and its two settings.
pub proof fn lemma_after_keeps_wf(e: EpochView, step_changed: bool)
    requires
        e.wf(),
    ensures
        e.after(step_changed).wf(),
        e.after(step_changed).reset_steps == e.reset_steps,
        e.after(step_changed).picture_steps == e.picture_steps,
{
}

/// From a fresh tracker, a run of `j` steps of which none ended the epoch
/// leaves `j` steps counted.
proof fn lemma_steps_counted(e: EpochView, changes: Seq<bool>, j: int)
    requires
        e.wf(),
        e.is_fresh(),
        0 <= j <= changes.len(),
        forall|i: int| 1 <= i <= j ==> !(#[trigger] last_tick(e, changes.take(i))).reset,
    ensures
        run_epoch(e, changes.take(j)).steps == j,
        run_epoch(e, changes.take(j)).wf(),
        run_epoch(e, changes.take(j)).reset_steps == e.reset_steps,
        run_epoch(e, changes.take(j)).picture_steps == e.picture_steps,
    decreases j,
{
    if j == 0 {
        assert(changes.take(0) =~= Seq::<bool>::empty());
    } else {
        lemma_steps_counted(e, changes, j - 1);
        let pre = changes.take(j);
        assert(pre.drop_last() =~= changes.take(j - 1));
        assert(!last_tick(e, pre).reset);
        lemma_after_keeps_wf(run_epoch(e, changes.take(j - 1)), pre.last());
    }
}

/// A stagnant epoch ends at its first frame: from a fresh tracker whose
/// frame interval fits in its budget, `picture_steps` steps none of which
/// changes the tape end no epoch before the last one, and the last one both
/// renders a frame and ends the epoch, leaving a fresh tracker.
pub proof fn lemma_stagnant_epoch_resets(e: EpochView, changes: Seq<bool>)
    requires
        e.wf(),
        e.is_fresh(),
        e.picture_steps <= e.reset_steps,
        changes.len() == e.picture_steps,
        forall|i: int| 0 <= i < changes.len() ==> !(#[trigger] changes[i]),
    ensures
        forall|j: int|
            1 <= j < changes.len() ==> !(#[trigger] last_tick(e, changes.take(j))).reset,
        last_tick(e, changes) == (Tick { render: true, reset: true }),
        run_epoch(e, changes).is_fresh(),
        run_epoch(e, changes).wf(),
{
    let k = changes.len() as int;
    assert forall|j: int| 0 <= j < k implies run_epoch(e, changes.take(j)) == (EpochView {
        steps: j as nat,
        ..e
    }) by {
        lemma_quiet_prefix(e, changes, j);
    }
    assert forall|j: int| 1 <= j < k implies !(#[trigger] last_tick(e, changes.take(j))).reset by {
        let pre = changes.take(j);
        assert(pre.drop_last() =~= changes.take(j - 1));
        assert(j % (e.picture_steps as int) == j) by (nonlinear_arith)
            requires
                0 < j < e.picture_steps,
        ;
    }
    assert(changes.drop_last() =~= changes.take(k - 1));
    assert(k % (e.picture_steps as int) == 0) by (nonlinear_arith)
        requires
            k == e.picture_steps,
            k >= 1,
    ;
}

/// From a fresh tracker, `j` unchanged steps short of a frame leave only the
/// step count moved.
proof fn lemma_quiet_prefix(e: EpochView, changes: Seq<bool>, j: int)
    requires
        e.wf(),
        e.is_fresh(),
        e.picture_steps <= e.reset_steps,
        changes.len() == e.picture_steps,
        forall|i: int| 0 <= i < changes.len() ==> !(#[trigger] changes[i]),
        0 <= j < changes.len(),
    ensures
        run_epoch(e, changes.take(j)) == (EpochView { steps: j as nat, ..e }),
    decreases j,
{
    if j == 0 {
        assert(changes.take(0) =~= Seq::<bool>::empty());
    } else {
        lemma_quiet_prefix(e, changes, j - 1);
        let pre = changes.take(j);
        assert(pre.drop_last() =~= changes.take(j - 1));
        assert(j % (e.picture_steps as int) == j) by (nonlinear_arith)
            requires
                0 < j < e.picture_steps,
        ;
    }
}

/// The budget ends an epoch: from a fresh tracker, when `reset_steps` steps
/// pass with no earlier end of the epoch, the last of them ends it, whether
/// or not any step changed the tape.
pub proof fn lemma_budget_resets(e: EpochView, changes: Seq<bool>)
    requires
        e.wf(),
        e.is_fresh(),
        changes.len() == e.reset_steps,
        changes.len() >= 1,
        forall|j: int|
            1 <= j < changes.len() ==> !(#[trigger] last_tick(e, changes.take(j))).reset,
    ensures
        last_tick(e, changes).reset,
        run_epoch(e, changes).is_fresh(),
        run_epoch(e, changes).wf(),
{
    let k = changes.len() as int;
    lemma_steps_counted(e, changes, k - 1);
    assert(changes.drop_last() =~= changes.take(k - 1));
}

} // verus!
