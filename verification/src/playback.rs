//! What holds of a cursor over many ticks: it stays a cursor of its
//! animation, its index counts the frame boundaries crossed, and the sequence
//! loops.

use crate::animation::AnimationView;
use crate::animation::StateView;
use vstd::arithmetic::div_mod::lemma_add_mod_noop_right;
use vstd::arithmetic::div_mod::lemma_mod_self_0;
use vstd::arithmetic::div_mod::lemma_small_mod;
use vstd::prelude::*;

verus! {

impl AnimationView {
    /// The cursor after the ticks `dts`, taken one by one in order.
    pub open spec fn run(self, s: StateView, dts: Seq<nat>) -> StateView
        decreases dts.len(),
    {
        if dts.len() == 0 {
            s
        } else {
            self.step(self.run(s, dts.drop_last()), dts.last())
        }
    }

    /// How many of the ticks `dts`, taken one by one from `s`, cross a frame
    /// boundary.
    pub open spec fn crossings(self, s: StateView, dts: Seq<nat>) -> nat
        decreases dts.len(),
    {
        if dts.len() == 0 {
            0
        } else if self.crosses(self.run(s, dts.drop_last()), dts.last()) {
            self.crossings(s, dts.drop_last()) + 1
        } else {
            self.crossings(s, dts.drop_last())
        }
    }

    /// Whether every tick of `dts` is longer than one frame time.
    pub open spec fn all_longer_than_a_frame(self, dts: Seq<nat>) -> bool {
        forall|i: int| 0 <= i < dts.len() ==> dts[i] > self.frame_time
    }
}

/// The start cursor is a cursor of its animation.
pub proof fn lemma_start_is_owned(anim: AnimationView)
    requires
        anim.wf(),
    ensures
        anim.owns(anim.start()),
{
}

/// One tick keeps a cursor inside its animation: the index stays inside the
/// step sequence, the tile stays the step at the index, and the gathered time
/// stays within one frame time.
pub proof fn lemma_step_keeps_cursor(anim: AnimationView, s: StateView, dt: nat)
    requires
        anim.wf(),
        anim.owns(s),
    ensures
        anim.owns(anim.step(s, dt)),
{
}

/// Any number of ticks keeps a cursor inside its animation.
pub proof fn lemma_run_keeps_cursor(anim: AnimationView, s: StateView, dts: Seq<nat>)
    requires
        anim.wf(),
        anim.owns(s),
    ensures
        anim.owns(anim.run(s, dts)),
    decreases dts.len(),
{
    if dts.len() > 0 {
        lemma_run_keeps_cursor(anim, s, dts.drop_last());
        lemma_step_keeps_cursor(anim, anim.run(s, dts.drop_last()), dts.last());
    }
}

/// A tick that brings the gathered time to exactly one frame time crosses no
/// boundary: the cursor keeps its index and its tile, and holds the whole
/// frame time.
pub proof fn lemma_exact_frame_time_stays(anim: AnimationView, s: StateView, dt: nat)
    requires
        s.elapsed + dt == anim.frame_time,
    ensures
        !anim.crosses(s, dt),
        anim.step(s, dt).index == s.index,
        anim.step(s, dt).tile == s.tile,
        anim.step(s, dt).elapsed == anim.frame_time,
{
}

/// A tick that crosses a boundary takes exactly one step, wrapping at the
/// end of the sequence, and leaves no gathered time, whatever its length.
pub proof fn lemma_crossing_takes_one_step(anim: AnimationView, s: StateView, dt: nat)
    requires
        anim.wf(),
        anim.crosses(s, dt),
    ensures
        anim.step(s, dt).index == (s.index + 1) % anim.steps.len(),
        anim.step(s, dt).tile == anim.steps[((s.index + 1) % anim.steps.len()) as int],
        anim.step(s, dt).elapsed == 0,
{
}

/// A tick of three frame times crosses a boundary and still takes one step
/// only; the two frame times beyond the boundary are dropped.
pub proof fn lemma_three_frame_times_take_one_step(anim: AnimationView, s: StateView, dt: nat)
    requires
        anim.wf(),
        dt == 3 * anim.frame_time,
    ensures
        anim.crosses(s, dt),
        anim.step(s, dt).index == (s.index + 1) % anim.steps.len(),
        anim.step(s, dt).elapsed == 0,
{
}

/// After any ticks, the index is the index at the outset plus the number of
/// boundaries crossed, modulo the number of steps, and the tile is the step
/// there.
pub proof fn lemma_index_counts_crossings(anim: AnimationView, s: StateView, dts: Seq<nat>)
    requires
        anim.wf(),
        anim.owns(s),
    ensures
        anim.run(s, dts).index == (s.index + anim.crossings(s, dts)) % anim.steps.len(),
        anim.run(s, dts).tile == anim.steps[anim.run(s, dts).index as int],
    decreases dts.len(),
{
    let n = anim.steps.len();
    if dts.len() == 0 {
        lemma_small_mod(s.index, n);
    } else {
        let before = dts.drop_last();
        lemma_index_counts_crossings(anim, s, before);
        lemma_run_keeps_cursor(anim, s, dts);
        if anim.crosses(anim.run(s, before), dts.last()) {
            let sum = s.index + anim.crossings(s, before);
            lemma_add_mod_noop_right(1, sum as int, n as int);
        }
    }
}

/// From the start, once as many boundaries were crossed as the animation has
/// steps, the cursor is back at index zero and shows the first step.
pub proof fn lemma_loop_returns_to_start(anim: AnimationView, dts: Seq<nat>)
    requires
        anim.wf(),
        anim.crossings(anim.start(), dts) == anim.steps.len(),
    ensures
        anim.run(anim.start(), dts).index == 0,
        anim.run(anim.start(), dts).tile == anim.steps[0],
{
    lemma_index_counts_crossings(anim, anim.start(), dts);
    lemma_mod_self_0(anim.steps.len() as int);
}

/// Ticks that are each longer than one frame time all cross a boundary.
pub proof fn lemma_long_ticks_all_cross(anim: AnimationView, s: StateView, dts: Seq<nat>)
    requires
        anim.all_longer_than_a_frame(dts),
    ensures
        anim.crossings(s, dts) == dts.len(),
        forall|k: int|
            0 <= k < dts.len() ==> anim.crosses(anim.run(s, #[trigger] dts.take(k)), dts[k]),
    decreases dts.len(),
{
    if dts.len() > 0 {
        lemma_long_ticks_all_cross(anim, s, dts.drop_last());
    }
}

/// From the start, as many ticks as the animation has steps, each longer than
/// one frame time, cross a boundary every time and lead the index through
/// 0, 1, 2 and so on to the last step and back to 0.
pub proof fn lemma_long_ticks_cycle(anim: AnimationView, dts: Seq<nat>)
    requires
        anim.wf(),
        dts.len() == anim.steps.len(),
        anim.all_longer_than_a_frame(dts),
    ensures
        forall|k: int|
            0 <= k < dts.len() ==> anim.crosses(
                anim.run(anim.start(), #[trigger] dts.take(k)),
                dts[k],
            ),
        forall|k: int|
            0 <= k < dts.len() ==> anim.run(anim.start(), #[trigger] dts.take(k)).index == k,
        anim.run(anim.start(), dts).index == 0,
        anim.run(anim.start(), dts).tile == anim.steps[0],
{
    let n = anim.steps.len();
    lemma_long_ticks_all_cross(anim, anim.start(), dts);
    lemma_loop_returns_to_start(anim, dts);
    assert forall|k: int| 0 <= k < dts.len() implies anim.run(
        anim.start(),
        #[trigger] dts.take(k),
    ).index == k by {
        let head = dts.take(k);
        lemma_long_ticks_all_cross(anim, anim.start(), head);
        lemma_index_counts_crossings(anim, anim.start(), head);
        lemma_small_mod(k as nat, n);
    }
}

} // verus!
