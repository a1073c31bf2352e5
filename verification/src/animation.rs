//! The step sequence of an animation and the cursor that plays it back.

use vstd::arithmetic::div_mod::lemma_add_mod_noop_right;
use vstd::prelude::*;

verus! {

/// A tile of the atlas, named by its column and its row.
pub type Tile = (u32, u32);

/// The mathematical value of an [`Animation`]: the tiles in playback order
/// and the number of ticks each of them is shown.
pub struct AnimationView {
    pub steps: Seq<Tile>,
    pub frame_time: nat,
}

/// The mathematical value of an [`AnimationState`].
pub struct StateView {
    pub tile: Tile,
    pub index: nat,
    pub elapsed: nat,
}

impl AnimationView {
    /// An animation has at least one step and a positive frame time.
    pub open spec fn wf(self) -> bool {
        self.steps.len() > 0 && self.frame_time > 0
    }

    /// The cursor before any time has passed.
    pub open spec fn start(self) -> StateView {
        StateView { tile: self.steps[0], index: 0, elapsed: 0 }
    }

    /// Whether `s` is a cursor of this animation: its index lies inside the
    /// step sequence, its tile is the step at that index, and it has not
    /// gathered more than one frame time.
    pub open spec fn owns(self, s: StateView) -> bool {
        &&& s.index < self.steps.len()
        &&& s.tile == self.steps[s.index as int]
        &&& s.elapsed <= self.frame_time
    }

    /// Whether a tick of `dt` crosses a frame boundary. The comparison is
    /// strict: gathering exactly one frame time does not cross.
    pub open spec fn crosses(self, s: StateView, dt: nat) -> bool {
        s.elapsed + dt > self.frame_time
    }

    /// The cursor after a tick of `dt`. A crossing moves one step forward,
    /// wrapping at the end, and drops whatever time went beyond the boundary;
    /// otherwise the tick is added to the gathered time.
    pub open spec fn step(self, s: StateView, dt: nat) -> StateView {
        if self.crosses(s, dt) {
            let next = (s.index + 1) % self.steps.len();
            StateView { tile: self.steps[next as int], index: next, elapsed: 0 }
        } else {
            StateView { tile: s.tile, index: s.index, elapsed: s.elapsed + dt }
        }
    }
}

/// The playback cursor of one running animation.
#[derive(Clone, Copy, Debug, PartialEq, Eq)]
pub struct AnimationState {
    /// The tile to show; the step at `current_index`.
    pub current_tile: Tile,
    /// Position in the step sequence.
    pub current_index: usize,
    /// Ticks gathered since the last frame boundary.
    pub accum_time: u64,
}

impl View for AnimationState {
    type V = StateView;

    open spec fn view(&self) -> StateView {
        StateView {
            tile: self.current_tile,
            index: self.current_index as nat,
            elapsed: self.accum_time as nat,
        }
    }
}

/// Why an animation could not be built.
#[derive(Clone, Copy, Debug, PartialEq, Eq)]
pub enum AnimationError {
    /// The step sequence is empty.
    NoSteps,
    /// The frame time is zero.
    ZeroFrameTime,
}

/// A looping sequence of tiles, each shown for the same number of ticks.
#[derive(Debug)]
pub struct Animation {
    steps: Vec<Tile>,
    frame_time: u64,
}

impl View for Animation {
    type V = AnimationView;

    closed spec fn view(&self) -> AnimationView {
        AnimationView { steps: self.steps@, frame_time: self.frame_time as nat }
    }
}

impl Animation {
    #[verifier::type_invariant]
    spec fn inv(&self) -> bool {
        self@.wf()
    }

    /// Builds the animation that plays `steps` in order, `frame_time` ticks
    /// each. An empty step sequence is refused, and so is a frame time of
    /// zero; where both are wrong the empty sequence is reported.
    pub fn new(frame_time: u64, steps: Vec<Tile>) -> (made: Result<Animation, AnimationError>)
        ensures
            match made {
                Ok(anim) => {
                    &&& steps@.len() > 0
                    &&& frame_time > 0
                    &&& anim@.steps == steps@
                    &&& anim@.frame_time == frame_time
                    &&& anim@.wf()
                },
                Err(AnimationError::NoSteps) => steps@.len() == 0,
                Err(AnimationError::ZeroFrameTime) => steps@.len() > 0 && frame_time == 0,
            },
    {
        if steps.len() == 0 {
            Err(AnimationError::NoSteps)
        } else if frame_time == 0 {
            Err(AnimationError::ZeroFrameTime)
        } else {
            Ok(Animation { steps: steps, frame_time: frame_time })
        }
    }

    /// The number of ticks each step is shown; never zero.
    pub fn frame_time(&self) -> (ticks: u64)
        ensures
            ticks == self@.frame_time,
            ticks > 0,
    {
        proof {
            use_type_invariant(self);
        }
        self.frame_time
    }

    /// The steps in playback order; never empty.
    pub fn steps(&self) -> (steps: &Vec<Tile>)
        ensures
            steps@ == self@.steps,
            steps@.len() > 0,
    {
        proof {
            use_type_invariant(self);
        }
        &self.steps
    }

    /// The cursor at the first step, with no time gathered.
    pub fn get_start(&self) -> (state: AnimationState)
        ensures
            self@.wf(),
            state@ == self@.start(),
            self@.owns(state@),
    {
        proof {
            use_type_invariant(self);
        }
        AnimationState { current_tile: self.steps[0], current_index: 0, accum_time: 0 }
    }

    /// Lets `dt` ticks pass on `state` and says whether a frame boundary was
    /// crossed. At most one step is taken however large `dt` is, and the time
    /// beyond the boundary is dropped. A cursor of this animation stays one.
    pub fn update_state(&self, state: &mut AnimationState, dt: u64) -> (advanced: bool)
        ensures
            advanced == self@.crosses(old(state)@, dt as nat),
            final(state)@ == self@.step(old(state)@, dt as nat),
            self@.owns(old(state)@) ==> self@.owns(final(state)@),
    {
        proof {
            use_type_invariant(self);
        }
        if state.accum_time > self.frame_time || dt > self.frame_time - state.accum_time {
            let len = self.steps.len();
            let next = (state.current_index % len + 1) % len;
            proof {
                lemma_add_mod_noop_right(1, state.current_index as int, len as int);
            }
            state.accum_time = 0;
            state.current_index = next;
            state.current_tile = self.steps[next];
            true
        } else {
            state.accum_time = state.accum_time + dt;
            false
        }
    }
}

} // verus!
