//! The frame loop: the animation clock and the drawing steps of each tick.
//!
//! The loop owns the clock. One tick plans one frame, as a list of steps
//! for the host to carry out in order, and moves the clock on by a fixed
//! step, however much real time has passed. Every frame ends by asking for
//! the next one: the animation has no last frame.

use vstd::prelude::*;
use crate::rotation::Rotation;
use crate::sets::{build_sets, standard_config_seq, standard_configs, DotSet, SetConfig};
use crate::viewport::Viewport;

verus! {

/// Thousandths of a time unit by which every tick moves the clock on.
pub const TIME_STEP: u64 = 2;

/// One step of a frame, for the host to carry out.
#[derive(Clone, Copy, Debug, PartialEq, Eq, Structural)]
pub enum Action {
    /// Clear the whole surface, `width` by `height` pixels.
    Clear { width: u32, height: u32 },
    /// Draw every point of the dot sphere with index `set`, turned by
    /// `rotation`, as a dot of `radius` pixels.
    DrawSet { set: usize, rotation: Rotation, radius: u32 },
    /// Ask the host to call for the next frame.
    RequestFrame,
}

/// What a frame loop holds: the surface, the dot spheres in drawing order
/// and the clock in thousandths of a time unit.
pub struct FrameState {
    pub viewport: Viewport,
    pub sets: Seq<DotSet>,
    pub time: nat,
}

impl FrameState {
    /// The step that draws the dot sphere with index `i` at the current time.
    pub open spec fn draw(self, i: int) -> Action {
        Action::DrawSet {
            set: i as usize,
            rotation: Rotation::at(self.time as int, self.sets[i].rotation),
            radius: self.sets[i].radius,
        }
    }

    /// The steps of the frame at the current time: clear the surface, draw
    /// each dot sphere in order, ask for the next frame.
    pub open spec fn frame(self) -> Seq<Action> {
        seq![Action::Clear { width: self.viewport.width, height: self.viewport.height }]
            + Seq::new(self.sets.len(), |i: int| self.draw(i)) + seq![Action::RequestFrame]
    }

    /// The state after one tick: the clock has moved on by one step and
    /// nothing else has changed.
    pub open spec fn next(self) -> FrameState {
        FrameState { viewport: self.viewport, sets: self.sets, time: self.time + TIME_STEP as nat }
    }
}

/// The frame loop of the animation.
pub struct FrameLoop {
    viewport: Viewport,
    sets: Vec<DotSet>,
    time: u64,
}

impl View for FrameLoop {
    type V = FrameState;

    closed spec fn view(&self) -> FrameState {
        FrameState { viewport: self.viewport, sets: self.sets@, time: self.time as nat }
    }
}

impl FrameLoop {
    /// A frame loop at time zero over the three standard dot spheres, at
    /// the detail tier that the viewport's area calls for. Each of them is
    /// valid and its points can be generated.
    pub fn new(viewport: Viewport) -> (frames: FrameLoop)
        ensures
            frames@.viewport == viewport,
            frames@.time == 0,
            frames@.sets == standard_config_seq(viewport.detail()).map_values(
                |config: SetConfig| DotSet::of(config),
            ),
            forall|i: int|
                0 <= i < frames@.sets.len() ==> (#[trigger] frames@.sets[i]).valid()
                    && frames@.sets[i].mesh.generable(),
    {
        let configs = standard_configs(viewport.detail_tier());
        let sets = build_sets(&configs);
        FrameLoop { viewport, sets, time: 0 }
    }

    /// A frame loop at time zero over the given dot spheres, drawn in the
    /// order given.
    pub fn with_sets(viewport: Viewport, sets: Vec<DotSet>) -> (frames: FrameLoop)
        ensures
            frames@ == (FrameState { viewport, sets: sets@, time: 0 }),
    {
        FrameLoop { viewport, sets, time: 0 }
    }

    /// A frame loop over the given dot spheres whose clock already shows
    /// `time` thousandths of a time unit.
    pub fn at_time(viewport: Viewport, sets: Vec<DotSet>, time: u64) -> (frames: FrameLoop)
        ensures
            frames@ == (FrameState { viewport, sets: sets@, time: time as nat }),
    {
        FrameLoop { viewport, sets, time }
    }

    /// The surface that the frames are drawn on.
    pub fn viewport(&self) -> (viewport: Viewport)
        ensures
            viewport == self@.viewport,
    {
        self.viewport
    }

    /// The dot spheres, in drawing order.
    pub fn sets(&self) -> (sets: &Vec<DotSet>)
        ensures
            sets@ == self@.sets,
    {
        &self.sets
    }

    /// The clock, in thousandths of a time unit.
    pub fn time(&self) -> (time: u64)
        ensures
            time == self@.time,
    {
        self.time
    }

    /// Whether the clock can still move on by one step.
    pub fn can_tick(&self) -> (ok: bool)
        ensures
            ok == (self@.time + TIME_STEP <= u64::MAX),
    {
        self.time <= u64::MAX - TIME_STEP
    }

    /// Plans the frame at the current time and moves the clock on by one
    /// step. The steps are: clear the surface; for each dot sphere, in
    /// order, draw it turned as far as its weights have taken it by now;
    /// ask for the next frame.
    pub fn tick(&mut self) -> (actions: Vec<Action>)
        requires
            old(self)@.time + TIME_STEP <= u64::MAX,
        ensures
            actions@ == old(self)@.frame(),
            final(self)@ == old(self)@.next(),
    {
        let ghost state = self@;
        let mut actions: Vec<Action> = Vec::new();
        actions.push(Action::Clear { width: self.viewport.width, height: self.viewport.height });
        let mut i: usize = 0;
        while i < self.sets.len()
            invariant
                i <= self.sets.len(),
                self@ == state,
                actions@.len() == i + 1,
                actions@[0] == (Action::Clear {
                    width: state.viewport.width,
                    height: state.viewport.height,
                }),
                forall|j: int| 0 <= j < i ==> actions@[j + 1] == state.draw(j),
            decreases self.sets.len() - i,
        {
            let set = &self.sets[i];
            let rotation = Rotation::at_time(self.time, &set.rotation);
            actions.push(Action::DrawSet { set: i, rotation, radius: set.radius });
            i += 1;
        }
        actions.push(Action::RequestFrame);
        self.time = self.time + TIME_STEP;
        assert(actions@ =~= state.frame());
        actions
    }
}

/// A frame is decided by the state alone: two frame loops that agree on
/// surface, dot spheres and clock plan the same steps and move to the same
/// state.
pub proof fn lemma_frame_decided_by_state(a: FrameState, b: FrameState)
    requires
        a.viewport == b.viewport,
        a.sets =~= b.sets,
        a.time == b.time,
    ensures
        a.frame() == b.frame(),
        a.next() == b.next(),
{
}

/// At time zero every dot sphere is drawn with a zero angle about each
/// axis, whatever its weights are.
pub proof fn lemma_first_frame_unturned(state: FrameState, i: int)
    requires
        state.time == 0,
        0 <= i < state.sets.len(),
    ensures
        state.frame()[i + 1] == state.draw(i),
        state.draw(i) matches Action::DrawSet { rotation, .. } && rotation.is_zero(),
{
}

} // verus!
