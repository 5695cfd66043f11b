//! The simulation: the double pendulums on the screen and how they are shown.

use vstd::prelude::*;
use crate::pendulum::{DoublePendulum, DoublePendulumView, Drawing, DrawingView, Step};
use crate::point::Point2D;

verus! {

/// The number of steps of the simulation in one second.
pub const DESIRED_FPS: u32 = 240;

/// What a simulation is: its double pendulums in the order in which they are
/// drawn, whether trails are shown, and the centre of the screen.
pub struct MainStateView {
    pub pendulums: Seq<DoublePendulumView>,
    pub show_trail: bool,
    pub center: Point2D,
}

impl MainStateView {
    /// The simulation after one tick, in which pendulum `i` was offered
    /// `steps[i]`; a pendulum for which there is no step stays as it is.
    pub open spec fn ticked(self, steps: Seq<Step>) -> MainStateView {
        MainStateView {
            pendulums: Seq::new(
                self.pendulums.len(),
                |i: int|
                    if i < steps.len() {
                        self.pendulums[i].stepped(steps[i])
                    } else {
                        self.pendulums[i]
                    },
            ),
            show_trail: self.show_trail,
            center: self.center,
        }
    }

    /// What is to be drawn of the simulation: every double pendulum, in
    /// order, with its trail or without as the simulation shows trails or not.
    pub open spec fn frame(self) -> FrameView {
        FrameView {
            center: self.center,
            pendulums: Seq::new(
                self.pendulums.len(),
                |i: int| self.pendulums[i].drawing(self.show_trail),
            ),
        }
    }

    /// Whether pendulum `i` refuses its step of `steps`.
    pub open spec fn refuses(self, steps: Seq<Step>, i: int) -> bool {
        0 <= i < self.pendulums.len() && i < steps.len() && !steps[i].spec_is_finite()
    }
}

/// What is to be drawn of a simulation.
#[derive(Debug, PartialEq, Eq)]
pub struct Frame {
    /// The centre of the screen, about which everything is drawn.
    pub center: Point2D,
    /// What is to be drawn of each double pendulum, in order.
    pub pendulums: Vec<Drawing>,
}

/// A [`Frame`] with its drawings as a sequence.
pub struct FrameView {
    pub center: Point2D,
    pub pendulums: Seq<DrawingView>,
}

impl View for Frame {
    type V = FrameView;

    open spec fn view(&self) -> FrameView {
        FrameView {
            center: self.center,
            pendulums: Seq::new(self.pendulums@.len(), |i: int| self.pendulums@[i]@),
        }
    }
}

/// The double pendulums of a simulation and how they are shown.
pub struct MainState {
    /// Every double pendulum on the screen.
    pendulums: Vec<DoublePendulum>,
    /// Whether the trail of each pendulum is drawn. The trails are kept either way.
    show_trail: bool,
    /// The centre of the screen; it only places the drawing.
    center: Point2D,
}

impl View for MainState {
    type V = MainStateView;

    closed spec fn view(&self) -> MainStateView {
        MainStateView {
            pendulums: Seq::new(self.pendulums@.len(), |i: int| self.pendulums@[i]@),
            show_trail: self.show_trail,
            center: self.center,
        }
    }
}

impl MainState {
    /// The invariant of the type: every function here keeps it.
    pub closed spec fn wf(&self) -> bool {
        forall|i: int| 0 <= i < self.pendulums@.len() ==> (#[trigger] self.pendulums@[i]).wf()
    }

    /// In a well-formed simulation every double pendulum is valid.
    pub proof fn wf_is_valid(&self)
        requires
            self.wf(),
        ensures
            forall|i: int|
                0 <= i < self@.pendulums.len() ==> (#[trigger] self@.pendulums[i]).valid(),
    {
        assert forall|i: int| 0 <= i < self@.pendulums.len() implies (
        #[trigger] self@.pendulums[i]).valid() by {
            self.pendulums@[i].wf_is_valid();
        }
    }

    /// A simulation of the given double pendulums.
    pub fn new(pendulums: Vec<DoublePendulum>, show_trail: bool, center: Point2D) -> (state:
        MainState)
        requires
            forall|i: int| 0 <= i < pendulums@.len() ==> (#[trigger] pendulums@[i]).wf(),
        ensures
            state.wf(),
            state@.pendulums == Seq::new(pendulums@.len(), |i: int| pendulums@[i]@),
            state@.show_trail == show_trail,
            state@.center == center,
    {
        MainState { pendulums, show_trail, center }
    }

    /// The number of double pendulums.
    pub fn count(&self) -> (n: usize)
        ensures
            n == self@.pendulums.len(),
    {
        self.pendulums.len()
    }

    /// Whether trails are drawn.
    pub fn show_trail(&self) -> (shown: bool)
        ensures
            shown == self@.show_trail,
    {
        self.show_trail
    }

    /// The centre of the screen.
    pub fn center(&self) -> (center: Point2D)
        ensures
            center == self@.center,
    {
        self.center
    }

    /// The double pendulum at place `index`, if there is one.
    pub fn pendulum(&self, index: usize) -> (body: Option<&DoublePendulum>)
        requires
            self.wf(),
        ensures
            match body {
                Some(b) => index < self@.pendulums.len() && b@ == self@.pendulums[index as int]
                    && b.wf(),
                None => index >= self@.pendulums.len(),
            },
    {
        if index < self.pendulums.len() {
            Some(&self.pendulums[index])
        } else {
            None
        }
    }

    /// What is to be drawn of the simulation; nothing changes.
    pub fn draw(&self) -> (frame: Frame)
        requires
            self.wf(),
        ensures
            frame@ == self@.frame(),
    {
        let n = self.pendulums.len();
        let mut drawings: Vec<Drawing> = Vec::with_capacity(n);
        let mut i: usize = 0;
        while i < n
            invariant
                self.wf(),
                n == self.pendulums@.len(),
                i <= n,
                drawings@.len() == i,
                forall|j: int|
                    0 <= j < i ==> (#[trigger] drawings@[j])@ == self.pendulums@[j]@.drawing(
                        self.show_trail,
                    ),
            decreases n - i,
        {
            drawings.push(self.pendulums[i].draw(self.show_trail));
            i += 1;
        }
        let frame = Frame { center: self.center, pendulums: drawings };
        assert(frame@.pendulums =~= self@.frame().pendulums);
        frame
    }

    /// Adds `body` behind the double pendulums that are there.
    pub fn spawn(&mut self, body: DoublePendulum)
        requires
            old(self).wf(),
            body.wf(),
        ensures
            final(self).wf(),
            final(self)@.pendulums == old(self)@.pendulums.push(body@),
            final(self)@.pendulums.len() == old(self)@.pendulums.len() + 1,
            final(self)@.show_trail == old(self)@.show_trail,
            final(self)@.center == old(self)@.center,
    {
        self.pendulums.push(body);
    }

    /// Puts `body` in the place of all the double pendulums that are there.
    pub fn reset(&mut self, body: DoublePendulum)
        requires
            body.wf(),
        ensures
            final(self).wf(),
            final(self)@.pendulums == seq![body@],
            final(self)@.pendulums.len() == 1,
            final(self)@.show_trail == old(self)@.show_trail,
            final(self)@.center == old(self)@.center,
    {
        let mut pendulums: Vec<DoublePendulum> = Vec::with_capacity(1);
        pendulums.push(body);
        self.pendulums = pendulums;
    }

    /// Shows the trails if they were hidden, and hides them if they were shown.
    pub fn toggle_trail(&mut self)
        ensures
            old(self).wf() ==> final(self).wf(),
            final(self)@.pendulums == old(self)@.pendulums,
            final(self)@.show_trail == !old(self)@.show_trail,
            final(self)@.center == old(self)@.center,
    {
        self.show_trail = !self.show_trail;
    }

    /// Moves the centre of the screen; no pendulum changes.
    pub fn set_center(&mut self, center: Point2D)
        ensures
            old(self).wf() ==> final(self).wf(),
            final(self)@.pendulums == old(self)@.pendulums,
            final(self)@.show_trail == old(self)@.show_trail,
            final(self)@.center == center,
    {
        self.center = center;
    }

    /// One tick: offers to each double pendulum, in order, the step at its
    /// place in `steps`.
    ///
    /// A pendulum whose step holds an infinite or NaN angle or speed stays as
    /// it was, and so does one for which `steps` holds nothing. The places of
    /// the pendulums that refused their step are returned in rising order.
    pub fn tick(&mut self, steps: &Vec<Step>) -> (refused: Vec<usize>)
        requires
            old(self).wf(),
        ensures
            final(self).wf(),
            final(self)@ == old(self)@.ticked(steps@),
            forall|j: int, k: int| 0 <= j < k < refused@.len() ==> refused@[j] < refused@[k],
            forall|i: usize|
                #[trigger] refused@.contains(i) <==> old(self)@.refuses(steps@, i as int),
    {
        let n = if self.pendulums.len() < steps.len() {
            self.pendulums.len()
        } else {
            steps.len()
        };
        let mut refused: Vec<usize> = Vec::new();
        let mut i: usize = 0;
        while i < n
            invariant
                i <= n,
                n <= steps@.len(),
                n == old(self).pendulums@.len() || n == steps@.len(),
                n <= old(self).pendulums@.len(),
                self.pendulums@.len() == old(self).pendulums@.len(),
                self.show_trail == old(self).show_trail,
                self.center == old(self).center,
                forall|j: int|
                    0 <= j < self.pendulums@.len() ==> (#[trigger] self.pendulums@[j]).wf(),
                forall|j: int|
                    0 <= j < i ==> (#[trigger] self.pendulums@[j])@ == old(
                        self,
                    ).pendulums@[j]@.stepped(steps@[j]),
                forall|j: int|
                    i <= j < self.pendulums@.len() ==> (#[trigger] self.pendulums@[j])@ == old(
                        self,
                    ).pendulums@[j]@,
                forall|j: int, k: int| 0 <= j < k < refused@.len() ==> refused@[j] < refused@[k],
                forall|j: int| 0 <= j < refused@.len() ==> (#[trigger] refused@[j]) < i,
                forall|k: int|
                    (0 <= k < i && !steps@[k].spec_is_finite()) <==> exists|j: int|
                        0 <= j < refused@.len() && #[trigger] refused@[j] == k,
            decreases n - i,
        {
            let ghost before = refused@;
            let outcome = self.pendulums[i].update(steps[i]);
            if outcome.is_err() {
                refused.push(i);
                assert(refused@[before.len() as int] == i);
                assert(forall|j: int| 0 <= j < before.len() ==> refused@[j] == before[j]);
            }
            i += 1;
        }
        assert(self@.pendulums =~= old(self)@.ticked(steps@).pendulums);
        assert forall|k: usize| #[trigger]
            refused@.contains(k) <==> old(self)@.refuses(steps@, k as int) by {
            if old(self)@.refuses(steps@, k as int) {
                let j = choose|j: int| 0 <= j < refused@.len() && #[trigger] refused@[j] == k;
                assert(refused@[j] == k);
            }
        }
        refused
    }
}

} // verus!
