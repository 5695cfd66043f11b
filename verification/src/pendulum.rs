//! One double pendulum: two rods, the trail of its tip and its colour.

use vstd::prelude::*;
use crate::point::Point2D;
use crate::scalar::Scalar;
use crate::trail::{pushed, TrailBuffer, TRAIL_LENGTH};

verus! {

/// The fewest points of which a trail is drawn.
pub const MIN_DRAWN_TRAIL: usize = 3;

/// The angle of a rod and its rate of change.
#[derive(Clone, Copy, Debug, PartialEq, Eq, Structural)]
pub struct AngularState {
    /// The angle in radians, 0 pointing straight down; never reduced modulo a turn.
    pub theta: Scalar,
    /// The change of the angle in one step.
    pub angular_speed: Scalar,
}

impl AngularState {
    /// Both the angle and the speed are finite.
    pub open spec fn spec_is_finite(self) -> bool {
        self.theta.spec_is_finite() && self.angular_speed.spec_is_finite()
    }

    /// The state with the angle `theta` and the speed `angular_speed`.
    pub fn new(theta: Scalar, angular_speed: Scalar) -> (state: AngularState)
        ensures
            state == (AngularState { theta, angular_speed }),
    {
        AngularState { theta, angular_speed }
    }

    /// Whether both the angle and the speed are finite.
    #[verifier::when_used_as_spec(spec_is_finite)]
    pub fn is_finite(self) -> (r: bool)
        ensures
            r == self.spec_is_finite(),
    {
        self.theta.is_finite() && self.angular_speed.is_finite()
    }
}

/// One rod with the point mass at its tip.
#[derive(Clone, Copy, Debug, PartialEq, Eq, Structural)]
pub struct Pendulum {
    /// The mass at the tip; the rod itself has none.
    pub mass: Scalar,
    /// The length of the rod.
    pub rod_length: Scalar,
    /// The angle in radians, 0 pointing straight down.
    pub theta: Scalar,
    /// The change of the angle in one step.
    pub angular_speed: Scalar,
}

impl Pendulum {
    /// What a rod in a simulation must be: mass and length greater than zero,
    /// and all four numbers finite.
    pub open spec fn spec_is_valid(self) -> bool {
        &&& self.mass.spec_is_positive()
        &&& self.mass.spec_is_finite()
        &&& self.rod_length.spec_is_positive()
        &&& self.rod_length.spec_is_finite()
        &&& self.theta.spec_is_finite()
        &&& self.angular_speed.spec_is_finite()
    }

    /// The angle and speed of this rod.
    pub open spec fn spec_angular_state(self) -> AngularState {
        AngularState { theta: self.theta, angular_speed: self.angular_speed }
    }

    /// This rod at another angle and speed.
    pub open spec fn spec_moved(self, state: AngularState) -> Pendulum {
        Pendulum {
            mass: self.mass,
            rod_length: self.rod_length,
            theta: state.theta,
            angular_speed: state.angular_speed,
        }
    }

    /// The rod with these four numbers, whatever they are.
    pub fn new(mass: Scalar, rod_length: Scalar, theta: Scalar, angular_speed: Scalar) -> (p:
        Pendulum)
        ensures
            p == (Pendulum { mass, rod_length, theta, angular_speed }),
    {
        Pendulum { mass, rod_length, theta, angular_speed }
    }

    /// Whether mass and length are greater than zero and all four numbers finite.
    #[verifier::when_used_as_spec(spec_is_valid)]
    pub fn is_valid(self) -> (r: bool)
        ensures
            r == self.spec_is_valid(),
    {
        self.mass.is_positive() && self.mass.is_finite() && self.rod_length.is_positive()
            && self.rod_length.is_finite() && self.theta.is_finite()
            && self.angular_speed.is_finite()
    }

    /// The angle and speed of this rod.
    #[verifier::when_used_as_spec(spec_angular_state)]
    pub fn angular_state(self) -> (state: AngularState)
        ensures
            state == self.spec_angular_state(),
    {
        AngularState { theta: self.theta, angular_speed: self.angular_speed }
    }

    /// This rod at another angle and speed.
    #[verifier::when_used_as_spec(spec_moved)]
    pub fn moved(self, state: AngularState) -> (p: Pendulum)
        ensures
            p == self.spec_moved(state),
    {
        Pendulum {
            mass: self.mass,
            rod_length: self.rod_length,
            theta: state.theta,
            angular_speed: state.angular_speed,
        }
    }
}

/// One step offered to a double pendulum: what the caller has computed as
/// the next state of its two rods, and where the tip of the second rod then is.
#[derive(Clone, Copy, Debug, PartialEq, Eq, Structural)]
pub struct Step {
    /// The next angle and speed of the first rod.
    pub first: AngularState,
    /// The next angle and speed of the second rod.
    pub second: AngularState,
    /// The position of the tip of the second rod in that state.
    pub tip: Point2D,
}

impl Step {
    /// Every angle and speed of the step is finite.
    pub open spec fn spec_is_finite(self) -> bool {
        self.first.spec_is_finite() && self.second.spec_is_finite()
    }

    /// The step to the states `first` and `second` with the tip at `tip`.
    pub fn new(first: AngularState, second: AngularState, tip: Point2D) -> (step: Step)
        ensures
            step == (Step { first, second, tip }),
    {
        Step { first, second, tip }
    }

    /// Whether every angle and speed of the step is finite.
    #[verifier::when_used_as_spec(spec_is_finite)]
    pub fn is_finite(self) -> (r: bool)
        ensures
            r == self.spec_is_finite(),
    {
        self.first.is_finite() && self.second.is_finite()
    }
}

/// A colour by its red, green, blue and alpha parts.
#[derive(Clone, Copy, Debug, PartialEq, Eq, Structural)]
pub struct Color {
    pub r: Scalar,
    pub g: Scalar,
    pub b: Scalar,
    pub a: Scalar,
}

/// What is to be drawn of a double pendulum.
#[derive(Debug, PartialEq, Eq)]
pub struct Drawing {
    /// The first rod.
    pub p1: Pendulum,
    /// The second rod.
    pub p2: Pendulum,
    /// The colour of the rods and of the masses.
    pub color: Color,
    /// The trail, oldest point first, where one is to be drawn.
    pub trail: Option<Vec<Point2D>>,
}

/// A [`Drawing`] with its trail as a sequence.
pub struct DrawingView {
    pub p1: Pendulum,
    pub p2: Pendulum,
    pub color: Color,
    pub trail: Option<Seq<Point2D>>,
}

impl View for Drawing {
    type V = DrawingView;

    open spec fn view(&self) -> DrawingView {
        DrawingView {
            p1: self.p1,
            p2: self.p2,
            color: self.color,
            trail: match self.trail {
                Some(points) => Some(points@),
                None => None,
            },
        }
    }
}

/// Why a step was refused.
#[derive(Clone, Copy, Debug, PartialEq, Eq, Structural)]
pub enum StepError {
    /// An angle or a speed offered as the next state is infinite or NaN.
    NonFiniteState,
}

/// What a double pendulum is: the rod `p1` that hangs from the origin, the
/// rod `p2` that hangs from the tip of `p1`, the positions that the tip of
/// `p2` went through, oldest first, and the colour.
pub struct DoublePendulumView {
    pub p1: Pendulum,
    pub p2: Pendulum,
    pub trail: Seq<Point2D>,
    pub color: Color,
}

impl DoublePendulumView {
    /// Both rods are valid and the trail is within its capacity.
    pub open spec fn valid(self) -> bool {
        &&& self.p1.spec_is_valid()
        &&& self.p2.spec_is_valid()
        &&& self.trail.len() <= TRAIL_LENGTH
    }

    /// The double pendulum that [`DoublePendulum::new`] makes of these numbers:
    /// both rods at the angle `theta` and at rest, no trail yet, an opaque colour.
    pub open spec fn fresh(
        mass1: Scalar,
        length1: Scalar,
        mass2: Scalar,
        length2: Scalar,
        theta: Scalar,
        red: Scalar,
        green: Scalar,
        blue: Scalar,
    ) -> DoublePendulumView {
        DoublePendulumView {
            p1: Pendulum {
                mass: mass1,
                rod_length: length1,
                theta,
                angular_speed: Scalar { bits: crate::scalar::ZERO_BITS },
            },
            p2: Pendulum {
                mass: mass2,
                rod_length: length2,
                theta,
                angular_speed: Scalar { bits: crate::scalar::ZERO_BITS },
            },
            trail: Seq::empty(),
            color: Color { r: red, g: green, b: blue, a: Scalar { bits: crate::scalar::ONE_BITS } },
        }
    }

    /// The double pendulum after `step` was offered to it.
    ///
    /// A step with an infinite or NaN angle or speed changes nothing.
    /// Otherwise the rods take the offered states and the trail is offered the tip.
    pub open spec fn stepped(self, step: Step) -> DoublePendulumView {
        if step.spec_is_finite() {
            DoublePendulumView {
                p1: self.p1.spec_moved(step.first),
                p2: self.p2.spec_moved(step.second),
                trail: pushed(self.trail, step.tip),
                color: self.color,
            }
        } else {
            self
        }
    }

    /// What is to be drawn of the double pendulum: its rods, its colour, and
    /// its trail where trails are shown and it holds [`MIN_DRAWN_TRAIL`]
    /// points or more.
    pub open spec fn drawing(self, show_trail: bool) -> DrawingView {
        DrawingView {
            p1: self.p1,
            p2: self.p2,
            color: self.color,
            trail: if show_trail && self.trail.len() >= MIN_DRAWN_TRAIL {
                Some(self.trail)
            } else {
                None
            },
        }
    }
}

/// A double pendulum in a simulation.
pub struct DoublePendulum {
    /// The first pendulum, connected to the origin.
    p1: Pendulum,
    /// The second pendulum, attached at the tip of `p1`.
    p2: Pendulum,
    trail: TrailBuffer,
    color: Color,
}

impl View for DoublePendulum {
    type V = DoublePendulumView;

    closed spec fn view(&self) -> DoublePendulumView {
        DoublePendulumView { p1: self.p1, p2: self.p2, trail: self.trail@, color: self.color }
    }
}

impl DoublePendulum {
    /// The invariant of the type: every function here keeps it.
    pub closed spec fn wf(&self) -> bool {
        &&& self.p1.spec_is_valid()
        &&& self.p2.spec_is_valid()
        &&& self.trail.wf()
    }

    /// A well-formed double pendulum is a valid one.
    pub proof fn wf_is_valid(&self)
        requires
            self.wf(),
        ensures
            self@.valid(),
    {
        self.trail.wf_is_bounded();
    }

    /// A double pendulum with both rods at the angle `theta` and at rest,
    /// with an empty trail and an opaque colour.
    ///
    /// There is none unless both masses and both lengths are finite and
    /// greater than zero and the angle is finite.
    pub fn new(
        mass1: Scalar,
        length1: Scalar,
        mass2: Scalar,
        length2: Scalar,
        theta: Scalar,
        red: Scalar,
        green: Scalar,
        blue: Scalar,
    ) -> (made: Option<DoublePendulum>)
        ensures
            made is Some <==> DoublePendulumView::fresh(
                mass1,
                length1,
                mass2,
                length2,
                theta,
                red,
                green,
                blue,
            ).valid(),
            made matches Some(body) ==> body.wf() && body@ == DoublePendulumView::fresh(
                mass1,
                length1,
                mass2,
                length2,
                theta,
                red,
                green,
                blue,
            ),
    {
        let p1 = Pendulum::new(mass1, length1, theta, Scalar::zero());
        let p2 = Pendulum::new(mass2, length2, theta, Scalar::zero());
        if p1.is_valid() && p2.is_valid() {
            let color = Color { r: red, g: green, b: blue, a: Scalar::one() };
            Some(DoublePendulum { p1, p2, trail: TrailBuffer::new(), color })
        } else {
            None
        }
    }

    /// The first rod.
    pub fn p1(&self) -> (p: Pendulum)
        ensures
            p == self@.p1,
    {
        self.p1
    }

    /// The second rod.
    pub fn p2(&self) -> (p: Pendulum)
        ensures
            p == self@.p2,
    {
        self.p2
    }

    /// The colour.
    pub fn color(&self) -> (c: Color)
        ensures
            c == self@.color,
    {
        self.color
    }

    /// The positions of the tip, oldest first.
    pub fn trail(&self) -> (points: Vec<Point2D>)
        requires
            self.wf(),
        ensures
            points@ == self@.trail,
    {
        self.trail.as_sequence()
    }

    /// What is to be drawn of the double pendulum, with or without its trail.
    pub fn draw(&self, show_trail: bool) -> (drawing: Drawing)
        requires
            self.wf(),
        ensures
            drawing@ == self@.drawing(show_trail),
    {
        let trail = if show_trail && self.trail.len() >= MIN_DRAWN_TRAIL {
            Some(self.trail.as_sequence())
        } else {
            None
        };
        Drawing { p1: self.p1, p2: self.p2, color: self.color, trail }
    }

    /// Offers one step to the double pendulum.
    ///
    /// Where an offered angle or speed is infinite or NaN the step is refused
    /// and nothing changes. Otherwise the rods take the offered states and
    /// the trail is offered the tip.
    pub fn update(&mut self, step: Step) -> (r: Result<(), StepError>)
        requires
            old(self).wf(),
        ensures
            final(self).wf(),
            final(self)@ == old(self)@.stepped(step),
            r == if step.spec_is_finite() {
                Ok::<(), StepError>(())
            } else {
                Err::<(), StepError>(StepError::NonFiniteState)
            },
    {
        if step.is_finite() {
            self.p1 = self.p1.moved(step.first);
            self.p2 = self.p2.moved(step.second);
            self.trail.push(step.tip);
            Ok(())
        } else {
            Err(StepError::NonFiniteState)
        }
    }
}

/// A step leaves a valid double pendulum valid, and never changes a mass, a
/// length or the colour.
pub proof fn step_keeps_valid(body: DoublePendulumView, step: Step)
    requires
        body.valid(),
    ensures
        body.stepped(step).valid(),
        body.stepped(step).p1.mass == body.p1.mass,
        body.stepped(step).p1.rod_length == body.p1.rod_length,
        body.stepped(step).p2.mass == body.p2.mass,
        body.stepped(step).p2.rod_length == body.p2.rod_length,
        body.stepped(step).color == body.color,
{
}

} // verus!
