use double_pendulum::pendulum::{
    AngularState, Color, DoublePendulum, Drawing, Pendulum, Step, StepError, MIN_DRAWN_TRAIL,
};
use double_pendulum::point::Point2D;
use double_pendulum::scalar::Scalar;
use double_pendulum::trail::TRAIL_LENGTH;
use std::f32::consts::FRAC_PI_2;

fn scalar(x: f32) -> Scalar {
    Scalar::from_bits(x.to_bits())
}

fn point(x: f32, y: f32) -> Point2D {
    Point2D::new(scalar(x), scalar(y))
}

fn state(theta: f32, speed: f32) -> AngularState {
    AngularState::new(scalar(theta), scalar(speed))
}

fn step(t1: f32, s1: f32, t2: f32, s2: f32, x: f32, y: f32) -> Step {
    Step::new(state(t1, s1), state(t2, s2), point(x, y))
}

fn body(m1: f32, l1: f32, m2: f32, l2: f32, theta: f32) -> Option<DoublePendulum> {
    DoublePendulum::new(
        scalar(m1),
        scalar(l1),
        scalar(m2),
        scalar(l2),
        scalar(theta),
        scalar(0.25),
        scalar(0.5),
        scalar(0.75),
    )
}

fn sample_body() -> DoublePendulum {
    body(3.0, 100.0, 3.0, 100.0, FRAC_PI_2).unwrap()
}

#[test]
fn a_pendulum_holds_what_it_was_made_of() {
    let p = Pendulum::new(scalar(3.0), scalar(100.0), scalar(0.5), scalar(-0.25));
    assert_eq!(p.mass, scalar(3.0));
    assert_eq!(p.rod_length, scalar(100.0));
    assert_eq!(p.theta, scalar(0.5));
    assert_eq!(p.angular_speed, scalar(-0.25));
    assert_eq!(p.angular_state(), state(0.5, -0.25));
}

#[test]
fn a_moved_pendulum_keeps_mass_and_length() {
    let p = Pendulum::new(scalar(3.0), scalar(100.0), scalar(0.5), scalar(-0.25));
    let q = p.moved(state(1.5, 0.125));
    assert_eq!(q, Pendulum::new(scalar(3.0), scalar(100.0), scalar(1.5), scalar(0.125)));
}

#[test]
fn a_pendulum_is_valid_with_positive_mass_and_length_and_finite_numbers() {
    let valid = |m: f32, l: f32, t: f32, s: f32| {
        Pendulum::new(scalar(m), scalar(l), scalar(t), scalar(s)).is_valid()
    };
    assert!(valid(3.0, 100.0, 0.0, 0.0));
    assert!(valid(f32::MIN_POSITIVE, f32::MAX, -1.0e30, 1.0e30));
    assert!(!valid(0.0, 100.0, 0.0, 0.0));
    assert!(!valid(-0.0, 100.0, 0.0, 0.0));
    assert!(!valid(-3.0, 100.0, 0.0, 0.0));
    assert!(!valid(f32::INFINITY, 100.0, 0.0, 0.0));
    assert!(!valid(f32::NAN, 100.0, 0.0, 0.0));
    assert!(!valid(3.0, 0.0, 0.0, 0.0));
    assert!(!valid(3.0, -50.0, 0.0, 0.0));
    assert!(!valid(3.0, f32::INFINITY, 0.0, 0.0));
    assert!(!valid(3.0, f32::NAN, 0.0, 0.0));
    assert!(!valid(3.0, 100.0, f32::NAN, 0.0));
    assert!(!valid(3.0, 100.0, f32::INFINITY, 0.0));
    assert!(!valid(3.0, 100.0, 0.0, f32::NEG_INFINITY));
    assert!(!valid(3.0, 100.0, 0.0, f32::NAN));
}

#[test]
fn an_angular_state_is_finite_when_both_numbers_are() {
    assert!(state(1.0, -2.0).is_finite());
    assert!(!state(f32::NAN, 0.0).is_finite());
    assert!(!state(0.0, f32::INFINITY).is_finite());
    assert!(step(0.0, 0.0, 0.0, 0.0, f32::NAN, f32::INFINITY).is_finite());
    assert!(!step(0.0, 0.0, f32::NEG_INFINITY, 0.0, 0.0, 0.0).is_finite());
}

#[test]
fn a_new_double_pendulum_is_at_rest_with_both_rods_at_the_same_angle() {
    let b = body(2.5, 120.0, 4.0, 80.0, 2.0).unwrap();
    assert_eq!(b.p1(), Pendulum::new(scalar(2.5), scalar(120.0), scalar(2.0), scalar(0.0)));
    assert_eq!(b.p2(), Pendulum::new(scalar(4.0), scalar(80.0), scalar(2.0), scalar(0.0)));
    assert_eq!(b.p1().theta, b.p2().theta);
    assert_eq!(f32::from_bits(b.p1().angular_speed.to_bits()), 0.0);
    assert_eq!(f32::from_bits(b.p2().angular_speed.to_bits()), 0.0);
    assert!(b.trail().is_empty());
}

#[test]
fn a_new_double_pendulum_has_an_opaque_colour() {
    let b = body(2.5, 120.0, 4.0, 80.0, 2.0).unwrap();
    assert_eq!(
        b.color(),
        Color { r: scalar(0.25), g: scalar(0.5), b: scalar(0.75), a: scalar(1.0) }
    );
}

#[test]
fn there_is_no_double_pendulum_of_invalid_numbers() {
    assert!(body(3.0, 100.0, 3.0, 100.0, 0.0).is_some());
    assert!(body(0.0, 100.0, 3.0, 100.0, 0.0).is_none());
    assert!(body(3.0, 100.0, -1.0, 100.0, 0.0).is_none());
    assert!(body(3.0, -10.0, 3.0, 100.0, 0.0).is_none());
    assert!(body(3.0, 100.0, 3.0, 0.0, 0.0).is_none());
    assert!(body(3.0, 100.0, 3.0, f32::INFINITY, 0.0).is_none());
    assert!(body(f32::NAN, 100.0, 3.0, 100.0, 0.0).is_none());
    assert!(body(3.0, 100.0, 3.0, 100.0, f32::NAN).is_none());
    assert!(body(3.0, 100.0, 3.0, 100.0, f32::INFINITY).is_none());
}

#[test]
fn a_step_from_rest_at_a_right_angle_is_taken_over() {
    // Both rods horizontal and at rest, masses 3, lengths 100, gravity 1:
    // the accelerations are -0.01 and 0.
    let mut b = sample_body();
    let (a1, a2) = (-0.01f32, 0.0f32);
    let s1 = 0.0 + a1;
    let s2 = 0.0 + a2;
    let t1 = FRAC_PI_2 + s1;
    let t2 = FRAC_PI_2 + s2;
    let tip = point(100.0 * t1.sin() + 100.0 * t2.sin(), 100.0 * t1.cos() + 100.0 * t2.cos());
    assert_eq!(b.update(Step::new(state(t1, s1), state(t2, s2), tip)), Ok(()));
    assert_eq!(f32::from_bits(b.p1().angular_speed.to_bits()), -0.01);
    assert_eq!(f32::from_bits(b.p2().angular_speed.to_bits()), 0.0);
    assert_eq!(f32::from_bits(b.p1().theta.to_bits()), FRAC_PI_2 - 0.01);
    assert_eq!(f32::from_bits(b.p2().theta.to_bits()), FRAC_PI_2);
    assert_eq!(b.p1().mass, scalar(3.0));
    assert_eq!(b.p2().mass, scalar(3.0));
    assert_eq!(b.p1().rod_length, scalar(100.0));
    assert_eq!(b.p2().rod_length, scalar(100.0));
    assert_eq!(b.trail(), vec![tip]);
}

#[test]
fn a_step_with_a_non_finite_number_is_refused_and_changes_nothing() {
    let bad = [
        step(f32::NAN, 0.0, 1.0, 0.0, 1.0, 1.0),
        step(1.0, f32::INFINITY, 1.0, 0.0, 1.0, 1.0),
        step(1.0, 0.0, f32::NEG_INFINITY, 0.0, 1.0, 1.0),
        step(1.0, 0.0, 1.0, f32::NAN, 1.0, 1.0),
    ];
    for s in bad {
        let mut b = sample_body();
        assert_eq!(b.update(step(1.0, 0.5, 2.0, 0.25, 7.0, 8.0)), Ok(()));
        assert_eq!(b.update(s), Err(StepError::NonFiniteState));
        assert_eq!(b.p1().angular_state(), state(1.0, 0.5));
        assert_eq!(b.p2().angular_state(), state(2.0, 0.25));
        assert_eq!(b.trail(), vec![point(7.0, 8.0)]);
    }
}

#[test]
fn a_step_pushes_its_tip_onto_the_trail() {
    let mut b = sample_body();
    for i in 0..5 {
        let x = i as f32;
        assert_eq!(b.update(step(x, 0.0, x, 0.0, x, 2.0 * x)), Ok(()));
    }
    assert_eq!(b.trail(), (0..5).map(|i| point(i as f32, 2.0 * i as f32)).collect::<Vec<_>>());
}

#[test]
fn a_step_to_the_same_tip_does_not_lengthen_the_trail() {
    let mut b = sample_body();
    assert_eq!(b.update(step(1.0, 0.0, 1.0, 0.0, 5.0, 6.0)), Ok(()));
    assert_eq!(b.update(step(2.0, 0.0, 2.0, 0.0, 5.0, 6.0)), Ok(()));
    assert_eq!(b.trail(), vec![point(5.0, 6.0)]);
    assert_eq!(b.p1().theta, scalar(2.0));
}

#[test]
fn the_trail_of_a_double_pendulum_is_bounded() {
    let mut b = sample_body();
    for i in 0..(2 * TRAIL_LENGTH + 5) {
        let x = i as f32;
        assert_eq!(b.update(step(x, 0.0, x, 0.0, x, x)), Ok(()));
        assert!(b.trail().len() <= TRAIL_LENGTH);
    }
    let trail = b.trail();
    assert_eq!(trail.len(), TRAIL_LENGTH);
    assert_eq!(trail[0], point((TRAIL_LENGTH + 5) as f32, (TRAIL_LENGTH + 5) as f32));
}

#[test]
fn a_trail_is_drawn_from_three_points_on_and_only_where_trails_are_shown() {
    assert_eq!(MIN_DRAWN_TRAIL, 3);
    let mut b = sample_body();
    assert_eq!(b.draw(true).trail, None);
    for i in 0..2 {
        let x = i as f32;
        assert_eq!(b.update(step(x, 0.0, x, 0.0, x, x)), Ok(()));
        assert_eq!(b.draw(true).trail, None);
        assert_eq!(b.draw(false).trail, None);
    }
    assert_eq!(b.update(step(2.0, 0.0, 2.0, 0.0, 2.0, 2.0)), Ok(()));
    assert_eq!(
        b.draw(true).trail,
        Some(vec![point(0.0, 0.0), point(1.0, 1.0), point(2.0, 2.0)])
    );
    assert_eq!(b.draw(false).trail, None);
}

#[test]
fn a_drawing_shows_the_rods_and_the_colour_as_they_are() {
    let mut b = sample_body();
    assert_eq!(b.update(step(1.0, 0.5, 2.0, 0.25, 7.0, 8.0)), Ok(()));
    let expected = Drawing {
        p1: Pendulum::new(scalar(3.0), scalar(100.0), scalar(1.0), scalar(0.5)),
        p2: Pendulum::new(scalar(3.0), scalar(100.0), scalar(2.0), scalar(0.25)),
        color: Color { r: scalar(0.25), g: scalar(0.5), b: scalar(0.75), a: scalar(1.0) },
        trail: None,
    };
    assert_eq!(b.draw(true), expected);
    assert_eq!(b.draw(false), expected);
    // drawing changes nothing
    assert_eq!(b.trail(), vec![point(7.0, 8.0)]);
    assert_eq!(b.p1().theta, scalar(1.0));
}
