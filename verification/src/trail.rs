//! The bounded history of tip positions.

use vstd::prelude::*;
use crate::point::Point2D;

verus! {

/// The number of positions that a trail holds at most.
pub const TRAIL_LENGTH: usize = 100;

/// Whether `trail` is not empty and its newest point is at the position of `point`.
pub open spec fn ends_at(trail: Seq<Point2D>, point: Point2D) -> bool {
    trail.len() > 0 && trail.last().spec_same_as(point)
}

/// The trail after `point` was offered to it: the point is appended unless
/// the trail ends at its position, and then the oldest point leaves if the
/// trail has grown beyond [`TRAIL_LENGTH`].
pub open spec fn pushed(trail: Seq<Point2D>, point: Point2D) -> Seq<Point2D> {
    let appended = if ends_at(trail, point) {
        trail
    } else {
        trail.push(point)
    };
    if appended.len() > TRAIL_LENGTH {
        appended.drop_first()
    } else {
        appended
    }
}

/// The trail after each of `points` was offered to it, in order.
pub open spec fn pushed_all(trail: Seq<Point2D>, points: Seq<Point2D>) -> Seq<Point2D>
    decreases points.len(),
{
    if points.len() == 0 {
        trail
    } else {
        pushed(pushed_all(trail, points.drop_last()), points.last())
    }
}

/// The slot that lies `offset` places after slot `start` in a ring of `size` slots.
pub open spec fn ring_index(start: int, offset: int, size: int) -> int {
    if start + offset < size {
        start + offset
    } else {
        start + offset - size
    }
}

/// A queue of at most [`TRAIL_LENGTH`] points, oldest first.
///
/// The points lie in a ring of slots that is allocated once. Until the ring
/// is full a new point takes the next free slot; from then on it takes the
/// slot of the oldest one.
pub struct TrailBuffer {
    slots: Vec<Point2D>,
    /// The slot of the oldest point; 0 until the ring is full.
    oldest: usize,
}

impl View for TrailBuffer {
    type V = Seq<Point2D>;

    closed spec fn view(&self) -> Seq<Point2D> {
        Seq::new(
            self.slots@.len(),
            |i: int| self.slots@[ring_index(self.oldest as int, i, self.slots@.len() as int)],
        )
    }
}

impl TrailBuffer {
    /// The invariant of the ring: every function here keeps it.
    pub closed spec fn wf(&self) -> bool {
        &&& self.slots@.len() <= TRAIL_LENGTH
        &&& if self.slots@.len() < TRAIL_LENGTH {
            self.oldest == 0
        } else {
            self.oldest < TRAIL_LENGTH
        }
    }

    /// A well-formed trail is within its capacity.
    pub proof fn wf_is_bounded(&self)
        requires
            self.wf(),
        ensures
            self@.len() <= TRAIL_LENGTH,
    {
    }

    /// An empty trail.
    pub fn new() -> (trail: TrailBuffer)
        ensures
            trail.wf(),
            trail@ == Seq::<Point2D>::empty(),
    {
        TrailBuffer { slots: Vec::with_capacity(TRAIL_LENGTH), oldest: 0 }
    }

    /// The number of points held.
    pub fn len(&self) -> (n: usize)
        requires
            self.wf(),
        ensures
            n == self@.len(),
            n <= TRAIL_LENGTH,
    {
        self.slots.len()
    }

    /// The slot of the newest point.
    fn newest_slot(&self) -> (slot: usize)
        requires
            self.wf(),
            self@.len() > 0,
        ensures
            slot < self.slots@.len(),
            self.slots@[slot as int] == self@.last(),
    {
        if self.oldest == 0 {
            self.slots.len() - 1
        } else {
            self.oldest - 1
        }
    }

    /// The newest point, if there is one.
    pub fn last(&self) -> (newest: Option<Point2D>)
        requires
            self.wf(),
        ensures
            newest == if self@.len() > 0 {
                Some(self@.last())
            } else {
                None
            },
    {
        if self.slots.len() == 0 {
            None
        } else {
            let slot = self.newest_slot();
            Some(self.slots[slot])
        }
    }

    /// The point at place `index` counted from the oldest, if there is one.
    pub fn get(&self, index: usize) -> (point: Option<Point2D>)
        requires
            self.wf(),
        ensures
            point == if index < self@.len() {
                Some(self@[index as int])
            } else {
                None
            },
    {
        let n = self.slots.len();
        if index >= n {
            None
        } else if index < n - self.oldest {
            Some(self.slots[self.oldest + index])
        } else {
            Some(self.slots[index - (n - self.oldest)])
        }
    }

    /// Offers `point` to the trail.
    ///
    /// Nothing happens if the trail ends at the position of `point`.
    /// Otherwise the point becomes the newest, and where the trail was full
    /// the oldest point leaves.
    pub fn push(&mut self, point: Point2D)
        requires
            old(self).wf(),
        ensures
            final(self).wf(),
            final(self)@ == pushed(old(self)@, point),
            final(self)@.len() <= TRAIL_LENGTH,
    {
        let n = self.slots.len();
        if n > 0 {
            let slot = self.newest_slot();
            if self.slots[slot].same_as(point) {
                return;
            }
        }
        if n < TRAIL_LENGTH {
            self.slots.push(point);
            assert(self@ =~= old(self)@.push(point));
        } else {
            let slot = self.oldest;
            self.slots[slot] = point;
            self.oldest = if slot + 1 == TRAIL_LENGTH {
                0
            } else {
                slot + 1
            };
            assert(self@ =~= old(self)@.push(point).drop_first());
        }
    }

    /// The points, oldest first.
    pub fn as_sequence(&self) -> (points: Vec<Point2D>)
        requires
            self.wf(),
        ensures
            points@ == self@,
    {
        let n = self.slots.len();
        let mut points: Vec<Point2D> = Vec::with_capacity(n);
        let mut i: usize = 0;
        while i < n
            invariant
                n == self.slots@.len(),
                n == self@.len(),
                n <= TRAIL_LENGTH,
                self.oldest < n || n == 0,
                i <= n,
                points@ == self@.take(i as int),
            decreases n - i,
        {
            let slot = if i < n - self.oldest {
                self.oldest + i
            } else {
                i - (n - self.oldest)
            };
            points.push(self.slots[slot]);
            assert(self@.take(i + 1) =~= self@.take(i as int).push(self@[i as int]));
            i += 1;
        }
        assert(self@.take(n as int) =~= self@);
        points
    }
}

/// However many points are offered to a trail that holds at most
/// [`TRAIL_LENGTH`] points, it never comes to hold more.
pub proof fn trail_stays_within_capacity(trail: Seq<Point2D>, points: Seq<Point2D>)
    requires
        trail.len() <= TRAIL_LENGTH,
    ensures
        pushed_all(trail, points).len() <= TRAIL_LENGTH,
    decreases points.len(),
{
    if points.len() > 0 {
        trail_stays_within_capacity(trail, points.drop_last());
    }
}

/// A point that a full trail accepts takes the newest place, every other
/// point moves one place towards the oldest, and the point that was the
/// oldest leaves: unless the same point was held a second time, or is the one
/// that was offered, the trail holds it no longer.
pub proof fn full_trail_evicts_oldest(trail: Seq<Point2D>, point: Point2D)
    requires
        trail.len() == TRAIL_LENGTH,
        !ends_at(trail, point),
    ensures
        pushed(trail, point).len() == TRAIL_LENGTH,
        pushed(trail, point).last() == point,
        forall|i: int| 0 <= i < TRAIL_LENGTH - 1 ==> pushed(trail, point)[i] == trail[i + 1],
        pushed(trail, point).contains(trail[0]) <==> (point == trail[0]
            || trail.drop_first().contains(trail[0])),
{
    let after = pushed(trail, point);
    let rest = trail.drop_first();
    assert(after =~= rest.push(point));
    if after.contains(trail[0]) {
        let j = choose|j: int| 0 <= j < after.len() && after[j] == trail[0];
        if j < TRAIL_LENGTH - 1 {
            assert(rest[j] == trail[0]);
        }
    }
    if point == trail[0] {
        assert(after[TRAIL_LENGTH - 1] == trail[0]);
    }
    if rest.contains(trail[0]) {
        let i = choose|i: int| 0 <= i < rest.len() && rest[i] == trail[0];
        assert(after[i] == trail[0]);
    }
}

/// A position offered twice in a row is stored once: the second offer leaves
/// the trail as the first one left it.
///
/// A point with a NaN coordinate is at no position, not even its own, and is
/// appended each time. The length then still stays the same where the first
/// offer has filled the trail.
pub proof fn repeated_push_changes_nothing(trail: Seq<Point2D>, point: Point2D)
    requires
        trail.len() <= TRAIL_LENGTH,
        point.comparable() || trail.len() >= TRAIL_LENGTH - 1,
    ensures
        pushed(pushed(trail, point), point).len() == pushed(trail, point).len(),
        point.comparable() ==> pushed(pushed(trail, point), point) == pushed(trail, point),
{
    let once = pushed(trail, point);
    if point.comparable() {
        assert(point.spec_same_as(point));
        if !ends_at(trail, point) {
            assert(once.last() == point);
        }
        assert(ends_at(once, point));
    }
}

} // verus!
