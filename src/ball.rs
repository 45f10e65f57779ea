//! The ball: its motion over one tick and its response to contacts.
use vstd::prelude::*;
use vstd::math::abs;
use crate::geometry::{Aabb, Collision, IVec2, box_around, collide, collision_of};

verus! {

/// Half the side of the square ball.
pub const BALL_HALF_SIZE: i64 = 600;
/// Largest coordinate, in absolute value, of the ball's position and of
/// each component of its velocity, so that one tick cannot overflow.
pub const COORDINATE_LIMIT: i64 = 1_000_000_000_000_000_000;

/// The ball: where it is and how far it moves in one tick.
#[derive(Clone, Copy, Debug, PartialEq, Eq, Structural)]
pub struct Ball {
    pub position: IVec2,
    pub velocity: IVec2,
}

/// `v` lies within `[-COORDINATE_LIMIT, COORDINATE_LIMIT]`.
pub open spec fn within_limit(v: int) -> bool {
    -COORDINATE_LIMIT <= v <= COORDINATE_LIMIT
}

/// `v` lies within twice the coordinate limit, where a valid ball may be
/// after one tick of motion.
pub open spec fn within_double_limit(v: int) -> bool {
    -2 * COORDINATE_LIMIT <= v <= 2 * COORDINATE_LIMIT
}

impl Ball {
    /// Position and velocity lie within the coordinate limit.
    pub open spec fn valid(self) -> bool {
        &&& within_limit(self.position.x as int)
        &&& within_limit(self.position.y as int)
        &&& within_limit(self.velocity.x as int)
        &&& within_limit(self.velocity.y as int)
    }

    pub open spec fn bounds(self) -> Aabb {
        box_around(self.position, IVec2 { x: BALL_HALF_SIZE, y: BALL_HALF_SIZE })
    }

    /// The ball after one tick of free flight: each coordinate of the
    /// position advances by the matching component of the velocity.
    pub open spec fn integrated(self) -> Ball {
        Ball {
            position: IVec2 {
                x: (self.position.x + self.velocity.x) as i64,
                y: (self.position.y + self.velocity.y) as i64,
            },
            velocity: self.velocity,
        }
    }

    /// The ball's box.
    pub fn aabb(&self) -> (r: Aabb)
        requires
            within_double_limit(self.position.x as int),
            within_double_limit(self.position.y as int),
        ensures
            r == self.bounds(),
    {
        Aabb::around(self.position, IVec2 { x: BALL_HALF_SIZE, y: BALL_HALF_SIZE })
    }

    /// Advances the ball by one tick of its velocity.
    pub fn apply_velocity(&mut self)
        requires
            old(self).valid(),
        ensures
            *final(self) == old(self).integrated(),
            final(self).position.x == old(self).position.x + old(self).velocity.x,
            final(self).position.y == old(self).position.y + old(self).velocity.y,
    {
        self.position.x = self.position.x + self.velocity.x;
        self.position.y = self.position.y + self.velocity.y;
    }
}

/// The velocity after a contact on side `c`: a component is negated only
/// while it points into the surface that was hit.
pub open spec fn reflected(v: IVec2, c: Collision) -> IVec2 {
    match c {
        Collision::Left => if v.x > 0 { IVec2 { x: -v.x as i64, y: v.y } } else { v },
        Collision::Right => if v.x < 0 { IVec2 { x: -v.x as i64, y: v.y } } else { v },
        Collision::Top => if v.y < 0 { IVec2 { x: v.x, y: -v.y as i64 } } else { v },
        Collision::Bottom => if v.y > 0 { IVec2 { x: v.x, y: -v.y as i64 } } else { v },
        Collision::Inside => v,
    }
}

/// The velocity of a ball with box `ball` after it is tested against
/// `collider`.
pub open spec fn bounced(v: IVec2, ball: Aabb, collider: Aabb) -> IVec2 {
    match collision_of(ball, collider) {
        Some(c) => reflected(v, c),
        None => v,
    }
}

/// The velocity after testing the ball against each collider in turn.
pub open spec fn bounced_all(v: IVec2, ball: Aabb, colliders: Seq<Aabb>) -> IVec2
    decreases colliders.len(),
{
    if colliders.len() == 0 {
        v
    } else {
        bounced(bounced_all(v, ball, colliders.drop_last()), ball, last_collider(colliders))
    }
}

/// The last collider of a nonempty sequence.
pub open spec fn last_collider(colliders: Seq<Aabb>) -> Aabb {
    colliders[colliders.len() - 1]
}

/// How many of the colliders the ball's box overlaps: one collision event
/// is emitted for each.
pub open spec fn contact_count(ball: Aabb, colliders: Seq<Aabb>) -> nat
    decreases colliders.len(),
{
    if colliders.len() == 0 {
        0
    } else {
        contact_count(ball, colliders.drop_last()) + if overlaps_last(ball, colliders) {
            1nat
        } else {
            0nat
        }
    }
}

pub open spec fn overlaps_last(ball: Aabb, colliders: Seq<Aabb>) -> bool {
    collision_of(ball, last_collider(colliders)) is Some
}

/// Neither component of `v` is `i64::MIN`, so either can be negated.
pub open spec fn negatable(v: IVec2) -> bool {
    v.x != i64::MIN && v.y != i64::MIN
}

/// Applies the response to a contact on side `c`.
pub fn reflect(v: IVec2, c: Collision) -> (r: IVec2)
    requires
        negatable(v),
    ensures
        r == reflected(v, c),
{
    match c {
        Collision::Left => if v.x > 0 { IVec2 { x: -v.x, y: v.y } } else { v },
        Collision::Right => if v.x < 0 { IVec2 { x: -v.x, y: v.y } } else { v },
        Collision::Top => if v.y < 0 { IVec2 { x: v.x, y: -v.y } } else { v },
        Collision::Bottom => if v.y > 0 { IVec2 { x: v.x, y: -v.y } } else { v },
        Collision::Inside => v,
    }
}

/// Reflection keeps the magnitude of each component.
pub proof fn lemma_reflected_keeps_speed(v: IVec2, c: Collision)
    requires
        negatable(v),
    ensures
        abs(reflected(v, c).x as int) == abs(v.x as int),
        abs(reflected(v, c).y as int) == abs(v.y as int),
        negatable(reflected(v, c)),
{
}

/// Testing against any sequence of colliders keeps the magnitude of each
/// component of the velocity.
pub proof fn lemma_bounced_all_keeps_speed(v: IVec2, ball: Aabb, colliders: Seq<Aabb>)
    requires
        negatable(v),
    ensures
        abs(bounced_all(v, ball, colliders).x as int) == abs(v.x as int),
        abs(bounced_all(v, ball, colliders).y as int) == abs(v.y as int),
        negatable(bounced_all(v, ball, colliders)),
    decreases colliders.len(),
{
    if colliders.len() > 0 {
        lemma_bounced_all_keeps_speed(v, ball, colliders.drop_last());
        let w = bounced_all(v, ball, colliders.drop_last());
        match collision_of(ball, last_collider(colliders)) {
            Some(c) => lemma_reflected_keeps_speed(w, c),
            None => {},
        }
    }
}

/// Tests the ball's box against each collider in turn and reflects the
/// velocity for every contact. Returns the new velocity and the number of
/// collision events emitted.
pub fn bounce_all(v: IVec2, ball: &Aabb, colliders: &Vec<Aabb>) -> (r: (IVec2, usize))
    requires
        negatable(v),
    ensures
        r.0 == bounced_all(v, *ball, colliders@),
        r.1 == contact_count(*ball, colliders@),
{
    let mut w = v;
    let mut events: usize = 0;
    let mut i: usize = 0;
    while i < colliders.len()
        invariant
            i <= colliders@.len(),
            w == bounced_all(v, *ball, colliders@.subrange(0, i as int)),
            events == contact_count(*ball, colliders@.subrange(0, i as int)),
            events <= i,
            negatable(v),
        decreases colliders@.len() - i,
    {
        let ghost done = colliders@.subrange(0, i as int);
        let ghost next = colliders@.subrange(0, i + 1);
        assert(next.drop_last() == done);
        assert(last_collider(next) == colliders@[i as int]);
        proof {
            lemma_bounced_all_keeps_speed(v, *ball, done);
        }
        match collide(ball, &colliders[i]) {
            Some(c) => {
                w = reflect(w, c);
                events = events + 1;
            },
            None => {},
        }
        i = i + 1;
    }
    assert(colliders@.subrange(0, colliders@.len() as int) == colliders@);
    (w, events)
}

} // verus!
