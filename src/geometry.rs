//! Integer vectors, axis-aligned boxes and the classification of a contact
//! between two boxes.
use vstd::prelude::*;

verus! {

/// A point or a vector in sub-units.
#[derive(Clone, Copy, Debug, PartialEq, Eq, Structural)]
pub struct IVec2 {
    pub x: i64,
    pub y: i64,
}

/// An axis-aligned box given by its lower and upper corners.
#[derive(Clone, Copy, Debug, PartialEq, Eq, Structural)]
pub struct Aabb {
    pub min_x: i64,
    pub min_y: i64,
    pub max_x: i64,
    pub max_y: i64,
}

/// The side of the other box that a moving box touched, seen from the
/// moving box: `Left` means the moving box hit the other box's left edge.
#[derive(Clone, Copy, Debug, PartialEq, Eq, Structural)]
pub enum Collision {
    Left,
    Right,
    Top,
    Bottom,
    Inside,
}

/// The box centred on `center` that reaches `half` from it along each axis.
pub open spec fn box_around(center: IVec2, half: IVec2) -> Aabb {
    Aabb {
        min_x: (center.x - half.x) as i64,
        min_y: (center.y - half.y) as i64,
        max_x: (center.x + half.x) as i64,
        max_y: (center.y + half.y) as i64,
    }
}

pub open spec fn fits_i64(v: int) -> bool {
    i64::MIN <= v <= i64::MAX
}

/// `center ± half` fits in `i64` on both axes.
pub open spec fn fits_around(center: IVec2, half: IVec2) -> bool {
    &&& fits_i64(center.x - half.x) && fits_i64(center.x + half.x)
    &&& fits_i64(center.y - half.y) && fits_i64(center.y + half.y)
}

impl Aabb {
    /// Builds the box centred on `center` with half-extents `half`.
    pub fn around(center: IVec2, half: IVec2) -> (r: Aabb)
        requires
            fits_around(center, half),
        ensures
            r == box_around(center, half),
    {
        Aabb {
            min_x: center.x - half.x,
            min_y: center.y - half.y,
            max_x: center.x + half.x,
            max_y: center.y + half.y,
        }
    }
}

/// The two boxes share interior area.
pub open spec fn overlaps(a: Aabb, b: Aabb) -> bool {
    &&& a.min_x < b.max_x
    &&& a.max_x > b.min_x
    &&& a.min_y < b.max_y
    &&& a.max_y > b.min_y
}

/// Contact of `a` with a vertical edge of `b`: the edge crossed and how far
/// `a` reaches past it. `None` when `a` crosses neither edge alone.
pub open spec fn horizontal_contact(a: Aabb, b: Aabb) -> Option<(Collision, int)> {
    if a.min_x < b.min_x && a.max_x > b.min_x && a.max_x < b.max_x {
        Some((Collision::Left, a.max_x - b.min_x))
    } else if a.min_x > b.min_x && a.min_x < b.max_x && a.max_x > b.max_x {
        Some((Collision::Right, b.max_x - a.min_x))
    } else {
        None
    }
}

/// Contact of `a` with a horizontal edge of `b`, as `horizontal_contact`.
pub open spec fn vertical_contact(a: Aabb, b: Aabb) -> Option<(Collision, int)> {
    if a.min_y < b.min_y && a.max_y > b.min_y && a.max_y < b.max_y {
        Some((Collision::Bottom, a.max_y - b.min_y))
    } else if a.min_y > b.min_y && a.min_y < b.max_y && a.max_y > b.max_y {
        Some((Collision::Top, b.max_y - a.min_y))
    } else {
        None
    }
}

/// How `a` touches `b`: `None` when they do not overlap; otherwise the side
/// with the smaller penetration, the top or bottom edge on a tie, and `Inside`
/// when `a` crosses no edge alone.
pub open spec fn collision_of(a: Aabb, b: Aabb) -> Option<Collision> {
    if !overlaps(a, b) {
        None
    } else {
        match (horizontal_contact(a, b), vertical_contact(a, b)) {
            (None, None) => Some(Collision::Inside),
            (Some(h), None) => Some(h.0),
            (None, Some(v)) => Some(v.0),
            (Some(h), Some(v)) => if v.1 <= h.1 {
                Some(v.0)
            } else {
                Some(h.0)
            },
        }
    }
}

fn horizontal_contact_of(a: &Aabb, b: &Aabb) -> (r: Option<(Collision, i128)>)
    ensures
        r matches Some(p) ==> horizontal_contact(*a, *b) == Some((p.0, p.1 as int)),
        r is None <==> horizontal_contact(*a, *b) is None,
{
    if a.min_x < b.min_x && a.max_x > b.min_x && a.max_x < b.max_x {
        Some((Collision::Left, a.max_x as i128 - b.min_x as i128))
    } else if a.min_x > b.min_x && a.min_x < b.max_x && a.max_x > b.max_x {
        Some((Collision::Right, b.max_x as i128 - a.min_x as i128))
    } else {
        None
    }
}

fn vertical_contact_of(a: &Aabb, b: &Aabb) -> (r: Option<(Collision, i128)>)
    ensures
        r matches Some(p) ==> vertical_contact(*a, *b) == Some((p.0, p.1 as int)),
        r is None <==> vertical_contact(*a, *b) is None,
{
    if a.min_y < b.min_y && a.max_y > b.min_y && a.max_y < b.max_y {
        Some((Collision::Bottom, a.max_y as i128 - b.min_y as i128))
    } else if a.min_y > b.min_y && a.min_y < b.max_y && a.max_y > b.max_y {
        Some((Collision::Top, b.max_y as i128 - a.min_y as i128))
    } else {
        None
    }
}

/// Classifies the contact of the moving box `a` with the box `b`.
pub fn collide(a: &Aabb, b: &Aabb) -> (r: Option<Collision>)
    ensures
        r == collision_of(*a, *b),
{
    if !(a.min_x < b.max_x && a.max_x > b.min_x && a.min_y < b.max_y && a.max_y > b.min_y) {
        return None;
    }
    match (horizontal_contact_of(a, b), vertical_contact_of(a, b)) {
        (None, None) => Some(Collision::Inside),
        (Some(h), None) => Some(h.0),
        (None, Some(v)) => Some(v.0),
        (Some(h), Some(v)) => if v.1 <= h.1 {
            Some(v.0)
        } else {
            Some(h.0)
        },
    }
}

} // verus!
