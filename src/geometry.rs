//! Axis-aligned boxes in fixed-point units, their overlap classification and
//! the velocity reflection that a contact causes.

use vstd::prelude::*;

verus! {

/// Largest magnitude of a coordinate of a body's centre.
pub const COORD_LIMIT: i64 = 1_099_511_627_776;

/// Largest extent of a body along one axis.
pub const SIZE_LIMIT: i64 = 1_099_511_627_776;

/// Largest magnitude of one velocity component, in units per tick.
pub const SPEED_LIMIT: i64 = 1_073_741_824;

/// A box given by its centre and its full width and height.
#[derive(Clone, Copy, Debug, PartialEq, Eq, Structural)]
pub struct Rect {
    pub x: i64,
    pub y: i64,
    pub width: i64,
    pub height: i64,
}

/// Per-tick displacement of a moving body.
#[derive(Clone, Copy, Debug, PartialEq, Eq, Structural)]
pub struct Velocity {
    pub x: i64,
    pub y: i64,
}

/// Side of the second box on which the first one touches it.
#[derive(Clone, Copy, Debug, PartialEq, Eq, Structural)]
pub enum Collision {
    Left,
    Right,
    Top,
    Bottom,
    Inside,
}

impl Rect {
    pub open spec fn wf(self) -> bool {
        &&& -COORD_LIMIT <= self.x <= COORD_LIMIT
        &&& -COORD_LIMIT <= self.y <= COORD_LIMIT
        &&& 0 <= self.width <= SIZE_LIMIT
        &&& 0 <= self.height <= SIZE_LIMIT
    }

    /// Edges, doubled so that half extents stay integral.
    pub open spec fn min_x(self) -> int {
        2 * self.x - self.width
    }

    pub open spec fn max_x(self) -> int {
        2 * self.x + self.width
    }

    pub open spec fn min_y(self) -> int {
        2 * self.y - self.height
    }

    pub open spec fn max_y(self) -> int {
        2 * self.y + self.height
    }
}

impl Velocity {
    pub open spec fn wf(self) -> bool {
        &&& -SPEED_LIMIT <= self.x <= SPEED_LIMIT
        &&& -SPEED_LIMIT <= self.y <= SPEED_LIMIT
    }
}

pub open spec fn abs(v: int) -> int {
    if v < 0 { -v } else { v }
}

pub open spec fn overlaps(a: Rect, b: Rect) -> bool {
    &&& a.min_x() < b.max_x()
    &&& a.max_x() > b.min_x()
    &&& a.min_y() < b.max_y()
    &&& a.max_y() > b.min_y()
}

/// Side hit along x with its penetration depth; `None` when `a` straddles
/// neither vertical edge of `b` alone.
pub open spec fn x_contact(a: Rect, b: Rect) -> Option<(Collision, int)> {
    if a.min_x() < b.min_x() && a.max_x() > b.min_x() && a.max_x() < b.max_x() {
        Some((Collision::Left, b.min_x() - a.max_x()))
    } else if a.min_x() > b.min_x() && a.min_x() < b.max_x() && a.max_x() > b.max_x() {
        Some((Collision::Right, a.min_x() - b.max_x()))
    } else {
        None
    }
}

pub open spec fn y_contact(a: Rect, b: Rect) -> Option<(Collision, int)> {
    if a.min_y() < b.min_y() && a.max_y() > b.min_y() && a.max_y() < b.max_y() {
        Some((Collision::Bottom, b.min_y() - a.max_y()))
    } else if a.min_y() > b.min_y() && a.min_y() < b.max_y() && a.max_y() > b.max_y() {
        Some((Collision::Top, a.min_y() - b.max_y()))
    } else {
        None
    }
}

/// Classification of the contact of `a` with `b`: `None` when they do not
/// overlap; otherwise the side of least penetration, `Inside` when neither
/// axis has a side.
pub open spec fn collision_of(a: Rect, b: Rect) -> Option<Collision> {
    if !overlaps(a, b) {
        None
    } else {
        match (x_contact(a, b), y_contact(a, b)) {
            (Some((xc, xd)), Some((yc, yd))) => if abs(yd) < abs(xd) {
                Some(yc)
            } else {
                Some(xc)
            },
            (Some((xc, _)), None) => Some(xc),
            (None, Some((yc, _))) => Some(yc),
            (None, None) => Some(Collision::Inside),
        }
    }
}

/// A contact that bounces: an overlap classified on a side.
pub open spec fn contact_of(a: Rect, b: Rect) -> Option<Collision> {
    match collision_of(a, b) {
        Some(Collision::Inside) => None,
        c => c,
    }
}

/// The velocity after a contact on side `c`: the component along the contact
/// axis flips only when it points into the other box.
pub open spec fn reflect(v: Velocity, c: Collision) -> Velocity {
    match c {
        Collision::Left => if v.x > 0 { Velocity { x: (-v.x) as i64, y: v.y } } else { v },
        Collision::Right => if v.x < 0 { Velocity { x: (-v.x) as i64, y: v.y } } else { v },
        Collision::Top => if v.y < 0 { Velocity { x: v.x, y: (-v.y) as i64 } } else { v },
        Collision::Bottom => if v.y > 0 { Velocity { x: v.x, y: (-v.y) as i64 } } else { v },
        Collision::Inside => v,
    }
}

/// Classifies the overlap of `a` with `b` (see `collision_of`).
pub fn collide(a: &Rect, b: &Rect) -> (r: Option<Collision>)
    requires
        a.wf(),
        b.wf(),
    ensures
        r == collision_of(*a, *b),
{
    let a_min_x = 2 * a.x - a.width;
    let a_max_x = 2 * a.x + a.width;
    let a_min_y = 2 * a.y - a.height;
    let a_max_y = 2 * a.y + a.height;
    let b_min_x = 2 * b.x - b.width;
    let b_max_x = 2 * b.x + b.width;
    let b_min_y = 2 * b.y - b.height;
    let b_max_y = 2 * b.y + b.height;
    if !(a_min_x < b_max_x && a_max_x > b_min_x && a_min_y < b_max_y && a_max_y > b_min_y) {
        return None;
    }
    let x_side: Option<(Collision, i64)> = if a_min_x < b_min_x && a_max_x > b_min_x && a_max_x
        < b_max_x {
        Some((Collision::Left, a_max_x - b_min_x))
    } else if a_min_x > b_min_x && a_min_x < b_max_x && a_max_x > b_max_x {
        Some((Collision::Right, b_max_x - a_min_x))
    } else {
        None
    };
    let y_side: Option<(Collision, i64)> = if a_min_y < b_min_y && a_max_y > b_min_y && a_max_y
        < b_max_y {
        Some((Collision::Bottom, a_max_y - b_min_y))
    } else if a_min_y > b_min_y && a_min_y < b_max_y && a_max_y > b_max_y {
        Some((Collision::Top, b_max_y - a_min_y))
    } else {
        None
    };
    match (x_side, y_side) {
        (Some((xc, xd)), Some((yc, yd))) => if yd < xd {
            Some(yc)
        } else {
            Some(xc)
        },
        (Some((xc, _)), None) => Some(xc),
        (None, Some((yc, _))) => Some(yc),
        (None, None) => Some(Collision::Inside),
    }
}

/// Bounces `v` off a contact on side `c` (see `reflect`).
pub fn reflect_velocity(v: Velocity, c: Collision) -> (r: Velocity)
    requires
        v.wf(),
    ensures
        r == reflect(v, c),
        r.wf(),
{
    match c {
        Collision::Left => if v.x > 0 { Velocity { x: -v.x, y: v.y } } else { v },
        Collision::Right => if v.x < 0 { Velocity { x: -v.x, y: v.y } } else { v },
        Collision::Top => if v.y < 0 { Velocity { x: v.x, y: -v.y } } else { v },
        Collision::Bottom => if v.y > 0 { Velocity { x: v.x, y: -v.y } } else { v },
        Collision::Inside => v,
    }
}

/// A ball moving right that touches a box on that box's right side keeps its
/// course; one moving left is sent back to the right at the same speed.
pub proof fn lemma_right_contact_reflection(v: Velocity)
    requires
        v.wf(),
    ensures
        v.x > 0 ==> reflect(v, Collision::Right) == v,
        v.x < 0 ==> reflect(v, Collision::Right).x == -v.x && reflect(v, Collision::Right).x > 0,
        reflect(v, Collision::Right).y == v.y,
{
}

} // verus!
