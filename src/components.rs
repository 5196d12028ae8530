//! The records that make up the simulated world.

use crate::geometry::{Rect, Velocity};
use vstd::prelude::*;

verus! {

#[derive(Clone, Copy, Debug, PartialEq, Eq, Structural)]
pub struct Paddle {
    pub body: Rect,
}

/// A paddle and the handle whose input steers it.
#[derive(Clone, Copy, Debug, PartialEq, Eq, Structural)]
pub struct Player {
    pub handle: usize,
    pub paddle: Paddle,
}

#[derive(Clone, Copy, Debug, PartialEq, Eq, Structural)]
pub struct Ball {
    pub body: Rect,
    pub velocity: Velocity,
}

/// Whether a contact leaves the collider in place or destroys it for a point.
#[derive(Clone, Copy, Debug, PartialEq, Eq, Structural)]
pub enum ColliderKind {
    Wall,
    Brick,
}

#[derive(Clone, Copy, Debug, PartialEq, Eq, Structural)]
pub struct Collider {
    pub body: Rect,
    pub kind: ColliderKind,
}

/// Ticks simulated since the match began.
#[derive(Clone, Copy, Debug, PartialEq, Eq, Structural)]
pub struct FrameCount {
    pub frame: u32,
}

impl Collider {
    pub open spec fn is_brick(self) -> bool {
        self.kind == ColliderKind::Brick
    }
}

} // verus!
