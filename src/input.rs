//! Input codec: a per-tick symbol of one byte, one bit per direction held.

use vstd::prelude::*;

verus! {

pub const UP: u8 = 1;

pub const DOWN: u8 = 2;

pub const LEFT: u8 = 4;

pub const RIGHT: u8 = 8;

/// Which direction keys a player holds during one tick.
#[derive(Clone, Copy, Debug, PartialEq, Eq, Structural)]
pub struct DirectionKeys {
    pub up: bool,
    pub down: bool,
    pub left: bool,
    pub right: bool,
}

/// Unit steps along each axis; each component is -1, 0 or 1.
#[derive(Clone, Copy, Debug, PartialEq, Eq, Structural)]
pub struct Direction {
    pub x: i64,
    pub y: i64,
}

pub open spec fn flag_if(held: bool, flag: u8) -> u8 {
    if held { flag } else { 0 }
}

/// The symbol for a set of held keys.
pub open spec fn encoded(keys: DirectionKeys) -> u8 {
    flag_if(keys.up, UP) | flag_if(keys.down, DOWN) | flag_if(keys.left, LEFT) | flag_if(
        keys.right,
        RIGHT,
    )
}

pub open spec fn has(bits: u8, flag: u8) -> bool {
    bits & flag != 0
}

/// Contribution of a pair of opposite keys to one axis.
pub open spec fn axis(positive: bool, negative: bool) -> i64 {
    ((if positive { 1int } else { 0 }) - (if negative { 1int } else { 0 })) as i64
}

pub open spec fn decoded(bits: u8) -> Direction {
    Direction { x: axis(has(bits, RIGHT), has(bits, LEFT)), y: axis(has(bits, UP), has(bits, DOWN)) }
}

/// Encodes the held direction keys as a symbol.
pub fn input(keys: DirectionKeys) -> (r: u8)
    ensures
        r == encoded(keys),
        has(r, UP) == keys.up,
        has(r, DOWN) == keys.down,
        has(r, LEFT) == keys.left,
        has(r, RIGHT) == keys.right,
        r & 0xf0 == 0,
{
    let u: u8 = if keys.up { UP } else { 0 };
    let d: u8 = if keys.down { DOWN } else { 0 };
    let l: u8 = if keys.left { LEFT } else { 0 };
    let g: u8 = if keys.right { RIGHT } else { 0 };
    let r: u8 = u | d | l | g;
    assert(((u == 0u8 || u == 1u8) && (d == 0u8 || d == 2u8) && (l == 0u8 || l == 4u8) && (g
        == 0u8 || g == 8u8)) ==> {
        let b = u | d | l | g;
        &&& (b & 1u8 != 0) == (u == 1u8)
        &&& (b & 2u8 != 0) == (d == 2u8)
        &&& (b & 4u8 != 0) == (l == 4u8)
        &&& (b & 8u8 != 0) == (g == 8u8)
        &&& b & 0xf0u8 == 0
    }) by (bit_vector);
    r
}

/// Decodes a symbol into a direction; opposite keys held together cancel.
pub fn direction(input: u8) -> (r: Direction)
    ensures
        r == decoded(input),
{
    let mut r = Direction { x: 0, y: 0 };
    if input & UP != 0 {
        r.y = r.y + 1;
    }
    if input & DOWN != 0 {
        r.y = r.y - 1;
    }
    if input & LEFT != 0 {
        r.x = r.x - 1;
    }
    if input & RIGHT != 0 {
        r.x = r.x + 1;
    }
    r
}

/// Holding up and down together moves nowhere vertically, and likewise left
/// and right horizontally; the other axis is as if the pair were not held.
pub proof fn lemma_opposites_cancel(bits: u8)
    ensures
        decoded(bits | UP | DOWN).y == 0,
        decoded(bits | UP | DOWN).y == decoded(bits & !(UP | DOWN)).y,
        decoded(bits | UP | DOWN).x == decoded(bits).x,
        decoded(bits | LEFT | RIGHT).x == 0,
        decoded(bits | LEFT | RIGHT).x == decoded(bits & !(LEFT | RIGHT)).x,
        decoded(bits | LEFT | RIGHT).y == decoded(bits).y,
{
    assert((bits | 1u8 | 2u8) & 1u8 != 0 && (bits | 1u8 | 2u8) & 2u8 != 0) by (bit_vector);
    assert((bits & !(1u8 | 2u8)) & 1u8 == 0 && (bits & !(1u8 | 2u8)) & 2u8 == 0) by (bit_vector);
    assert(((bits | 1u8 | 2u8) & 4u8 != 0) == (bits & 4u8 != 0) && ((bits | 1u8 | 2u8) & 8u8 != 0)
        == (bits & 8u8 != 0)) by (bit_vector);
    assert((bits | 4u8 | 8u8) & 4u8 != 0 && (bits | 4u8 | 8u8) & 8u8 != 0) by (bit_vector);
    assert((bits & !(4u8 | 8u8)) & 4u8 == 0 && (bits & !(4u8 | 8u8)) & 8u8 == 0) by (bit_vector);
    assert(((bits | 4u8 | 8u8) & 1u8 != 0) == (bits & 1u8 != 0) && ((bits | 4u8 | 8u8) & 2u8 != 0)
        == (bits & 2u8 != 0)) by (bit_vector);
}

} // verus!
