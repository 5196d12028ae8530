//! The level: walls and the brick grid in spawn order, the paddles, and the
//! world a match starts from.

use crate::components::{Ball, Collider, ColliderKind, FrameCount, Paddle, Player};
use crate::config::{
    BALL_SIZE, BALL_START_VELOCITY_X, BALL_START_VELOCITY_Y, BALL_START_X, BALL_START_Y,
    BOTTOM_WALL, BRICK_HEIGHT, BRICK_WIDTH, DIVIDER_INSET, DIVIDER_WALL, GAP_BETWEEN_BRICKS,
    GAP_BETWEEN_BRICKS_AND_CEILING, GAP_BETWEEN_BRICKS_AND_SIDES, GAP_BETWEEN_PADDLE_AND_BRICKS,
    LEFT_WALL, P1_START_X, P2_START_X, PADDLE_HEIGHT, PADDLE_WIDTH, PLAYER_START_Y, RIGHT_WALL,
    TOP_WALL, WALL_THICKNESS,
};
use crate::game::{SimulationState, WorldView};
use crate::geometry::{Rect, Velocity};
use vstd::prelude::*;

verus! {

/// Where a wall stands in the arena.
#[derive(Clone, Copy, Debug, PartialEq, Eq, Structural)]
pub enum WallLocation {
    Left,
    Right,
    Bottom,
    Top,
    /// The line between the halves; drawn, but the ball passes through it.
    Center,
}

pub open spec fn arena_width() -> int {
    RIGHT_WALL - LEFT_WALL
}

pub open spec fn arena_height() -> int {
    TOP_WALL - BOTTOM_WALL
}

pub open spec fn wall_body(loc: WallLocation) -> Rect {
    match loc {
        WallLocation::Left => Rect {
            x: LEFT_WALL,
            y: 0,
            width: WALL_THICKNESS,
            height: (arena_height() + WALL_THICKNESS) as i64,
        },
        WallLocation::Right => Rect {
            x: RIGHT_WALL,
            y: 0,
            width: WALL_THICKNESS,
            height: (arena_height() + WALL_THICKNESS) as i64,
        },
        WallLocation::Bottom => Rect {
            x: 0,
            y: BOTTOM_WALL,
            width: (arena_width() + WALL_THICKNESS) as i64,
            height: WALL_THICKNESS,
        },
        WallLocation::Top => Rect {
            x: 0,
            y: TOP_WALL,
            width: (arena_width() + WALL_THICKNESS) as i64,
            height: WALL_THICKNESS,
        },
        WallLocation::Center => Rect {
            x: 0,
            y: DIVIDER_WALL,
            width: (arena_width() - DIVIDER_INSET) as i64,
            height: WALL_THICKNESS,
        },
    }
}

impl WallLocation {
    /// Centre of the wall.
    pub fn position(&self) -> (r: (i64, i64))
        ensures
            r == (wall_body(*self).x, wall_body(*self).y),
    {
        match self {
            WallLocation::Left => (LEFT_WALL, 0),
            WallLocation::Right => (RIGHT_WALL, 0),
            WallLocation::Bottom => (0, BOTTOM_WALL),
            WallLocation::Top => (0, TOP_WALL),
            WallLocation::Center => (0, DIVIDER_WALL),
        }
    }

    /// Width and height of the wall.
    pub fn size(&self) -> (r: (i64, i64))
        ensures
            r == (wall_body(*self).width, wall_body(*self).height),
    {
        let arena_height = TOP_WALL - BOTTOM_WALL;
        let arena_width = RIGHT_WALL - LEFT_WALL;
        match self {
            WallLocation::Left | WallLocation::Right => (
                WALL_THICKNESS,
                arena_height + WALL_THICKNESS,
            ),
            WallLocation::Bottom | WallLocation::Top => (
                arena_width + WALL_THICKNESS,
                WALL_THICKNESS,
            ),
            WallLocation::Center => (arena_width - DIVIDER_INSET, WALL_THICKNESS),
        }
    }
}

pub open spec fn wall(loc: WallLocation) -> Collider {
    Collider { body: wall_body(loc), kind: ColliderKind::Wall }
}

pub open spec fn brick_columns() -> int {
    (arena_width() - 2 * GAP_BETWEEN_BRICKS_AND_SIDES) / (BRICK_WIDTH + GAP_BETWEEN_BRICKS)
}

pub open spec fn bricks_bottom() -> int {
    PLAYER_START_Y + GAP_BETWEEN_PADDLE_AND_BRICKS
}

pub open spec fn brick_rows() -> int {
    (TOP_WALL - bricks_bottom() - GAP_BETWEEN_BRICKS_AND_CEILING) / (BRICK_HEIGHT
        + GAP_BETWEEN_BRICKS)
}

/// Centre of the leftmost brick: the grid is centred between the side walls.
pub open spec fn bricks_offset_x() -> int {
    (LEFT_WALL + RIGHT_WALL) / 2 - brick_columns() * BRICK_WIDTH / 2 - (brick_columns() - 1)
        * GAP_BETWEEN_BRICKS / 2 + BRICK_WIDTH / 2
}

pub open spec fn bricks_offset_y() -> int {
    bricks_bottom() + BRICK_HEIGHT / 2
}

pub open spec fn brick(row: int, column: int) -> Collider {
    Collider {
        body: Rect {
            x: (bricks_offset_x() + column * (BRICK_WIDTH + GAP_BETWEEN_BRICKS)) as i64,
            y: (bricks_offset_y() + row * (BRICK_HEIGHT + GAP_BETWEEN_BRICKS)) as i64,
            width: BRICK_WIDTH,
            height: BRICK_HEIGHT,
        },
        kind: ColliderKind::Brick,
    }
}

/// The four walls, then the bricks row by row from the bottom, each row from
/// the left.
pub open spec fn realm_colliders() -> Seq<Collider> {
    seq![
        wall(WallLocation::Left),
        wall(WallLocation::Right),
        wall(WallLocation::Bottom),
        wall(WallLocation::Top),
    ] + Seq::new(
        (brick_rows() * brick_columns()) as nat,
        |i: int| brick(i / brick_columns(), i % brick_columns()),
    )
}

fn wall_collider(loc: WallLocation) -> (r: Collider)
    ensures
        r == wall(loc),
{
    let (x, y) = loc.position();
    let (width, height) = loc.size();
    Collider { body: Rect { x, y, width, height }, kind: ColliderKind::Wall }
}

/// Lays out the walls and the brick grid.
pub fn spawn_realm() -> (r: Vec<Collider>)
    ensures
        r@ == realm_colliders(),
        forall|i: int| 0 <= i < r@.len() ==> (#[trigger] r@[i]).body.wf(),
{
    let mut r: Vec<Collider> = Vec::new();
    r.push(wall_collider(WallLocation::Left));
    r.push(wall_collider(WallLocation::Right));
    r.push(wall_collider(WallLocation::Bottom));
    r.push(wall_collider(WallLocation::Top));
    let total_width = (RIGHT_WALL - LEFT_WALL) - 2 * GAP_BETWEEN_BRICKS_AND_SIDES;
    let bottom_edge = PLAYER_START_Y + GAP_BETWEEN_PADDLE_AND_BRICKS;
    let total_height = TOP_WALL - bottom_edge - GAP_BETWEEN_BRICKS_AND_CEILING;
    let n_columns = total_width / (BRICK_WIDTH + GAP_BETWEEN_BRICKS);
    let n_rows = total_height / (BRICK_HEIGHT + GAP_BETWEEN_BRICKS);
    let left_edge = (LEFT_WALL + RIGHT_WALL) / 2 - n_columns * BRICK_WIDTH / 2 - (n_columns - 1)
        * GAP_BETWEEN_BRICKS / 2;
    let offset_x = left_edge + BRICK_WIDTH / 2;
    let offset_y = bottom_edge + BRICK_HEIGHT / 2;
    assert(n_columns == brick_columns() && n_columns == 8);
    assert(n_rows == brick_rows() && n_rows == 7);
    assert(offset_x == bricks_offset_x() && offset_x == -22050);
    assert(offset_y == bricks_offset_y() && offset_y == 2700);
    let n = n_rows * n_columns;
    let ghost walls = r@;
    let mut i: i64 = 0;
    while i < n
        invariant
            n == brick_rows() * brick_columns(),
            n_columns == 8,
            n == 56,
            offset_x == -22050,
            offset_y == 2700,
            offset_x == bricks_offset_x(),
            offset_y == bricks_offset_y(),
            0 <= i <= n,
            r@ =~= realm_colliders().take(4 + i),
            forall|j: int| 0 <= j < r@.len() ==> (#[trigger] r@[j]).body.wf(),
        decreases n - i,
    {
        let row = i / n_columns;
        let column = i % n_columns;
        assert(0 <= row < 7 && 0 <= column < 8);
        let dx: i64 = BRICK_WIDTH + GAP_BETWEEN_BRICKS;
        let dy: i64 = BRICK_HEIGHT + GAP_BETWEEN_BRICKS;
        assert(dx == 6300 && dy == 2100);
        assert(0 <= column * dx <= 7 * 6300) by (nonlinear_arith)
            requires
                0 <= column < 8,
                dx == 6300,
        ;
        assert(0 <= row * dy <= 6 * 2100) by (nonlinear_arith)
            requires
                0 <= row < 7,
                dy == 2100,
        ;
        let b = Collider {
            body: Rect {
                x: offset_x + column * dx,
                y: offset_y + row * dy,
                width: BRICK_WIDTH,
                height: BRICK_HEIGHT,
            },
            kind: ColliderKind::Brick,
        };
        assert(b == realm_colliders()[4 + i]);
        r.push(b);
        i = i + 1;
    }
    assert(realm_colliders().take(4 + n) =~= realm_colliders());
    r
}

pub open spec fn paddle_at(handle: usize, x: i64) -> Player {
    Player {
        handle,
        paddle: Paddle {
            body: Rect { x, y: PLAYER_START_Y, width: PADDLE_WIDTH, height: PADDLE_HEIGHT },
        },
    }
}

/// The two paddles, handles 0 and 1, at their start positions.
pub fn spawn_players() -> (r: Vec<Player>)
    ensures
        r@ == seq![paddle_at(0, P1_START_X), paddle_at(1, P2_START_X)],
{
    let mut r: Vec<Player> = Vec::new();
    r.push(
        Player {
            handle: 0,
            paddle: Paddle {
                body: Rect {
                    x: P1_START_X,
                    y: PLAYER_START_Y,
                    width: PADDLE_WIDTH,
                    height: PADDLE_HEIGHT,
                },
            },
        },
    );
    r.push(
        Player {
            handle: 1,
            paddle: Paddle {
                body: Rect {
                    x: P2_START_X,
                    y: PLAYER_START_Y,
                    width: PADDLE_WIDTH,
                    height: PADDLE_HEIGHT,
                },
            },
        },
    );
    assert(r@ =~= seq![paddle_at(0, P1_START_X), paddle_at(1, P2_START_X)]);
    r
}

pub open spec fn initial_world() -> WorldView {
    WorldView {
        ball: Ball {
            body: Rect { x: BALL_START_X, y: BALL_START_Y, width: BALL_SIZE, height: BALL_SIZE },
            velocity: Velocity { x: BALL_START_VELOCITY_X, y: BALL_START_VELOCITY_Y },
        },
        players: seq![paddle_at(0, P1_START_X), paddle_at(1, P2_START_X)],
        colliders: realm_colliders(),
        score: 0,
        frame: 0,
        collision_event: false,
    }
}

impl SimulationState {
    /// The world at frame zero.
    pub fn new() -> (r: SimulationState)
        ensures
            r@ == initial_world(),
            r@.wf(),
    {
        let r = SimulationState {
            ball: Ball {
                body: Rect {
                    x: BALL_START_X,
                    y: BALL_START_Y,
                    width: BALL_SIZE,
                    height: BALL_SIZE,
                },
                velocity: Velocity { x: BALL_START_VELOCITY_X, y: BALL_START_VELOCITY_Y },
            },
            players: spawn_players(),
            colliders: spawn_realm(),
            score: 0,
            frame_count: FrameCount { frame: 0 },
            collision_event: false,
        };
        assert(r@.players[1].handle == 1);
        r
    }
}

} // verus!
