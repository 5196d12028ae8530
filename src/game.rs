//! The deterministic stepper: one tick moves the paddles, integrates the ball,
//! resolves its contacts and counts the frame, in that order.

use crate::components::{Ball, Collider, ColliderKind, FrameCount, Paddle, Player};
use crate::config::{PADDLE_MAX_X, PADDLE_MAX_Y, PADDLE_MIN_X, PADDLE_MIN_Y, PLAYER_MOVE_SPEED};
use crate::geometry::{
    collide, contact_of, reflect, reflect_velocity, Collision, Rect, Velocity, COORD_LIMIT,
};
use crate::input::{decoded, direction};
use vstd::prelude::*;

verus! {

/// The whole rollback-relevant world.
#[derive(Clone, Debug, PartialEq, Eq)]
pub struct SimulationState {
    pub ball: Ball,
    pub players: Vec<Player>,
    /// Walls and bricks, in spawn order; contacts are resolved in this order.
    pub colliders: Vec<Collider>,
    pub score: u64,
    pub frame_count: FrameCount,
    /// Whether the ball bounced off anything during the last tick.
    pub collision_event: bool,
}

/// Why a tick was refused; the world is left as it was.
#[derive(Clone, Copy, Debug, PartialEq, Eq, Structural)]
pub enum ProtocolViolation {
    /// The tick did not carry exactly one symbol per player handle.
    WrongInputCount,
    /// The frame counter has reached its largest value.
    FrameLimit,
}

/// Mathematical value of a `SimulationState`.
pub struct WorldView {
    pub ball: Ball,
    pub players: Seq<Player>,
    pub colliders: Seq<Collider>,
    pub score: u64,
    pub frame: u32,
    pub collision_event: bool,
}

impl View for SimulationState {
    type V = WorldView;

    open spec fn view(&self) -> WorldView {
        WorldView {
            ball: self.ball,
            players: self.players@,
            colliders: self.colliders@,
            score: self.score,
            frame: self.frame_count.frame,
            collision_event: self.collision_event,
        }
    }
}

impl WorldView {
    /// Bodies within the coordinate limits, handles numbered by position, and
    /// room in the score for every brick left.
    pub open spec fn wf(self) -> bool {
        &&& self.ball.body.wf()
        &&& self.ball.velocity.wf()
        &&& forall|i: int|
            0 <= i < self.players.len() ==> (#[trigger] self.players[i]).handle == i
                && self.players[i].paddle.body.wf()
        &&& forall|i: int| 0 <= i < self.colliders.len() ==> (#[trigger] self.colliders[i]).body.wf()
        &&& self.score + self.colliders.len() <= u64::MAX
    }
}

pub open spec fn clamp(v: int, lo: int, hi: int) -> int {
    if v < lo {
        lo
    } else if v > hi {
        hi
    } else {
        v
    }
}

/// A paddle steered by one symbol: unchanged when the symbol points nowhere,
/// else moved by the paddle speed and kept inside its range on both axes.
pub open spec fn moved_player(p: Player, input: u8) -> Player {
    let d = decoded(input);
    if d.x == 0 && d.y == 0 {
        p
    } else {
        Player {
            handle: p.handle,
            paddle: Paddle {
                body: Rect {
                    x: clamp(p.paddle.body.x + d.x * PLAYER_MOVE_SPEED, PADDLE_MIN_X as int, PADDLE_MAX_X as int) as i64,
                    y: clamp(p.paddle.body.y + d.y * PLAYER_MOVE_SPEED, PADDLE_MIN_Y as int, PADDLE_MAX_Y as int) as i64,
                    ..p.paddle.body
                },
            },
        }
    }
}

pub open spec fn moved_players(players: Seq<Player>, inputs: Seq<u8>) -> Seq<Player> {
    Seq::new(players.len(), |i: int| moved_player(players[i], inputs[i]))
}

/// The ball after one tick of its velocity, held within the coordinate limits.
pub open spec fn integrated(b: Ball) -> Ball {
    Ball {
        body: Rect {
            x: clamp(b.body.x + b.velocity.x, -COORD_LIMIT as int, COORD_LIMIT as int) as i64,
            y: clamp(b.body.y + b.velocity.y, -COORD_LIMIT as int, COORD_LIMIT as int) as i64,
            ..b.body
        },
        velocity: b.velocity,
    }
}

/// Outcome of resolving the ball's contacts with a run of colliders.
pub struct Resolution {
    pub velocity: Velocity,
    /// Colliders still standing, in their order.
    pub kept: Seq<Collider>,
    /// Bricks destroyed.
    pub removed: nat,
    pub hit: bool,
}

pub open spec fn resolve_one(ball: Rect, r: Resolution, c: Collider) -> Resolution {
    match contact_of(ball, c.body) {
        Some(side) => Resolution {
            velocity: reflect(r.velocity, side),
            kept: if c.is_brick() { r.kept } else { r.kept.push(c) },
            removed: if c.is_brick() { r.removed + 1 } else { r.removed },
            hit: true,
        },
        None => Resolution { kept: r.kept.push(c), ..r },
    }
}

/// Contacts of the ball at `ball` with each of `cs` in turn, each against the
/// velocity as the ones before it left it.
pub open spec fn resolve_colliders(ball: Rect, v: Velocity, cs: Seq<Collider>) -> Resolution
    decreases cs.len(),
{
    if cs.len() == 0 {
        Resolution { velocity: v, kept: Seq::empty(), removed: 0, hit: false }
    } else {
        resolve_one(ball, resolve_colliders(ball, v, cs.drop_last()), cs.last())
    }
}

/// Contacts with the paddles in turn: the velocity after them, and whether any
/// happened.
pub open spec fn resolve_paddles(ball: Rect, v: Velocity, ps: Seq<Player>) -> (Velocity, bool)
    decreases ps.len(),
{
    if ps.len() == 0 {
        (v, false)
    } else {
        let (v1, hit) = resolve_paddles(ball, v, ps.drop_last());
        match contact_of(ball, ps.last().paddle.body) {
            Some(side) => (reflect(v1, side), true),
            None => (v1, hit),
        }
    }
}

pub open spec fn after_moves(s: WorldView, inputs: Seq<u8>) -> WorldView {
    WorldView { players: moved_players(s.players, inputs), ..s }
}

pub open spec fn after_velocity(s: WorldView) -> WorldView {
    WorldView { ball: integrated(s.ball), ..s }
}

/// Walls and bricks first, then paddles; bricks hit are gone and scored.
pub open spec fn after_collisions(s: WorldView) -> WorldView {
    let r = resolve_colliders(s.ball.body, s.ball.velocity, s.colliders);
    let (v, paddle_hit) = resolve_paddles(s.ball.body, r.velocity, s.players);
    WorldView {
        ball: Ball { body: s.ball.body, velocity: v },
        colliders: r.kept,
        score: (s.score + r.removed) as u64,
        collision_event: r.hit || paddle_hit,
        ..s
    }
}

pub open spec fn after_frame(s: WorldView) -> WorldView {
    WorldView { frame: (s.frame + 1) as u32, ..s }
}

/// One tick with one symbol per player handle.
pub open spec fn step(s: WorldView, inputs: Seq<u8>) -> WorldView {
    after_frame(after_collisions(after_velocity(after_moves(s, inputs))))
}

/// Ticks applied in order, one symbol sequence per tick.
pub open spec fn run(s: WorldView, ticks: Seq<Seq<u8>>) -> WorldView
    decreases ticks.len(),
{
    if ticks.len() == 0 {
        s
    } else {
        step(run(s, ticks.drop_last()), ticks.last())
    }
}

pub open spec fn tick_inputs(ticks: Seq<Vec<u8>>) -> Seq<Seq<u8>> {
    ticks.map_values(|t: Vec<u8>| t@)
}

fn clamp_i64(v: i64, lo: i64, hi: i64) -> (r: i64)
    requires
        lo <= hi,
    ensures
        r == clamp(v as int, lo as int, hi as int),
{
    if v < lo {
        lo
    } else if v > hi {
        hi
    } else {
        v
    }
}

fn move_player(p: Player, input: u8) -> (r: Player)
    requires
        p.paddle.body.wf(),
    ensures
        r == moved_player(p, input),
        r.paddle.body.wf(),
        r.handle == p.handle,
{
    let d = direction(input);
    if d.x == 0 && d.y == 0 {
        return p;
    }
    let x = clamp_i64(p.paddle.body.x + d.x * PLAYER_MOVE_SPEED, PADDLE_MIN_X, PADDLE_MAX_X);
    let y = clamp_i64(p.paddle.body.y + d.y * PLAYER_MOVE_SPEED, PADDLE_MIN_Y, PADDLE_MAX_Y);
    Player { handle: p.handle, paddle: Paddle { body: Rect { x, y, ..p.paddle.body } } }
}

/// Steers each paddle by its handle's symbol.
pub fn move_players(state: &mut SimulationState, inputs: &Vec<u8>)
    requires
        old(state)@.wf(),
        inputs@.len() == old(state)@.players.len(),
    ensures
        final(state)@ == after_moves(old(state)@, inputs@),
        final(state)@.wf(),
{
    let n = state.players.len();
    let mut moved: Vec<Player> = Vec::new();
    let mut i: usize = 0;
    while i < n
        invariant
            n == state.players@.len(),
            state@ == old(state)@,
            inputs@.len() == n,
            i <= n,
            moved@ =~= moved_players(state.players@, inputs@).take(i as int),
            old(state)@.wf(),
        decreases n - i,
    {
        assert(old(state)@.players[i as int].paddle.body.wf());
        let p = move_player(state.players[i], inputs[i]);
        moved.push(p);
        i = i + 1;
    }
    assert(moved@ =~= moved_players(old(state).players@, inputs@));
    state.players = moved;
}

/// Moves the ball by its velocity for one tick.
pub fn apply_velocity(state: &mut SimulationState)
    requires
        old(state)@.wf(),
    ensures
        final(state)@ == after_velocity(old(state)@),
        final(state)@.wf(),
{
    let b = state.ball;
    let x = clamp_i64(b.body.x + b.velocity.x, -COORD_LIMIT, COORD_LIMIT);
    let y = clamp_i64(b.body.y + b.velocity.y, -COORD_LIMIT, COORD_LIMIT);
    state.ball = Ball { body: Rect { x, y, ..b.body }, velocity: b.velocity };
    assert(state.players@ == old(state).players@);
    assert forall|i: int| 0 <= i < state@.players.len() implies (#[trigger] state@.players[i]).handle
        == i && state@.players[i].paddle.body.wf() by {
        assert(old(state)@.players[i] == state@.players[i]);
        assert(old(state)@.players[i].handle == i);
    }
}

/// Resolving a run of colliders splits it: what stays and what is destroyed
/// add up to the run.
pub proof fn lemma_resolution_sizes(ball: Rect, v: Velocity, cs: Seq<Collider>)
    ensures
        resolve_colliders(ball, v, cs).kept.len() + resolve_colliders(ball, v, cs).removed
            == cs.len(),
    decreases cs.len(),
{
    if cs.len() > 0 {
        lemma_resolution_sizes(ball, v, cs.drop_last());
    }
}

/// Bounces the ball off each collider and paddle in turn, removing and
/// scoring the bricks it touches.
pub fn check_for_collisions(state: &mut SimulationState)
    requires
        old(state)@.wf(),
    ensures
        final(state)@ == after_collisions(old(state)@),
        final(state)@.wf(),
{
    let ball = state.ball.body;
    let ghost s0 = state@;
    let mut velocity = state.ball.velocity;
    let mut kept: Vec<Collider> = Vec::new();
    let mut removed: u64 = 0;
    let mut hit = false;
    let n = state.colliders.len();
    let mut i: usize = 0;
    while i < n
        invariant
            state@ == s0,
            s0.wf(),
            n == s0.colliders.len(),
            ball == s0.ball.body,
            i <= n,
            velocity.wf(),
            (Resolution { velocity, kept: kept@, removed: removed as nat, hit }) == resolve_colliders(
                ball,
                s0.ball.velocity,
                s0.colliders.take(i as int),
            ),
            forall|j: int| 0 <= j < kept@.len() ==> (#[trigger] kept@[j]).body.wf(),
        decreases n - i,
    {
        let ghost before = s0.colliders.take(i as int);
        proof {
            assert(s0.colliders.take(i + 1).drop_last() =~= before);
            lemma_resolution_sizes(ball, s0.ball.velocity, before);
        }
        let c = state.colliders[i];
        match collide(&ball, &c.body) {
            Some(Collision::Inside) | None => {
                kept.push(c);
            },
            Some(side) => {
                velocity = reflect_velocity(velocity, side);
                hit = true;
                match c.kind {
                    ColliderKind::Brick => {
                        removed = removed + 1;
                    },
                    ColliderKind::Wall => {
                        kept.push(c);
                    },
                }
            },
        }
        i = i + 1;
    }
    proof {
        assert(s0.colliders.take(n as int) =~= s0.colliders);
        lemma_resolution_sizes(ball, s0.ball.velocity, s0.colliders);
    }
    let m = state.players.len();
    let ghost v_after_walls = velocity;
    let mut paddle_hit = false;
    let mut j: usize = 0;
    while j < m
        invariant
            state@ == s0,
            s0.wf(),
            m == s0.players.len(),
            ball == s0.ball.body,
            j <= m,
            velocity.wf(),
            (velocity, paddle_hit) == resolve_paddles(ball, v_after_walls, s0.players.take(j as int)),
        decreases m - j,
    {
        proof {
            assert(s0.players.take(j + 1).drop_last() =~= s0.players.take(j as int));
        }
        let body = state.players[j].paddle.body;
        match collide(&ball, &body) {
            Some(Collision::Inside) | None => {},
            Some(side) => {
                velocity = reflect_velocity(velocity, side);
                paddle_hit = true;
            },
        }
        j = j + 1;
    }
    proof {
        assert(s0.players.take(m as int) =~= s0.players);
    }
    state.ball = Ball { body: ball, velocity };
    state.colliders = kept;
    state.score = state.score + removed;
    state.collision_event = hit || paddle_hit;
}

/// Counts one more tick.
pub fn increase_frame_system(frame_count: &mut FrameCount)
    requires
        old(frame_count).frame < u32::MAX,
    ensures
        final(frame_count).frame == old(frame_count).frame + 1,
{
    frame_count.frame = frame_count.frame + 1;
}

/// The ball destroys this collider on contact.
pub open spec fn brick_hit(ball: Rect, c: Collider) -> bool {
    c.is_brick() && contact_of(ball, c.body).is_some()
}

/// When no brick of the run is touched, every collider stays and nothing is
/// destroyed.
pub proof fn lemma_no_brick_hit(ball: Rect, v: Velocity, cs: Seq<Collider>)
    requires
        forall|i: int| 0 <= i < cs.len() ==> !brick_hit(ball, #[trigger] cs[i]),
    ensures
        resolve_colliders(ball, v, cs).kept == cs,
        resolve_colliders(ball, v, cs).removed == 0,
    decreases cs.len(),
{
    if cs.len() > 0 {
        let front = cs.drop_last();
        assert forall|i: int| 0 <= i < front.len() implies !brick_hit(ball, #[trigger] front[i]) by {
            assert(front[i] == cs[i]);
        }
        lemma_no_brick_hit(ball, v, front);
        assert(!brick_hit(ball, cs[cs.len() - 1]));
        assert(front.push(cs.last()) =~= cs);
    }
}

/// When exactly one brick of the run is touched, that brick alone is gone and
/// exactly one is counted destroyed.
pub proof fn lemma_one_brick_hit(ball: Rect, v: Velocity, cs: Seq<Collider>, k: int)
    requires
        0 <= k < cs.len(),
        brick_hit(ball, cs[k]),
        forall|i: int| 0 <= i < cs.len() && i != k ==> !brick_hit(ball, #[trigger] cs[i]),
    ensures
        resolve_colliders(ball, v, cs).kept == cs.remove(k),
        resolve_colliders(ball, v, cs).removed == 1,
    decreases cs.len(),
{
    let front = cs.drop_last();
    if k == cs.len() - 1 {
        assert forall|i: int| 0 <= i < front.len() implies !brick_hit(ball, #[trigger] front[i]) by {
            assert(front[i] == cs[i]);
        }
        lemma_no_brick_hit(ball, v, front);
        assert(front =~= cs.remove(k));
    } else {
        assert forall|i: int| 0 <= i < front.len() && i != k implies !brick_hit(
            ball,
            #[trigger] front[i],
        ) by {
            assert(front[i] == cs[i]);
        }
        assert(front[k] == cs[k]);
        lemma_one_brick_hit(ball, v, front, k);
        assert(!brick_hit(ball, cs[cs.len() - 1]));
        assert(front.remove(k).push(cs.last()) =~= cs.remove(k));
    }
}

/// A tick in which the moved ball touches exactly one brick removes that
/// brick and raises the score by exactly one.
pub proof fn lemma_obstacle_removal(s: WorldView, inputs: Seq<u8>, k: int)
    requires
        s.wf(),
        0 <= k < s.colliders.len(),
        brick_hit(integrated(s.ball).body, s.colliders[k]),
        forall|i: int|
            0 <= i < s.colliders.len() && i != k ==> !brick_hit(
                integrated(s.ball).body,
                #[trigger] s.colliders[i],
            ),
    ensures
        step(s, inputs).colliders == s.colliders.remove(k),
        step(s, inputs).score == s.score + 1,
{
    lemma_one_brick_hit(integrated(s.ball).body, s.ball.velocity, s.colliders, k);
}

/// A tick in which the moved ball touches no brick (as where a brick was
/// already destroyed) leaves the colliders and the score as they were.
pub proof fn lemma_no_obstacle_no_score(s: WorldView, inputs: Seq<u8>)
    requires
        forall|i: int|
            0 <= i < s.colliders.len() ==> !brick_hit(integrated(s.ball).body, #[trigger] s.colliders[i]),
    ensures
        step(s, inputs).colliders == s.colliders,
        step(s, inputs).score == s.score,
{
    lemma_no_brick_hit(integrated(s.ball).body, s.ball.velocity, s.colliders);
}

/// Running two batches of ticks one after the other is running them joined.
pub proof fn lemma_run_append(s: WorldView, a: Seq<Seq<u8>>, b: Seq<Seq<u8>>)
    ensures
        run(s, a + b) == run(run(s, a), b),
    decreases b.len(),
{
    if b.len() == 0 {
        assert(a + b =~= a);
    } else {
        assert((a + b).drop_last() =~= a + b.drop_last());
        lemma_run_append(s, a, b.drop_last());
    }
}

/// The end state of a run depends on the start state and the tick symbols
/// alone: equal starts and equal symbols give equal ends, bit for bit.
pub proof fn lemma_run_deterministic(
    s1: WorldView,
    s2: WorldView,
    ticks1: Seq<Seq<u8>>,
    ticks2: Seq<Seq<u8>>,
)
    requires
        s1 == s2,
        ticks1 == ticks2,
    ensures
        run(s1, ticks1) == run(s2, ticks2),
{
}

impl SimulationState {
    /// Advances the world by one tick, one symbol per player handle.
    pub fn advance_frame(&mut self, inputs: &Vec<u8>)
        requires
            old(self)@.wf(),
            inputs@.len() == old(self)@.players.len(),
            old(self)@.frame < u32::MAX,
        ensures
            final(self)@ == step(old(self)@, inputs@),
            final(self)@.wf(),
    {
        move_players(self, inputs);
        apply_velocity(self);
        check_for_collisions(self);
        increase_frame_system(&mut self.frame_count);
    }

    /// Advances the world by one tick if the symbols fit it, else refuses the
    /// tick and leaves the world unchanged.
    pub fn try_advance_frame(&mut self, inputs: &Vec<u8>) -> (r: Result<(), ProtocolViolation>)
        requires
            old(self)@.wf(),
        ensures
            final(self)@.wf(),
            r == (if inputs@.len() != old(self)@.players.len() {
                Err(ProtocolViolation::WrongInputCount)
            } else if old(self)@.frame == u32::MAX {
                Err(ProtocolViolation::FrameLimit)
            } else {
                Ok(())
            }),
            r is Ok ==> final(self)@ == step(old(self)@, inputs@),
            r is Err ==> final(self)@ == old(self)@,
    {
        if inputs.len() != self.players.len() {
            return Err(ProtocolViolation::WrongInputCount);
        }
        if self.frame_count.frame == u32::MAX {
            return Err(ProtocolViolation::FrameLimit);
        }
        self.advance_frame(inputs);
        Ok(())
    }

    /// Advances the world by each tick's symbols in turn.
    pub fn run_ticks(&mut self, ticks: &Vec<Vec<u8>>)
        requires
            old(self)@.wf(),
            forall|t: int| 0 <= t < ticks@.len() ==> (#[trigger] ticks@[t])@.len() == old(self)@.players.len(),
            old(self)@.frame + ticks@.len() <= u32::MAX,
        ensures
            final(self)@ == run(old(self)@, tick_inputs(ticks@)),
            final(self)@.wf(),
    {
        let ghost s0 = self@;
        let ghost all = tick_inputs(ticks@);
        let n = ticks.len();
        let mut i: usize = 0;
        while i < n
            invariant
                n == ticks@.len(),
                all == tick_inputs(ticks@),
                i <= n,
                self@.wf(),
                self@ == run(s0, all.take(i as int)),
                self@.players.len() == s0.players.len(),
                self@.frame == s0.frame + i,
                s0.frame + n <= u32::MAX,
                forall|t: int| 0 <= t < ticks@.len() ==> (#[trigger] ticks@[t])@.len() == s0.players.len(),
            decreases n - i,
        {
            proof {
                assert(all.take(i + 1).drop_last() =~= all.take(i as int));
                assert(all.take(i + 1).last() == ticks@[i as int]@);
            }
            self.advance_frame(&ticks[i]);
            i = i + 1;
        }
        proof {
            assert(all.take(n as int) =~= all);
        }
    }
}

} // verus!
