use breakout_rollback::components::{Ball, Collider, ColliderKind, FrameCount};
use breakout_rollback::game::{increase_frame_system, ProtocolViolation, SimulationState};
use breakout_rollback::geometry::{collide, reflect_velocity, Collision, Rect, Velocity};
use breakout_rollback::input::{direction, input, Direction, DirectionKeys, DOWN, LEFT, RIGHT, UP};
use breakout_rollback::netcode::{
    P2PSession, PeerKind, PlayerAssignment, SessionError, SessionPhase, INPUT_DELAY,
    MAX_PLAYER_CONNECTIONS,
};
use breakout_rollback::realm::{spawn_players, spawn_realm, WallLocation};
use breakout_rollback::snapshot::{capture, check_replay, replay, restore, DeterminismViolation};

fn keys(up: bool, down: bool, left: bool, right: bool) -> DirectionKeys {
    DirectionKeys { up, down, left, right }
}

fn one_brick_world() -> SimulationState {
    SimulationState {
        ball: Ball {
            body: Rect { x: 0, y: 0, width: 1800, height: 1800 },
            velocity: Velocity { x: 0, y: 100 },
        },
        players: Vec::new(),
        colliders: vec![Collider {
            body: Rect { x: 0, y: 1500, width: 6000, height: 1800 },
            kind: ColliderKind::Brick,
        }],
        score: 0,
        frame_count: FrameCount { frame: 0 },
        collision_event: false,
    }
}

#[test]
fn encode_sets_one_bit_per_key() {
    assert_eq!(input(keys(false, false, false, false)), 0);
    assert_eq!(input(keys(true, false, false, false)), UP);
    assert_eq!(input(keys(false, true, false, false)), DOWN);
    assert_eq!(input(keys(false, false, true, false)), LEFT);
    assert_eq!(input(keys(false, false, false, true)), RIGHT);
    assert_eq!(input(keys(true, false, true, false)), 5);
    assert_eq!(input(keys(true, true, true, true)), 15);
}

#[test]
fn decode_sums_axes() {
    assert_eq!(direction(0), Direction { x: 0, y: 0 });
    assert_eq!(direction(UP), Direction { x: 0, y: 1 });
    assert_eq!(direction(DOWN), Direction { x: 0, y: -1 });
    assert_eq!(direction(LEFT | UP), Direction { x: -1, y: 1 });
    assert_eq!(direction(RIGHT | DOWN), Direction { x: 1, y: -1 });
}

#[test]
fn opposite_keys_cancel() {
    assert_eq!(direction(UP | DOWN).y, direction(0).y);
    assert_eq!(direction(UP | DOWN), Direction { x: 0, y: 0 });
    assert_eq!(direction(LEFT | RIGHT).x, 0);
    assert_eq!(direction(LEFT | RIGHT | UP), Direction { x: 0, y: 1 });
    assert_eq!(direction(15), Direction { x: 0, y: 0 });
}

#[test]
fn encode_then_decode_gives_held_direction() {
    assert_eq!(direction(input(keys(false, true, false, true))), Direction { x: 1, y: -1 });
    assert_eq!(direction(input(keys(true, true, true, false))), Direction { x: -1, y: 0 });
}

#[test]
fn collide_classifies_sides() {
    let target = Rect { x: 0, y: 0, width: 100, height: 100 };
    let right = Rect { x: 55, y: 0, width: 20, height: 20 };
    let left = Rect { x: -55, y: 0, width: 20, height: 20 };
    let top = Rect { x: 0, y: 55, width: 20, height: 20 };
    let bottom = Rect { x: 0, y: -55, width: 20, height: 20 };
    let inside = Rect { x: 0, y: 0, width: 20, height: 20 };
    let apart = Rect { x: 200, y: 0, width: 20, height: 20 };
    assert_eq!(collide(&right, &target), Some(Collision::Right));
    assert_eq!(collide(&left, &target), Some(Collision::Left));
    assert_eq!(collide(&top, &target), Some(Collision::Top));
    assert_eq!(collide(&bottom, &target), Some(Collision::Bottom));
    assert_eq!(collide(&inside, &target), Some(Collision::Inside));
    assert_eq!(collide(&apart, &target), None);
}

#[test]
fn collide_picks_shallower_axis() {
    let target = Rect { x: 0, y: 0, width: 100, height: 100 };
    // Corner overlap: 5 deep along x, 15 deep along y.
    let corner = Rect { x: 55, y: 50, width: 20, height: 20 };
    assert_eq!(collide(&corner, &target), Some(Collision::Right));
    let corner = Rect { x: 50, y: 57, width: 20, height: 20 };
    assert_eq!(collide(&corner, &target), Some(Collision::Top));
}

#[test]
fn right_contact_reflects_only_leftward_ball() {
    let moving_right = Velocity { x: 5, y: 3 };
    assert_eq!(reflect_velocity(moving_right, Collision::Right), moving_right);
    let moving_left = Velocity { x: -5, y: 3 };
    assert_eq!(reflect_velocity(moving_left, Collision::Right), Velocity { x: 5, y: 3 });
    assert_eq!(reflect_velocity(moving_right, Collision::Left), Velocity { x: -5, y: 3 });
    assert_eq!(reflect_velocity(moving_right, Collision::Top), moving_right);
    assert_eq!(reflect_velocity(moving_right, Collision::Bottom), Velocity { x: 5, y: -3 });
    assert_eq!(reflect_velocity(moving_left, Collision::Inside), moving_left);
}

#[test]
fn realm_layout() {
    let colliders = spawn_realm();
    assert_eq!(colliders.len(), 4 + 7 * 8);
    assert_eq!(
        colliders[0],
        Collider { body: Rect { x: -27000, y: 0, width: 600, height: 36600 }, kind: ColliderKind::Wall }
    );
    assert_eq!(
        colliders[3],
        Collider { body: Rect { x: 0, y: 18000, width: 54600, height: 600 }, kind: ColliderKind::Wall }
    );
    assert_eq!(
        colliders[4],
        Collider { body: Rect { x: -22050, y: 2700, width: 6000, height: 1800 }, kind: ColliderKind::Brick }
    );
    assert_eq!(
        colliders[59],
        Collider { body: Rect { x: 22050, y: 15300, width: 6000, height: 1800 }, kind: ColliderKind::Brick }
    );
    assert_eq!(WallLocation::Center.position(), (0, 0));
    assert_eq!(WallLocation::Center.size(), (53700, 600));
    assert_eq!(WallLocation::Bottom.position(), (0, -18000));
}

#[test]
fn players_spawn_with_handles_in_order() {
    let players = spawn_players();
    assert_eq!(players.len(), 2);
    assert_eq!(players[0].handle, 0);
    assert_eq!(players[1].handle, 1);
    assert_eq!(players[0].paddle.body, Rect { x: -12000, y: -14400, width: 7200, height: 1200 });
    assert_eq!(players[1].paddle.body.x, 12000);
}

#[test]
fn first_tick_moves_ball_and_paddle() {
    let mut s = SimulationState::new();
    s.advance_frame(&vec![RIGHT, 0]);
    assert_eq!(s.frame_count.frame, 1);
    assert_eq!(s.ball.body.x, 283);
    assert_eq!(s.ball.body.y, -3283);
    assert_eq!(s.ball.velocity, Velocity { x: 283, y: -283 });
    assert_eq!(s.players[0].paddle.body.x, -11580);
    assert_eq!(s.players[0].paddle.body.y, -14400);
    assert_eq!(s.players[1].paddle.body.x, 12000);
    assert_eq!(s.score, 0);
    assert!(!s.collision_event);
    assert_eq!(s.colliders.len(), 60);
}

#[test]
fn paddle_is_clamped_to_its_half() {
    let mut s = SimulationState::new();
    s.players[0].paddle.body.x = 22400;
    s.players[1].paddle.body.y = -1600;
    s.advance_frame(&vec![RIGHT, UP]);
    assert_eq!(s.players[0].paddle.body.x, 22500);
    assert_eq!(s.players[1].paddle.body.y, -1500);
    s.advance_frame(&vec![UP | DOWN | LEFT, UP | DOWN]);
    assert_eq!(s.players[0].paddle.body.x, 22080);
    assert_eq!(s.players[1].paddle.body.y, -1500);
}

#[test]
fn brick_hit_once_scores_once() {
    let mut s = one_brick_world();
    s.advance_frame(&Vec::new());
    assert_eq!(s.score, 1);
    assert!(s.colliders.is_empty());
    assert!(s.collision_event);
    assert_eq!(s.ball.velocity, Velocity { x: 0, y: -100 });
    assert_eq!(s.ball.body.y, 100);
    s.ball.velocity = Velocity { x: 0, y: 0 };
    s.advance_frame(&Vec::new());
    assert_eq!(s.score, 1);
    assert!(!s.collision_event);
    assert_eq!(s.frame_count.frame, 2);
}

#[test]
fn wall_contact_keeps_wall() {
    let mut s = one_brick_world();
    s.colliders[0].kind = ColliderKind::Wall;
    s.advance_frame(&Vec::new());
    assert_eq!(s.score, 0);
    assert_eq!(s.colliders.len(), 1);
    assert!(s.collision_event);
    assert_eq!(s.ball.velocity, Velocity { x: 0, y: -100 });
}

#[test]
fn frame_counter_counts_up() {
    let mut f = FrameCount { frame: 41 };
    increase_frame_system(&mut f);
    assert_eq!(f.frame, 42);
}

fn script(n: usize) -> Vec<Vec<u8>> {
    let mut ticks = Vec::new();
    for i in 0..n {
        let a = if i % 7 < 3 { RIGHT } else { LEFT | UP };
        let b = if i % 5 == 0 { DOWN } else { LEFT };
        ticks.push(vec![a, b]);
    }
    ticks
}

#[test]
fn runs_on_same_inputs_agree() {
    let ticks = script(900);
    let mut a = SimulationState::new();
    let mut b = SimulationState::new();
    a.run_ticks(&ticks);
    b.run_ticks(&ticks);
    assert_eq!(a, b);
    assert_eq!(a.frame_count.frame, 900);
}

#[test]
fn snapshot_round_trip() {
    let mut s = SimulationState::new();
    s.run_ticks(&script(300));
    let snap = capture(&s);
    assert_eq!(snap.frame(), 300);
    assert_eq!(restore(&snap), s);
    assert!(snap.same_as(&capture(&s)));
}

#[test]
fn rollback_matches_straight_run() {
    let all = script(240);
    let mut straight = SimulationState::new();
    straight.run_ticks(&all);

    let mut live = SimulationState::new();
    live.run_ticks(&all[..100].to_vec());
    let snap = capture(&live);
    let guessed: Vec<Vec<u8>> = vec![vec![0, 0]; 20];
    live.run_ticks(&guessed);
    assert_ne!(live, straight);
    let rolled = replay(&snap, &all[100..].to_vec());
    assert_eq!(rolled, straight);
}

#[test]
fn replay_mismatch_is_reported() {
    let mut s = SimulationState::new();
    let before = capture(&s);
    assert_eq!(check_replay(&before, &capture(&s)), Ok(()));
    s.advance_frame(&vec![0, 0]);
    assert_eq!(check_replay(&before, &capture(&s)), Err(DeterminismViolation { frame: 0 }));
}

#[test]
fn session_waits_for_second_peer() {
    let mut session = P2PSession::new(MAX_PLAYER_CONNECTIONS, INPUT_DELAY);
    assert_eq!(session.phase, SessionPhase::Idle);
    assert_eq!(session.wait_for_players(&vec![PeerKind::Local, PeerKind::Remote]), Ok(None));
    session.start();
    assert_eq!(session.phase, SessionPhase::Connecting);
    session.channel_opened();
    assert_eq!(session.phase, SessionPhase::WaitingForPeers);
    assert_eq!(session.wait_for_players(&Vec::new()), Ok(None));
    assert_eq!(session.wait_for_players(&vec![PeerKind::Local]), Ok(None));
    assert_eq!(session.phase, SessionPhase::WaitingForPeers);
    let plan = session
        .wait_for_players(&vec![PeerKind::Remote, PeerKind::Local])
        .unwrap()
        .unwrap();
    assert_eq!(plan.num_players, 2);
    assert_eq!(plan.input_delay, 2);
    assert_eq!(
        plan.players,
        vec![
            PlayerAssignment { handle: 0, kind: PeerKind::Remote },
            PlayerAssignment { handle: 1, kind: PeerKind::Local },
        ]
    );
    assert_eq!(plan.local_handle, Some(1));
    assert_eq!(session.phase, SessionPhase::Synchronizing);
    assert_eq!(session.local_handle, Some(1));
    assert_eq!(session.wait_for_players(&vec![PeerKind::Remote, PeerKind::Local]), Ok(None));
    session.synchronized();
    assert_eq!(session.phase, SessionPhase::Running);
}

#[test]
fn session_refuses_extra_peers() {
    let mut session = P2PSession::new(2, 2);
    session.start();
    session.channel_opened();
    let peers = vec![PeerKind::Local, PeerKind::Remote, PeerKind::Remote];
    assert_eq!(session.wait_for_players(&peers), Err(SessionError::TooManyPeers));
    assert_eq!(session.phase, SessionPhase::WaitingForPeers);
}

#[test]
fn tick_with_wrong_input_count_is_refused() {
    let mut s = SimulationState::new();
    let before = s.clone();
    assert_eq!(s.try_advance_frame(&vec![RIGHT]), Err(ProtocolViolation::WrongInputCount));
    assert_eq!(s, before);
    assert_eq!(s.try_advance_frame(&vec![RIGHT, 0, 0]), Err(ProtocolViolation::WrongInputCount));
    assert_eq!(s.try_advance_frame(&vec![RIGHT, 0]), Ok(()));
    assert_eq!(s.frame_count.frame, 1);
    assert_eq!(s.players[0].paddle.body.x, -11580);
}

#[test]
fn tick_at_frame_limit_is_refused() {
    let mut s = SimulationState::new();
    s.frame_count.frame = u32::MAX;
    let before = s.clone();
    assert_eq!(s.try_advance_frame(&vec![0, 0]), Err(ProtocolViolation::FrameLimit));
    assert_eq!(s, before);
}
