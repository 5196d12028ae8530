//! Snapshots: deep copies of the world taken before speculative ticks, and
//! restored when a prediction proves wrong.

use crate::components::FrameCount;
use crate::game::{lemma_run_append, run, tick_inputs, SimulationState, WorldView};
use vstd::prelude::*;

verus! {

/// A capture of the world at one frame.
#[derive(Clone, Debug)]
pub struct Snapshot {
    frame: u32,
    world: SimulationState,
}

pub struct SnapshotView {
    pub frame: u32,
    pub world: WorldView,
}

impl View for Snapshot {
    type V = SnapshotView;

    closed spec fn view(&self) -> SnapshotView {
        SnapshotView { frame: self.frame, world: self.world@ }
    }
}

/// A replayed tick ended in another state than the one captured at its frame.
#[derive(Clone, Copy, Debug, PartialEq, Eq, Structural)]
pub struct DeterminismViolation {
    pub frame: u32,
}

pub open spec fn captured(s: WorldView) -> SnapshotView {
    SnapshotView { frame: s.frame, world: s }
}

pub open spec fn restored(v: SnapshotView) -> WorldView {
    v.world
}

fn copy_vec<T: Copy>(v: &Vec<T>) -> (r: Vec<T>)
    ensures
        r@ == v@,
{
    let mut r: Vec<T> = Vec::new();
    let mut i: usize = 0;
    while i < v.len()
        invariant
            i <= v@.len(),
            r@ =~= v@.take(i as int),
        decreases v@.len() - i,
    {
        r.push(v[i]);
        i = i + 1;
    }
    proof {
        assert(v@.take(v@.len() as int) =~= v@);
    }
    r
}

fn copy_state(s: &SimulationState) -> (r: SimulationState)
    ensures
        r@ == s@,
{
    SimulationState {
        ball: s.ball,
        players: copy_vec(&s.players),
        colliders: copy_vec(&s.colliders),
        score: s.score,
        frame_count: FrameCount { frame: s.frame_count.frame },
        collision_event: s.collision_event,
    }
}

/// Captures every field of the world.
pub fn capture(state: &SimulationState) -> (r: Snapshot)
    ensures
        r@ == captured(state@),
{
    Snapshot { frame: state.frame_count.frame, world: copy_state(state) }
}

/// The world as it was captured.
pub fn restore(snapshot: &Snapshot) -> (r: SimulationState)
    ensures
        r@ == restored(snapshot@),
{
    copy_state(&snapshot.world)
}

impl Snapshot {
    /// The frame at which the capture was taken.
    pub fn frame(&self) -> (r: u32)
        ensures
            r == self@.frame,
    {
        self.frame
    }

    /// Whether two captures hold the same world, field by field.
    pub fn same_as(&self, other: &Snapshot) -> (r: bool)
        ensures
            r == (self@ == other@),
    {
        if self.frame != other.frame {
            return false;
        }
        let a = &self.world;
        let b = &other.world;
        if a.ball != b.ball || a.score != b.score || a.frame_count != b.frame_count
            || a.collision_event != b.collision_event || a.players.len() != b.players.len()
            || a.colliders.len() != b.colliders.len() {
            return false;
        }
        let mut i: usize = 0;
        while i < a.players.len()
            invariant
                self@.world == a@,
                other@.world == b@,
                a.players@.len() == b.players@.len(),
                i <= a.players@.len(),
                forall|j: int| 0 <= j < i ==> a.players@[j] == b.players@[j],
            decreases a.players@.len() - i,
        {
            if a.players[i] != b.players[i] {
                assert(a.players@[i as int] != b.players@[i as int]);
                assert(self@.world.players != other@.world.players);
                return false;
            }
            i = i + 1;
        }
        let mut k: usize = 0;
        while k < a.colliders.len()
            invariant
                self@.world == a@,
                other@.world == b@,
                a.colliders@.len() == b.colliders@.len(),
                k <= a.colliders@.len(),
                forall|j: int| 0 <= j < k ==> a.colliders@[j] == b.colliders@[j],
            decreases a.colliders@.len() - k,
        {
            if a.colliders[k] != b.colliders[k] {
                assert(a.colliders@[k as int] != b.colliders@[k as int]);
                assert(self@.world.colliders != other@.world.colliders);
                return false;
            }
            k = k + 1;
        }
        assert(a.players@ =~= b.players@);
        assert(a.colliders@ =~= b.colliders@);
        true
    }
}

/// Compares the state reached on replay with the one captured at the same
/// frame; a difference is the one fatal condition of a match.
pub fn check_replay(expected: &Snapshot, replayed: &Snapshot) -> (r: Result<(), DeterminismViolation>)
    ensures
        r is Ok <==> expected@ == replayed@,
        r matches Err(e) ==> e.frame == expected@.frame,
{
    if expected.same_as(replayed) {
        Ok(())
    } else {
        Err(DeterminismViolation { frame: expected.frame() })
    }
}

/// Rolls back to `snapshot` and replays the corrected ticks.
pub fn replay(snapshot: &Snapshot, ticks: &Vec<Vec<u8>>) -> (r: SimulationState)
    requires
        snapshot@.world.wf(),
        forall|t: int|
            0 <= t < ticks@.len() ==> (#[trigger] ticks@[t])@.len() == snapshot@.world.players.len(),
        snapshot@.world.frame + ticks@.len() <= u32::MAX,
    ensures
        r@ == run(restored(snapshot@), tick_inputs(ticks@)),
        r@.wf(),
{
    let mut state = restore(snapshot);
    state.run_ticks(ticks);
    state
}

/// Restoring a capture gives back the captured world exactly.
pub proof fn lemma_snapshot_round_trip(s: WorldView)
    ensures
        restored(captured(s)) == s,
        captured(s).frame == s.frame,
{
}

/// Rollback gives the straight-through result: capture after the confirmed
/// ticks, run any guessed ticks from there, restore the capture and run the
/// corrected ticks; the state reached is that of running the confirmed and
/// corrected ticks without any guess, and the guessed run leaves the capture
/// untouched.
pub proof fn lemma_rollback_equivalence(
    s: WorldView,
    confirmed: Seq<Seq<u8>>,
    guessed: Seq<Seq<u8>>,
    corrected: Seq<Seq<u8>>,
)
    ensures
        ({
            let snap = captured(run(s, confirmed));
            let speculative = run(restored(snap), guessed);
            &&& speculative == run(s, confirmed + guessed)
            &&& restored(snap) == run(s, confirmed)
            &&& run(restored(snap), corrected) == run(s, confirmed + corrected)
        }),
{
    lemma_run_append(s, confirmed, guessed);
    lemma_run_append(s, confirmed, corrected);
}

} // verus!
