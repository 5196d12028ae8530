//! Session manager: the phases from start-up to a running peer-to-peer
//! session, and the handle assignment made once every peer is present.

use vstd::prelude::*;

verus! {

/// Ticks of delay applied to local input to hide network latency.
pub const INPUT_DELAY: usize = 2;

/// Peers, the local one included, that a match needs.
pub const MAX_PLAYER_CONNECTIONS: usize = 2;

#[derive(Clone, Copy, Debug, PartialEq, Eq, Structural)]
pub enum SessionPhase {
    Idle,
    Connecting,
    WaitingForPeers,
    Synchronizing,
    Running,
}

/// Whether a connected peer is this process or another one.
#[derive(Clone, Copy, Debug, PartialEq, Eq, Structural)]
pub enum PeerKind {
    Local,
    Remote,
}

/// A player slot with the peer that fills it.
#[derive(Clone, Copy, Debug, PartialEq, Eq, Structural)]
pub struct PlayerAssignment {
    pub handle: usize,
    pub kind: PeerKind,
}

/// What the rollback protocol is started with.
#[derive(Debug, PartialEq, Eq)]
pub struct SessionPlan {
    pub num_players: usize,
    pub input_delay: usize,
    /// One entry per peer, handles in connection order.
    pub players: Vec<PlayerAssignment>,
    pub local_handle: Option<usize>,
}

pub struct PlanView {
    pub num_players: usize,
    pub input_delay: usize,
    pub players: Seq<PlayerAssignment>,
    pub local_handle: Option<usize>,
}

impl View for SessionPlan {
    type V = PlanView;

    open spec fn view(&self) -> PlanView {
        PlanView {
            num_players: self.num_players,
            input_delay: self.input_delay,
            players: self.players@,
            local_handle: self.local_handle,
        }
    }
}

#[derive(Clone, Copy, Debug, PartialEq, Eq, Structural)]
pub enum SessionError {
    /// More peers arrived than the match has slots for.
    TooManyPeers,
}

/// The session's phase and settings.
#[derive(Debug, PartialEq, Eq)]
pub struct P2PSession {
    pub phase: SessionPhase,
    pub expected_peers: usize,
    pub input_delay: usize,
    pub local_handle: Option<usize>,
}

/// Handle of the last local peer in `peers`, if any.
pub open spec fn last_local(peers: Seq<PeerKind>) -> Option<usize>
    decreases peers.len(),
{
    if peers.len() == 0 {
        None
    } else if peers.last() == PeerKind::Local {
        Some((peers.len() - 1) as usize)
    } else {
        last_local(peers.drop_last())
    }
}

/// Handles given by connection order.
pub open spec fn assignments(peers: Seq<PeerKind>) -> Seq<PlayerAssignment> {
    Seq::new(peers.len(), |i: int| PlayerAssignment { handle: i as usize, kind: peers[i] })
}

pub open spec fn plan_for(s: P2PSession, peers: Seq<PeerKind>) -> PlanView {
    PlanView {
        num_players: s.expected_peers,
        input_delay: s.input_delay,
        players: assignments(peers),
        local_handle: last_local(peers),
    }
}

/// Whether a poll that sees `peers` starts the session.
pub open spec fn threshold_reached(s: P2PSession, peers: Seq<PeerKind>) -> bool {
    s.phase == SessionPhase::WaitingForPeers && peers.len() == s.expected_peers
}

/// The session after a poll that sees `peers`.
pub open spec fn polled(s: P2PSession, peers: Seq<PeerKind>) -> P2PSession {
    if threshold_reached(s, peers) {
        P2PSession {
            phase: SessionPhase::Synchronizing,
            local_handle: last_local(peers),
            ..s
        }
    } else {
        s
    }
}

pub open spec fn advanced(s: P2PSession, from: SessionPhase, to: SessionPhase) -> P2PSession {
    if s.phase == from {
        P2PSession { phase: to, ..s }
    } else {
        s
    }
}

impl P2PSession {
    pub fn new(expected_peers: usize, input_delay: usize) -> (r: P2PSession)
        ensures
            r.phase == SessionPhase::Idle,
            r.expected_peers == expected_peers,
            r.input_delay == input_delay,
            r.local_handle is None,
    {
        P2PSession { phase: SessionPhase::Idle, expected_peers, input_delay, local_handle: None }
    }

    fn advance(&mut self, from: SessionPhase, to: SessionPhase)
        ensures
            *final(self) == advanced(*old(self), from, to),
    {
        if self.phase == from {
            self.phase = to;
        }
    }

    /// The connection to the rendezvous is being opened.
    pub fn start(&mut self)
        ensures
            *final(self) == advanced(*old(self), SessionPhase::Idle, SessionPhase::Connecting),
    {
        self.advance(SessionPhase::Idle, SessionPhase::Connecting);
    }

    /// The rendezvous channel reported itself open.
    pub fn channel_opened(&mut self)
        ensures
            *final(self) == advanced(
                *old(self),
                SessionPhase::Connecting,
                SessionPhase::WaitingForPeers,
            ),
    {
        self.advance(SessionPhase::Connecting, SessionPhase::WaitingForPeers);
    }

    /// The rollback protocol finished its own handshake.
    pub fn synchronized(&mut self)
        ensures
            *final(self) == advanced(
                *old(self),
                SessionPhase::Synchronizing,
                SessionPhase::Running,
            ),
    {
        self.advance(SessionPhase::Synchronizing, SessionPhase::Running);
    }

    /// One poll of the connected peers. Fewer than expected: keep waiting.
    /// Exactly as many: hand out handles in connection order, record the
    /// local one and move on to synchronizing, once. More: refuse.
    pub fn wait_for_players(&mut self, peers: &Vec<PeerKind>) -> (r: Result<
        Option<SessionPlan>,
        SessionError,
    >)
        ensures
            *final(self) == polled(*old(self), peers@),
            r is Ok && r->Ok_0 is Some <==> threshold_reached(*old(self), peers@),
            r is Err <==> old(self).phase == SessionPhase::WaitingForPeers && peers@.len()
                > old(self).expected_peers,
            r matches Ok(Some(p)) ==> p@ == plan_for(*old(self), peers@),
    {
        if self.phase != SessionPhase::WaitingForPeers {
            return Ok(None);
        }
        if peers.len() < self.expected_peers {
            return Ok(None);
        }
        if peers.len() > self.expected_peers {
            return Err(SessionError::TooManyPeers);
        }
        let mut players: Vec<PlayerAssignment> = Vec::new();
        let mut local_handle: Option<usize> = None;
        let mut i: usize = 0;
        while i < peers.len()
            invariant
                i <= peers@.len(),
                players@ =~= assignments(peers@).take(i as int),
                local_handle == last_local(peers@.take(i as int)),
            decreases peers@.len() - i,
        {
            proof {
                assert(peers@.take(i + 1).drop_last() =~= peers@.take(i as int));
            }
            let kind = peers[i];
            if kind == PeerKind::Local {
                local_handle = Some(i);
            }
            players.push(PlayerAssignment { handle: i, kind });
            i = i + 1;
        }
        proof {
            assert(peers@.take(peers@.len() as int) =~= peers@);
            assert(players@ =~= assignments(peers@));
        }
        self.phase = SessionPhase::Synchronizing;
        self.local_handle = local_handle;
        Ok(
            Some(
                SessionPlan {
                    num_players: self.expected_peers,
                    input_delay: self.input_delay,
                    players,
                    local_handle,
                },
            ),
        )
    }
}

/// While waiting for peers, a poll that sees fewer than the expected number
/// changes nothing; one that sees exactly that number moves to synchronizing
/// with handles 0, 1, ... in connection order; and once moved, no later poll
/// changes anything, so the move happens once.
pub proof fn lemma_session_threshold(s: P2PSession, peers: Seq<PeerKind>, later: Seq<PeerKind>)
    requires
        s.phase == SessionPhase::WaitingForPeers,
    ensures
        peers.len() < s.expected_peers ==> polled(s, peers) == s,
        peers.len() == s.expected_peers ==> {
            &&& polled(s, peers).phase == SessionPhase::Synchronizing
            &&& plan_for(s, peers).players.len() == peers.len()
            &&& forall|i: int|
                0 <= i < peers.len() ==> (#[trigger] plan_for(s, peers).players[i]).handle == i
                    && plan_for(s, peers).players[i].kind == peers[i]
            &&& polled(polled(s, peers), later) == polled(s, peers)
            &&& !threshold_reached(polled(s, peers), later)
        },
{
}

} // verus!
