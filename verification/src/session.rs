//! What both tunnel managers speak of: the events of a transport and the events
//! of a session.
use crate::peer::PeerId;
use vstd::prelude::*;

verus! {

/// What a transport reports of one tunnel. Kinds that no manager acts on are
/// `Other`.
#[derive(Debug, Clone, Copy, PartialEq, Eq, Structural)]
pub enum EventKind {
    Connected,
    Disconnected,
    Other,
}

/// The life of a session with a peer, as applications see it. The tunnel is
/// named by the number that the manager gave it.
pub enum SessionEvent {
    /// The tunnel is ready.
    Connected { peer_id: PeerId, tunnel: u64 },
    /// It was ready and is torn down.
    Disconnected { peer_id: PeerId },
    /// It never became ready.
    Failed { peer_id: PeerId },
}

impl Clone for SessionEvent {
    fn clone(&self) -> (r: SessionEvent)
        ensures
            r == *self,
    {
        match self {
            SessionEvent::Connected { peer_id, tunnel } => SessionEvent::Connected {
                peer_id: peer_id.clone(),
                tunnel: *tunnel,
            },
            SessionEvent::Disconnected { peer_id } => SessionEvent::Disconnected {
                peer_id: peer_id.clone(),
            },
            SessionEvent::Failed { peer_id } => SessionEvent::Failed { peer_id: peer_id.clone() },
        }
    }
}

/// A call to join: enter the room at `url` with `token` as `tunnel`, and tear
/// down `replaced`, the tunnel whose place it took.
pub struct JoinRoom {
    pub tunnel: u64,
    pub url: String,
    pub token: String,
    pub replaced: Option<u64>,
}

/// One tunnel and its peer. `entered` says whether the tunnel has been ready.
pub struct Call {
    pub peer: PeerId,
    pub entered: bool,
}

/// The event that ends a session: `Disconnected` after `Connected`, `Failed`
/// without it.
pub open spec fn closing_event(call: Call) -> SessionEvent {
    if call.entered {
        SessionEvent::Disconnected { peer_id: call.peer }
    } else {
        SessionEvent::Failed { peer_id: call.peer }
    }
}

/// The events that one tunnel may give rise to, in order: at most one
/// `Connected`; a `Disconnected` only after it, a `Failed` only without it; and
/// nothing after either of these.
pub open spec fn is_session_life(events: Seq<SessionEvent>, peer: PeerId, tunnel: u64) -> bool {
    ||| events == Seq::<SessionEvent>::empty()
    ||| events == seq![SessionEvent::Connected { peer_id: peer, tunnel }]
    ||| events == seq![
        SessionEvent::Connected { peer_id: peer, tunnel },
        SessionEvent::Disconnected { peer_id: peer },
    ]
    ||| events == seq![SessionEvent::Failed { peer_id: peer }]
}

/// Makes the event that ends a session.
pub(crate) fn close_call(call: Call) -> (event: SessionEvent)
    ensures
        event == closing_event(call),
{
    if call.entered {
        SessionEvent::Disconnected { peer_id: call.peer }
    } else {
        SessionEvent::Failed { peer_id: call.peer }
    }
}

/// A call is closed by one of two events about its own peer: as disconnected if its
/// tunnel has been ready, and as failed if not.
pub proof fn law_a_call_is_closed_by_how_far_it_came(call: Call)
    ensures
        closing_event(call) == (SessionEvent::Disconnected { peer_id: call.peer }) <==> call.entered,
        closing_event(call) == (SessionEvent::Failed { peer_id: call.peer }) <==> !call.entered,
        !(closing_event(call) is Connected),
{
}

/// A session's life is over with its first closing event: whatever comes before it,
/// nothing comes after it, and a session that was ready is never called failed.
pub proof fn law_a_life_ends_once(events: Seq<SessionEvent>, peer: PeerId, tunnel: u64)
    requires
        is_session_life(events, peer, tunnel),
    ensures
        events.len() <= 2,
        events.len() > 0 && !(events[0] is Connected) ==> events == seq![
            SessionEvent::Failed { peer_id: peer },
        ],
        events.len() > 0 && events[0] is Connected ==> events[0] == (SessionEvent::Connected {
            peer_id: peer,
            tunnel,
        }),
        events.len() == 2 ==> events[0] is Connected && events[1]
            == (SessionEvent::Disconnected { peer_id: peer }),
{
}

} // verus!
