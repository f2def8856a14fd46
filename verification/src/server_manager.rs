//! Incoming calls, any number at a time.
//!
//! Each incoming call is put to the application's handler; while the handler
//! thinks, the call is pending, under a ticket by which it can be cancelled. An
//! accepted call becomes a tunnel, registered under its peer.
use crate::activation::ActivationDriver;
use crate::activation::SwitchInput;
use crate::activation::Intent;
use crate::activation::Mode;
use crate::peer::PeerId;
use crate::session::close_call;
use crate::session::closing_event;
use crate::session::is_session_life;
use crate::session::Call;
use crate::session::EventKind;
use crate::session::JoinRoom;
use crate::session::SessionEvent;
use crate::signaling::CallDecision;
use crate::signaling::EndReason;
use crate::signaling::TransportSession;
use std::collections::HashMap;
use std::sync::Arc;
use vstd::prelude::*;

verus! {

broadcast use vstd::std_specs::hash::group_hash_axioms;

/// The tunnel registered under a peer.
pub struct Registered {
    pub peer: PeerId,
    pub tunnel: u64,
}

/// A call that awaits the application's decision.
pub struct Awaiting {
    pub peer: PeerId,
    pub ticket: u64,
}

/// What contracts say of a [`ServerTunnelManager`]. Peers are keyed by identity.
#[verifier::ext_equal]
pub struct ServerState<H> {
    /// The application's handler.
    pub admission: Option<Arc<H>>,
    /// The tunnel of each peer.
    pub sessions: Map<usize, Registered>,
    /// Every tunnel that is still watched.
    pub calls: Map<u64, Call>,
    /// The calls that await a decision.
    pub pending: Map<usize, Awaiting>,
    /// The number of the next tunnel.
    pub next_tunnel: u64,
    /// The number of the next ticket.
    pub next_ticket: u64,
}

/// What comes in to a manager.
pub enum ServerInput<H> {
    /// The application installed a handler.
    Handler(Arc<H>),
    /// A call from a peer was accepted.
    Accepted(PeerId),
    /// A tunnel reported something; it was still in use, or it was not.
    Tunnel(u64, EventKind, bool),
    /// The provider says that the call with a peer ended.
    CallEnded(PeerId),
    /// A call from a peer came in.
    Asked(PeerId),
    /// The decision on the call from a peer is there, or was cancelled.
    Answered(PeerId),
}

/// What became of asking the application.
#[derive(Debug, Clone, Copy, PartialEq, Eq, Structural)]
pub enum Answer {
    Decided(CallDecision),
    /// The ticket was cancelled first.
    Cancelled,
}

/// The decision that an answer stands for. A call that was cancelled is ignored,
/// whatever the handler would have said.
pub open spec fn verdict_on(answer: Answer) -> CallDecision {
    match answer {
        Answer::Decided(decision) => decision,
        Answer::Cancelled => CallDecision::SilentlyIgnore,
    }
}

impl<H> ServerState<H> {
    /// Entries stand under the identity of their peer, tunnels and tickets are
    /// numbered in order, and no two entries share a number.
    pub open spec fn wf(self) -> bool {
        &&& forall|k: usize| #[trigger]
            self.sessions.contains_key(k) ==> self.sessions[k].peer@.identity == k
                && self.sessions[k].tunnel < self.next_tunnel
        &&& forall|j: usize, k: usize|
            #![trigger self.sessions[j], self.sessions[k]]
            self.sessions.contains_key(j) && self.sessions.contains_key(k)
                && self.sessions[j].tunnel == self.sessions[k].tunnel ==> j == k
        &&& forall|t: u64| #[trigger] self.calls.contains_key(t) ==> t < self.next_tunnel
        &&& forall|k: usize| #[trigger]
            self.pending.contains_key(k) ==> self.pending[k].peer@.identity == k
                && self.pending[k].ticket < self.next_ticket
        &&& forall|j: usize, k: usize|
            #![trigger self.pending[j], self.pending[k]]
            self.pending.contains_key(j) && self.pending.contains_key(k) && self.pending[j].ticket
                == self.pending[k].ticket ==> j == k
        &&& self.sessions.dom().finite()
    }

    /// Every tunnel that is registered under a peer is watched, as that peer's.
    pub open spec fn watches_all(self) -> bool {
        forall|k: usize| #[trigger]
            self.sessions.contains_key(k) ==> {
                &&& self.calls.contains_key(self.sessions[k].tunnel)
                &&& self.calls[self.sessions[k].tunnel].peer@.identity == k
            }
    }

    /// The state of a new manager.
    pub open spec fn initial() -> ServerState<H> {
        ServerState {
            admission: None,
            sessions: Map::empty(),
            calls: Map::empty(),
            pending: Map::empty(),
            next_tunnel: 0,
            next_ticket: 0,
        }
    }

    /// The state once the application installed a handler.
    pub open spec fn handled_by(self, handler: Arc<H>) -> ServerState<H> {
        ServerState { admission: Some(handler), ..self }
    }

    /// The tunnel registered under `peer`.
    pub open spec fn tunnel_of(self, peer: PeerId) -> Option<u64> {
        if self.sessions.contains_key(peer@.identity) {
            Some(self.sessions[peer@.identity].tunnel)
        } else {
            None
        }
    }

    /// The ticket of the call from `peer` that awaits a decision.
    pub open spec fn ticket_of(self, peer: PeerId) -> Option<u64> {
        if self.pending.contains_key(peer@.identity) {
            Some(self.pending[peer@.identity].ticket)
        } else {
            None
        }
    }

    /// All tunnels that are registered.
    pub open spec fn registered(self) -> Set<u64> {
        Set::new(
            |t: u64|
                exists|k: usize| #[trigger]
                    self.sessions.contains_key(k) && self.sessions[k].tunnel == t,
        )
    }

    /// The state once a call from `peer` was accepted.
    pub open spec fn accepted(self, peer: PeerId) -> ServerState<H> {
        ServerState {
            sessions: self.sessions.insert(
                peer@.identity,
                Registered { peer, tunnel: self.next_tunnel },
            ),
            calls: self.calls.insert(self.next_tunnel, Call { peer, entered: false }),
            next_tunnel: (self.next_tunnel + 1) as u64,
            ..self
        }
    }

    /// How the call that is accepted next joins its room.
    pub open spec fn joining(self, peer: PeerId, session: TransportSession) -> JoinRoom {
        JoinRoom {
            tunnel: self.next_tunnel,
            url: session.url,
            token: session.token,
            replaced: self.tunnel_of(peer),
        }
    }

    /// How to go about a call from `peer`.
    pub open spec fn inquiry(self, peer: PeerId) -> Inquiry<H> {
        match self.admission {
            None => Inquiry::Settled(CallDecision::SilentlyIgnore),
            Some(handler) => Inquiry::Ask {
                handler,
                ticket: self.next_ticket,
                cancelled: self.ticket_of(peer),
            },
        }
    }

    /// What the application is told when the provider says that the call with
    /// `peer` ended.
    pub open spec fn told_of_end(self, peer: PeerId) -> Option<SessionEvent> {
        if self.call_ended(peer) is Some {
            Some(SessionEvent::Failed { peer_id: peer })
        } else {
            None
        }
    }

    /// Whether `event` is the first `Connected` of a tunnel that is watched.
    pub open spec fn joins(self, tunnel: u64, event: EventKind) -> bool {
        &&& self.calls.contains_key(tunnel)
        &&& event == EventKind::Connected
        &&& !self.calls[tunnel].entered
    }

    /// Whether `event` is the end of a tunnel that is watched.
    pub open spec fn leaves(self, tunnel: u64, event: EventKind) -> bool {
        &&& self.calls.contains_key(tunnel)
        &&& event == EventKind::Disconnected
    }

    /// The state after a tunnel reported something. A tunnel that is gone makes
    /// room under its peer, unless a later one stands there. A tunnel that
    /// nobody uses any more when it becomes ready is no longer watched.
    pub open spec fn after(self, tunnel: u64, event: EventKind, in_use: bool) -> ServerState<H> {
        if self.joins(tunnel, event) {
            if in_use {
                ServerState {
                    calls: self.calls.insert(
                        tunnel,
                        Call { peer: self.calls[tunnel].peer, entered: true },
                    ),
                    ..self
                }
            } else {
                ServerState { calls: self.calls.remove(tunnel), ..self }
            }
        } else if self.leaves(tunnel, event) {
            let peer = self.calls[tunnel].peer;
            ServerState {
                sessions: if self.tunnel_of(peer) == Some(tunnel) {
                    self.sessions.remove(peer@.identity)
                } else {
                    self.sessions
                },
                calls: self.calls.remove(tunnel),
                ..self
            }
        } else {
            self
        }
    }

    /// What the application is told when a tunnel reports something.
    pub open spec fn emits(self, tunnel: u64, event: EventKind, in_use: bool) -> Option<
        SessionEvent,
    > {
        if self.joins(tunnel, event) && in_use {
            Some(SessionEvent::Connected { peer_id: self.calls[tunnel].peer, tunnel })
        } else if self.leaves(tunnel, event) {
            Some(closing_event(self.calls[tunnel]))
        } else {
            None
        }
    }

    /// The ticket to cancel when the provider says that the call with `peer`
    /// ended: that of the decision still awaited, unless the peer has a tunnel.
    pub open spec fn call_ended(self, peer: PeerId) -> Option<u64> {
        if self.tunnel_of(peer) is Some {
            None
        } else {
            self.ticket_of(peer)
        }
    }

    /// The state once the provider said that the call with `peer` ended.
    pub open spec fn after_call_ended(self, peer: PeerId) -> ServerState<H> {
        if self.call_ended(peer) is Some {
            ServerState { pending: self.pending.remove(peer@.identity), ..self }
        } else {
            self
        }
    }

    /// The state once a call from `peer` was put to the application.
    pub open spec fn asked(self, peer: PeerId) -> ServerState<H> {
        if self.admission is Some {
            ServerState {
                pending: self.pending.insert(
                    peer@.identity,
                    Awaiting { peer, ticket: self.next_ticket },
                ),
                next_ticket: (self.next_ticket + 1) as u64,
                ..self
            }
        } else {
            self
        }
    }

    /// The state once there is an answer, or will be none, to a call from
    /// `peer`.
    pub open spec fn answered(self, peer: PeerId) -> ServerState<H> {
        ServerState { pending: self.pending.remove(peer@.identity), ..self }
    }

    /// The ticket that an input takes from among the pending ones, and that is
    /// to be cancelled on it: that of the call that ended, of the call that a
    /// later one from the same peer replaces, or the one that no longer stands
    /// once there is an answer.
    pub open spec fn drops(self, input: ServerInput<H>) -> Option<u64> {
        match input {
            ServerInput::CallEnded(peer) => self.call_ended(peer),
            ServerInput::Asked(peer) => if self.admission is Some {
                self.ticket_of(peer)
            } else {
                None
            },
            ServerInput::Answered(peer) => self.ticket_of(peer),
            _ => None,
        }
    }

    /// Whether the call under `ticket` awaits a decision.
    pub open spec fn awaits(self, ticket: u64) -> bool {
        exists|k: usize| #[trigger]
            self.pending.contains_key(k) && self.pending[k].ticket == ticket
    }

    /// The state after one input.
    pub open spec fn step(self, input: ServerInput<H>) -> ServerState<H> {
        match input {
            ServerInput::Handler(handler) => self.handled_by(handler),
            ServerInput::Accepted(peer) => self.accepted(peer),
            ServerInput::Tunnel(tunnel, event, in_use) => self.after(tunnel, event, in_use),
            ServerInput::CallEnded(peer) => self.after_call_ended(peer),
            ServerInput::Asked(peer) => self.asked(peer),
            ServerInput::Answered(peer) => self.answered(peer),
        }
    }

    /// What one input makes the application hear of `tunnel`.
    pub open spec fn heard(self, input: ServerInput<H>, tunnel: u64) -> Option<SessionEvent> {
        match input {
            ServerInput::Tunnel(t, event, in_use) => if t == tunnel {
                self.emits(t, event, in_use)
            } else {
                None
            },
            _ => None,
        }
    }

    /// The state after a run of inputs.
    pub open spec fn run(self, inputs: Seq<ServerInput<H>>) -> ServerState<H>
        decreases inputs.len(),
    {
        if inputs.len() == 0 {
            self
        } else {
            self.run(inputs.drop_last()).step(inputs.last())
        }
    }

    /// All that a run of inputs makes the application hear of `tunnel`.
    pub open spec fn story(self, inputs: Seq<ServerInput<H>>, tunnel: u64) -> Seq<SessionEvent>
        decreases inputs.len(),
    {
        if inputs.len() == 0 {
            Seq::empty()
        } else {
            let before = self.story(inputs.drop_last(), tunnel);
            match self.run(inputs.drop_last()).heard(inputs.last(), tunnel) {
                Some(event) => before.push(event),
                None => before,
            }
        }
    }

    /// Whose call a run of inputs accepts as `tunnel`, if anyone's.
    pub open spec fn caller(self, inputs: Seq<ServerInput<H>>, tunnel: u64) -> Option<PeerId>
        decreases inputs.len(),
    {
        if inputs.len() == 0 {
            None
        } else {
            match inputs.last() {
                ServerInput::Accepted(peer) if self.run(inputs.drop_last()).next_tunnel
                    == tunnel => Some(peer),
                _ => self.caller(inputs.drop_last(), tunnel),
            }
        }
    }

    /// No run of these inputs needs more numbers than there are.
    pub open spec fn has_room_for(self, inputs: Seq<ServerInput<H>>) -> bool {
        &&& self.next_tunnel + inputs.len() < u64::MAX
        &&& self.next_ticket + inputs.len() < u64::MAX
    }
}

/// How to go about an incoming call.
pub enum Inquiry<H> {
    /// There is no handler: this is the decision.
    Settled(CallDecision),
    /// Put it to `handler`, and cancel `cancelled`, the call from the same peer
    /// that was pending until now.
    Ask { handler: Arc<H>, ticket: u64, cancelled: Option<u64> },
}

/// The decision on an incoming call. `dropped` is the ticket that no longer
/// stands: the call's own one, or that of a later call from the same peer.
pub struct Verdict {
    pub decision: CallDecision,
    pub dropped: Option<u64>,
}

/// What to do about an event of a tunnel: tell the application; then stop
/// watching it, if it is over.
pub struct ServerReaction {
    pub emit: Option<SessionEvent>,
    pub over: bool,
}

/// What to do when the provider says that a call ended: cancel a ticket, and
/// tell the application.
pub struct CallEndedReaction {
    pub cancelled: Option<u64>,
    pub emit: Option<SessionEvent>,
}

/// Incoming calls, any number at a time.
#[verifier::reject_recursive_types(H)]
pub struct ServerTunnelManager<H> {
    admission: Option<Arc<H>>,
    sessions: HashMap<usize, Registered>,
    calls: HashMap<u64, Call>,
    pending: HashMap<usize, Awaiting>,
    next_tunnel: u64,
    next_ticket: u64,
}

impl<H> View for ServerTunnelManager<H> {
    type V = ServerState<H>;

    closed spec fn view(&self) -> ServerState<H> {
        ServerState {
            admission: self.admission,
            sessions: self.sessions@,
            calls: self.calls@,
            pending: self.pending@,
            next_tunnel: self.next_tunnel,
            next_ticket: self.next_ticket,
        }
    }
}

impl<H> ServerTunnelManager<H> {
    pub open spec fn wf(&self) -> bool {
        self@.wf()
    }

    /// A manager without calls and without a handler. The driver goes to server
    /// mode, and the provider is told what comes of that.
    pub fn new(driver: &mut ActivationDriver) -> (r: (ServerTunnelManager<H>, Option<Intent>))
        requires
            old(driver).wf(),
        ensures
            r.0.wf(),
            r.0@ == ServerState::<H>::initial(),
            final(driver).wf(),
            final(driver)@ == old(driver)@.next(SwitchInput::SetMode(Mode::Server)),
            r.1 == old(driver)@.told(SwitchInput::SetMode(Mode::Server)),
    {
        let manager = ServerTunnelManager {
            admission: None,
            sessions: HashMap::new(),
            calls: HashMap::new(),
            pending: HashMap::new(),
            next_tunnel: 0,
            next_ticket: 0,
        };
        let told = driver.set_mode(Mode::Server);
        (manager, told)
    }

    /// Installs the application's handler in place of any before it. Calls that
    /// are pending stay with the handler that they were put to.
    pub fn set_admission(&mut self, handler: Arc<H>)
        requires
            old(self).wf(),
        ensures
            final(self).wf(),
            final(self)@ == old(self)@.handled_by(handler),
    {
        self.admission = Some(handler);
    }

    /// Whether there is a number left for one more tunnel.
    pub fn can_accept(&self) -> (b: bool)
        ensures
            b == (self@.next_tunnel < u64::MAX),
    {
        self.next_tunnel < u64::MAX
    }

    /// Whether there is a number left for one more ticket.
    pub fn can_ask(&self) -> (b: bool)
        ensures
            b == (self@.next_ticket < u64::MAX),
    {
        self.next_ticket < u64::MAX
    }

    /// Takes an incoming call from `peer`. Without a handler it is ignored.
    /// With one it is pending from here on, under a ticket that no call had
    /// before, in place of any pending call from the same peer.
    pub fn begin_decision(&mut self, peer: PeerId) -> (r: Inquiry<H>)
        requires
            old(self).wf(),
            old(self)@.next_ticket < u64::MAX,
        ensures
            final(self).wf(),
            final(self)@ == old(self)@.asked(peer),
            r == old(self)@.inquiry(peer),
            match old(self)@.admission {
                None => r == Inquiry::<H>::Settled(CallDecision::SilentlyIgnore),
                Some(h) => r == (Inquiry::Ask {
                    handler: h,
                    ticket: old(self)@.next_ticket,
                    cancelled: old(self)@.drops(ServerInput::Asked(peer)),
                }),
            },
    {
        let handler = match &self.admission {
            Some(handler) => handler.clone(),
            None => return Inquiry::Settled(CallDecision::SilentlyIgnore),
        };
        let ticket: u64 = self.next_ticket;
        let cancelled = match self.pending.insert(peer.identity(), Awaiting { peer, ticket }) {
            Some(earlier) => Some(earlier.ticket),
            None => None,
        };
        self.next_ticket = ticket + 1;
        Inquiry::Ask { handler, ticket, cancelled }
    }

    /// Takes what became of asking the handler about a call from `peer`. The
    /// peer has no pending call afterwards, and a cancelled one is ignored.
    pub fn finish_decision(&mut self, peer: &PeerId, answer: Answer) -> (r: Verdict)
        requires
            old(self).wf(),
        ensures
            final(self).wf(),
            final(self)@ == old(self)@.answered(*peer),
            r.dropped == old(self)@.drops(ServerInput::Answered(*peer)),
            r.decision == verdict_on(answer),
    {
        let dropped = match self.pending.remove(&peer.identity()) {
            Some(entry) => Some(entry.ticket),
            None => None,
        };
        let decision = match answer {
            Answer::Decided(decision) => decision,
            Answer::Cancelled => CallDecision::SilentlyIgnore,
        };
        Verdict { decision, dropped }
    }

    /// Takes an accepted call from `peer`. It is registered under the peer, as
    /// a tunnel with a number that none had before, and the tunnel that was
    /// registered there is to be torn down.
    pub fn accept(&mut self, peer: PeerId, session: TransportSession) -> (r: JoinRoom)
        requires
            old(self).wf(),
            old(self)@.next_tunnel < u64::MAX,
        ensures
            final(self).wf(),
            final(self)@ == old(self)@.accepted(peer),
            r == old(self)@.joining(peer, session),
            r == (JoinRoom {
                tunnel: old(self)@.next_tunnel,
                url: session.url,
                token: session.token,
                replaced: old(self)@.tunnel_of(peer),
            }),
    {
        let tunnel: u64 = self.next_tunnel;
        let entry = Registered { peer: peer.clone(), tunnel };
        let replaced = match self.sessions.insert(peer.identity(), entry) {
            Some(earlier) => Some(earlier.tunnel),
            None => None,
        };
        self.calls.insert(tunnel, Call { peer, entered: false });
        self.next_tunnel = tunnel + 1;
        JoinRoom { tunnel, url: session.url, token: session.token, replaced }
    }

    /// Takes an event of `tunnel`. `in_use` says whether anybody still holds
    /// the tunnel. A tunnel that is no longer watched is over.
    pub fn on_tunnel_event(&mut self, tunnel: u64, event: EventKind, in_use: bool) -> (r:
        ServerReaction)
        requires
            old(self).wf(),
        ensures
            final(self).wf(),
            final(self)@ == old(self)@.after(tunnel, event, in_use),
            r.emit == old(self)@.emits(tunnel, event, in_use),
            r.over == !final(self)@.calls.contains_key(tunnel),
    {
        let ghost before = self@;
        match event {
            EventKind::Other => {
                let over = !self.calls.contains_key(&tunnel);
                ServerReaction { emit: None, over }
            },
            EventKind::Connected => {
                let call = match self.calls.remove(&tunnel) {
                    Some(call) => call,
                    None => {
                        assert(self@ =~= before);
                        return ServerReaction { emit: None, over: true };
                    },
                };
                if call.entered {
                    self.calls.insert(tunnel, call);
                    assert(self@ =~= before);
                    return ServerReaction { emit: None, over: false };
                }
                if !in_use {
                    return ServerReaction { emit: None, over: true };
                }
                let peer_id = call.peer.clone();
                self.calls.insert(tunnel, Call { peer: call.peer, entered: true });
                assert(self@ =~= before.after(tunnel, event, in_use));
                ServerReaction {
                    emit: Some(SessionEvent::Connected { peer_id, tunnel }),
                    over: false,
                }
            },
            EventKind::Disconnected => {
                let call = match self.calls.remove(&tunnel) {
                    Some(call) => call,
                    None => {
                        assert(self@ =~= before);
                        return ServerReaction { emit: None, over: true };
                    },
                };
                let matches = match self.sessions.get(&call.peer.identity()) {
                    Some(entry) => entry.tunnel == tunnel,
                    None => false,
                };
                if matches {
                    self.sessions.remove(&call.peer.identity());
                }
                ServerReaction { emit: Some(close_call(call)), over: true }
            },
        }
    }

    /// Takes the provider's word that the call with `peer` ended. A peer with a
    /// tunnel is left alone: the transport says when that ends. A decision that
    /// is still awaited is cancelled, and the application is told that the call
    /// failed.
    pub fn on_ws_call_ended(&mut self, peer: PeerId, reason: EndReason) -> (r: CallEndedReaction)
        requires
            old(self).wf(),
        ensures
            final(self).wf(),
            final(self)@ == old(self)@.after_call_ended(peer),
            r.cancelled == old(self)@.drops(ServerInput::CallEnded(peer)),
            r.emit == old(self)@.told_of_end(peer),
            r.emit == (if old(self)@.call_ended(peer) is Some {
                Some(SessionEvent::Failed { peer_id: peer })
            } else {
                None
            }),
    {
        let ghost before = self@;
        if self.sessions.contains_key(&peer.identity()) {
            return CallEndedReaction { cancelled: None, emit: None };
        }
        match self.pending.remove(&peer.identity()) {
            Some(entry) => CallEndedReaction {
                cancelled: Some(entry.ticket),
                emit: Some(SessionEvent::Failed { peer_id: peer }),
            },
            None => {
                assert(self@ =~= before);
                CallEndedReaction { cancelled: None, emit: None }
            },
        }
    }

    /// The tunnel to tear down to be rid of `peer`.
    pub fn kick(&self, peer: &PeerId) -> (r: Option<u64>)
        requires
            self.wf(),
        ensures
            r == self@.tunnel_of(*peer),
    {
        match self.sessions.get(&peer.identity()) {
            Some(entry) => Some(entry.tunnel),
            None => None,
        }
    }

    /// The tunnels to tear down to be rid of everyone, each of them once, in no
    /// particular order.
    pub fn disconnect_all(&self) -> (r: Vec<u64>)
        requires
            self.wf(),
        ensures
            r@.no_duplicates(),
            r@.to_set() == self@.registered(),
            r@.len() == self@.sessions.dom().len(),
    {
        let mut tunnels: Vec<u64> = Vec::new();
        let ghost order = vstd::std_specs::iter::IteratorSpec::remaining(
            &vstd::std_specs::hash::spec_keys_iter(&self.sessions),
        ).unref();
        proof {
            assert forall|i: int| 0 <= i < order.len() implies self@.sessions.contains_key(
                #[trigger] order[i],
            ) by {
                assert(order.to_set().contains(order[i]));
            }
        }
        for key in it: self.sessions.keys()
            invariant
                it.seq().unref() == order,
                forall|i: int|
                    0 <= i < order.len() ==> self@.sessions.contains_key(#[trigger] order[i]),
                tunnels@.len() == it.index(),
                forall|i: int|
                    #![trigger tunnels@[i]]
                    0 <= i < tunnels@.len() ==> tunnels@[i] == self@.sessions[order[i]].tunnel,
        {
            assert(order[it.index() as int] == *key);
            match self.sessions.get(key) {
                Some(entry) => tunnels.push(entry.tunnel),
                None => {},
            }
        }
        proof {
            assert forall|t: u64| self@.registered().contains(t) implies tunnels@.contains(t) by {
                let k = choose|k: usize| #[trigger]
                    self@.sessions.contains_key(k) && self@.sessions[k].tunnel == t;
                assert(order.to_set().contains(k));
                let i = choose|i: int| 0 <= i < order.len() && order[i] == k;
                assert(tunnels@[i] == t);
            }
            assert forall|t: u64| tunnels@.contains(t) implies self@.registered().contains(t) by {
                let i = choose|i: int| 0 <= i < tunnels@.len() && tunnels@[i] == t;
                assert(self@.sessions.contains_key(order[i]));
            }
            assert(tunnels@.to_set() =~= self@.registered());
        }
        tunnels
    }
}

/// A run keeps a state well formed, and numbers only go up.
pub proof fn law_run_keeps_state_well_formed<H>(state: ServerState<H>, inputs: Seq<ServerInput<H>>)
    requires
        state.wf(),
        state.has_room_for(inputs),
    ensures
        state.run(inputs).wf(),
        state.next_tunnel <= state.run(inputs).next_tunnel <= state.next_tunnel + inputs.len(),
        state.next_ticket <= state.run(inputs).next_ticket <= state.next_ticket + inputs.len(),
    decreases inputs.len(),
{
    if inputs.len() > 0 {
        law_run_keeps_state_well_formed(state, inputs.drop_last());
    }
}

/// Whatever happens, what the application hears of one accepted call is a
/// session's life with the peer that called: `Connected` at most once, then at
/// most one `Disconnected`; or a single `Failed`.
pub proof fn law_an_accepted_call_has_one_life<H>(
    state: ServerState<H>,
    inputs: Seq<ServerInput<H>>,
    tunnel: u64,
)
    requires
        state.wf(),
        state.has_room_for(inputs),
        tunnel >= state.next_tunnel,
    ensures
        match state.caller(inputs, tunnel) {
            Some(peer) => is_session_life(state.story(inputs, tunnel), peer, tunnel),
            None => state.story(inputs, tunnel) == Seq::<SessionEvent>::empty(),
        },
{
    lemma_story_so_far(state, inputs, tunnel);
}

/// How far the life of an accepted call has come, read off the state.
proof fn lemma_story_so_far<H>(state: ServerState<H>, inputs: Seq<ServerInput<H>>, tunnel: u64)
    requires
        state.wf(),
        state.has_room_for(inputs),
        tunnel >= state.next_tunnel,
    ensures
        ({
            let end = state.run(inputs);
            let story = state.story(inputs, tunnel);
            &&& state.caller(inputs, tunnel) is Some <==> tunnel < end.next_tunnel
            &&& state.caller(inputs, tunnel) is None ==> story == Seq::<SessionEvent>::empty()
            &&& state.caller(inputs, tunnel) matches Some(peer) ==> {
                &&& is_session_life(story, peer, tunnel)
                &&& end.calls.contains_key(tunnel) ==> {
                    &&& end.calls[tunnel].peer == peer
                    &&& story == (if end.calls[tunnel].entered {
                        seq![SessionEvent::Connected { peer_id: peer, tunnel }]
                    } else {
                        Seq::empty()
                    })
                }
            }
        }),
    decreases inputs.len(),
{
    if inputs.len() > 0 {
        let rest = inputs.drop_last();
        lemma_story_so_far(state, rest, tunnel);
        law_run_keeps_state_well_formed(state, rest);
        let before = state.run(rest);
        let story = state.story(inputs, tunnel);
        match before.heard(inputs.last(), tunnel) {
            Some(SessionEvent::Connected { peer_id, .. }) => {
                assert(story =~= seq![SessionEvent::Connected { peer_id, tunnel }]);
            },
            Some(SessionEvent::Disconnected { peer_id }) => {
                assert(story =~= seq![
                    SessionEvent::Connected { peer_id, tunnel },
                    SessionEvent::Disconnected { peer_id },
                ]);
            },
            Some(SessionEvent::Failed { peer_id }) => {
                assert(story =~= seq![SessionEvent::Failed { peer_id }]);
            },
            None => {},
        }
    }
}

/// An accepted call that is still watched always gets its closing word: when
/// its tunnel is gone the application hears `Disconnected` if it had heard
/// `Connected`, and `Failed` if not.
pub proof fn law_every_watched_call_is_closed<H>(state: ServerState<H>, tunnel: u64, in_use: bool)
    requires
        state.wf(),
        state.calls.contains_key(tunnel),
    ensures
        state.emits(tunnel, EventKind::Disconnected, in_use) == Some(
            closing_event(state.calls[tunnel]),
        ),
        !state.after(tunnel, EventKind::Disconnected, in_use).calls.contains_key(tunnel),
        state.after(tunnel, EventKind::Disconnected, in_use).tunnel_of(state.calls[tunnel].peer)
            != Some(tunnel),
{
}

/// Every registered tunnel stays watched until it is gone, so none stays
/// registered for good: a tunnel that is registered is in use, and one in use is
/// watched to its end.
pub proof fn law_registered_tunnels_are_watched<H>(state: ServerState<H>, input: ServerInput<H>)
    requires
        state.wf(),
        state.watches_all(),
        state.next_tunnel < u64::MAX,
        input matches ServerInput::Tunnel(tunnel, _, in_use) ==> (state.registered().contains(
            tunnel,
        ) ==> in_use),
    ensures
        state.step(input).watches_all(),
        ServerState::<H>::initial().watches_all(),
{
    let end = state.step(input);
    assert forall|k: usize| #[trigger] end.sessions.contains_key(k) implies {
        &&& end.calls.contains_key(end.sessions[k].tunnel)
        &&& end.calls[end.sessions[k].tunnel].peer@.identity == k
    } by {
        if state.sessions.contains_key(k) {
            assert(state.registered().contains(state.sessions[k].tunnel));
        }
    }
}

/// The provider's word never touches a session: neither a `CallEnded`, nor a
/// decision, nor a new handler changes which tunnels are registered or watched.
pub proof fn law_sessions_end_by_transport_alone<H>(state: ServerState<H>, input: ServerInput<H>)
    requires
        !(input is Accepted),
        !(input is Tunnel),
    ensures
        state.step(input).sessions == state.sessions,
        state.step(input).calls == state.calls,
{
}

/// For a peer with a tunnel the provider's word is ignored altogether, even
/// where the peer has a call pending as well.
pub proof fn law_call_ended_with_a_session_is_ignored<H>(state: ServerState<H>, peer: PeerId)
    requires
        state.tunnel_of(peer) is Some,
    ensures
        state.call_ended(peer) is None,
        state.after_call_ended(peer) == state,
{
}

/// For a peer with no tunnel the provider's word cancels the decision that is
/// awaited, once: said again it does nothing.
pub proof fn law_call_ended_cancels_once<H>(state: ServerState<H>, peer: PeerId)
    requires
        state.tunnel_of(peer) is None,
    ensures
        state.call_ended(peer) == state.ticket_of(peer),
        state.after_call_ended(peer).ticket_of(peer) is None,
        state.after_call_ended(peer).call_ended(peer) is None,
        state.after_call_ended(peer).after_call_ended(peer) == state.after_call_ended(peer),
        forall|other: PeerId|
            other@.identity != peer@.identity ==> state.after_call_ended(peer).ticket_of(other)
                == #[trigger] state.ticket_of(other),
{
}

/// A second call from a peer takes the place of the first while that is pending:
/// the ticket is a new one, and the peer has one pending call.
pub proof fn law_a_second_call_replaces_the_first<H>(state: ServerState<H>, peer: PeerId)
    requires
        state.wf(),
        state.next_ticket < u64::MAX,
        state.admission is Some,
        state.ticket_of(peer) is Some,
    ensures
        state.asked(peer).wf(),
        state.asked(peer).ticket_of(peer) is Some,
        state.asked(peer).ticket_of(peer) != state.ticket_of(peer),
        state.asked(peer).pending.dom() =~= state.pending.dom(),
{
}

/// A pending call whose ticket is dropped, because the provider says that it ended
/// or because the same peer calls again, ends in silence: the ticket is the one
/// that is handed out for cancelling, the decision on a cancelled call is to
/// ignore it, and from then on, whatever comes, nothing is pending from that call.
/// Taking the decision leaves the peer with nothing pending at all.
pub proof fn law_a_cancelled_call_is_ignored<H>(
    state: ServerState<H>,
    peer: PeerId,
    input: ServerInput<H>,
    ticket: u64,
    inputs: Seq<ServerInput<H>>,
)
    requires
        state.wf(),
        state.next_ticket < u64::MAX,
        input == ServerInput::<H>::CallEnded(peer) || input == ServerInput::<H>::Asked(peer),
        state.ticket_of(peer) == Some(ticket),
        !state.step(input).awaits(ticket),
        state.step(input).has_room_for(inputs),
    ensures
        state.drops(input) == Some(ticket),
        verdict_on(Answer::Cancelled) == CallDecision::SilentlyIgnore,
        !state.step(input).run(inputs).awaits(ticket),
        state.step(input).run(inputs).answered(peer).ticket_of(peer) is None,
{
    assert(state.pending.contains_key(peer@.identity));
    law_no_pending_call_is_forgotten(state, input, ticket);
    lemma_tickets_are_not_used_again(state.step(input), ticket, inputs);
}

/// A pending call stays pending until its ticket is handed out: no input takes a
/// ticket from among the pending ones without naming it as the one to cancel, and
/// the one that is named is gone.
pub proof fn law_no_pending_call_is_forgotten<H>(
    state: ServerState<H>,
    input: ServerInput<H>,
    ticket: u64,
)
    requires
        state.wf(),
        state.next_ticket < u64::MAX,
        state.awaits(ticket),
    ensures
        state.step(input).awaits(ticket) <==> state.drops(input) != Some(ticket),
{
    let k = choose|k: usize| #[trigger]
        state.pending.contains_key(k) && state.pending[k].ticket == ticket;
    let end = state.step(input);
    if state.drops(input) != Some(ticket) {
        assert(end.pending.contains_key(k) && end.pending[k].ticket == ticket);
    }
}

/// A ticket that is no longer pending never is again.
proof fn lemma_tickets_are_not_used_again<H>(
    state: ServerState<H>,
    ticket: u64,
    inputs: Seq<ServerInput<H>>,
)
    requires
        state.wf(),
        state.has_room_for(inputs),
        ticket < state.next_ticket,
        !state.awaits(ticket),
    ensures
        !state.run(inputs).awaits(ticket),
    decreases inputs.len(),
{
    if inputs.len() > 0 {
        let rest = inputs.drop_last();
        lemma_tickets_are_not_used_again(state, ticket, rest);
        law_run_keeps_state_well_formed(state, rest);
        let before = state.run(rest);
        let end = state.run(inputs);
        assert forall|k: usize| #[trigger]
            end.pending.contains_key(k) implies end.pending[k].ticket != ticket by {
            if before.pending.contains_key(k) {
                assert(before.pending[k].ticket != ticket);
            }
        }
    }
}

/// A tunnel that is gone does not take its successor with it: where a later
/// tunnel stands under its peer, that one stays.
pub proof fn law_a_late_end_spares_the_successor<H>(
    state: ServerState<H>,
    tunnel: u64,
    in_use: bool,
)
    requires
        state.calls.contains_key(tunnel),
        state.tunnel_of(state.calls[tunnel].peer) != Some(tunnel),
    ensures
        state.after(tunnel, EventKind::Disconnected, in_use).sessions == state.sessions,
{
}

/// An event of a tunnel leaves the registration of every other peer as it was: the
/// end of one session unregisters nobody else.
pub proof fn law_an_event_spares_other_peers<H>(
    state: ServerState<H>,
    tunnel: u64,
    event: EventKind,
    in_use: bool,
    other: PeerId,
)
    requires
        state.calls.contains_key(tunnel) ==> other@.identity != state.calls[tunnel].peer@.identity,
    ensures
        ({
            let end = state.after(tunnel, event, in_use);
            &&& end.tunnel_of(other) == state.tunnel_of(other)
            &&& end.sessions.contains_key(other@.identity) == state.sessions.contains_key(
                other@.identity,
            )
            &&& end.sessions[other@.identity] == state.sessions[other@.identity]
        }),
{
}

/// An event of a tunnel leaves every other tunnel watched as it was, and it touches
/// neither the pending calls, nor the handler, nor the numbers.
pub proof fn law_an_event_touches_its_own_tunnel_alone<H>(
    state: ServerState<H>,
    tunnel: u64,
    event: EventKind,
    in_use: bool,
    other: u64,
)
    requires
        other != tunnel,
    ensures
        ({
            let end = state.after(tunnel, event, in_use);
            &&& end.calls.contains_key(other) == state.calls.contains_key(other)
            &&& end.calls[other] == state.calls[other]
            &&& end.pending == state.pending
            &&& end.admission == state.admission
            &&& end.next_tunnel == state.next_tunnel
            &&& end.next_ticket == state.next_ticket
        }),
{
}

/// An accepted call is registered under its peer and watched under a new number, as
/// one that has not been ready. Every other peer and every other tunnel stays as it
/// was, and so does all that is pending.
pub proof fn law_accepting_adds_one_session<H>(
    state: ServerState<H>,
    peer: PeerId,
    other_peer: PeerId,
    other: u64,
)
    requires
        state.wf(),
        state.next_tunnel < u64::MAX,
    ensures
        ({
            let end = state.accepted(peer);
            let tunnel = state.next_tunnel;
            &&& !state.calls.contains_key(tunnel)
            &&& !state.registered().contains(tunnel)
            &&& end.tunnel_of(peer) == Some(tunnel)
            &&& end.sessions[peer@.identity].peer == peer
            &&& end.calls.contains_key(tunnel)
            &&& end.calls[tunnel].peer == peer
            &&& !end.calls[tunnel].entered
            &&& end.next_tunnel == tunnel + 1
            &&& end.next_ticket == state.next_ticket
            &&& end.pending == state.pending
            &&& end.admission == state.admission
            &&& other_peer@.identity != peer@.identity ==> end.tunnel_of(other_peer)
                == state.tunnel_of(other_peer)
            &&& other != tunnel ==> {
                &&& end.calls.contains_key(other) == state.calls.contains_key(other)
                &&& end.calls[other] == state.calls[other]
            }
        }),
{
}

/// A tunnel in use that becomes ready stays watched, now as one that has been
/// ready, with the same peer, and nobody's registration changes. The application
/// hears of it with that peer and that tunnel. One that nobody holds any more is
/// let go without a word.
pub proof fn law_an_accepted_call_becomes_ready<H>(
    state: ServerState<H>,
    tunnel: u64,
    in_use: bool,
)
    requires
        state.calls.contains_key(tunnel),
        !state.calls[tunnel].entered,
    ensures
        ({
            let end = state.after(tunnel, EventKind::Connected, in_use);
            let heard = state.emits(tunnel, EventKind::Connected, in_use);
            &&& end.sessions == state.sessions
            &&& end.calls.contains_key(tunnel) == in_use
            &&& in_use ==> {
                &&& end.calls[tunnel].entered
                &&& end.calls[tunnel].peer == state.calls[tunnel].peer
                &&& heard == Some(
                    SessionEvent::Connected { peer_id: state.calls[tunnel].peer, tunnel },
                )
            }
            &&& !in_use ==> heard is None
        }),
{
}

/// A tunnel that is gone is watched no longer, whether anybody holds it or not, and
/// its peer is registered no longer if it was registered with this tunnel. The
/// application always hears of it: as disconnected if it was ready, as failed if
/// not.
pub proof fn law_a_tunnel_that_is_gone_is_let_go<H>(
    state: ServerState<H>,
    tunnel: u64,
    in_use: bool,
)
    requires
        state.calls.contains_key(tunnel),
    ensures
        ({
            let end = state.after(tunnel, EventKind::Disconnected, in_use);
            let call = state.calls[tunnel];
            let heard = state.emits(tunnel, EventKind::Disconnected, in_use);
            &&& !end.calls.contains_key(tunnel)
            &&& state.tunnel_of(call.peer) == Some(tunnel) ==> end.tunnel_of(call.peer) is None
            &&& state.tunnel_of(call.peer) != Some(tunnel) ==> end.tunnel_of(call.peer)
                == state.tunnel_of(call.peer)
            &&& call.entered ==> heard == Some(SessionEvent::Disconnected { peer_id: call.peer })
            &&& !call.entered ==> heard == Some(SessionEvent::Failed { peer_id: call.peer })
        }),
{
}

/// Anything else that a tunnel reports is passed over: an event of a tunnel that is
/// not watched, a second `Connected`, and every kind that no manager acts on.
pub proof fn law_other_events_change_nothing<H>(
    state: ServerState<H>,
    tunnel: u64,
    event: EventKind,
    in_use: bool,
)
    requires
        !state.calls.contains_key(tunnel) || event == EventKind::Other || (event
            == EventKind::Connected && state.calls[tunnel].entered),
    ensures
        state.after(tunnel, event, in_use) == state,
        state.emits(tunnel, event, in_use) is None,
{
}

/// Whoever is registered can be kicked, and to be rid of everyone is to be rid of
/// each of them: the tunnels that are registered are those of the peers, one each.
pub proof fn law_everyone_is_reached<H>(state: ServerState<H>, peer: PeerId, tunnel: u64)
    requires
        state.wf(),
    ensures
        state.tunnel_of(peer) == Some(tunnel) <==> {
            &&& state.sessions.contains_key(peer@.identity)
            &&& state.sessions[peer@.identity].tunnel == tunnel
        },
        state.tunnel_of(peer) == Some(tunnel) ==> state.registered().contains(tunnel),
        state.registered().contains(tunnel) <==> exists|k: usize| #[trigger]
            state.sessions.contains_key(k) && state.tunnel_of(state.sessions[k].peer) == Some(
                tunnel,
            ),
{
    if state.registered().contains(tunnel) {
        let k = choose|k: usize| #[trigger]
            state.sessions.contains_key(k) && state.sessions[k].tunnel == tunnel;
        assert(state.tunnel_of(state.sessions[k].peer) == Some(tunnel));
    }
}

/// The provider's word cancels exactly the pending call of the peer that it names,
/// and that only while the peer has no tunnel. Every other pending call stays as it
/// was, and so does everything else.
pub proof fn law_call_ended_spares_other_peers<H>(
    state: ServerState<H>,
    peer: PeerId,
    other: PeerId,
    ticket: u64,
)
    ensures
        state.call_ended(peer) == Some(ticket) <==> {
            &&& !state.sessions.contains_key(peer@.identity)
            &&& state.pending.contains_key(peer@.identity)
            &&& state.pending[peer@.identity].ticket == ticket
        },
        ({
            let end = state.after_call_ended(peer);
            &&& other@.identity != peer@.identity ==> {
                &&& end.pending.contains_key(other@.identity) == state.pending.contains_key(
                    other@.identity,
                )
                &&& end.pending[other@.identity] == state.pending[other@.identity]
            }
            &&& end.pending.contains_key(peer@.identity) <==> {
                &&& state.pending.contains_key(peer@.identity)
                &&& state.sessions.contains_key(peer@.identity)
            }
            &&& end.sessions == state.sessions
            &&& end.calls == state.calls
            &&& end.admission == state.admission
            &&& end.next_tunnel == state.next_tunnel
            &&& end.next_ticket == state.next_ticket
        }),
{
}

/// A call that is put to the handler is pending under a new ticket, and every other
/// peer's pending call stays as it was. Without a handler nothing becomes pending.
/// Sessions are not touched either way.
pub proof fn law_asking_makes_one_call_pending<H>(
    state: ServerState<H>,
    peer: PeerId,
    other: PeerId,
)
    requires
        state.wf(),
        state.next_ticket < u64::MAX,
    ensures
        ({
            let end = state.asked(peer);
            &&& state.admission is None ==> end == state
            &&& state.admission is Some ==> {
                &&& !state.awaits(state.next_ticket)
                &&& end.ticket_of(peer) == Some(state.next_ticket)
                &&& end.pending[peer@.identity].peer == peer
                &&& end.next_ticket == state.next_ticket + 1
            }
            &&& other@.identity != peer@.identity ==> {
                &&& end.ticket_of(other) == state.ticket_of(other)
                &&& end.pending[other@.identity] == state.pending[other@.identity]
            }
            &&& end.sessions == state.sessions
            &&& end.calls == state.calls
            &&& end.admission == state.admission
            &&& end.next_tunnel == state.next_tunnel
        }),
{
}

/// An answer ends the wait of its own peer and of nobody else, and touches no
/// session and no number.
pub proof fn law_an_answer_ends_one_wait<H>(state: ServerState<H>, peer: PeerId, other: PeerId)
    ensures
        ({
            let end = state.answered(peer);
            &&& end.ticket_of(peer) is None
            &&& other@.identity != peer@.identity ==> {
                &&& end.ticket_of(other) == state.ticket_of(other)
                &&& end.pending[other@.identity] == state.pending[other@.identity]
            }
            &&& end.sessions == state.sessions
            &&& end.calls == state.calls
            &&& end.admission == state.admission
            &&& end.next_tunnel == state.next_tunnel
            &&& end.next_ticket == state.next_ticket
        }),
{
}

/// The handler's word stands as it is given, whichever it is.
pub proof fn law_the_handlers_word_stands(decision: CallDecision)
    ensures
        verdict_on(Answer::Decided(decision)) == decision,
        verdict_on(Answer::Cancelled) == CallDecision::SilentlyIgnore,
{
}

/// Only a ticket that is pending is handed out for cancelling, and only by the three
/// inputs that can end a wait: it is that of the peer which the input is about.
pub proof fn law_only_pending_tickets_are_dropped<H>(
    state: ServerState<H>,
    input: ServerInput<H>,
    ticket: u64,
)
    requires
        state.drops(input) == Some(ticket),
    ensures
        state.awaits(ticket),
        input matches ServerInput::CallEnded(peer) ==> state.ticket_of(peer) == Some(ticket),
        input matches ServerInput::Asked(peer) ==> state.ticket_of(peer) == Some(ticket),
        input matches ServerInput::Answered(peer) ==> state.ticket_of(peer) == Some(ticket),
        input is CallEnded || input is Asked || input is Answered,
{
    match input {
        ServerInput::CallEnded(peer) | ServerInput::Asked(peer) | ServerInput::Answered(peer) => {
            assert(state.pending.contains_key(peer@.identity));
        },
        _ => {},
    }
}

/// A handler that is installed is the one that calls are put to from then on.
/// Nothing else changes: calls that are pending stay pending.
pub proof fn law_a_handler_replaces_the_one_before<H>(state: ServerState<H>, handler: Arc<H>)
    ensures
        ({
            let end = state.handled_by(handler);
            &&& end.admission == Some(handler)
            &&& end.sessions == state.sessions
            &&& end.calls == state.calls
            &&& end.pending == state.pending
            &&& end.next_tunnel == state.next_tunnel
            &&& end.next_ticket == state.next_ticket
        }),
{
}

/// A new manager has no handler, no session and no pending call.
pub proof fn law_a_new_manager_has_nobody<H>(peer: PeerId, tunnel: u64)
    ensures
        ServerState::<H>::initial().admission is None,
        ServerState::<H>::initial().tunnel_of(peer) is None,
        ServerState::<H>::initial().ticket_of(peer) is None,
        !ServerState::<H>::initial().calls.contains_key(tunnel),
        ServerState::<H>::initial().next_tunnel == 0,
        ServerState::<H>::initial().next_ticket == 0,
{
}

/// A run is its inputs one after the other: it can be cut anywhere, and what the
/// application hears of a tunnel is what it hears in both parts.
pub proof fn law_runs_of_calls_compose<H>(
    state: ServerState<H>,
    first: Seq<ServerInput<H>>,
    second: Seq<ServerInput<H>>,
    tunnel: u64,
)
    ensures
        state.run(first + second) == state.run(first).run(second),
        state.story(first + second, tunnel) == state.story(first, tunnel) + state.run(first).story(
            second,
            tunnel,
        ),
    decreases second.len(),
{
    if second.len() == 0 {
        assert(first + second =~= first);
        assert(state.story(first, tunnel) + Seq::<SessionEvent>::empty() =~= state.story(
            first,
            tunnel,
        ));
    } else {
        assert((first + second).drop_last() =~= first + second.drop_last());
        assert((first + second).last() == second.last());
        law_runs_of_calls_compose(state, first, second.drop_last(), tunnel);
        assert(state.story(first + second, tunnel) =~= state.story(first, tunnel) + state.run(
            first,
        ).story(second, tunnel));
    }
}

/// An accepted call joins the room of its own session, with the session's own token,
/// under the number that its peer is registered with from then on; and the tunnel to
/// be torn down for it is the one that the peer had until then, if any, never that of
/// another peer.
pub proof fn law_an_accepted_call_joins_its_own_room<H>(
    state: ServerState<H>,
    peer: PeerId,
    other: PeerId,
    session: TransportSession,
)
    requires
        state.wf(),
        state.next_tunnel < u64::MAX,
    ensures
        ({
            let join = state.joining(peer, session);
            &&& join.url == session.url
            &&& join.token == session.token
            &&& state.accepted(peer).tunnel_of(peer) == Some(join.tunnel)
            &&& !state.registered().contains(join.tunnel)
            &&& join.replaced == state.tunnel_of(peer)
            &&& join.replaced is Some && other@.identity != peer@.identity ==> join.replaced
                != state.tunnel_of(other)
        }),
{
}

/// A call is put to the handler that is installed, under the ticket that it is
/// pending by from then on, and the one cancelled for it is the one that the same peer
/// had pending. Without a handler the call is ignored, and nobody is asked.
pub proof fn law_calls_are_put_to_the_handler<H>(state: ServerState<H>, peer: PeerId)
    requires
        state.wf(),
        state.next_ticket < u64::MAX,
    ensures
        state.admission is None <==> state.inquiry(peer) == Inquiry::<H>::Settled(
            CallDecision::SilentlyIgnore,
        ),
        state.admission is Some <==> state.inquiry(peer) is Ask,
        state.inquiry(peer) matches Inquiry::Ask { handler, ticket, cancelled } ==> {
            &&& state.admission == Some(handler)
            &&& state.asked(peer).ticket_of(peer) == Some(ticket)
            &&& cancelled == state.ticket_of(peer)
            &&& cancelled != Some(ticket)
        },
{
}

/// The application hears that a call failed exactly when the provider's word cancelled
/// it, and of the peer that the word was about.
pub proof fn law_a_cancelled_call_is_told_as_failed<H>(state: ServerState<H>, peer: PeerId)
    ensures
        state.told_of_end(peer) == Some(SessionEvent::Failed { peer_id: peer }) <==> state.ticket_of(
            peer,
        ) is Some && state.tunnel_of(peer) is None,
        state.told_of_end(peer) is None <==> state.ticket_of(peer) is None || state.tunnel_of(
            peer,
        ) is Some,
{
}

} // verus!
