//! Outgoing calls, one at a time.
//!
//! A new call takes the place of the one before. The tunnel of a call that was
//! replaced goes on reporting until it is gone, and the manager keeps what it
//! reports from the application, which by then waits for the new call.
use crate::activation::law_a_mode_change_begins_a_new_era;
use crate::activation::mode_changes;
use crate::activation::ActivationDriver;
use crate::activation::Switch;
use crate::activation::SwitchInput;
use crate::activation::Intent;
use crate::activation::Mode;
use crate::peer::PeerId;
use crate::session::close_call;
use crate::session::closing_event;
use crate::session::is_session_life;
use crate::session::Call;
use crate::session::EventKind;
use crate::session::JoinRoom;
use crate::session::SessionEvent;
use crate::signaling::EndReason;
use crate::signaling::PlaceCallError;
use crate::signaling::TransportSession;
use std::collections::HashMap;
use vstd::prelude::*;

verus! {

broadcast use vstd::std_specs::hash::group_hash_axioms;

/// What contracts say of a [`ClientTunnelManager`].
#[verifier::ext_equal]
pub struct ClientState {
    /// The tunnel of the call in progress.
    pub current: Option<u64>,
    /// Every tunnel that is still watched.
    pub calls: Map<u64, Call>,
    /// The number of the next tunnel.
    pub next: u64,
    /// The era of the driver that the manager was made in.
    pub era: u64,
}

/// What comes in to a manager, and to the driver beside it.
pub enum ClientInput {
    /// A call to a peer was placed.
    Placed(PeerId),
    /// A tunnel reported something.
    Tunnel(u64, EventKind),
    /// The provider says that the call with a peer ended.
    CallEnded(PeerId),
    /// The manager goes away.
    HangUp,
    /// The application came to the foreground or left it.
    Foreground(bool),
    /// A manager that was made in the given era reports a change of the count.
    Report(u64, int),
}

impl ClientState {
    /// The call in progress is watched, and tunnels are numbered in order.
    pub open spec fn wf(self) -> bool {
        &&& self.calls.dom().finite()
        &&& forall|t: u64| #[trigger] self.calls.contains_key(t) ==> t < self.next
        &&& self.current matches Some(t) ==> self.calls.contains_key(t)
    }

    /// The state of a manager that is made in `era`.
    pub open spec fn initial(era: u64) -> ClientState {
        ClientState { current: None, calls: Map::empty(), next: 0, era }
    }

    /// The state once a call to `peer` was placed.
    pub open spec fn placed(self, peer: PeerId) -> ClientState {
        ClientState {
            current: Some(self.next),
            calls: self.calls.insert(self.next, Call { peer, entered: false }),
            next: (self.next + 1) as u64,
            ..self
        }
    }

    /// Whether `event` is the first `Connected` of a tunnel that is watched.
    pub open spec fn joins(self, tunnel: u64, event: EventKind) -> bool {
        &&& self.calls.contains_key(tunnel)
        &&& event == EventKind::Connected
        &&& !self.calls[tunnel].entered
    }

    /// Whether `event` is the end of a tunnel that is watched.
    pub open spec fn leaves(self, tunnel: u64, event: EventKind) -> bool {
        &&& self.calls.contains_key(tunnel)
        &&& event == EventKind::Disconnected
    }

    /// Whether `event` comes too late for its tunnel: a later call has taken
    /// its place.
    pub open spec fn superseded(self, tunnel: u64) -> bool {
        self.current != Some(tunnel)
    }

    /// The state after a tunnel reported something. A replaced tunnel that
    /// becomes ready is no longer watched, nor is one that is gone.
    pub open spec fn after(self, tunnel: u64, event: EventKind) -> ClientState {
        if self.joins(tunnel, event) {
            if self.superseded(tunnel) {
                ClientState { calls: self.calls.remove(tunnel), ..self }
            } else {
                ClientState {
                    calls: self.calls.insert(
                        tunnel,
                        Call { peer: self.calls[tunnel].peer, entered: true },
                    ),
                    ..self
                }
            }
        } else if self.leaves(tunnel, event) {
            ClientState {
                current: if self.superseded(tunnel) {
                    self.current
                } else {
                    None
                },
                calls: self.calls.remove(tunnel),
                ..self
            }
        } else {
            self
        }
    }

    /// What the application is told when a tunnel reports something. Of a
    /// replaced tunnel it is told nothing.
    pub open spec fn emits(self, tunnel: u64, event: EventKind) -> Option<SessionEvent> {
        if self.superseded(tunnel) {
            None
        } else if self.joins(tunnel, event) {
            Some(SessionEvent::Connected { peer_id: self.calls[tunnel].peer, tunnel })
        } else if self.leaves(tunnel, event) {
            Some(closing_event(self.calls[tunnel]))
        } else {
            None
        }
    }

    /// The change of the count of live sessions to report to the driver. Only a
    /// tunnel that was counted when it became ready is counted off when it is
    /// gone.
    pub open spec fn bump(self, tunnel: u64, event: EventKind) -> int {
        if self.joins(tunnel, event) && !self.superseded(tunnel) {
            1
        } else if self.leaves(tunnel, event) && self.calls[tunnel].entered {
            -1
        } else {
            0
        }
    }

    /// The tunnel to tear down when the provider says that the call with `peer`
    /// ended: that of the call in progress, if it is with that peer and never
    /// became ready. Once it is ready the transport alone says when it ends.
    pub open spec fn call_ended(self, peer: PeerId) -> Option<u64> {
        match self.current {
            Some(t) => if self.calls[t].peer@ == peer@ && !self.calls[t].entered {
                Some(t)
            } else {
                None
            },
            None => None,
        }
    }

    /// How the call that is placed next joins its room.
    pub open spec fn joining(self, session: TransportSession) -> JoinRoom {
        JoinRoom {
            tunnel: self.next,
            url: session.url,
            token: session.token,
            replaced: self.current,
        }
    }

    /// Whether a tunnel is to be torn down on what it reports.
    pub open spec fn tears_down(self, tunnel: u64, event: EventKind) -> bool {
        self.joins(tunnel, event) && self.superseded(tunnel)
    }

    /// The tunnels that are watched and have been ready.
    pub open spec fn live(self) -> Set<u64> {
        Set::new(|t: u64| self.calls.contains_key(t) && self.calls[t].entered)
    }

    /// The state after one input.
    pub open spec fn step(self, input: ClientInput) -> ClientState {
        match input {
            ClientInput::Placed(peer) => self.placed(peer),
            ClientInput::Tunnel(tunnel, event) => self.after(tunnel, event),
            ClientInput::CallEnded(_) => self,
            ClientInput::HangUp => ClientState { current: None, ..self },
            ClientInput::Foreground(_) => self,
            ClientInput::Report(_, _) => self,
        }
    }

    /// What one input makes the application hear of `tunnel`.
    pub open spec fn heard(self, input: ClientInput, tunnel: u64) -> Option<SessionEvent> {
        match input {
            ClientInput::Tunnel(t, event) => if t == tunnel {
                self.emits(t, event)
            } else {
                None
            },
            _ => None,
        }
    }

    /// What the driver is told when a tunnel reports something.
    pub open spec fn report(self, tunnel: u64, event: EventKind) -> SwitchInput {
        SwitchInput::Report(self.era, self.bump(tunnel, event))
    }

    /// What one input does to the switch.
    pub open spec fn step_switch(self, switch: Switch, input: ClientInput) -> Switch {
        match input {
            ClientInput::Tunnel(t, event) => switch.next(self.report(t, event)),
            ClientInput::Foreground(b) => switch.next(SwitchInput::Foreground(b)),
            ClientInput::Report(era, delta) => switch.next(SwitchInput::Report(era, delta)),
            _ => switch,
        }
    }

    /// The state after a run of inputs.
    pub open spec fn run(self, inputs: Seq<ClientInput>) -> ClientState
        decreases inputs.len(),
    {
        if inputs.len() == 0 {
            self
        } else {
            self.run(inputs.drop_last()).step(inputs.last())
        }
    }

    /// All that a run of inputs makes the application hear of `tunnel`.
    pub open spec fn story(self, inputs: Seq<ClientInput>, tunnel: u64) -> Seq<SessionEvent>
        decreases inputs.len(),
    {
        if inputs.len() == 0 {
            Seq::empty()
        } else {
            let before = self.story(inputs.drop_last(), tunnel);
            match self.run(inputs.drop_last()).heard(inputs.last(), tunnel) {
                Some(event) => before.push(event),
                None => before,
            }
        }
    }

    /// The change of the count that one input has reported on account of
    /// `tunnel`.
    pub open spec fn change(self, input: ClientInput, tunnel: u64) -> int {
        match input {
            ClientInput::Tunnel(t, event) => if t == tunnel {
                self.bump(t, event)
            } else {
                0
            },
            _ => 0,
        }
    }

    /// The sum of all changes that a run of inputs has reported on account of
    /// `tunnel`.
    pub open spec fn balance(self, inputs: Seq<ClientInput>, tunnel: u64) -> int
        decreases inputs.len(),
    {
        if inputs.len() == 0 {
            0
        } else {
            self.balance(inputs.drop_last(), tunnel) + self.run(inputs.drop_last()).change(
                inputs.last(),
                tunnel,
            )
        }
    }

    /// How often a run of inputs has `tunnel` counted up.
    pub open spec fn rises(self, inputs: Seq<ClientInput>, tunnel: u64) -> nat
        decreases inputs.len(),
    {
        if inputs.len() == 0 {
            0
        } else {
            self.rises(inputs.drop_last(), tunnel) + (if self.run(inputs.drop_last()).change(
                inputs.last(),
                tunnel,
            ) > 0 {
                1nat
            } else {
                0
            })
        }
    }

    /// Whom a run of inputs calls as `tunnel`, if anyone.
    pub open spec fn called(self, inputs: Seq<ClientInput>, tunnel: u64) -> Option<PeerId>
        decreases inputs.len(),
    {
        if inputs.len() == 0 {
            None
        } else {
            match inputs.last() {
                ClientInput::Placed(peer) if self.run(inputs.drop_last()).next == tunnel => Some(
                    peer,
                ),
                _ => self.called(inputs.drop_last(), tunnel),
            }
        }
    }

    /// The switch after a run of inputs.
    pub open spec fn run_switch(self, switch: Switch, inputs: Seq<ClientInput>) -> Switch
        decreases inputs.len(),
    {
        if inputs.len() == 0 {
            switch
        } else {
            self.run(inputs.drop_last()).step_switch(
                self.run_switch(switch, inputs.drop_last()),
                inputs.last(),
            )
        }
    }

    /// No run of these inputs numbers more tunnels than there are numbers.
    pub open spec fn has_room_for(self, inputs: Seq<ClientInput>) -> bool {
        self.next + inputs.len() < u64::MAX
    }
}

/// What to do about an event of a tunnel, in this order: tell the provider,
/// tear the tunnel down, tell the application; then stop watching it, if it is
/// over.
pub struct Reaction {
    pub push: Option<Intent>,
    pub disconnect: bool,
    pub emit: Option<SessionEvent>,
    pub over: bool,
}

/// Outgoing calls, one at a time.
pub struct ClientTunnelManager {
    current: Option<u64>,
    calls: HashMap<u64, Call>,
    next: u64,
    era: u64,
}

impl View for ClientTunnelManager {
    type V = ClientState;

    closed spec fn view(&self) -> ClientState {
        ClientState {
            current: self.current,
            calls: self.calls@,
            next: self.next,
            era: self.era,
        }
    }
}

impl ClientTunnelManager {
    pub open spec fn wf(&self) -> bool {
        self@.wf()
    }

    /// A manager without calls. The driver goes to client mode, and the
    /// provider is told what comes of that.
    pub fn new(driver: &mut ActivationDriver) -> (r: (ClientTunnelManager, Option<Intent>))
        requires
            old(driver).wf(),
        ensures
            r.0.wf(),
            r.0@ == ClientState::initial(final(driver)@.era),
            final(driver).wf(),
            final(driver)@ == old(driver)@.next(SwitchInput::SetMode(Mode::Client)),
            r.1 == old(driver)@.told(SwitchInput::SetMode(Mode::Client)),
    {
        let told = driver.set_mode(Mode::Client);
        let manager = ClientTunnelManager {
            current: None,
            calls: HashMap::new(),
            next: 0,
            era: driver.era(),
        };
        (manager, told)
    }

    /// Whether there is a number left for one more tunnel.
    pub fn can_place(&self) -> (b: bool)
        ensures
            b == (self@.next < u64::MAX),
    {
        self.next < u64::MAX
    }

    /// Takes the provider's answer to a call to `peer`. On a session the call
    /// is the one in progress from here on, under a number that no tunnel had
    /// before, and the call before it is to be torn down. An error changes
    /// nothing.
    pub fn place_call(
        &mut self,
        peer: PeerId,
        answer: Result<TransportSession, PlaceCallError>,
    ) -> (r: Result<JoinRoom, PlaceCallError>)
        requires
            old(self).wf(),
            answer is Ok ==> old(self)@.next < u64::MAX,
        ensures
            final(self).wf(),
            answer matches Ok(session) ==> r == Ok::<JoinRoom, PlaceCallError>(
                old(self)@.joining(session),
            ),
            match answer {
                Ok(session) => {
                    &&& final(self)@ == old(self)@.placed(peer)
                    &&& r == Ok::<JoinRoom, PlaceCallError>(
                        (JoinRoom {
                            tunnel: old(self)@.next,
                            url: session.url,
                            token: session.token,
                            replaced: old(self)@.current,
                        }),
                    )
                },
                Err(e) => {
                    &&& final(self)@ == old(self)@
                    &&& r == Err::<JoinRoom, PlaceCallError>(e)
                },
            },
    {
        match answer {
            Ok(session) => {
                let tunnel: u64 = self.next;
                let replaced = self.current;
                self.calls.insert(tunnel, Call { peer, entered: false });
                self.current = Some(tunnel);
                self.next = tunnel + 1;
                Ok(JoinRoom { tunnel, url: session.url, token: session.token, replaced })
            },
            Err(e) => Err(e),
        }
    }

    /// Takes an event of `tunnel`. A tunnel that is no longer watched is over.
    /// The driver counts the call only as long as its mode has not been set
    /// since this manager was made.
    pub fn on_tunnel_event(
        &mut self,
        driver: &mut ActivationDriver,
        tunnel: u64,
        event: EventKind,
    ) -> (r: Reaction)
        requires
            old(self).wf(),
            old(driver).wf(),
            event == EventKind::Connected ==> old(driver)@.active < i64::MAX,
        ensures
            final(self).wf(),
            final(driver).wf(),
            final(self)@ == old(self)@.after(tunnel, event),
            final(driver)@ == old(driver)@.next(old(self)@.report(tunnel, event)),
            r.push == old(driver)@.told(old(self)@.report(tunnel, event)),
            r.disconnect == (old(self)@.joins(tunnel, event) && old(self)@.superseded(tunnel)),
            r.disconnect == old(self)@.tears_down(tunnel, event),
            r.emit == old(self)@.emits(tunnel, event),
            r.over == !final(self)@.calls.contains_key(tunnel),
    {
        let is_current = match self.current {
            Some(t) => t == tunnel,
            None => false,
        };
        let ghost before = self@;
        match event {
            EventKind::Other => {
                let over = !self.calls.contains_key(&tunnel);
                Reaction { push: None, disconnect: false, emit: None, over }
            },
            EventKind::Connected => {
                let call = match self.calls.remove(&tunnel) {
                    Some(call) => call,
                    None => {
                        assert(self@ =~= before);
                        return Reaction { push: None, disconnect: false, emit: None, over: true };
                    },
                };
                if call.entered {
                    self.calls.insert(tunnel, call);
                    assert(self@ =~= before);
                    return Reaction { push: None, disconnect: false, emit: None, over: false };
                }
                if !is_current {
                    return Reaction { push: None, disconnect: true, emit: None, over: true };
                }
                let peer_id = call.peer.clone();
                self.calls.insert(tunnel, Call { peer: call.peer, entered: true });
                assert(self@ =~= before.after(tunnel, event));
                let push = driver.report_session(self.era, 1);
                Reaction {
                    push,
                    disconnect: false,
                    emit: Some(SessionEvent::Connected { peer_id, tunnel }),
                    over: false,
                }
            },
            EventKind::Disconnected => {
                let call = match self.calls.remove(&tunnel) {
                    Some(call) => call,
                    None => {
                        assert(self@ =~= before);
                        return Reaction { push: None, disconnect: false, emit: None, over: true };
                    },
                };
                if is_current {
                    self.current = None;
                }
                let push = if call.entered {
                    driver.report_session(self.era, -1)
                } else {
                    None
                };
                let emit = if is_current {
                    Some(close_call(call))
                } else {
                    None
                };
                Reaction { push, disconnect: false, emit, over: true }
            },
        }
    }

    /// Takes the provider's word that the call with `peer` ended, and says which
    /// tunnel to tear down. The tunnel's own `Disconnected` does the rest.
    pub fn on_ws_call_ended(&self, peer: &PeerId, reason: EndReason) -> (r: Option<u64>)
        requires
            self.wf(),
        ensures
            r == self@.call_ended(*peer),
    {
        match self.current {
            Some(tunnel) => match self.calls.get(&tunnel) {
                Some(call) => if call.peer == *peer && !call.entered {
                    Some(tunnel)
                } else {
                    None
                },
                None => None,
            },
            None => None,
        }
    }

    /// Gives the call in progress up, as when the manager goes away, and says
    /// which tunnel to tear down. The driver is left as it is.
    pub fn hang_up(&mut self) -> (r: Option<u64>)
        requires
            old(self).wf(),
        ensures
            final(self).wf(),
            final(self)@ == (ClientState { current: None, ..old(self)@ }),
            final(self)@ == old(self)@.step(ClientInput::HangUp),
            r == old(self)@.current,
    {
        let current = self.current;
        self.current = None;
        current
    }
}

/// A run keeps a state well formed, numbers only go up, it numbers no more tunnels
/// than it has inputs, and a manager stays in its era.
pub proof fn law_run_keeps_state_well_formed(state: ClientState, inputs: Seq<ClientInput>)
    requires
        state.wf(),
        state.has_room_for(inputs),
    ensures
        state.run(inputs).wf(),
        state.next <= state.run(inputs).next <= state.next + inputs.len(),
        state.run(inputs).era == state.era,
    decreases inputs.len(),
{
    if inputs.len() > 0 {
        law_run_keeps_state_well_formed(state, inputs.drop_last());
    }
}

/// One call at a time: a call that is placed is the one in progress, and the
/// one before it is not, whatever comes of its tunnel.
pub proof fn law_one_call_at_a_time(state: ClientState, peer: PeerId, old_tunnel: u64)
    requires
        state.wf(),
        state.next < u64::MAX,
        state.current == Some(old_tunnel),
    ensures
        state.placed(peer).wf(),
        state.placed(peer).current == Some(state.next),
        state.next != old_tunnel,
        state.placed(peer).superseded(old_tunnel),
{
}

/// Once a call has been replaced or given up, the application hears nothing of
/// its tunnel any more.
pub proof fn law_replaced_tunnels_are_silent(
    state: ClientState,
    inputs: Seq<ClientInput>,
    tunnel: u64,
)
    requires
        state.wf(),
        state.has_room_for(inputs),
        tunnel < state.next,
        state.superseded(tunnel),
    ensures
        state.run(inputs).superseded(tunnel),
        state.story(inputs, tunnel) == Seq::<SessionEvent>::empty(),
    decreases inputs.len(),
{
    if inputs.len() > 0 {
        law_replaced_tunnels_are_silent(state, inputs.drop_last(), tunnel);
        law_run_keeps_state_well_formed(state, inputs.drop_last());
    }
}

/// Whatever happens, what the application hears of one call is a session's
/// life with the peer that was called: `Connected` at most once, then at most
/// one `Disconnected`; or a single `Failed`.
pub proof fn law_a_call_has_one_life(state: ClientState, inputs: Seq<ClientInput>, tunnel: u64)
    requires
        state.wf(),
        state.has_room_for(inputs),
        tunnel >= state.next,
    ensures
        match state.called(inputs, tunnel) {
            Some(peer) => is_session_life(state.story(inputs, tunnel), peer, tunnel),
            None => state.story(inputs, tunnel) == Seq::<SessionEvent>::empty(),
        },
{
    lemma_story_so_far(state, inputs, tunnel);
}

/// How far the life of a call has come, read off the state.
proof fn lemma_story_so_far(state: ClientState, inputs: Seq<ClientInput>, tunnel: u64)
    requires
        state.wf(),
        state.has_room_for(inputs),
        tunnel >= state.next,
    ensures
        ({
            let end = state.run(inputs);
            let story = state.story(inputs, tunnel);
            &&& state.called(inputs, tunnel) is Some <==> tunnel < end.next
            &&& state.called(inputs, tunnel) is None ==> story == Seq::<SessionEvent>::empty()
            &&& state.called(inputs, tunnel) matches Some(peer) ==> {
                &&& is_session_life(story, peer, tunnel)
                &&& end.calls.contains_key(tunnel) ==> {
                    &&& end.calls[tunnel].peer == peer
                    &&& story == (if end.calls[tunnel].entered {
                        seq![SessionEvent::Connected { peer_id: peer, tunnel }]
                    } else {
                        Seq::empty()
                    })
                }
            }
        }),
    decreases inputs.len(),
{
    if inputs.len() > 0 {
        let rest = inputs.drop_last();
        lemma_story_so_far(state, rest, tunnel);
        law_run_keeps_state_well_formed(state, rest);
        let before = state.run(rest);
        let story = state.story(inputs, tunnel);
        match before.heard(inputs.last(), tunnel) {
            Some(SessionEvent::Connected { peer_id, .. }) => {
                assert(story =~= seq![SessionEvent::Connected { peer_id, tunnel }]);
            },
            Some(SessionEvent::Disconnected { peer_id }) => {
                assert(story =~= seq![
                    SessionEvent::Connected { peer_id, tunnel },
                    SessionEvent::Disconnected { peer_id },
                ]);
            },
            Some(SessionEvent::Failed { peer_id }) => {
                assert(story =~= seq![SessionEvent::Failed { peer_id }]);
            },
            None => {},
        }
    }
}

/// The driver is asked to count up on account of a call, by one, exactly when the
/// application hears its `Connected`, and to count down with every `Disconnected`
/// that the application hears. A call that was replaced while it was ready is
/// counted off in silence; nothing else is counted without a word.
pub proof fn law_a_call_is_counted_when_connected_is_told(
    state: ClientState,
    input: ClientInput,
    tunnel: u64,
)
    ensures
        -1 <= state.change(input, tunnel) <= 1,
        state.change(input, tunnel) == 1 <==> (state.heard(input, tunnel) matches Some(event)
            && event is Connected),
        (state.heard(input, tunnel) matches Some(event) && event is Disconnected)
            ==> state.change(input, tunnel) == -1,
        state.change(input, tunnel) == -1 && !state.superseded(tunnel) ==> (state.heard(
            input,
            tunnel,
        ) matches Some(event) && event is Disconnected),
{
}

/// Whatever happens, a call is counted up at most once, exactly if the
/// application hears its `Connected`, and the changes that are reported of it sum
/// to one while its tunnel is ready and watched. So once the tunnel is gone they
/// sum to zero, whether it was replaced or not.
pub proof fn law_a_calls_changes_cancel_out(
    state: ClientState,
    inputs: Seq<ClientInput>,
    tunnel: u64,
)
    requires
        state.wf(),
        state.has_room_for(inputs),
        tunnel >= state.next,
    ensures
        ({
            let end = state.run(inputs);
            let story = state.story(inputs, tunnel);
            &&& state.rises(inputs, tunnel) <= 1
            &&& state.rises(inputs, tunnel) == 1 <==> story.len() > 0 && story[0] is Connected
            &&& state.balance(inputs, tunnel) == (if end.calls.contains_key(tunnel)
                && end.calls[tunnel].entered {
                1int
            } else {
                0
            })
            &&& !end.calls.contains_key(tunnel) ==> state.balance(inputs, tunnel) == 0
        }),
    decreases inputs.len(),
{
    if inputs.len() > 0 {
        let rest = inputs.drop_last();
        law_a_calls_changes_cancel_out(state, rest, tunnel);
        law_run_keeps_state_well_formed(state, rest);
        lemma_story_so_far(state, rest, tunnel);
        law_a_call_is_counted_when_connected_is_told(state.run(rest), inputs.last(), tunnel);
    }
}

/// The count of live sessions is the number of tunnels that are watched and have
/// been ready, from the making of the manager until the mode is set again, and
/// whatever managers of other eras report in between. So the channel of a client
/// in the foreground is down while a call is up, no late end of a former call can
/// open it, and once all calls are gone the client has it back.
pub proof fn law_switch_counts_live_calls(state: ClientState, switch: Switch, inputs: Seq<ClientInput>)
    requires
        state.wf(),
        state.has_room_for(inputs),
        switch.settled(),
        switch.mode == Mode::Client,
        switch.era == state.era,
        switch.active == state.live().len(),
        forall|i: int|
            0 <= i < inputs.len() ==> (#[trigger] inputs[i] matches ClientInput::Report(era, _)
                ==> era != state.era),
    ensures
        ({
            let end = state.run_switch(switch, inputs);
            &&& end.settled()
            &&& end.mode == Mode::Client
            &&& end.era == state.era
            &&& end.active == state.run(inputs).live().len()
            &&& end.pushed == (end.foreground && state.run(inputs).live().len() == 0)
        }),
    decreases inputs.len(),
{
    lemma_live_is_finite(state);
    if inputs.len() > 0 {
        let rest = inputs.drop_last();
        assert forall|i: int| 0 <= i < rest.len() implies (
        #[trigger] rest[i] matches ClientInput::Report(era, _) ==> era != state.era) by {
            assert(rest[i] == inputs[i]);
        }
        assert(inputs.last() == inputs[inputs.len() - 1]);
        law_switch_counts_live_calls(state, switch, rest);
        law_run_keeps_state_well_formed(state, rest);
        lemma_step_counts(state.run(rest), state.run_switch(switch, rest), inputs.last());
    }
}

/// A new manager and the switch that it leaves meet what
/// [`law_switch_counts_live_calls`] asks for.
pub proof fn law_new_manager_counts_nothing(switch: Switch)
    ensures
        ({
            let after = switch.next(SwitchInput::SetMode(Mode::Client));
            let manager = ClientState::initial(after.era);
            &&& manager.wf()
            &&& manager.live().len() == 0
            &&& manager.era == after.era
            &&& after.active == 0
            &&& after.mode == Mode::Client
            &&& after.settled()
        }),
{
    assert(ClientState::initial(
        switch.next(SwitchInput::SetMode(Mode::Client)).era,
    ).live() =~= Set::<u64>::empty());
}

/// Once the mode has been set again a manager is a former one, and nothing that
/// its tunnels do reaches the switch any more, whatever the count: through any run
/// of calls, events and ends the switch stays as it is and the provider is told
/// nothing.
pub proof fn law_former_managers_have_no_say(
    state: ClientState,
    switch: Switch,
    since: Seq<SwitchInput>,
    inputs: Seq<ClientInput>,
    tunnel: u64,
    event: EventKind,
)
    requires
        switch.settled(),
        state.era == switch.era,
        0 < mode_changes(since) <= u64::MAX,
        forall|i: int|
            0 <= i < inputs.len() ==> !(#[trigger] inputs[i] is Foreground) && !(
            inputs[i] is Report),
    ensures
        ({
            let now = switch.run(since);
            &&& state.run_switch(now, inputs) == now
            &&& now.next(state.run(inputs).report(tunnel, event)) == now
            &&& now.told(state.run(inputs).report(tunnel, event)) is None
        }),
{
    law_a_mode_change_begins_a_new_era(switch, since);
    lemma_former_run(state, switch.run(since), inputs);
}

proof fn lemma_former_run(state: ClientState, switch: Switch, inputs: Seq<ClientInput>)
    requires
        state.era != switch.era,
        forall|i: int|
            0 <= i < inputs.len() ==> !(#[trigger] inputs[i] is Foreground) && !(
            inputs[i] is Report),
    ensures
        state.run_switch(switch, inputs) == switch,
        state.run(inputs).era == state.era,
    decreases inputs.len(),
{
    if inputs.len() > 0 {
        let rest = inputs.drop_last();
        assert forall|i: int| 0 <= i < rest.len() implies !(#[trigger] rest[i] is Foreground) && !(
        rest[i] is Report) by {
            assert(rest[i] == inputs[i]);
        }
        assert(inputs.last() == inputs[inputs.len() - 1]);
        lemma_former_run(state, switch, rest);
    }
}

proof fn lemma_live_is_finite(state: ClientState)
    requires
        state.wf(),
    ensures
        state.live().finite(),
{
    assert(state.live().subset_of(state.calls.dom()));
    vstd::set_lib::lemma_set_subset_finite(state.calls.dom(), state.live());
}

proof fn lemma_step_counts(state: ClientState, switch: Switch, input: ClientInput)
    requires
        state.wf(),
        state.next < u64::MAX,
        switch.settled(),
        switch.mode == Mode::Client,
        switch.era == state.era,
        switch.active == state.live().len(),
        input matches ClientInput::Report(era, _) ==> era != state.era,
    ensures
        state.step_switch(switch, input).settled(),
        state.step_switch(switch, input).mode == Mode::Client,
        state.step_switch(switch, input).era == state.step(input).era,
        state.step(input).era == state.era,
        state.step_switch(switch, input).active == state.step(input).live().len(),
{
    lemma_live_is_finite(state);
    let end = state.step(input);
    match input {
        ClientInput::Tunnel(t, event) => {
            if state.bump(t, event) == 1 {
                assert(end.live() =~= state.live().insert(t));
            } else if state.bump(t, event) == -1 {
                assert(end.live() =~= state.live().remove(t));
                assert(state.live().contains(t));
            } else {
                assert(end.live() =~= state.live());
            }
        },
        _ => {
            assert(end.live() =~= state.live());
        },
    }
}

/// Before the call is ready the provider's word counts: it has the tunnel torn
/// down, and when the tunnel is gone the application hears `Failed`.
pub proof fn law_call_ended_before_ready_fails(state: ClientState, tunnel: u64, peer: PeerId)
    requires
        state.wf(),
        state.current == Some(tunnel),
        !state.calls[tunnel].entered,
        state.calls[tunnel].peer@ == peer@,
    ensures
        state.call_ended(peer) == Some(tunnel),
        state.step(ClientInput::CallEnded(peer)) == state,
        state.emits(tunnel, EventKind::Disconnected) == Some(
            SessionEvent::Failed { peer_id: state.calls[tunnel].peer },
        ),
{
}

/// Once the call is ready the provider's word counts for nothing: no tunnel is
/// torn down on it, whichever peer it names, and what the application hears of
/// the tunnel afterwards comes from the transport.
pub proof fn law_call_ended_after_ready_is_ignored(state: ClientState, tunnel: u64, peer: PeerId)
    requires
        state.wf(),
        state.current == Some(tunnel),
        state.calls[tunnel].entered,
    ensures
        state.call_ended(peer) is None,
        state.step(ClientInput::CallEnded(peer)) == state,
        state.emits(tunnel, EventKind::Disconnected) == Some(
            SessionEvent::Disconnected { peer_id: state.calls[tunnel].peer },
        ),
{
}

/// The provider's word tears down only the dial that it is about: a tunnel is torn
/// down exactly if it is that of the call in progress, that call is with the peer
/// that the word names, and it has not been ready. Of any other peer, and with no
/// call in progress, the word is ignored.
pub proof fn law_call_ended_spares_other_peers(state: ClientState, peer: PeerId, tunnel: u64)
    ensures
        state.call_ended(peer) == Some(tunnel) <==> {
            &&& state.current == Some(tunnel)
            &&& state.calls[tunnel].peer@ == peer@
            &&& !state.calls[tunnel].entered
        },
        state.current == Some(tunnel) && state.calls[tunnel].peer@ != peer@ ==> state.call_ended(
            peer,
        ) is None,
        state.current is None ==> state.call_ended(peer) is None,
{
}

/// After a second call the provider's word on the first peer no longer tears
/// anything down, unless the second call is with that peer too; its word on the
/// second peer does, until that call is ready.
pub proof fn law_call_ended_follows_the_call_in_progress(
    state: ClientState,
    first: PeerId,
    second: PeerId,
)
    requires
        state.wf(),
        state.next < u64::MAX - 1,
        first@ != second@,
    ensures
        state.placed(first).placed(second).call_ended(first) is None,
        state.placed(first).placed(second).call_ended(second) == Some((state.next + 1) as u64),
        state.placed(first).placed(second).after(
            (state.next + 1) as u64,
            EventKind::Connected,
        ).call_ended(second) is None,
{
}

/// A call that is placed is watched under a new number, as one with its peer that
/// has not been ready, and it is the one in progress. Every other tunnel stays
/// watched as it was.
pub proof fn law_placing_adds_one_call(state: ClientState, peer: PeerId, other: u64)
    requires
        state.wf(),
        state.next < u64::MAX,
    ensures
        ({
            let end = state.placed(peer);
            &&& !state.calls.contains_key(state.next)
            &&& end.calls.contains_key(state.next)
            &&& end.calls[state.next].peer == peer
            &&& !end.calls[state.next].entered
            &&& end.current == Some(state.next)
            &&& end.next == state.next + 1
            &&& end.era == state.era
            &&& other != state.next ==> {
                &&& end.calls.contains_key(other) == state.calls.contains_key(other)
                &&& end.calls[other] == state.calls[other]
            }
        }),
{
}

/// An event of a tunnel leaves every other tunnel as it was: watched or not, ready
/// or not, in progress or not. It numbers none and leaves the era.
pub proof fn law_an_event_touches_its_own_tunnel_alone(
    state: ClientState,
    tunnel: u64,
    event: EventKind,
    other: u64,
)
    requires
        other != tunnel,
    ensures
        ({
            let end = state.after(tunnel, event);
            &&& end.calls.contains_key(other) == state.calls.contains_key(other)
            &&& end.calls[other] == state.calls[other]
            &&& end.current == Some(other) <==> state.current == Some(other)
            &&& end.next == state.next
            &&& end.era == state.era
        }),
{
}

/// A call in progress whose tunnel becomes ready is in progress still, now as one
/// that has been ready, with the same peer. The application hears of it with that
/// peer and that tunnel, and the driver counts one up.
pub proof fn law_the_call_in_progress_becomes_ready(state: ClientState, tunnel: u64)
    requires
        state.current == Some(tunnel),
        state.calls.contains_key(tunnel),
        !state.calls[tunnel].entered,
    ensures
        ({
            let end = state.after(tunnel, EventKind::Connected);
            &&& end.current == Some(tunnel)
            &&& end.calls.contains_key(tunnel)
            &&& end.calls[tunnel].entered
            &&& end.calls[tunnel].peer == state.calls[tunnel].peer
            &&& state.emits(tunnel, EventKind::Connected) == Some(
                SessionEvent::Connected { peer_id: state.calls[tunnel].peer, tunnel },
            )
            &&& state.bump(tunnel, EventKind::Connected) == 1
            &&& !state.superseded(tunnel)
        }),
{
}

/// A replaced call whose tunnel becomes ready after all is torn down without a
/// word: it is watched no longer, nobody hears of it, nothing is counted, and the
/// call in progress stays the one in progress.
pub proof fn law_a_replaced_call_is_dropped_when_it_becomes_ready(state: ClientState, tunnel: u64)
    requires
        state.current != Some(tunnel),
        state.calls.contains_key(tunnel),
        !state.calls[tunnel].entered,
    ensures
        ({
            let end = state.after(tunnel, EventKind::Connected);
            &&& end.current == state.current
            &&& !end.calls.contains_key(tunnel)
            &&& state.emits(tunnel, EventKind::Connected) is None
            &&& state.bump(tunnel, EventKind::Connected) == 0
            &&& state.joins(tunnel, EventKind::Connected) && state.superseded(tunnel)
        }),
{
}

/// A tunnel that is gone is watched no longer, and if its call was in progress no
/// call is. Only of the call in progress does the application hear, as disconnected
/// if it was ready and as failed if not; and one is counted off exactly if the
/// tunnel was ready, replaced or not.
pub proof fn law_a_tunnel_that_is_gone_is_let_go(state: ClientState, tunnel: u64)
    requires
        state.calls.contains_key(tunnel),
    ensures
        ({
            let end = state.after(tunnel, EventKind::Disconnected);
            let call = state.calls[tunnel];
            let current = state.current == Some(tunnel);
            let heard = state.emits(tunnel, EventKind::Disconnected);
            &&& !end.calls.contains_key(tunnel)
            &&& current ==> end.current is None
            &&& !current ==> end.current == state.current
            &&& current && call.entered ==> heard == Some(
                SessionEvent::Disconnected { peer_id: call.peer },
            )
            &&& current && !call.entered ==> heard == Some(
                SessionEvent::Failed { peer_id: call.peer },
            )
            &&& !current ==> heard is None
            &&& call.entered ==> state.bump(tunnel, EventKind::Disconnected) == -1
            &&& !call.entered ==> state.bump(tunnel, EventKind::Disconnected) == 0
            &&& !state.joins(tunnel, EventKind::Disconnected)
        }),
{
}

/// Anything else that a tunnel reports is passed over: an event of a tunnel that is
/// not watched, a second `Connected`, and every kind that no manager acts on.
pub proof fn law_other_events_change_nothing(state: ClientState, tunnel: u64, event: EventKind)
    requires
        !state.calls.contains_key(tunnel) || event == EventKind::Other || (event
            == EventKind::Connected && state.calls[tunnel].entered),
    ensures
        state.after(tunnel, event) == state,
        state.emits(tunnel, event) is None,
        state.bump(tunnel, event) == 0,
        !state.joins(tunnel, event),
{
}

/// What a manager reports reaches a driver that is still in its era in full: a call
/// that becomes ready raises the count by one, and the end of one that was ready
/// lowers it by one.
pub proof fn law_the_manager_in_charge_is_counted(
    state: ClientState,
    switch: Switch,
    tunnel: u64,
    event: EventKind,
)
    requires
        state.era == switch.era,
        switch.active + state.bump(tunnel, event) >= 0,
    ensures
        switch.next(state.report(tunnel, event)).active == switch.active + state.bump(
            tunnel,
            event,
        ),
        switch.next(state.report(tunnel, event)).foreground == switch.foreground,
        switch.next(state.report(tunnel, event)).mode == switch.mode,
{
}

/// A new manager has no call and has numbered none.
pub proof fn law_a_new_manager_has_no_call(era: u64, tunnel: u64)
    ensures
        ClientState::initial(era).current is None,
        !ClientState::initial(era).calls.contains_key(tunnel),
        ClientState::initial(era).next == 0,
        ClientState::initial(era).era == era,
{
}

/// A run is its inputs one after the other: it can be cut anywhere, and what the
/// application hears of a tunnel is what it hears in both parts. Giving the call in
/// progress up changes nothing else.
pub proof fn law_runs_of_calls_compose(
    state: ClientState,
    first: Seq<ClientInput>,
    second: Seq<ClientInput>,
    tunnel: u64,
)
    ensures
        state.run(first + second) == state.run(first).run(second),
        state.story(first + second, tunnel) == state.story(first, tunnel) + state.run(first).story(
            second,
            tunnel,
        ),
        state.step(ClientInput::HangUp).calls == state.calls,
        state.step(ClientInput::HangUp).next == state.next,
        state.step(ClientInput::HangUp).current is None,
    decreases second.len(),
{
    if second.len() == 0 {
        assert(first + second =~= first);
        assert(state.story(first, tunnel) + Seq::<SessionEvent>::empty() =~= state.story(
            first,
            tunnel,
        ));
    } else {
        assert((first + second).drop_last() =~= first + second.drop_last());
        assert((first + second).last() == second.last());
        law_runs_of_calls_compose(state, first, second.drop_last(), tunnel);
        assert(state.story(first + second, tunnel) =~= state.story(first, tunnel) + state.run(
            first,
        ).story(second, tunnel));
    }
}

/// A call joins the room of its own session, with the session's own token, under the
/// number that it is watched by from then on; and the tunnel to be torn down for it is
/// that of the call in progress until then, if there was one, which is another.
pub proof fn law_a_call_joins_its_own_room(
    state: ClientState,
    peer: PeerId,
    session: TransportSession,
)
    requires
        state.wf(),
        state.next < u64::MAX,
    ensures
        ({
            let join = state.joining(session);
            &&& join.url == session.url
            &&& join.token == session.token
            &&& state.placed(peer).current == Some(join.tunnel)
            &&& !state.calls.contains_key(join.tunnel)
            &&& join.replaced == state.current
            &&& join.replaced != Some(join.tunnel)
        }),
{
}

/// The only tunnel that is torn down on what it reports is one that becomes ready
/// after its call was replaced or given up.
pub proof fn law_only_late_tunnels_are_torn_down(
    state: ClientState,
    tunnel: u64,
    event: EventKind,
)
    ensures
        state.tears_down(tunnel, event) <==> {
            &&& state.calls.contains_key(tunnel)
            &&& event == EventKind::Connected
            &&& !state.calls[tunnel].entered
            &&& state.current != Some(tunnel)
        },
{
}

/// Giving the call in progress up leaves its tunnel watched, and from then on that
/// tunnel is treated as a replaced one: nothing is heard of it, and it is torn down
/// should it become ready.
pub proof fn law_a_call_given_up_is_silent(state: ClientState, tunnel: u64, event: EventKind)
    requires
        state.wf(),
        state.current == Some(tunnel),
    ensures
        ({
            let end = state.step(ClientInput::HangUp);
            &&& end.wf()
            &&& end.current is None
            &&& end.calls == state.calls
            &&& end.next == state.next
            &&& end.era == state.era
            &&& end.emits(tunnel, event) is None
            &&& !state.calls[tunnel].entered ==> end.tears_down(tunnel, EventKind::Connected)
        }),
{
}

} // verus!
