//! One run of client mode, from the peer to call to the end of the session.
//!
//! [`ClientRun`] says what to do next, and [`ClientRun::step`] takes what came
//! of it.
use crate::peer::PeerId;
use crate::session::SessionEvent;
use crate::signaling::PlaceCallError;
use vstd::prelude::*;

verus! {

/// Why a run of client mode failed.
pub enum ClientError {
    /// The provider does not know the peer.
    UnknownPeer,
    /// The call could not be placed.
    Call(PlaceCallError),
    /// The tunnel never became ready.
    FailedToConnect,
    /// The tunnel was gone before it was ready.
    EndedBeforeReady,
    /// The manager has no more to say.
    StreamClosed,
    /// The SOCKS5 listener could not be started.
    Socks(String),
}

impl ClientError {
    /// The message for each error.
    pub open spec fn text(&self) -> Seq<char> {
        match self {
            ClientError::UnknownPeer => "client: unknown peer (resolve_peer returned None)"@,
            ClientError::Call(PlaceCallError::Rejected) => "call rejected by peer"@,
            ClientError::Call(PlaceCallError::NoPeer) => "peer never joined (timeout)"@,
            ClientError::Call(PlaceCallError::NotAuthenticated) => "not authenticated"@,
            ClientError::Call(PlaceCallError::Transport(cause)) => "transport: "@ + cause@,
            ClientError::FailedToConnect => "LK failed to connect"@,
            ClientError::EndedBeforeReady => "LK disconnected before connect"@,
            ClientError::StreamClosed => "manager events stream closed"@,
            ClientError::Socks(cause) => cause@,
        }
    }

    /// The message to display.
    pub fn to_display(&self) -> (s: String)
        ensures
            s@ == self.text(),
    {
        match self {
            ClientError::UnknownPeer =>
                "client: unknown peer (resolve_peer returned None)".to_owned(),
            ClientError::Call(error) => match error {
                PlaceCallError::Rejected => "call rejected by peer".to_owned(),
                PlaceCallError::NoPeer => "peer never joined (timeout)".to_owned(),
                PlaceCallError::NotAuthenticated => "not authenticated".to_owned(),
                PlaceCallError::Transport(cause) => "transport: ".to_owned().concat(cause.as_str()),
            },
            ClientError::FailedToConnect => "LK failed to connect".to_owned(),
            ClientError::EndedBeforeReady => "LK disconnected before connect".to_owned(),
            ClientError::StreamClosed => "manager events stream closed".to_owned(),
            ClientError::Socks(cause) => cause.clone(),
        }
    }
}

/// What to do next.
pub enum ClientRun {
    /// There is nobody to call. Wait for the user to choose a peer: this run
    /// has no end of its own.
    Idle,
    /// Ask the provider for the peer of this string form.
    Resolve { peer_id: String },
    /// Start a manager, subscribe to its events, then place the call.
    Place { peer: PeerId },
    /// Take the manager's next event.
    AwaitReady { peer: PeerId },
    /// Watch the manager's events for the end of the session from here on.
    Watch { peer: PeerId, tunnel: u64 },
    /// Start the SOCKS5 listener on the configured port.
    EnableSocks { tunnel: u64 },
    /// Open the TUN device. The listener is on `port`.
    OpenTun { tunnel: u64, port: u16 },
    /// Attach the device to the tunnel.
    AttachTun { tunnel: u64, port: u16 },
    /// Show the session to the user.
    Publish { tunnel: u64, port: u16 },
    /// Wait for the end of the session.
    AwaitEnd,
    /// Take the session from the user's sight.
    Clear,
    /// The run is over.
    Done { outcome: Result<(), ClientError> },
}

/// What came of it.
pub enum ClientEvent {
    Resolved(Option<PeerId>),
    Placed(Result<(), PlaceCallError>),
    /// The manager's next event; none when there will be no more.
    Session(Option<SessionEvent>),
    Watching,
    /// The port that the listener is bound to.
    SocksBound(Result<u16, String>),
    TunOpened { ok: bool },
    TunAttached { ok: bool },
    Published,
    Ended,
    Cleared,
}

/// The peer that an event is about.
pub open spec fn peer_of(event: SessionEvent) -> PeerId {
    match event {
        SessionEvent::Connected { peer_id, .. } => peer_id,
        SessionEvent::Disconnected { peer_id } => peer_id,
        SessionEvent::Failed { peer_id } => peer_id,
    }
}

/// Whether an event is the end of the session with `peer`.
pub open spec fn is_end_of(event: SessionEvent, peer: PeerId) -> bool {
    event is Disconnected && peer_of(event)@ == peer@
}

/// Whether an event is the end of the session with `peer`.
pub fn ends_session(event: &SessionEvent, peer: &PeerId) -> (b: bool)
    ensures
        b == (event is Disconnected && peer_of(*event)@ == peer@),
        b == is_end_of(*event, *peer),
{
    match event {
        SessionEvent::Disconnected { peer_id } => *peer_id == *peer,
        _ => false,
    }
}

impl ClientRun {
    /// What can come of what there is to do.
    pub open spec fn expects(self, event: ClientEvent) -> bool {
        match self {
            ClientRun::Idle => false,
            ClientRun::Resolve { .. } => event is Resolved,
            ClientRun::Place { .. } => event is Placed,
            ClientRun::AwaitReady { .. } => event is Session,
            ClientRun::Watch { .. } => event is Watching,
            ClientRun::EnableSocks { .. } => event is SocksBound,
            ClientRun::OpenTun { .. } => event is TunOpened,
            ClientRun::AttachTun { .. } => event is TunAttached,
            ClientRun::Publish { .. } => event is Published,
            ClientRun::AwaitEnd => event is Ended,
            ClientRun::Clear => event is Cleared,
            ClientRun::Done { .. } => false,
        }
    }

    /// The run ends with an error.
    pub open spec fn failed(error: ClientError) -> ClientRun {
        ClientRun::Done { outcome: Err(error) }
    }

    /// What a run that waits for `peer` does about the manager's next event.
    /// Events of other peers are passed over.
    pub open spec fn on_session(peer: PeerId, event: Option<SessionEvent>) -> ClientRun {
        match event {
            None => Self::failed(ClientError::StreamClosed),
            Some(e) => if peer_of(e)@ != peer@ {
                ClientRun::AwaitReady { peer }
            } else {
                match e {
                    SessionEvent::Connected { tunnel, .. } => ClientRun::Watch { peer, tunnel },
                    SessionEvent::Failed { .. } => Self::failed(ClientError::FailedToConnect),
                    SessionEvent::Disconnected { .. } => Self::failed(
                        ClientError::EndedBeforeReady,
                    ),
                }
            },
        }
    }

    /// What to do after each event. `with_tun` says whether the session gets a
    /// TUN device besides the listener.
    pub open spec fn next(self, with_tun: bool, event: ClientEvent) -> ClientRun {
        match (self, event) {
            (ClientRun::Resolve { .. }, ClientEvent::Resolved(Some(peer))) => ClientRun::Place {
                peer,
            },
            (ClientRun::Resolve { .. }, _) => Self::failed(ClientError::UnknownPeer),
            (ClientRun::Place { .. }, ClientEvent::Placed(Err(e))) => Self::failed(
                ClientError::Call(e),
            ),
            (ClientRun::Place { peer }, _) => ClientRun::AwaitReady { peer },
            (ClientRun::AwaitReady { peer }, ClientEvent::Session(e)) => Self::on_session(peer, e),
            (ClientRun::Watch { tunnel, .. }, _) => ClientRun::EnableSocks { tunnel },
            (ClientRun::EnableSocks { tunnel }, ClientEvent::SocksBound(Ok(port))) => if with_tun {
                ClientRun::OpenTun { tunnel, port }
            } else {
                ClientRun::Publish { tunnel, port }
            },
            (ClientRun::EnableSocks { .. }, ClientEvent::SocksBound(Err(cause))) => Self::failed(
                ClientError::Socks(cause),
            ),
            (ClientRun::OpenTun { tunnel, port }, ClientEvent::TunOpened { ok: true }) =>
                ClientRun::AttachTun { tunnel, port },
            (ClientRun::OpenTun { tunnel, port }, _) => ClientRun::Publish { tunnel, port },
            (ClientRun::AttachTun { tunnel, port }, _) => ClientRun::Publish { tunnel, port },
            (ClientRun::Publish { .. }, _) => ClientRun::AwaitEnd,
            (ClientRun::AwaitEnd, _) => ClientRun::Clear,
            (ClientRun::Clear, _) => ClientRun::Done { outcome: Ok(()) },
            (other, _) => other,
        }
    }

    /// The start of a run to call `peer_id`.
    pub fn new(peer_id: Option<String>) -> (r: ClientRun)
        ensures
            r == match peer_id {
                Some(peer_id) => ClientRun::Resolve { peer_id },
                None => ClientRun::Idle,
            },
    {
        match peer_id {
            Some(peer_id) => ClientRun::Resolve { peer_id },
            None => ClientRun::Idle,
        }
    }

    /// Takes what came of what there was to do.
    pub fn step(self, with_tun: bool, event: ClientEvent) -> (r: ClientRun)
        requires
            self.expects(event),
        ensures
            r == self.next(with_tun, event),
    {
        match self {
            ClientRun::Idle => ClientRun::Idle,
            ClientRun::Resolve { .. } => match event {
                ClientEvent::Resolved(Some(peer)) => ClientRun::Place { peer },
                _ => ClientRun::Done { outcome: Err(ClientError::UnknownPeer) },
            },
            ClientRun::Place { peer } => match event {
                ClientEvent::Placed(Err(e)) => ClientRun::Done {
                    outcome: Err(ClientError::Call(e)),
                },
                _ => ClientRun::AwaitReady { peer },
            },
            ClientRun::AwaitReady { peer } => match event {
                ClientEvent::Session(Some(SessionEvent::Connected { peer_id, tunnel })) => {
                    if peer_id == peer {
                        ClientRun::Watch { peer, tunnel }
                    } else {
                        ClientRun::AwaitReady { peer }
                    }
                },
                ClientEvent::Session(Some(SessionEvent::Failed { peer_id })) => {
                    if peer_id == peer {
                        ClientRun::Done { outcome: Err(ClientError::FailedToConnect) }
                    } else {
                        ClientRun::AwaitReady { peer }
                    }
                },
                ClientEvent::Session(Some(SessionEvent::Disconnected { peer_id })) => {
                    if peer_id == peer {
                        ClientRun::Done { outcome: Err(ClientError::EndedBeforeReady) }
                    } else {
                        ClientRun::AwaitReady { peer }
                    }
                },
                _ => ClientRun::Done { outcome: Err(ClientError::StreamClosed) },
            },
            ClientRun::Watch { tunnel, .. } => ClientRun::EnableSocks { tunnel },
            ClientRun::EnableSocks { tunnel } => match event {
                ClientEvent::SocksBound(Ok(port)) => if with_tun {
                    ClientRun::OpenTun { tunnel, port }
                } else {
                    ClientRun::Publish { tunnel, port }
                },
                ClientEvent::SocksBound(Err(cause)) => ClientRun::Done {
                    outcome: Err(ClientError::Socks(cause)),
                },
                _ => ClientRun::EnableSocks { tunnel },
            },
            ClientRun::OpenTun { tunnel, port } => match event {
                ClientEvent::TunOpened { ok: true } => ClientRun::AttachTun { tunnel, port },
                _ => ClientRun::Publish { tunnel, port },
            },
            ClientRun::AttachTun { tunnel, port } => ClientRun::Publish { tunnel, port },
            ClientRun::Publish { .. } => ClientRun::AwaitEnd,
            ClientRun::AwaitEnd => ClientRun::Clear,
            ClientRun::Clear => ClientRun::Done { outcome: Ok(()) },
            ClientRun::Done { outcome } => ClientRun::Done { outcome },
        }
    }
}

/// Whether a client opens a TUN device: where it is asked to and the system has
/// them.
pub fn wants_tun(client_tun: bool, unix: bool) -> (b: bool)
    ensures
        b == (client_tun && unix),
{
    client_tun && unix
}

/// Events of other peers do not touch a run.
pub proof fn law_other_peers_are_passed_over(
    peer: PeerId,
    with_tun: bool,
    event: SessionEvent,
)
    requires
        peer_of(event)@ != peer@,
    ensures
        (ClientRun::AwaitReady { peer }).next(with_tun, ClientEvent::Session(Some(event))) == (
        ClientRun::AwaitReady { peer }),
{
}

/// A session is set up only on the `Connected` of the peer that was called, and
/// with the tunnel that it names.
pub proof fn law_a_session_is_set_up_when_ready(
    run: ClientRun,
    with_tun: bool,
    event: ClientEvent,
    peer: PeerId,
    tunnel: u64,
)
    requires
        run.expects(event),
        run.next(with_tun, event) == (ClientRun::Watch { peer, tunnel }),
    ensures
        run == (ClientRun::AwaitReady { peer }),
        event matches ClientEvent::Session(Some(SessionEvent::Connected { peer_id, tunnel: t }))
            && peer_id@ == peer@ && t == tunnel,
{
}

/// A TUN device that cannot be had is no reason to give up: the session goes on
/// with its listener.
pub proof fn law_a_missing_tun_is_no_failure(run: ClientRun, with_tun: bool, event: ClientEvent)
    requires
        run.expects(event),
        run is OpenTun || run is AttachTun,
    ensures
        run.next(with_tun, event) is AttachTun || run.next(with_tun, event) is Publish,
{
}

/// A run ends well only after a session that was shown to the user has been
/// taken from their sight, and it fails only before it was shown.
pub proof fn law_a_shown_session_is_cleared(run: ClientRun, with_tun: bool, event: ClientEvent)
    requires
        run.expects(event),
        run.next(with_tun, event) is Done,
    ensures
        run.next(with_tun, event) == (ClientRun::Done { outcome: Ok(()) }) <==> run is Clear,
        !(run is Clear) ==> run is Resolve || run is Place || run is AwaitReady
            || run is EnableSocks,
{
}

/// An event is about the peer that it names.
pub proof fn law_an_event_is_about_the_peer_it_names(peer: PeerId, tunnel: u64)
    ensures
        peer_of(SessionEvent::Connected { peer_id: peer, tunnel }) == peer,
        peer_of(SessionEvent::Disconnected { peer_id: peer }) == peer,
        peer_of(SessionEvent::Failed { peer_id: peer }) == peer,
{
}

/// The peer that is called is the one that the provider found, and where it found
/// none nobody is called. A call that could not be placed ends the run with the
/// provider's own error.
pub proof fn law_the_peer_found_is_called(
    run: ClientRun,
    with_tun: bool,
    event: ClientEvent,
    peer: PeerId,
    error: PlaceCallError,
)
    requires
        run.expects(event),
    ensures
        run.next(with_tun, event) == (ClientRun::Place { peer }) <==> run is Resolve && event
            == ClientEvent::Resolved(Some(peer)),
        run.next(with_tun, event) == (ClientRun::Done { outcome: Err(ClientError::UnknownPeer) })
            <==> run is Resolve && event == ClientEvent::Resolved(None),
        run.next(with_tun, event) == (ClientRun::Done { outcome: Err(ClientError::Call(error)) })
            <==> run is Place && event == ClientEvent::Placed(Err(error)),
        !(run.next(with_tun, event) is Resolve),
        !(run.next(with_tun, event) is Idle),
{
}

/// A run waits for the peer that it called from the moment the call is placed, and
/// goes on waiting through whatever it hears of others. What it hears of that peer
/// ends the wait: ready, the session is set up with the tunnel that was named, and
/// failed or gone, the run fails. So it does when there is no more to hear.
pub proof fn law_the_wait_is_for_the_peer_called(
    run: ClientRun,
    with_tun: bool,
    event: ClientEvent,
    peer: PeerId,
    tunnel: u64,
)
    requires
        run.expects(event),
    ensures
        run.next(with_tun, event) == (ClientRun::AwaitReady { peer }) <==> {
            ||| run == (ClientRun::Place { peer }) && (event matches ClientEvent::Placed(Ok(_)))
            ||| run == (ClientRun::AwaitReady { peer }) && {
                ||| event matches ClientEvent::Session(Some(SessionEvent::Connected { peer_id, .. }))
                    && peer_id@ != peer@
                ||| event matches ClientEvent::Session(Some(SessionEvent::Disconnected { peer_id }))
                    && peer_id@ != peer@
                ||| event matches ClientEvent::Session(Some(SessionEvent::Failed { peer_id }))
                    && peer_id@ != peer@
            }
        },
        run.next(with_tun, event) == (ClientRun::Watch { peer, tunnel }) <==> run
            == (ClientRun::AwaitReady { peer }) && (event matches ClientEvent::Session(
            Some(SessionEvent::Connected { peer_id, tunnel: t }),
        ) && peer_id@ == peer@ && t == tunnel),
        run == (ClientRun::AwaitReady { peer }) ==> {
            &&& run.next(with_tun, event) == (ClientRun::Done {
                outcome: Err(ClientError::FailedToConnect),
            }) <==> (event matches ClientEvent::Session(Some(SessionEvent::Failed { peer_id }))
                && peer_id@ == peer@)
            &&& run.next(with_tun, event) == (ClientRun::Done {
                outcome: Err(ClientError::EndedBeforeReady),
            }) <==> (event matches ClientEvent::Session(
                Some(SessionEvent::Disconnected { peer_id }),
            ) && peer_id@ == peer@)
            &&& run.next(with_tun, event) == (ClientRun::Done {
                outcome: Err(ClientError::StreamClosed),
            }) <==> event == ClientEvent::Session(None)
        },
        !(run is AwaitReady) ==> {
            &&& run.next(with_tun, event) != (ClientRun::Done {
                outcome: Err(ClientError::FailedToConnect),
            })
            &&& run.next(with_tun, event) != (ClientRun::Done {
                outcome: Err(ClientError::EndedBeforeReady),
            })
            &&& run.next(with_tun, event) != (ClientRun::Done {
                outcome: Err(ClientError::StreamClosed),
            })
        },
{
}

/// A session that is ready is watched before anything is set up on it, then gets its
/// listener, then a TUN device exactly where one is wanted, and is then shown with
/// the port that the listener is bound to. Tunnel and port stay the same throughout.
/// A listener that cannot be had ends the run with the system's own words.
pub proof fn law_a_session_is_set_up_step_by_step(
    run: ClientRun,
    with_tun: bool,
    event: ClientEvent,
    tunnel: u64,
    port: u16,
    cause: String,
)
    requires
        run.expects(event),
    ensures
        run.next(with_tun, event) == (ClientRun::EnableSocks { tunnel }) <==> (
        run matches ClientRun::Watch { tunnel: t, .. } && t == tunnel),
        run.next(with_tun, event) == (ClientRun::OpenTun { tunnel, port }) <==> with_tun && run
            == (ClientRun::EnableSocks { tunnel }) && event == ClientEvent::SocksBound(Ok(port)),
        run.next(with_tun, event) == (ClientRun::AttachTun { tunnel, port }) <==> run
            == (ClientRun::OpenTun { tunnel, port }) && event == (ClientEvent::TunOpened {
            ok: true,
        }),
        run.next(with_tun, event) == (ClientRun::Publish { tunnel, port }) <==> {
            ||| !with_tun && run == (ClientRun::EnableSocks { tunnel }) && event
                == ClientEvent::SocksBound(Ok(port))
            ||| run == (ClientRun::OpenTun { tunnel, port }) && event == (ClientEvent::TunOpened {
                ok: false,
            })
            ||| run == (ClientRun::AttachTun { tunnel, port })
        },
        run.next(with_tun, event) == (ClientRun::Done { outcome: Err(ClientError::Socks(cause)) })
            <==> run is EnableSocks && event == ClientEvent::SocksBound(Err(cause)),
{
}

/// A session that is shown stays until it has ended, then it is taken from sight, and
/// only then is the run over, and well.
pub proof fn law_a_session_is_shown_until_it_ends(
    run: ClientRun,
    with_tun: bool,
    event: ClientEvent,
)
    requires
        run.expects(event),
    ensures
        run.next(with_tun, event) == ClientRun::AwaitEnd <==> run is Publish && event
            == ClientEvent::Published,
        run.next(with_tun, event) == ClientRun::Clear <==> run == ClientRun::AwaitEnd && event
            == ClientEvent::Ended,
        run.next(with_tun, event) == (ClientRun::Done { outcome: Ok(()) }) <==> run
            == ClientRun::Clear && event == ClientEvent::Cleared,
{
}

/// Each thing there is to do has its own outcome. A run with nobody to call has none,
/// and neither has one that is over.
pub proof fn law_each_step_of_a_client_has_its_outcome(run: ClientRun, event: ClientEvent)
    ensures
        run.expects(event) <==> {
            ||| run is Resolve && event is Resolved
            ||| run is Place && event is Placed
            ||| run is AwaitReady && event is Session
            ||| run is Watch && event is Watching
            ||| run is EnableSocks && event is SocksBound
            ||| run is OpenTun && event is TunOpened
            ||| run is AttachTun && event is TunAttached
            ||| run is Publish && event is Published
            ||| run is AwaitEnd && event is Ended
            ||| run is Clear && event is Cleared
        },
{
}

/// A message names its cause where there is one: the transport's words follow their
/// heading, and those of the listener stand by themselves.
pub proof fn law_messages_of_a_client_name_their_cause(cause: String)
    ensures
        ClientError::Call(PlaceCallError::Transport(cause)).text() == "transport: "@ + cause@,
        ClientError::Socks(cause).text() == cause@,
{
}

/// A session ends with the `Disconnected` of its own peer, whatever is heard of others,
/// and with nothing else that is heard of that peer.
pub proof fn law_a_session_ends_by_its_own_peer(peer: PeerId, other: PeerId, tunnel: u64)
    ensures
        is_end_of(SessionEvent::Disconnected { peer_id: other }, peer) <==> other@ == peer@,
        !is_end_of(SessionEvent::Connected { peer_id: other, tunnel }, peer),
        !is_end_of(SessionEvent::Failed { peer_id: other }, peer),
{
}

} // verus!
