//! The vocabulary shared by a signaling provider and its consumers: sessions,
//! decisions, errors and events.
use crate::peer::PeerId;
use vstd::prelude::*;

verus! {

/// What a transport needs to join a call. Nothing else crosses from signaling
/// to transport.
pub struct TransportSession {
    pub url: String,
    pub token: String,
    pub peer_id: PeerId,
}

impl Clone for TransportSession {
    fn clone(&self) -> (r: TransportSession)
        ensures
            r == *self,
    {
        TransportSession {
            url: self.url.clone(),
            token: self.token.clone(),
            peer_id: self.peer_id.clone(),
        }
    }
}

/// What an [`IncomingHandler`] says of an incoming call.
#[derive(Debug, Clone, Copy, PartialEq, Eq, Structural)]
pub enum CallDecision {
    /// Accept on the wire. The session comes out on the stream of accepted
    /// sessions.
    Accept,
    /// Reject on the wire: the caller sees the call refused.
    Reject,
    /// Say nothing: the caller times out.
    SilentlyIgnore,
}

/// Why a call could not be placed.
#[derive(Debug)]
pub enum PlaceCallError {
    /// The peer rejected the call.
    Rejected,
    /// The peer never joined the room.
    NoPeer,
    NotAuthenticated,
    Transport(String),
}

impl PlaceCallError {
    /// The message for each error.
    pub open spec fn text(&self) -> Seq<char> {
        match self {
            PlaceCallError::Rejected => "rejected by peer"@,
            PlaceCallError::NoPeer => "peer did not join"@,
            PlaceCallError::NotAuthenticated => "not authenticated"@,
            PlaceCallError::Transport(cause) => "transport: "@ + cause@,
        }
    }

    /// The message to display.
    pub fn to_display(&self) -> (s: String)
        ensures
            s@ == self.text(),
    {
        match self {
            PlaceCallError::Rejected => "rejected by peer".to_owned(),
            PlaceCallError::NoPeer => "peer did not join".to_owned(),
            PlaceCallError::NotAuthenticated => "not authenticated".to_owned(),
            PlaceCallError::Transport(cause) => "transport: ".to_owned().concat(cause.as_str()),
        }
    }
}

impl Clone for PlaceCallError {
    fn clone(&self) -> (r: PlaceCallError)
        ensures
            r == *self,
    {
        match self {
            PlaceCallError::Rejected => PlaceCallError::Rejected,
            PlaceCallError::NoPeer => PlaceCallError::NoPeer,
            PlaceCallError::NotAuthenticated => PlaceCallError::NotAuthenticated,
            PlaceCallError::Transport(cause) => PlaceCallError::Transport(cause.clone()),
        }
    }
}

/// Why a call ended.
#[derive(Debug, Clone, Copy, PartialEq, Eq, Structural)]
pub enum EndReason {
    Rejected,
    CallerHangup,
    Timeout,
    NetworkDrop,
    Other(i32),
}

/// One page of contacts.
pub struct ContactPage {
    pub peers: Vec<PeerId>,
    /// Where the next page starts, in the provider's own terms. `None` when
    /// this page is the last.
    pub next_cursor: Option<String>,
}

impl Default for ContactPage {
    fn default() -> (page: ContactPage)
        ensures
            page.peers@ == Seq::<PeerId>::empty(),
            page.next_cursor is None,
    {
        ContactPage { peers: Vec::new(), next_cursor: None }
    }
}

impl Clone for ContactPage {
    fn clone(&self) -> (r: ContactPage)
        ensures
            r.peers@ == self.peers@,
            r.next_cursor == self.next_cursor,
    {
        let mut peers: Vec<PeerId> = Vec::new();
        let mut i: usize = 0;
        while i < self.peers.len()
            invariant
                i <= self.peers@.len(),
                peers@ == self.peers@.take(i as int),
            decreases self.peers@.len() - i,
        {
            peers.push(self.peers[i].clone());
            i += 1;
        }
        let next_cursor = match &self.next_cursor {
            Some(cursor) => Some(cursor.clone()),
            None => None,
        };
        ContactPage { peers, next_cursor }
    }
}

/// Where a provider keeps its token: preferences, a file, a keychain. The
/// application supplies it.
pub trait TokenStore: Send + Sync + 'static {
    fn load(&self) -> Option<Vec<u8>>;

    fn save(&self, bytes: &[u8]);

    fn clear(&self);
}

/// Decides what to do with each incoming call.
///
/// `display_name` is what the provider knows of the caller's name at the time
/// of the call, if anything.
pub trait IncomingHandler: Send + Sync + 'static {
    fn decide(&self, peer: PeerId, display_name: Option<String>) -> CallDecision;
}

/// The handler for times at which no call may be accepted.
pub struct NoopHandler;

impl IncomingHandler for NoopHandler {
    fn decide(&self, peer: PeerId, display_name: Option<String>) -> (d: CallDecision)
        ensures
            d == CallDecision::SilentlyIgnore,
    {
        CallDecision::SilentlyIgnore
    }
}

/// Errors of a provider that have no type of their own.
#[derive(Debug)]
pub enum SignalingError {
    NotAuthenticated,
    NotConnected,
    NotSupported,
    Transport(String),
}

impl SignalingError {
    /// The message for each error.
    pub open spec fn text(&self) -> Seq<char> {
        match self {
            SignalingError::NotAuthenticated => "not authenticated"@,
            SignalingError::NotConnected => "not connected"@,
            SignalingError::NotSupported => "not supported by this signaling impl"@,
            SignalingError::Transport(cause) => "transport: "@ + cause@,
        }
    }

    /// The message to display.
    pub fn to_display(&self) -> (s: String)
        ensures
            s@ == self.text(),
    {
        match self {
            SignalingError::NotAuthenticated => "not authenticated".to_owned(),
            SignalingError::NotConnected => "not connected".to_owned(),
            SignalingError::NotSupported => "not supported by this signaling impl".to_owned(),
            SignalingError::Transport(cause) => "transport: ".to_owned().concat(cause.as_str()),
        }
    }
}

impl Clone for SignalingError {
    fn clone(&self) -> (r: SignalingError)
        ensures
            r == *self,
    {
        match self {
            SignalingError::NotAuthenticated => SignalingError::NotAuthenticated,
            SignalingError::NotConnected => SignalingError::NotConnected,
            SignalingError::NotSupported => SignalingError::NotSupported,
            SignalingError::Transport(cause) => SignalingError::Transport(cause.clone()),
        }
    }
}

/// What a provider reports while it runs.
pub enum SignalingEvent {
    /// The token was refused. The application clears its store and signs in
    /// anew.
    AuthExpired,
    /// The server no longer speaks this protocol. Retrying does not help.
    ProtocolObsolete,
    /// A call ended, whichever side had placed it.
    CallEnded { peer_id: PeerId, reason: EndReason },
    /// The contact list changed.
    ContactsChanged,
}

impl Clone for SignalingEvent {
    fn clone(&self) -> (r: SignalingEvent)
        ensures
            r == *self,
    {
        match self {
            SignalingEvent::AuthExpired => SignalingEvent::AuthExpired,
            SignalingEvent::ProtocolObsolete => SignalingEvent::ProtocolObsolete,
            SignalingEvent::CallEnded { peer_id, reason } => SignalingEvent::CallEnded {
                peer_id: peer_id.clone(),
                reason: *reason,
            },
            SignalingEvent::ContactsChanged => SignalingEvent::ContactsChanged,
        }
    }
}

/// A message names its cause where there is one, and errors of different kinds that
/// both kinds of caller know read the same.
pub proof fn law_messages_name_their_cause(cause: String)
    ensures
        PlaceCallError::Transport(cause).text() == "transport: "@ + cause@,
        SignalingError::Transport(cause).text() == PlaceCallError::Transport(cause).text(),
        SignalingError::NotAuthenticated.text() == PlaceCallError::NotAuthenticated.text(),
        PlaceCallError::Rejected.text() == "rejected by peer"@,
        PlaceCallError::NoPeer.text() == "peer did not join"@,
        PlaceCallError::NotAuthenticated.text() == "not authenticated"@,
        SignalingError::NotConnected.text() == "not connected"@,
        SignalingError::NotSupported.text() == "not supported by this signaling impl"@,
{
}

} // verus!
