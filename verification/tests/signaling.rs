use lktunnel::peer::{PeerId, PeerRef};
use lktunnel::signaling::{
    CallDecision, ContactPage, EndReason, IncomingHandler, NoopHandler, PlaceCallError,
    SignalingError, SignalingEvent, TransportSession,
};

struct Named(String);

impl PeerRef for Named {
    fn id_str(&self) -> &str {
        &self.0
    }
}

fn peer(name: &str) -> PeerId {
    PeerId::new(Named(name.to_string()))
}

#[test]
fn place_call_errors_have_their_messages() {
    assert_eq!(PlaceCallError::Rejected.to_display(), "rejected by peer");
    assert_eq!(PlaceCallError::NoPeer.to_display(), "peer did not join");
    assert_eq!(PlaceCallError::NotAuthenticated.to_display(), "not authenticated");
    assert_eq!(
        PlaceCallError::Transport("reset".to_string()).to_display(),
        "transport: reset"
    );
}

#[test]
fn signaling_errors_have_their_messages() {
    assert_eq!(SignalingError::NotAuthenticated.to_display(), "not authenticated");
    assert_eq!(SignalingError::NotConnected.to_display(), "not connected");
    assert_eq!(
        SignalingError::NotSupported.to_display(),
        "not supported by this signaling impl"
    );
    assert_eq!(SignalingError::Transport(String::new()).to_display(), "transport: ");
}

#[test]
fn clones_keep_what_they_are_made_of() {
    let p = peer("5");
    let session = TransportSession {
        url: "wss://sfu".to_string(),
        token: "t".to_string(),
        peer_id: p.clone(),
    };
    let copy = session.clone();
    assert_eq!(copy.url, "wss://sfu");
    assert_eq!(copy.token, "t");
    assert!(copy.peer_id == p);

    let page = ContactPage {
        peers: vec![p.clone(), peer("6")],
        next_cursor: Some("more".to_string()),
    };
    let copy = page.clone();
    assert_eq!(copy.peers.len(), 2);
    assert!(copy.peers[0] == p);
    assert_eq!(copy.next_cursor.as_deref(), Some("more"));

    let event = SignalingEvent::CallEnded {
        peer_id: p.clone(),
        reason: EndReason::Other(17),
    };
    match event.clone() {
        SignalingEvent::CallEnded { peer_id, reason } => {
            assert!(peer_id == p);
            assert_eq!(reason, EndReason::Other(17));
        }
        _ => panic!("not the event that was cloned"),
    }
    assert_eq!(PlaceCallError::Transport("x".to_string()).clone().to_display(), "transport: x");
    assert_eq!(SignalingError::NotConnected.clone().to_display(), "not connected");
}

#[test]
fn an_empty_page_is_the_default() {
    let page = ContactPage::default();
    assert!(page.peers.is_empty());
    assert!(page.next_cursor.is_none());
}

#[test]
fn the_noop_handler_ignores_every_call() {
    assert_eq!(NoopHandler.decide(peer("1"), None), CallDecision::SilentlyIgnore);
    assert_eq!(
        NoopHandler.decide(peer("2"), Some("Ada".to_string())),
        CallDecision::SilentlyIgnore
    );
}
