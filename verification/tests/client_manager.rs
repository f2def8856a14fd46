use lktunnel::activation::{ActivationDriver, Intent, Mode};
use lktunnel::client_manager::{ClientTunnelManager, Reaction};
use lktunnel::peer::{PeerId, PeerRef};
use lktunnel::session::{EventKind, JoinRoom, SessionEvent};
use lktunnel::signaling::{EndReason, PlaceCallError, TransportSession};

struct Named(String);

impl PeerRef for Named {
    fn id_str(&self) -> &str {
        &self.0
    }
}

fn peer(name: &str) -> PeerId {
    PeerId::new(Named(name.to_string()))
}

fn start() -> (ActivationDriver, ClientTunnelManager) {
    let (mut driver, _) = ActivationDriver::new(true);
    let (manager, told) = ClientTunnelManager::new(&mut driver);
    assert_eq!(told, None);
    (driver, manager)
}

fn call(manager: &mut ClientTunnelManager, peer: &PeerId) -> JoinRoom {
    let session = TransportSession {
        url: "wss://room".to_string(),
        token: "token".to_string(),
        peer_id: peer.clone(),
    };
    match manager.place_call(peer.clone(), Ok(session)) {
        Ok(join) => join,
        Err(_) => panic!("the call was not placed"),
    }
}

fn connected(r: &Reaction, peer: &PeerId) -> bool {
    matches!(&r.emit, Some(SessionEvent::Connected { peer_id, .. }) if peer_id == peer)
}

fn disconnected(r: &Reaction, peer: &PeerId) -> bool {
    matches!(&r.emit, Some(SessionEvent::Disconnected { peer_id }) if peer_id == peer)
}

fn failed(r: &Reaction, peer: &PeerId) -> bool {
    matches!(&r.emit, Some(SessionEvent::Failed { peer_id }) if peer_id == peer)
}

#[test]
fn a_call_that_becomes_ready_and_ends() {
    let (mut driver, mut manager) = start();
    let p = peer("1");
    let join = call(&mut manager, &p);
    assert_eq!((join.url.as_str(), join.token.as_str()), ("wss://room", "token"));
    assert_eq!(join.replaced, None);
    let r = manager.on_tunnel_event(&mut driver, join.tunnel, EventKind::Other);
    assert!(r.emit.is_none() && !r.over && r.push.is_none());
    let r = manager.on_tunnel_event(&mut driver, join.tunnel, EventKind::Connected);
    assert!(connected(&r, &p) && !r.over && !r.disconnect);
    assert_eq!(r.push, Some(Intent::Deactivate));
    let r = manager.on_tunnel_event(&mut driver, join.tunnel, EventKind::Connected);
    assert!(r.emit.is_none() && !r.over && r.push.is_none());
    let r = manager.on_tunnel_event(&mut driver, join.tunnel, EventKind::Disconnected);
    assert!(disconnected(&r, &p) && r.over);
    assert_eq!(r.push, Some(Intent::Activate));
    assert_eq!(manager.hang_up(), None);
}

#[test]
fn a_call_that_never_becomes_ready_fails() {
    let (mut driver, mut manager) = start();
    let p = peer("1");
    let join = call(&mut manager, &p);
    let r = manager.on_tunnel_event(&mut driver, join.tunnel, EventKind::Disconnected);
    assert!(failed(&r, &p) && r.over && r.push.is_none());
}

#[test]
fn an_answer_with_an_error_changes_nothing() {
    let (mut driver, mut manager) = start();
    let p = peer("1");
    let join = call(&mut manager, &p);
    let r = manager.place_call(peer("2"), Err(PlaceCallError::NoPeer));
    assert!(matches!(r, Err(PlaceCallError::NoPeer)));
    let r = manager.on_tunnel_event(&mut driver, join.tunnel, EventKind::Connected);
    assert!(connected(&r, &p));
}

#[test]
fn a_replaced_call_is_silent() {
    let (mut driver, mut manager) = start();
    let p = peer("1");
    let first = call(&mut manager, &p);
    let second = call(&mut manager, &p);
    assert_eq!(second.replaced, Some(first.tunnel));
    assert_ne!(first.tunnel, second.tunnel);
    let r = manager.on_tunnel_event(&mut driver, first.tunnel, EventKind::Disconnected);
    assert!(r.emit.is_none() && r.over && r.push.is_none());
    let r = manager.on_tunnel_event(&mut driver, second.tunnel, EventKind::Connected);
    assert!(connected(&r, &p));
}

#[test]
fn a_replaced_call_that_becomes_ready_is_torn_down_uncounted() {
    let (mut driver, mut manager) = start();
    let p = peer("1");
    let first = call(&mut manager, &p);
    call(&mut manager, &p);
    let r = manager.on_tunnel_event(&mut driver, first.tunnel, EventKind::Connected);
    assert!(r.disconnect && r.over && r.emit.is_none());
    assert_eq!(r.push, None);
    let r = manager.on_tunnel_event(&mut driver, first.tunnel, EventKind::Disconnected);
    assert!(r.over && r.emit.is_none() && r.push.is_none());
}

#[test]
fn the_count_is_balanced_when_a_ready_call_is_replaced() {
    let (mut driver, mut manager) = start();
    let first = call(&mut manager, &peer("1"));
    let r = manager.on_tunnel_event(&mut driver, first.tunnel, EventKind::Connected);
    assert_eq!(r.push, Some(Intent::Deactivate));
    let second = call(&mut manager, &peer("2"));
    let r = manager.on_tunnel_event(&mut driver, second.tunnel, EventKind::Connected);
    assert_eq!(r.push, None);
    let r = manager.on_tunnel_event(&mut driver, first.tunnel, EventKind::Disconnected);
    assert!(r.emit.is_none());
    assert_eq!(r.push, None);
    let r = manager.on_tunnel_event(&mut driver, second.tunnel, EventKind::Disconnected);
    assert_eq!(r.push, Some(Intent::Activate));
}

#[test]
fn the_providers_word_counts_before_the_call_is_ready() {
    let (mut driver, mut manager) = start();
    let p = peer("1");
    assert_eq!(manager.on_ws_call_ended(&p, EndReason::Rejected), None);
    let join = call(&mut manager, &p);
    assert_eq!(manager.on_ws_call_ended(&peer("1"), EndReason::Rejected), None);
    assert_eq!(manager.on_ws_call_ended(&p, EndReason::Rejected), Some(join.tunnel));
    let r = manager.on_tunnel_event(&mut driver, join.tunnel, EventKind::Disconnected);
    assert!(failed(&r, &p));
}

#[test]
fn the_providers_word_is_ignored_once_the_call_is_ready() {
    let (mut driver, mut manager) = start();
    let p = peer("1");
    let join = call(&mut manager, &p);
    manager.on_tunnel_event(&mut driver, join.tunnel, EventKind::Connected);
    assert_eq!(manager.on_ws_call_ended(&p, EndReason::NetworkDrop), None);
    let r = manager.on_tunnel_event(&mut driver, join.tunnel, EventKind::Disconnected);
    assert!(disconnected(&r, &p));
}

#[test]
fn hanging_up_gives_the_call_up() {
    let (mut driver, mut manager) = start();
    let join = call(&mut manager, &peer("1"));
    assert_eq!(manager.hang_up(), Some(join.tunnel));
    assert_eq!(manager.hang_up(), None);
    let r = manager.on_tunnel_event(&mut driver, join.tunnel, EventKind::Disconnected);
    assert!(r.emit.is_none() && r.over);
}

#[test]
fn a_tunnel_nobody_knows_is_over() {
    let (mut driver, mut manager) = start();
    for event in [EventKind::Connected, EventKind::Disconnected, EventKind::Other] {
        let r = manager.on_tunnel_event(&mut driver, 77, event);
        assert!(r.over && r.emit.is_none() && r.push.is_none() && !r.disconnect);
    }
    assert!(manager.can_place());
}

#[test]
fn a_late_end_does_not_open_the_channel_of_a_later_call() {
    let (mut driver, mut first) = start();
    let p = peer("1");
    let old = call(&mut first, &p).tunnel;
    let up = first.on_tunnel_event(&mut driver, old, EventKind::Connected);
    assert_eq!(up.push, Some(Intent::Deactivate));

    assert_eq!(driver.set_mode(Mode::Server), Some(Intent::Activate));
    let (mut second, told) = ClientTunnelManager::new(&mut driver);
    assert_eq!(told, None);
    let q = peer("2");
    let new = call(&mut second, &q).tunnel;
    let up = second.on_tunnel_event(&mut driver, new, EventKind::Connected);
    assert_eq!(up.push, Some(Intent::Deactivate));

    let late = first.on_tunnel_event(&mut driver, old, EventKind::Disconnected);
    assert_eq!(late.push, None);
    assert!(disconnected(&late, &p));
    let down = second.on_tunnel_event(&mut driver, new, EventKind::Disconnected);
    assert_eq!(down.push, Some(Intent::Activate));
}
