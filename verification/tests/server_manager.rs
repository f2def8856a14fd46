use lktunnel::activation::{ActivationDriver, Intent};
use lktunnel::peer::{PeerId, PeerRef};
use lktunnel::server_manager::{Answer, Inquiry, ServerTunnelManager};
use lktunnel::session::{EventKind, JoinRoom, SessionEvent};
use lktunnel::signaling::{CallDecision, EndReason, NoopHandler, TransportSession};
use std::sync::Arc;

struct Named(String);

impl PeerRef for Named {
    fn id_str(&self) -> &str {
        &self.0
    }
}

type Manager = ServerTunnelManager<NoopHandler>;

fn peer(name: &str) -> PeerId {
    PeerId::new(Named(name.to_string()))
}

fn start() -> Manager {
    let (mut driver, _) = ActivationDriver::new(true);
    let (mut manager, told) = Manager::new(&mut driver);
    assert_eq!(told, None);
    manager.set_admission(Arc::new(NoopHandler));
    manager
}

fn accept(manager: &mut Manager, peer: &PeerId) -> JoinRoom {
    manager.accept(
        peer.clone(),
        TransportSession {
            url: "wss://room".to_string(),
            token: "token".to_string(),
            peer_id: peer.clone(),
        },
    )
}

fn ask(manager: &mut Manager, peer: &PeerId) -> (u64, Option<u64>) {
    match manager.begin_decision(peer.clone()) {
        Inquiry::Ask { ticket, cancelled, .. } => (ticket, cancelled),
        Inquiry::Settled(_) => panic!("the handler was not asked"),
    }
}

#[test]
fn a_new_server_brings_the_channel_up() {
    let (mut driver, _) = ActivationDriver::new(false);
    let (manager, told) = Manager::new(&mut driver);
    assert_eq!(told, Some(Intent::Activate));
    assert!(manager.can_accept() && manager.can_ask());
}

#[test]
fn without_a_handler_calls_are_ignored() {
    let (mut driver, _) = ActivationDriver::new(true);
    let (mut manager, _) = Manager::new(&mut driver);
    assert!(matches!(
        manager.begin_decision(peer("1")),
        Inquiry::Settled(CallDecision::SilentlyIgnore)
    ));
}

#[test]
fn the_handlers_decision_stands() {
    let mut manager = start();
    let p = peer("1");
    for decision in [CallDecision::Accept, CallDecision::Reject, CallDecision::SilentlyIgnore] {
        let (ticket, cancelled) = ask(&mut manager, &p);
        assert_eq!(cancelled, None);
        let verdict = manager.finish_decision(&p, Answer::Decided(decision));
        assert_eq!(verdict.decision, decision);
        assert_eq!(verdict.dropped, Some(ticket));
    }
}

#[test]
fn a_cancelled_decision_is_silence() {
    let mut manager = start();
    let p = peer("1");
    let (ticket, _) = ask(&mut manager, &p);
    let r = manager.on_ws_call_ended(p.clone(), EndReason::CallerHangup);
    assert_eq!(r.cancelled, Some(ticket));
    assert!(matches!(&r.emit, Some(SessionEvent::Failed { peer_id }) if *peer_id == p));
    let verdict = manager.finish_decision(&p, Answer::Cancelled);
    assert_eq!(verdict.decision, CallDecision::SilentlyIgnore);
    assert_eq!(verdict.dropped, None);
    let again = manager.on_ws_call_ended(p, EndReason::CallerHangup);
    assert!(again.cancelled.is_none() && again.emit.is_none());
}

#[test]
fn a_second_call_replaces_the_first_while_pending() {
    let mut manager = start();
    let p = peer("1");
    let (first, _) = ask(&mut manager, &p);
    let (second, cancelled) = ask(&mut manager, &p);
    assert_eq!(cancelled, Some(first));
    assert_ne!(first, second);
    let verdict = manager.finish_decision(&p, Answer::Cancelled);
    assert_eq!(verdict.dropped, Some(second));
}

#[test]
fn the_providers_word_spares_a_session() {
    let mut manager = start();
    let p = peer("1");
    let join = accept(&mut manager, &p);
    ask(&mut manager, &p);
    let r = manager.on_ws_call_ended(p.clone(), EndReason::NetworkDrop);
    assert!(r.cancelled.is_none() && r.emit.is_none());
    assert_eq!(manager.kick(&p), Some(join.tunnel));
}

#[test]
fn an_accepted_call_becomes_ready_and_ends() {
    let mut manager = start();
    let p = peer("1");
    let join = accept(&mut manager, &p);
    assert_eq!((join.url.as_str(), join.token.as_str()), ("wss://room", "token"));
    assert_eq!(join.replaced, None);
    let r = manager.on_tunnel_event(join.tunnel, EventKind::Connected, true);
    assert!(matches!(&r.emit, Some(SessionEvent::Connected { peer_id, tunnel })
        if *peer_id == p && *tunnel == join.tunnel));
    assert!(!r.over);
    let r = manager.on_tunnel_event(join.tunnel, EventKind::Connected, true);
    assert!(r.emit.is_none() && !r.over);
    let r = manager.on_tunnel_event(join.tunnel, EventKind::Other, true);
    assert!(r.emit.is_none() && !r.over);
    let r = manager.on_tunnel_event(join.tunnel, EventKind::Disconnected, true);
    assert!(matches!(&r.emit, Some(SessionEvent::Disconnected { peer_id }) if *peer_id == p));
    assert!(r.over);
    assert_eq!(manager.kick(&p), None);
}

#[test]
fn an_accepted_call_that_never_becomes_ready_fails() {
    let mut manager = start();
    let p = peer("1");
    let join = accept(&mut manager, &p);
    let r = manager.on_tunnel_event(join.tunnel, EventKind::Disconnected, false);
    assert!(matches!(&r.emit, Some(SessionEvent::Failed { peer_id }) if *peer_id == p));
    assert!(r.over);
}

#[test]
fn a_tunnel_that_nobody_holds_is_dropped_without_a_word() {
    let mut manager = start();
    let p = peer("1");
    let first = accept(&mut manager, &p);
    accept(&mut manager, &p);
    let r = manager.on_tunnel_event(first.tunnel, EventKind::Connected, false);
    assert!(r.emit.is_none() && r.over);
}

#[test]
fn a_late_end_spares_the_successor() {
    let mut manager = start();
    let p = peer("1");
    let first = accept(&mut manager, &p);
    let second = accept(&mut manager, &p);
    assert_eq!(second.replaced, Some(first.tunnel));
    let r = manager.on_tunnel_event(first.tunnel, EventKind::Disconnected, true);
    assert!(matches!(&r.emit, Some(SessionEvent::Failed { .. })));
    assert_eq!(manager.kick(&p), Some(second.tunnel));
}

#[test]
fn everyone_can_be_disconnected() {
    let mut manager = start();
    assert!(manager.disconnect_all().is_empty());
    let peers: Vec<PeerId> = (0..5).map(|i| peer(&format!("{i}"))).collect();
    let mut tunnels: Vec<u64> = peers.iter().map(|p| accept(&mut manager, p).tunnel).collect();
    let mut all = manager.disconnect_all();
    all.sort();
    tunnels.sort();
    assert_eq!(all, tunnels);
    assert_eq!(manager.kick(&peer("0")), None);
    assert_eq!(manager.kick(&peers[3]), Some(tunnels[3]));
}
