use lktunnel::client_run::{ends_session, wants_tun, ClientError, ClientEvent, ClientRun};
use lktunnel::peer::{PeerId, PeerRef};
use lktunnel::session::SessionEvent;
use lktunnel::signaling::PlaceCallError;

struct Named(String);

impl PeerRef for Named {
    fn id_str(&self) -> &str {
        &self.0
    }
}

fn peer(name: &str) -> PeerId {
    PeerId::new(Named(name.to_string()))
}

fn waiting(p: &PeerId) -> ClientRun {
    ClientRun::new(Some("1".to_string()))
        .step(false, ClientEvent::Resolved(Some(p.clone())))
        .step(false, ClientEvent::Placed(Ok(())))
}

fn error(run: ClientRun) -> String {
    match run {
        ClientRun::Done { outcome: Err(e) } => e.to_display(),
        _ => panic!("the run has not failed"),
    }
}

#[test]
fn without_a_peer_a_run_is_idle() {
    assert!(matches!(ClientRun::new(None), ClientRun::Idle));
}

#[test]
fn a_run_from_start_to_end() {
    let p = peer("1");
    let run = ClientRun::new(Some("1".to_string()));
    assert!(matches!(&run, ClientRun::Resolve { peer_id } if peer_id == "1"));
    let run = run.step(true, ClientEvent::Resolved(Some(p.clone())));
    assert!(matches!(&run, ClientRun::Place { peer } if *peer == p));
    let run = run.step(true, ClientEvent::Placed(Ok(())));
    let run = run.step(
        true,
        ClientEvent::Session(Some(SessionEvent::Connected { peer_id: p.clone(), tunnel: 3 })),
    );
    assert!(matches!(&run, ClientRun::Watch { tunnel: 3, .. }));
    let run = run.step(true, ClientEvent::Watching);
    assert!(matches!(run, ClientRun::EnableSocks { tunnel: 3 }));
    let run = run.step(true, ClientEvent::SocksBound(Ok(1080)));
    assert!(matches!(run, ClientRun::OpenTun { tunnel: 3, port: 1080 }));
    let run = run.step(true, ClientEvent::TunOpened { ok: true });
    assert!(matches!(run, ClientRun::AttachTun { tunnel: 3, port: 1080 }));
    let run = run.step(true, ClientEvent::TunAttached { ok: false });
    assert!(matches!(run, ClientRun::Publish { tunnel: 3, port: 1080 }));
    let run = run.step(true, ClientEvent::Published);
    assert!(matches!(run, ClientRun::AwaitEnd));
    let run = run.step(true, ClientEvent::Ended);
    assert!(matches!(run, ClientRun::Clear));
    let run = run.step(true, ClientEvent::Cleared);
    assert!(matches!(run, ClientRun::Done { outcome: Ok(()) }));
}

#[test]
fn a_tun_device_is_optional() {
    let run = ClientRun::EnableSocks { tunnel: 1 }.step(false, ClientEvent::SocksBound(Ok(9)));
    assert!(matches!(run, ClientRun::Publish { tunnel: 1, port: 9 }));
    let run = ClientRun::OpenTun { tunnel: 1, port: 9 }
        .step(true, ClientEvent::TunOpened { ok: false });
    assert!(matches!(run, ClientRun::Publish { tunnel: 1, port: 9 }));
    assert!(wants_tun(true, true));
    assert!(!wants_tun(true, false));
    assert!(!wants_tun(false, true));
}

#[test]
fn other_peers_are_passed_over() {
    let p = peer("1");
    let other = peer("1");
    for event in [
        SessionEvent::Connected { peer_id: other.clone(), tunnel: 1 },
        SessionEvent::Disconnected { peer_id: other.clone() },
        SessionEvent::Failed { peer_id: other.clone() },
    ] {
        let run = waiting(&p).step(false, ClientEvent::Session(Some(event)));
        assert!(matches!(&run, ClientRun::AwaitReady { peer } if *peer == p));
    }
}

#[test]
fn each_failure_has_its_message() {
    let p = peer("1");
    let resolving = || ClientRun::new(Some("1".to_string()));
    assert_eq!(
        error(resolving().step(false, ClientEvent::Resolved(None))),
        "client: unknown peer (resolve_peer returned None)"
    );
    let placing = |e: PlaceCallError| {
        error(ClientRun::Place { peer: p.clone() }.step(false, ClientEvent::Placed(Err(e))))
    };
    assert_eq!(placing(PlaceCallError::Rejected), "call rejected by peer");
    assert_eq!(placing(PlaceCallError::NoPeer), "peer never joined (timeout)");
    assert_eq!(placing(PlaceCallError::NotAuthenticated), "not authenticated");
    assert_eq!(placing(PlaceCallError::Transport("down".to_string())), "transport: down");
    let ready = |e: Option<SessionEvent>| error(waiting(&p).step(false, ClientEvent::Session(e)));
    assert_eq!(
        ready(Some(SessionEvent::Failed { peer_id: p.clone() })),
        "LK failed to connect"
    );
    assert_eq!(
        ready(Some(SessionEvent::Disconnected { peer_id: p.clone() })),
        "LK disconnected before connect"
    );
    assert_eq!(ready(None), "manager events stream closed");
    assert_eq!(
        error(
            ClientRun::EnableSocks { tunnel: 1 }
                .step(false, ClientEvent::SocksBound(Err("in use".to_string())))
        ),
        "in use"
    );
    assert_eq!(ClientError::Socks("x".to_string()).to_display(), "x");
}

#[test]
fn a_session_ends_with_its_own_disconnect() {
    let p = peer("1");
    assert!(ends_session(&SessionEvent::Disconnected { peer_id: p.clone() }, &p));
    assert!(!ends_session(&SessionEvent::Disconnected { peer_id: peer("1") }, &p));
    assert!(!ends_session(&SessionEvent::Failed { peer_id: p.clone() }, &p));
    assert!(!ends_session(&SessionEvent::Connected { peer_id: p.clone(), tunnel: 0 }, &p));
}
