use lktunnel::peer::{PeerId, PeerRef};
use lktunnel::server_run::{
    judge_probe, plan_server, NatMode, ServerError, ServerSession, ServerSessionEvent,
    SessionTasks, TaskOrder,
};
use lktunnel::session::SessionEvent;

struct Named(String);

impl PeerRef for Named {
    fn id_str(&self) -> &str {
        &self.0
    }
}

fn peer(name: &str) -> PeerId {
    PeerId::new(Named(name.to_string()))
}

fn plan_error(nat_mode: &str, unix: bool) -> String {
    match plan_server(nat_mode.to_string(), unix) {
        Ok(_) => panic!("the plan was made"),
        Err(e) => e.to_display(),
    }
}

#[test]
fn nat_is_chosen_by_name() {
    match plan_server("kernel".to_string(), true) {
        Ok(plan) => {
            assert_eq!(plan.nat_mode, NatMode::Kernel);
            assert_eq!(plan.probe.unwrap().name, "bale_pf254");
        }
        Err(_) => panic!("kernel NAT was refused"),
    }
    for unix in [true, false] {
        match plan_server("userspace".to_string(), unix) {
            Ok(plan) => {
                assert_eq!(plan.nat_mode, NatMode::Userspace);
                assert!(plan.probe.is_none());
            }
            Err(_) => panic!("userspace NAT was refused"),
        }
    }
    assert_eq!(
        plan_error("kernel", false),
        "server: kernel NAT mode is Unix-only — re-run with --nat-mode userspace"
    );
    assert_eq!(plan_error("", true), "unknown --nat-mode: ");
    assert_eq!(plan_error("Kernel", true), "unknown --nat-mode: Kernel");
}

#[test]
fn a_probe_that_fails_stops_the_server() {
    assert!(judge_probe(Ok(())).is_ok());
    match judge_probe(Err("EPERM".to_string())) {
        Err(e) => {
            assert!(matches!(&e, ServerError::ProbeFailed(cause) if cause == "EPERM"));
            assert_eq!(
                e.to_display(),
                "server: kernel TUN open failed (EPERM) — re-run with --nat-mode userspace, \
                 or `setcap cap_net_admin+eip $(which bale-vpn)` (Linux) / run as root (macOS) first"
            );
        }
        Ok(()) => panic!("the failure was passed over"),
    }
}

#[test]
fn a_session_with_a_kernel_device() {
    let s = ServerSession::new(NatMode::Kernel, true);
    assert_eq!(s, ServerSession::TakeSlot);
    let s = s.step(ServerSessionEvent::SlotTaken(Some(4)));
    assert_eq!(s, ServerSession::OpenTun { slot: 4 });
    let s = s.step(ServerSessionEvent::TunOpened { ok: true });
    assert_eq!(s, ServerSession::AttachTun { slot: 4 });
    let s = s.step(ServerSessionEvent::TunAttached { ok: true });
    assert_eq!(s, ServerSession::Install { with_slot: Some(4) });
    let s = s.step(ServerSessionEvent::Installed);
    assert_eq!(s, ServerSession::AwaitEnd);
    let s = s.step(ServerSessionEvent::Ended);
    assert_eq!(s, ServerSession::Remove);
    assert_eq!(s.step(ServerSessionEvent::Removed), ServerSession::Over);
}

#[test]
fn a_slot_is_given_back_when_its_device_fails() {
    let opened = ServerSession::OpenTun { slot: 4 }
        .step(ServerSessionEvent::TunOpened { ok: false });
    assert_eq!(opened, ServerSession::ReleaseSlot { slot: 4, close_device: false });
    let attached = ServerSession::AttachTun { slot: 4 }
        .step(ServerSessionEvent::TunAttached { ok: false });
    assert_eq!(attached, ServerSession::ReleaseSlot { slot: 4, close_device: true });
    for s in [opened, attached] {
        assert_eq!(s.step(ServerSessionEvent::SlotReleased), ServerSession::StartUserspace);
    }
}

#[test]
fn a_session_without_a_slot_falls_back() {
    let s = ServerSession::TakeSlot.step(ServerSessionEvent::SlotTaken(None));
    assert_eq!(s, ServerSession::StartUserspace);
    assert_eq!(ServerSession::new(NatMode::Kernel, false), ServerSession::StartUserspace);
    assert_eq!(ServerSession::new(NatMode::Userspace, true), ServerSession::StartUserspace);
    assert_eq!(
        s.step(ServerSessionEvent::UserspaceStarted { ok: true }),
        ServerSession::Install { with_slot: None }
    );
}

#[test]
fn a_session_without_any_nat_is_given_up() {
    let s = ServerSession::StartUserspace
        .step(ServerSessionEvent::UserspaceStarted { ok: false });
    assert_eq!(s, ServerSession::Disconnect);
    assert_eq!(s.step(ServerSessionEvent::Disconnected), ServerSession::Over);
}

#[test]
fn each_session_has_its_task() {
    let mut tasks = SessionTasks::new();
    assert!(tasks.can_start());
    let p = peer("1");
    let q = peer("2");
    let first = match tasks.on_event(SessionEvent::Connected { peer_id: p.clone(), tunnel: 8 }) {
        TaskOrder::Start { peer, tunnel, ticket, ended } => {
            assert!(peer == p && tunnel == 8 && ended.is_none());
            ticket
        }
        _ => panic!("no task was started"),
    };
    match tasks.on_event(SessionEvent::Disconnected { peer_id: q.clone() }) {
        TaskOrder::End { ended } => assert_eq!(ended, None),
        _ => panic!("not an end"),
    }
    let second = match tasks.on_event(SessionEvent::Connected { peer_id: p.clone(), tunnel: 9 }) {
        TaskOrder::Start { ticket, ended, .. } => {
            assert_eq!(ended, Some(first));
            ticket
        }
        _ => panic!("no task was started"),
    };
    assert_ne!(first, second);
    match tasks.on_event(SessionEvent::Disconnected { peer_id: p.clone() }) {
        TaskOrder::End { ended } => assert_eq!(ended, Some(second)),
        _ => panic!("not an end"),
    }
    match tasks.on_event(SessionEvent::Failed { peer_id: q }) {
        TaskOrder::ClearPending { peer_id } => assert_eq!(peer_id, "2"),
        _ => panic!("the pending call was not cleared"),
    }
}
