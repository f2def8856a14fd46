use lktunnel::bridge::{
    answer_flag, bound_port, flag_is_set, listener_call, place_call_code, read_decision,
    requested_port, stats_row, DeciderReply, FlowStats, ListenerMethod, PlaceCallReport,
};
use lktunnel::peer::{PeerId, PeerRef};
use lktunnel::session::SessionEvent;
use lktunnel::signaling::{CallDecision, PlaceCallError};

struct Named(String);

impl PeerRef for Named {
    fn id_str(&self) -> &str {
        &self.0
    }
}

fn peer(name: &str) -> PeerId {
    PeerId::new(Named(name.to_string()))
}

#[test]
fn reports_have_numbers() {
    let failed = |e: PlaceCallError| place_call_code(&PlaceCallReport::Placed(Err(e)));
    assert_eq!(place_call_code(&PlaceCallReport::Placed(Ok(()))), 0);
    assert_eq!(failed(PlaceCallError::Rejected), 1);
    assert_eq!(failed(PlaceCallError::NoPeer), 2);
    assert_eq!(place_call_code(&PlaceCallReport::UnknownPeer), 2);
    assert_eq!(failed(PlaceCallError::NotAuthenticated), 3);
    assert_eq!(failed(PlaceCallError::Transport("x".to_string())), 4);
    assert_eq!(place_call_code(&PlaceCallReport::BadHandle), 5);
}

#[test]
fn decisions_are_read_from_numbers() {
    assert_eq!(read_decision(DeciderReply::Code(0)), CallDecision::Accept);
    assert_eq!(read_decision(DeciderReply::Code(1)), CallDecision::Reject);
    for reply in [
        DeciderReply::Code(2),
        DeciderReply::Code(-1),
        DeciderReply::Unreachable,
        DeciderReply::Threw,
        DeciderReply::NotANumber,
    ] {
        assert_eq!(read_decision(reply), CallDecision::SilentlyIgnore);
    }
}

#[test]
fn events_go_to_their_methods() {
    let p = peer("77");
    let call = listener_call(&SessionEvent::Connected { peer_id: p.clone(), tunnel: 5 });
    assert_eq!(call.method, ListenerMethod::OnConnected);
    assert_eq!((call.peer_id.as_str(), call.tunnel), ("77", Some(5)));
    let call = listener_call(&SessionEvent::Disconnected { peer_id: p.clone() });
    assert_eq!(call.method, ListenerMethod::OnDisconnected);
    assert_eq!((call.peer_id.as_str(), call.tunnel), ("77", None));
    let call = listener_call(&SessionEvent::Failed { peer_id: p });
    assert_eq!(call.method, ListenerMethod::OnFailed);
    assert_eq!((call.peer_id.as_str(), call.tunnel), ("77", None));
    assert_eq!(ListenerMethod::OnConnected.name(), "onConnected");
    assert_eq!(ListenerMethod::OnDisconnected.name(), "onDisconnected");
    assert_eq!(ListenerMethod::OnFailed.name(), "onFailed");
    assert_eq!(ListenerMethod::OnConnected.signature(), "(Ljava/lang/String;J)V");
    assert_eq!(ListenerMethod::OnDisconnected.signature(), "(Ljava/lang/String;)V");
    assert_eq!(ListenerMethod::OnFailed.signature(), "(Ljava/lang/String;)V");
}

#[test]
fn flags_and_ports() {
    assert!(!flag_is_set(0));
    assert!(flag_is_set(1) && flag_is_set(255));
    assert_eq!(answer_flag(Some(true)), 1);
    assert_eq!(answer_flag(Some(false)), 0);
    assert_eq!(answer_flag(None), 0);
    assert_eq!(requested_port(-1), 0);
    assert_eq!(requested_port(i32::MIN), 0);
    assert_eq!(requested_port(1080), 1080);
    assert_eq!(requested_port(65536 + 80), 80);
    assert_eq!(bound_port(Some(65535)), 65535);
    assert_eq!(bound_port(None), 0);
}

#[test]
fn counters_come_in_order() {
    assert_eq!(stats_row([1, 2, u64::MAX, 1 << 63]), vec![1, 2, -1, i64::MIN]);
    let stats = FlowStats {
        tcp_flows: 1,
        udp_flows: 2,
        srtt_min_ms: 3,
        srtt_med_ms: 4,
        srtt_max_ms: 5,
        rttvar_med_ms: 6,
        rto_med_ms: 7,
        flight_total_bytes: 8,
        rto_retx_total: 9,
        tcp_state_counts: [10, 11, 12, 13, 14, 15, 16, 17, 18, 19, 20],
    };
    assert_eq!(stats.row(), (1..=20).collect::<Vec<i64>>());
}
