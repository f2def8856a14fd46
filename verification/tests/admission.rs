use lktunnel::admission::{
    settle_pending, Admission, AdmissionDecider, PendingOutcome, PENDING_DECISION_SECS,
};
use lktunnel::peer::{PeerId, PeerRef};
use lktunnel::signaling::CallDecision;

struct Named(String);

impl PeerRef for Named {
    fn id_str(&self) -> &str {
        &self.0
    }
}

fn peer(name: &str) -> PeerId {
    PeerId::new(Named(name.to_string()))
}

fn decider(count: usize, max: usize) -> AdmissionDecider {
    AdmissionDecider {
        blacklist: vec!["bad".to_string(), "both".to_string()],
        admission: vec!["friend".to_string(), "both".to_string()],
        client_count: count,
        max_clients: max,
    }
}

#[test]
fn blacklisted_peers_are_ignored() {
    let silence = Admission::Decided(CallDecision::SilentlyIgnore);
    assert_eq!(decider(0, 4).decide(&peer("bad")), silence);
    assert_eq!(decider(0, 4).decide(&peer("both")), silence);
    assert_eq!(decider(4, 4).decide(&peer("bad")), silence);
}

#[test]
fn a_full_server_says_nothing() {
    for name in ["friend", "stranger"] {
        assert_eq!(
            decider(4, 4).decide(&peer(name)),
            Admission::Decided(CallDecision::SilentlyIgnore)
        );
        assert_eq!(
            decider(5, 4).decide(&peer(name)),
            Admission::Decided(CallDecision::SilentlyIgnore)
        );
    }
    assert_eq!(
        decider(0, 0).decide(&peer("friend")),
        Admission::Decided(CallDecision::SilentlyIgnore)
    );
}

#[test]
fn listed_peers_come_in_and_strangers_are_asked_about() {
    assert_eq!(decider(3, 4).decide(&peer("friend")), Admission::Decided(CallDecision::Accept));
    assert_eq!(decider(3, 4).decide(&peer("stranger")), Admission::Park);
    assert_eq!(decider(3, 4).decide(&peer("")), Admission::Park);
}

#[test]
fn an_undecided_call_ends_in_silence() {
    assert_eq!(PENDING_DECISION_SECS, 60);
    let answered = settle_pending(PendingOutcome::Answered(CallDecision::Accept));
    assert_eq!((answered.decision, answered.clear_row), (CallDecision::Accept, false));
    let abandoned = settle_pending(PendingOutcome::Abandoned);
    assert_eq!((abandoned.decision, abandoned.clear_row), (CallDecision::SilentlyIgnore, false));
    let late = settle_pending(PendingOutcome::TimedOut);
    assert_eq!((late.decision, late.clear_row), (CallDecision::SilentlyIgnore, true));
}
