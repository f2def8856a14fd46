use std::collections::HashSet;
use lktunnel::peer::{PeerId, PeerRef};

struct Named(String);

impl PeerRef for Named {
    fn id_str(&self) -> &str {
        &self.0
    }
}

fn peer(name: &str) -> PeerId {
    PeerId::new(Named(name.to_string()))
}

#[test]
fn a_handle_shows_the_string_form_of_its_peer() {
    assert_eq!(peer("42").id_str(), "42");
    assert_eq!(peer("42").to_display(), "42");
    assert_eq!(peer("42").to_debug(), "PeerId(42)");
}

#[test]
fn a_handle_equals_its_clones_and_no_other_handle() {
    let a = peer("42");
    let b = peer("42");
    assert!(a == a.clone());
    assert!(a != b);
}

#[test]
fn equality_of_handles_is_an_equivalence() {
    let a = peer("7");
    let b = a.clone();
    let c = b.clone();
    assert!(a == b && b == a && b == c && a == c);
}

#[test]
fn handles_work_as_keys() {
    let a = peer("42");
    let b = peer("42");
    let mut seen = HashSet::new();
    assert!(seen.insert(a.clone()));
    assert!(!seen.insert(a.clone()));
    assert!(seen.insert(b));
    assert_eq!(seen.len(), 2);
}

#[test]
fn a_handle_keeps_its_peer_alive() {
    let clone = {
        let a = peer("9");
        a.clone()
    };
    assert_eq!(clone.id_str(), "9");
}
