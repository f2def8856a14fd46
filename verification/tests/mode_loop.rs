use lktunnel::activation::Mode;
use lktunnel::mode_loop::{parse_mode, run_one_mode, LoopAction, LoopEvent, ModeLoop};

fn to_choice() -> ModeLoop {
    ModeLoop::new()
        .step(LoopEvent::Authenticated(true))
        .step(LoopEvent::ConnectResult(true))
        .step(LoopEvent::Connected(true))
}

fn running(mode: &str) -> ModeLoop {
    to_choice().step(LoopEvent::ModeRead(Some(mode.to_string())))
}

#[test]
fn modes_have_names() {
    assert_eq!(parse_mode("client"), Some(Mode::Client));
    assert_eq!(parse_mode("server"), Some(Mode::Server));
    assert_eq!(parse_mode("Client"), None);
    assert_eq!(parse_mode(""), None);
    assert_eq!(run_one_mode("server"), Ok(Mode::Server));
    assert_eq!(run_one_mode("client"), Ok(Mode::Client));
    assert_eq!(run_one_mode("relay"), Err("unknown mode: relay".to_string()));
}

#[test]
fn the_loop_waits_for_a_token() {
    let start = ModeLoop::new();
    assert_eq!(start.action(), LoopAction::QueryAuthenticated);
    let waiting = start.step(LoopEvent::Authenticated(false));
    assert_eq!(waiting.action(), LoopAction::Sleep { millis: 1000 });
    let again = waiting.step(LoopEvent::Slept);
    assert_eq!(again, start);
    assert_eq!(again.step(LoopEvent::Authenticated(true)).action(), LoopAction::Connect);
}

#[test]
fn a_failed_connect_is_tried_again() {
    let failed = ModeLoop::new()
        .step(LoopEvent::Authenticated(true))
        .step(LoopEvent::ConnectResult(false));
    assert_eq!(failed.action(), LoopAction::Sleep { millis: 2000 });
    assert_eq!(failed.step(LoopEvent::Slept), ModeLoop::CheckAuth);
}

#[test]
fn the_wait_for_the_handshake_is_bounded() {
    let mut at = ModeLoop::new()
        .step(LoopEvent::Authenticated(true))
        .step(LoopEvent::ConnectResult(true));
    let mut pauses = 0;
    while at.action() == LoopAction::QueryConnected {
        at = at.step(LoopEvent::Connected(false));
        if at.action() == (LoopAction::Sleep { millis: 250 }) {
            pauses += 1;
            at = at.step(LoopEvent::Slept);
        }
    }
    assert_eq!(pauses, 40);
    assert_eq!(at, ModeLoop::ChooseMode);
}

#[test]
fn a_mode_that_is_not_known_counts_as_unset() {
    for name in [None, Some(String::new()), Some("relay".to_string())] {
        let at = to_choice().step(LoopEvent::ModeRead(name));
        assert_eq!(at.action(), LoopAction::AwaitModeChange);
        assert_eq!(at.step(LoopEvent::ModeChanged), ModeLoop::CheckAuth);
    }
}

#[test]
fn a_client_error_forgets_the_peer() {
    let at = running("client");
    assert_eq!(at.action(), LoopAction::Run { mode: Mode::Client });
    let at = at.step(LoopEvent::RunEnded { ok: false });
    assert_eq!(at.action(), LoopAction::ForgetPeer);
    let at = at.step(LoopEvent::PeerForgotten);
    assert_eq!(at.action(), LoopAction::TearDown);
    assert_eq!(at.step(LoopEvent::TornDown), ModeLoop::CheckAuth);
}

#[test]
fn other_ends_keep_the_peer() {
    let ends = vec![
        running("client").step(LoopEvent::RunEnded { ok: true }),
        running("client").step(LoopEvent::ModeChanged),
        running("server").step(LoopEvent::RunEnded { ok: false }),
        running("server").step(LoopEvent::ModeChanged),
    ];
    for at in ends {
        assert_eq!(at, ModeLoop::TearDown { exit: false });
        assert_eq!(at.step(LoopEvent::TornDown), ModeLoop::CheckAuth);
    }
}

#[test]
fn a_closed_choice_ends_the_loop_after_a_teardown() {
    let waiting = to_choice().step(LoopEvent::ModeRead(None));
    for at in [waiting, running("client"), running("server")] {
        let at = at.step(LoopEvent::ModeChannelClosed);
        assert_eq!(at.action(), LoopAction::TearDown);
        let at = at.step(LoopEvent::TornDown);
        assert_eq!(at.action(), LoopAction::Exit);
    }
}
