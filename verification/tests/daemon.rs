use lktunnel::daemon::{
    http_address, shutdown_plan, stops_daemon, teardown_mode, CleanupStep, DaemonEvent, Resolved,
};
use lktunnel::tun::{client_tun, probe_tun, session_tun, KERNEL_TUN_SLOT_LIMIT};
use std::collections::HashSet;

#[test]
fn the_web_interface_is_local() {
    assert_eq!(http_address(0), "127.0.0.1:0");
    assert_eq!(http_address(8080), "127.0.0.1:8080");
    assert_eq!(http_address(65535), "127.0.0.1:65535");
    assert_eq!(http_address(1090), "127.0.0.1:1090");
}

#[test]
fn a_daemon_starts_without_a_peer() {
    let cfg = Resolved {
        port: 3000,
        mode: Some("client".to_string()),
        peer_id: Some("42".to_string()),
        nat_mode: "userspace".to_string(),
        socks5_port: 1080,
        client_tun: true,
    }
    .without_peer();
    assert!(cfg.peer_id.is_none());
    assert_eq!(cfg.port, 3000);
    assert_eq!(cfg.mode.as_deref(), Some("client"));
    assert_eq!(cfg.nat_mode, "userspace");
    assert_eq!(cfg.socks5_port, 1080);
    assert!(cfg.client_tun);
}

#[test]
fn the_end_of_the_mode_task_stops_nothing() {
    assert!(stops_daemon(DaemonEvent::HttpExited));
    assert!(stops_daemon(DaemonEvent::Signal));
    assert!(stops_daemon(DaemonEvent::ShutdownRequested));
    assert!(!stops_daemon(DaemonEvent::ModeTaskExited));
}

#[test]
fn sessions_go_before_the_control_channel() {
    assert_eq!(
        shutdown_plan(),
        vec![
            CleanupStep::AbortModeTask,
            CleanupStep::ClearClient,
            CleanupStep::ClearServer,
            CleanupStep::DisconnectSignaling,
            CleanupStep::Flush { millis: 500 },
        ]
    );
    assert_eq!(
        teardown_mode(),
        vec![
            CleanupStep::ClearClient,
            CleanupStep::ClearServer,
            CleanupStep::InstallNoopHandler,
        ]
    );
}

#[test]
fn devices_have_their_names_and_addresses() {
    let session = session_tun(0);
    assert_eq!((session.name.as_str(), session.addr.as_str()), ("bale0", "10.8.0.1"));
    assert_eq!((session.prefix_len, session.mtu), (24, 1400));
    let session = session_tun(253);
    assert_eq!((session.name.as_str(), session.addr.as_str()), ("bale253", "10.8.253.1"));
    let probe = probe_tun();
    assert_eq!((probe.name.as_str(), probe.addr.as_str()), ("bale_pf254", "10.8.254.1"));
    assert_eq!((probe.prefix_len, probe.mtu), (24, 1400));
    let client = client_tun();
    assert_eq!((client.name.as_str(), client.addr.as_str()), ("bale-c0", "10.8.0.2"));
    assert_eq!((client.prefix_len, client.mtu), (24, 1400));
}

#[test]
fn devices_do_not_collide() {
    let mut names = HashSet::new();
    let mut addresses = HashSet::new();
    for slot in 0..KERNEL_TUN_SLOT_LIMIT {
        let device = session_tun(slot);
        assert!(names.insert(device.name));
        assert!(addresses.insert(device.addr));
    }
    let probe = probe_tun();
    assert!(names.insert(probe.name));
    assert!(addresses.insert(probe.addr));
}
