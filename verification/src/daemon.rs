//! The daemon as a whole: what it starts from, what makes it stop, and in which
//! order it lets go of things.
use crate::text::decimal;
use crate::text::to_decimal;
use vstd::prelude::*;

verus! {

/// The configuration, as far as the daemon's decisions look at it.
pub struct Resolved {
    /// Port of the local web interface.
    pub port: u16,
    /// The mode that the user chose, by name.
    pub mode: Option<String>,
    /// The peer to call in client mode.
    pub peer_id: Option<String>,
    /// How a server does NAT, by name.
    pub nat_mode: String,
    /// Port of the SOCKS5 listener in client mode.
    pub socks5_port: u16,
    /// Whether a client opens a TUN device as well.
    pub client_tun: bool,
}

impl Resolved {
    /// The configuration with no peer to call. A daemon starts from it, so that
    /// it calls nobody until the user says so, and goes back to it after a call
    /// that failed, so that it does not call the same peer over and over.
    pub fn without_peer(self) -> (r: Resolved)
        ensures
            r == (Resolved { peer_id: None, ..self }),
    {
        Resolved { peer_id: None, ..self }
    }
}

/// Where the web interface listens: on the loopback address only.
pub fn http_address(port: u16) -> (s: String)
    ensures
        s@ == "127.0.0.1:"@ + decimal(port as nat),
{
    let digits: String = to_decimal(port as u64);
    "127.0.0.1:".to_owned().concat(digits.as_str())
}

/// What a running daemon waits for.
#[derive(Debug, Clone, Copy, PartialEq, Eq, Structural)]
pub enum DaemonEvent {
    /// The web interface is gone.
    HttpExited,
    /// The operating system asked for an end.
    Signal,
    /// The window was closed.
    ShutdownRequested,
    /// The task that runs the modes came to its end.
    ModeTaskExited,
}

/// Whether an event asks for an end of the daemon.
pub open spec fn asks_for_an_end(event: DaemonEvent) -> bool {
    event != DaemonEvent::ModeTaskExited
}

/// Whether an event stops the daemon. The end of the mode task does not: the
/// user may still sign in through the web interface.
pub fn stops_daemon(event: DaemonEvent) -> (b: bool)
    ensures
        b <==> event != DaemonEvent::ModeTaskExited,
        b == asks_for_an_end(event),
{
    match event {
        DaemonEvent::ModeTaskExited => false,
        _ => true,
    }
}

/// One step of letting go.
#[derive(Debug, Clone, Copy, PartialEq, Eq, Structural)]
pub enum CleanupStep {
    /// Cancel the task that runs the modes.
    AbortModeTask,
    /// Drop the client's session.
    ClearClient,
    /// Drop the server's sessions and pending calls.
    ClearServer,
    /// Install the handler that ignores every call.
    InstallNoopHandler,
    /// Close the control channel.
    DisconnectSignaling,
    /// Leave what was sent time to get out.
    Flush { millis: u64 },
}

/// The steps of a shutdown, in order.
pub open spec fn shutdown_steps() -> Seq<CleanupStep> {
    seq![
        CleanupStep::AbortModeTask,
        CleanupStep::ClearClient,
        CleanupStep::ClearServer,
        CleanupStep::DisconnectSignaling,
        CleanupStep::Flush { millis: 500 },
    ]
}

/// The steps of a tear-down, in order.
pub open spec fn teardown_steps() -> Seq<CleanupStep> {
    seq![CleanupStep::ClearClient, CleanupStep::ClearServer, CleanupStep::InstallNoopHandler]
}

/// How the daemon shuts down: the sessions go first, so that peers see them
/// close, and the control channel after them.
pub fn shutdown_plan() -> (plan: Vec<CleanupStep>)
    ensures
        plan@ == shutdown_steps(),
        plan@ == seq![
            CleanupStep::AbortModeTask,
            CleanupStep::ClearClient,
            CleanupStep::ClearServer,
            CleanupStep::DisconnectSignaling,
            CleanupStep::Flush { millis: 500 },
        ],
{
    let mut plan: Vec<CleanupStep> = Vec::new();
    plan.push(CleanupStep::AbortModeTask);
    plan.push(CleanupStep::ClearClient);
    plan.push(CleanupStep::ClearServer);
    plan.push(CleanupStep::DisconnectSignaling);
    plan.push(CleanupStep::Flush { millis: 500 });
    plan
}

/// How a mode is torn down before the next one or the end: its sessions go, and
/// a call that comes in between finds nobody.
pub fn teardown_mode() -> (plan: Vec<CleanupStep>)
    ensures
        plan@ == teardown_steps(),
        plan@ == seq![
            CleanupStep::ClearClient,
            CleanupStep::ClearServer,
            CleanupStep::InstallNoopHandler,
        ],
{
    let mut plan: Vec<CleanupStep> = Vec::new();
    plan.push(CleanupStep::ClearClient);
    plan.push(CleanupStep::ClearServer);
    plan.push(CleanupStep::InstallNoopHandler);
    plan
}

/// A shutdown lets go of everything in an order that peers can follow: nothing starts
/// anew once it has begun, no session is left when the control channel is closed, and
/// what was sent last still has time to get out. No step is done twice.
pub proof fn law_sessions_go_before_the_control_channel(i: int, j: int)
    requires
        0 <= i < shutdown_steps().len(),
        0 <= j < shutdown_steps().len(),
    ensures
        shutdown_steps().contains(CleanupStep::AbortModeTask),
        shutdown_steps().contains(CleanupStep::ClearClient),
        shutdown_steps().contains(CleanupStep::ClearServer),
        shutdown_steps().contains(CleanupStep::DisconnectSignaling),
        shutdown_steps().contains(CleanupStep::Flush { millis: 500 }),
        shutdown_steps().len() == 5,
        shutdown_steps()[i] == shutdown_steps()[j] ==> i == j,
        shutdown_steps()[i] == CleanupStep::AbortModeTask && i != j ==> i < j,
        shutdown_steps()[i] == CleanupStep::ClearClient && shutdown_steps()[j]
            == CleanupStep::DisconnectSignaling ==> i < j,
        shutdown_steps()[i] == CleanupStep::ClearServer && shutdown_steps()[j]
            == CleanupStep::DisconnectSignaling ==> i < j,
        shutdown_steps()[j] is Flush && i != j ==> i < j,
{
    let steps = shutdown_steps();
    assert(steps[0] == CleanupStep::AbortModeTask);
    assert(steps[1] == CleanupStep::ClearClient);
    assert(steps[2] == CleanupStep::ClearServer);
    assert(steps[3] == CleanupStep::DisconnectSignaling);
    assert(steps[4] == (CleanupStep::Flush { millis: 500 }));
}

/// A tear-down drops the sessions of both modes and then sees to it that no call is
/// taken in between. It leaves the control channel alone.
pub proof fn law_a_teardown_leaves_the_control_channel(i: int)
    requires
        0 <= i < teardown_steps().len(),
    ensures
        teardown_steps().len() == 3,
        teardown_steps().contains(CleanupStep::ClearClient),
        teardown_steps().contains(CleanupStep::ClearServer),
        teardown_steps().last() == CleanupStep::InstallNoopHandler,
        teardown_steps()[i] != CleanupStep::DisconnectSignaling,
        teardown_steps()[i] != CleanupStep::AbortModeTask,
{
    let steps = teardown_steps();
    assert(steps[0] == CleanupStep::ClearClient);
    assert(steps[1] == CleanupStep::ClearServer);
    assert(steps[2] == CleanupStep::InstallNoopHandler);
}

/// The daemon stops when the web interface is gone, when the system asks for it or when
/// the window is closed. It does not stop because a mode came to its end.
pub proof fn law_only_three_things_stop_the_daemon(event: DaemonEvent)
    ensures
        asks_for_an_end(event) <==> event == DaemonEvent::HttpExited || event
            == DaemonEvent::Signal || event == DaemonEvent::ShutdownRequested,
{
}

} // verus!
