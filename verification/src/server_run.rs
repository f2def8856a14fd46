//! Server mode: the choice of NAT, the set-up of each session, and which
//! session's task an event is for.
use crate::peer::PeerId;
use crate::session::SessionEvent;
use crate::text::same_text;
use crate::tun::probe_device;
use crate::tun::probe_tun;
use crate::tun::TunSpec;
use std::collections::HashMap;
use vstd::prelude::*;

verus! {

broadcast use vstd::std_specs::hash::group_hash_axioms;

/// How a server does NAT.
#[derive(Debug, Clone, Copy, PartialEq, Eq, Structural)]
pub enum NatMode {
    /// One kernel TUN device per session.
    Kernel,
    /// In this process.
    Userspace,
}

/// Why server mode could not start.
pub enum ServerError {
    /// There are no kernel TUN devices on this system.
    KernelNatUnsupported,
    /// There is no NAT of this name.
    UnknownNatMode(String),
    /// The probe could not be opened.
    ProbeFailed(String),
}

impl ServerError {
    /// The message for each error.
    pub open spec fn text(&self) -> Seq<char> {
        match self {
            ServerError::KernelNatUnsupported =>
                "server: kernel NAT mode is Unix-only — re-run with --nat-mode userspace"@,
            ServerError::UnknownNatMode(name) => "unknown --nat-mode: "@ + name@,
            ServerError::ProbeFailed(cause) => "server: kernel TUN open failed ("@ + cause@
                + ") — re-run with --nat-mode userspace, or `setcap cap_net_admin+eip $(which bale-vpn)` (Linux) / run as root (macOS) first"@,
        }
    }

    /// The message to display.
    pub fn to_display(&self) -> (s: String)
        ensures
            s@ == self.text(),
    {
        match self {
            ServerError::KernelNatUnsupported =>
                "server: kernel NAT mode is Unix-only — re-run with --nat-mode userspace".to_owned(),
            ServerError::UnknownNatMode(name) => "unknown --nat-mode: ".to_owned().concat(
                name.as_str(),
            ),
            ServerError::ProbeFailed(cause) => "server: kernel TUN open failed (".to_owned().concat(
                cause.as_str(),
            ).concat(
                ") — re-run with --nat-mode userspace, or `setcap cap_net_admin+eip $(which bale-vpn)` (Linux) / run as root (macOS) first",
            ),
        }
    }
}

/// What server mode starts with: how to do NAT, and a device to open and close
/// first, to see whether that is allowed.
pub struct ServerPlan {
    pub nat_mode: NatMode,
    pub probe: Option<TunSpec>,
}

/// The NAT of a given name, where there is one of that name and the system has it.
pub open spec fn nat_named(name: Seq<char>, unix: bool) -> Option<NatMode> {
    if name == "kernel"@ && unix {
        Some(NatMode::Kernel)
    } else if name == "userspace"@ {
        Some(NatMode::Userspace)
    } else {
        None
    }
}

/// Reads the name of the NAT. Kernel NAT is there on Unix only, and is probed
/// for before the server takes calls.
pub fn plan_server(nat_mode: String, unix: bool) -> (r: Result<ServerPlan, ServerError>)
    ensures
        r is Ok <==> nat_named(nat_mode@, unix) is Some,
        r matches Ok(plan) ==> nat_named(nat_mode@, unix) == Some(plan.nat_mode),
        r matches Ok(plan) ==> (plan.probe is Some <==> plan.nat_mode == NatMode::Kernel),
        match r {
            Ok(plan) => match plan.nat_mode {
                NatMode::Kernel => {
                    &&& nat_mode@ == "kernel"@
                    &&& unix
                    &&& plan.probe matches Some(tun) && tun@ == probe_device()
                },
                NatMode::Userspace => {
                    &&& nat_mode@ == "userspace"@
                    &&& plan.probe is None
                },
            },
            Err(ServerError::KernelNatUnsupported) => nat_mode@ == "kernel"@ && !unix,
            Err(ServerError::UnknownNatMode(name)) => name == nat_mode && nat_mode@ != "kernel"@
                && nat_mode@ != "userspace"@,
            Err(ServerError::ProbeFailed(_)) => false,
        },
{
    proof {
        reveal_strlit("kernel");
        reveal_strlit("userspace");
        assert("kernel"@.len() != "userspace"@.len());
    }
    if same_text(nat_mode.as_str(), "kernel") {
        if unix {
            Ok(ServerPlan { nat_mode: NatMode::Kernel, probe: Some(probe_tun()) })
        } else {
            Err(ServerError::KernelNatUnsupported)
        }
    } else if same_text(nat_mode.as_str(), "userspace") {
        Ok(ServerPlan { nat_mode: NatMode::Userspace, probe: None })
    } else {
        Err(ServerError::UnknownNatMode(nat_mode))
    }
}

/// Takes what came of opening the probe.
pub fn judge_probe(opened: Result<(), String>) -> (r: Result<(), ServerError>)
    ensures
        match opened {
            Ok(()) => r is Ok,
            Err(cause) => r == Err::<(), ServerError>(ServerError::ProbeFailed(cause)),
        },
{
    match opened {
        Ok(()) => Ok(()),
        Err(cause) => Err(ServerError::ProbeFailed(cause)),
    }
}

/// What to do next for one session of a server.
#[derive(Debug, Clone, Copy, PartialEq, Eq, Structural)]
pub enum ServerSession {
    /// Take a free slot for a kernel TUN device.
    TakeSlot,
    /// Open the device of a slot.
    OpenTun { slot: u8 },
    /// Attach the device to the tunnel.
    AttachTun { slot: u8 },
    /// Give a slot back, and close the device if it was opened.
    ReleaseSlot { slot: u8, close_device: bool },
    /// Do NAT in this process.
    StartUserspace,
    /// Enter the session among the server's clients, and its slot with it.
    Install { with_slot: Option<u8> },
    /// Wait for the end of the session.
    AwaitEnd,
    /// Take the session out from among the clients.
    Remove,
    /// There is no NAT for the session: tear its tunnel down.
    Disconnect,
    /// Nothing is left to do.
    Over,
}

/// What came of it.
#[derive(Debug, Clone, Copy, PartialEq, Eq, Structural)]
pub enum ServerSessionEvent {
    /// The slot, or none when all are taken.
    SlotTaken(Option<u8>),
    TunOpened { ok: bool },
    TunAttached { ok: bool },
    SlotReleased,
    UserspaceStarted { ok: bool },
    Installed,
    Ended,
    Removed,
    Disconnected,
}

impl ServerSession {
    /// The start of a session: kernel NAT where it is chosen and there is any.
    pub open spec fn initial(nat_mode: NatMode, unix: bool) -> ServerSession {
        if nat_mode == NatMode::Kernel && unix {
            ServerSession::TakeSlot
        } else {
            ServerSession::StartUserspace
        }
    }

    /// What can come of what there is to do.
    pub open spec fn expects(self, event: ServerSessionEvent) -> bool {
        match self {
            ServerSession::TakeSlot => event is SlotTaken,
            ServerSession::OpenTun { .. } => event is TunOpened,
            ServerSession::AttachTun { .. } => event is TunAttached,
            ServerSession::ReleaseSlot { .. } => event is SlotReleased,
            ServerSession::StartUserspace => event is UserspaceStarted,
            ServerSession::Install { .. } => event is Installed,
            ServerSession::AwaitEnd => event is Ended,
            ServerSession::Remove => event is Removed,
            ServerSession::Disconnect => event is Disconnected,
            ServerSession::Over => false,
        }
    }

    /// What to do after each event. Whatever fails on the way to a kernel device
    /// leads to NAT in this process, with the slot given back; only where that
    /// fails too is the session given up.
    pub open spec fn next(self, event: ServerSessionEvent) -> ServerSession {
        match (self, event) {
            (ServerSession::TakeSlot, ServerSessionEvent::SlotTaken(Some(slot))) =>
                ServerSession::OpenTun { slot },
            (ServerSession::TakeSlot, _) => ServerSession::StartUserspace,
            (ServerSession::OpenTun { slot }, ServerSessionEvent::TunOpened { ok: true }) =>
                ServerSession::AttachTun { slot },
            (ServerSession::OpenTun { slot }, _) => ServerSession::ReleaseSlot {
                slot,
                close_device: false,
            },
            (ServerSession::AttachTun { slot }, ServerSessionEvent::TunAttached { ok: true }) =>
                ServerSession::Install { with_slot: Some(slot) },
            (ServerSession::AttachTun { slot }, _) => ServerSession::ReleaseSlot {
                slot,
                close_device: true,
            },
            (ServerSession::ReleaseSlot { .. }, _) => ServerSession::StartUserspace,
            (ServerSession::StartUserspace, ServerSessionEvent::UserspaceStarted { ok: true }) =>
                ServerSession::Install { with_slot: None },
            (ServerSession::StartUserspace, _) => ServerSession::Disconnect,
            (ServerSession::Install { .. }, _) => ServerSession::AwaitEnd,
            (ServerSession::AwaitEnd, _) => ServerSession::Remove,
            (ServerSession::Remove, _) => ServerSession::Over,
            (ServerSession::Disconnect, _) => ServerSession::Over,
            (ServerSession::Over, _) => ServerSession::Over,
        }
    }

    /// The slot that is in the session's hands.
    pub open spec fn holds(self) -> Option<u8> {
        match self {
            ServerSession::OpenTun { slot } => Some(slot),
            ServerSession::AttachTun { slot } => Some(slot),
            ServerSession::ReleaseSlot { slot, .. } => Some(slot),
            ServerSession::Install { with_slot } => with_slot,
            _ => None,
        }
    }

    /// Where a run of events leads.
    pub open spec fn run(self, events: Seq<ServerSessionEvent>) -> ServerSession
        decreases events.len(),
    {
        if events.len() == 0 {
            self
        } else {
            self.run(events.drop_last()).next(events.last())
        }
    }

    /// Whether each event of a run is one that can come where it comes.
    pub open spec fn accepts(self, events: Seq<ServerSessionEvent>) -> bool
        decreases events.len(),
    {
        events.len() > 0 ==> {
            &&& self.accepts(events.drop_last())
            &&& self.run(events.drop_last()).expects(events.last())
        }
    }

    /// The slots that a run takes, in order.
    pub open spec fn taken(self, events: Seq<ServerSessionEvent>) -> Seq<u8>
        decreases events.len(),
    {
        if events.len() == 0 {
            Seq::empty()
        } else {
            match events.last() {
                ServerSessionEvent::SlotTaken(Some(slot)) => self.taken(events.drop_last()).push(
                    slot,
                ),
                _ => self.taken(events.drop_last()),
            }
        }
    }

    /// The slots that a run gives back, in order.
    pub open spec fn given_back(self, events: Seq<ServerSessionEvent>) -> Seq<u8>
        decreases events.len(),
    {
        if events.len() == 0 {
            Seq::empty()
        } else {
            let before = self.given_back(events.drop_last());
            match self.run(events.drop_last()) {
                ServerSession::ReleaseSlot { slot, .. } => before.push(slot),
                _ => before,
            }
        }
    }

    /// The slots that a run hands over with its session, in order.
    pub open spec fn handed_over(self, events: Seq<ServerSessionEvent>) -> Seq<u8>
        decreases events.len(),
    {
        if events.len() == 0 {
            Seq::empty()
        } else {
            let before = self.handed_over(events.drop_last());
            match self.run(events.drop_last()) {
                ServerSession::Install { with_slot: Some(slot) } => before.push(slot),
                _ => before,
            }
        }
    }

    /// The start of a session whose tunnel is ready.
    pub fn new(nat_mode: NatMode, unix: bool) -> (r: ServerSession)
        ensures
            r == ServerSession::initial(nat_mode, unix),
    {
        match nat_mode {
            NatMode::Kernel => if unix {
                ServerSession::TakeSlot
            } else {
                ServerSession::StartUserspace
            },
            NatMode::Userspace => ServerSession::StartUserspace,
        }
    }

    /// Takes what came of what there was to do.
    pub fn step(self, event: ServerSessionEvent) -> (r: ServerSession)
        requires
            self.expects(event),
        ensures
            r == self.next(event),
    {
        match self {
            ServerSession::TakeSlot => match event {
                ServerSessionEvent::SlotTaken(Some(slot)) => ServerSession::OpenTun { slot },
                _ => ServerSession::StartUserspace,
            },
            ServerSession::OpenTun { slot } => match event {
                ServerSessionEvent::TunOpened { ok: true } => ServerSession::AttachTun { slot },
                _ => ServerSession::ReleaseSlot { slot, close_device: false },
            },
            ServerSession::AttachTun { slot } => match event {
                ServerSessionEvent::TunAttached { ok: true } => ServerSession::Install {
                    with_slot: Some(slot),
                },
                _ => ServerSession::ReleaseSlot { slot, close_device: true },
            },
            ServerSession::ReleaseSlot { .. } => ServerSession::StartUserspace,
            ServerSession::StartUserspace => match event {
                ServerSessionEvent::UserspaceStarted { ok: true } => ServerSession::Install {
                    with_slot: None,
                },
                _ => ServerSession::Disconnect,
            },
            ServerSession::Install { .. } => ServerSession::AwaitEnd,
            ServerSession::AwaitEnd => ServerSession::Remove,
            ServerSession::Remove => ServerSession::Over,
            ServerSession::Disconnect => ServerSession::Over,
            ServerSession::Over => ServerSession::Over,
        }
    }
}

/// The task of a session that is up.
pub struct OpenTask {
    pub peer: PeerId,
    pub ticket: u64,
}

/// What contracts say of [`SessionTasks`]. Peers are keyed by identity.
#[verifier::ext_equal]
pub struct TaskBook {
    pub open: Map<usize, OpenTask>,
    pub next: u64,
}

impl TaskBook {
    /// Tasks stand under the identity of their peer, and tickets are numbered
    /// in order.
    pub open spec fn wf(self) -> bool {
        forall|k: usize| #[trigger]
            self.open.contains_key(k) ==> self.open[k].peer@.identity == k && self.open[k].ticket
                < self.next
    }

    /// The ticket of the task for `peer`.
    pub open spec fn ticket_of(self, peer: PeerId) -> Option<u64> {
        if self.open.contains_key(peer@.identity) {
            Some(self.open[peer@.identity].ticket)
        } else {
            None
        }
    }

    /// The ticket of the task that an event of the manager ends.
    pub open spec fn ended_by(self, event: SessionEvent) -> Option<u64> {
        match event {
            SessionEvent::Connected { peer_id, .. } => self.ticket_of(peer_id),
            SessionEvent::Disconnected { peer_id } => self.ticket_of(peer_id),
            SessionEvent::Failed { .. } => None,
        }
    }

    /// The book after an event of the manager.
    pub open spec fn after(self, event: SessionEvent) -> TaskBook {
        match event {
            SessionEvent::Connected { peer_id, .. } => TaskBook {
                open: self.open.insert(
                    peer_id@.identity,
                    OpenTask { peer: peer_id, ticket: self.next },
                ),
                next: (self.next + 1) as u64,
            },
            SessionEvent::Disconnected { peer_id } => TaskBook {
                open: self.open.remove(peer_id@.identity),
                ..self
            },
            SessionEvent::Failed { .. } => self,
        }
    }
}

/// What to do about an event of the manager.
pub enum TaskOrder {
    /// Start a task for the session, under `ticket`, and end `ended`, the task
    /// for the same peer until now.
    Start { peer: PeerId, tunnel: u64, ticket: u64, ended: Option<u64> },
    /// End a task, if there is one.
    End { ended: Option<u64> },
    /// Take the peer's call out of the pending ones, as ignored.
    ClearPending { peer_id: String },
}

/// Which task belongs to which session of a server.
pub struct SessionTasks {
    open: HashMap<usize, OpenTask>,
    next: u64,
}

impl View for SessionTasks {
    type V = TaskBook;

    closed spec fn view(&self) -> TaskBook {
        TaskBook { open: self.open@, next: self.next }
    }
}

impl SessionTasks {
    pub open spec fn wf(&self) -> bool {
        self@.wf()
    }

    /// No tasks.
    pub fn new() -> (r: SessionTasks)
        ensures
            r.wf(),
            r@ == (TaskBook { open: Map::empty(), next: 0 }),
    {
        SessionTasks { open: HashMap::new(), next: 0 }
    }

    /// Whether there is a number left for one more task.
    pub fn can_start(&self) -> (b: bool)
        ensures
            b == (self@.next < u64::MAX),
    {
        self.next < u64::MAX
    }

    /// Takes an event of the manager.
    pub fn on_event(&mut self, event: SessionEvent) -> (r: TaskOrder)
        requires
            old(self).wf(),
            event is Connected ==> old(self)@.next < u64::MAX,
        ensures
            final(self).wf(),
            final(self)@ == old(self)@.after(event),
            r matches TaskOrder::Start { ticket, ended, .. } ==> event is Connected && ticket
                == old(self)@.next && ended == old(self)@.ended_by(event),
            r matches TaskOrder::End { ended } ==> event is Disconnected && ended
                == old(self)@.ended_by(event),
            r is ClearPending <==> event is Failed,
            match event {
                SessionEvent::Connected { peer_id, tunnel } => r == (TaskOrder::Start {
                    peer: peer_id,
                    tunnel,
                    ticket: old(self)@.next,
                    ended: old(self)@.ticket_of(peer_id),
                }),
                SessionEvent::Disconnected { peer_id } => r == (TaskOrder::End {
                    ended: old(self)@.ticket_of(peer_id),
                }),
                SessionEvent::Failed { peer_id } => r matches TaskOrder::ClearPending {
                    peer_id: id,
                } && id@ == peer_id@.id,
            },
    {
        match event {
            SessionEvent::Connected { peer_id, tunnel } => {
                let ticket: u64 = self.next;
                let task = OpenTask { peer: peer_id.clone(), ticket };
                let ended = match self.open.insert(peer_id.identity(), task) {
                    Some(earlier) => Some(earlier.ticket),
                    None => None,
                };
                self.next = ticket + 1;
                TaskOrder::Start { peer: peer_id, tunnel, ticket, ended }
            },
            SessionEvent::Disconnected { peer_id } => {
                let ended = match self.open.remove(&peer_id.identity()) {
                    Some(task) => Some(task.ticket),
                    None => None,
                };
                TaskOrder::End { ended }
            },
            SessionEvent::Failed { peer_id } => TaskOrder::ClearPending {
                peer_id: peer_id.to_display(),
            },
        }
    }
}

/// No slot is lost, and none goes two ways: at every moment the slots that the
/// set-up of a session took are those that it gave back, those that it handed
/// over with the session, and the one in its hands.
pub proof fn law_slots_are_accounted_for(
    nat_mode: NatMode,
    unix: bool,
    events: Seq<ServerSessionEvent>,
)
    requires
        ServerSession::initial(nat_mode, unix).accepts(events),
    ensures
        ({
            let start = ServerSession::initial(nat_mode, unix);
            let held = match start.run(events).holds() {
                Some(slot) => seq![slot],
                None => Seq::empty(),
            };
            &&& start.taken(events) == start.given_back(events) + start.handed_over(events) + held
            &&& start.taken(events).len() <= 1
        }),
    decreases events.len(),
{
    let start = ServerSession::initial(nat_mode, unix);
    lemma_slot_is_taken_first(start, events);
    if events.len() > 0 {
        law_slots_are_accounted_for(nat_mode, unix, events.drop_last());
        lemma_slot_is_taken_first(start, events.drop_last());
    }
    let held = match start.run(events).holds() {
        Some(slot) => seq![slot],
        None => Seq::empty(),
    };
    assert(start.taken(events) =~= start.given_back(events) + start.handed_over(events) + held);
}

/// A session looks for a slot at its start or not at all.
proof fn lemma_slot_is_taken_first(start: ServerSession, events: Seq<ServerSessionEvent>)
    requires
        start == ServerSession::TakeSlot || start == ServerSession::StartUserspace,
        start.accepts(events),
    ensures
        start.run(events) == ServerSession::TakeSlot ==> events.len() == 0,
        start.taken(events).len() <= 1,
    decreases events.len(),
{
    if events.len() > 0 {
        lemma_slot_is_taken_first(start, events.drop_last());
    }
}

/// A session that is given up has given its slot back.
pub proof fn law_a_given_up_session_keeps_no_slot(
    nat_mode: NatMode,
    unix: bool,
    events: Seq<ServerSessionEvent>,
)
    requires
        ServerSession::initial(nat_mode, unix).accepts(events),
        ServerSession::initial(nat_mode, unix).run(events) == ServerSession::Disconnect,
    ensures
        ServerSession::initial(nat_mode, unix).taken(events) == ServerSession::initial(
            nat_mode,
            unix,
        ).given_back(events),
{
    let start = ServerSession::initial(nat_mode, unix);
    law_slots_are_accounted_for(nat_mode, unix, events);
    lemma_nothing_handed_over_before_install(start, events);
    assert(start.given_back(events) + Seq::<u8>::empty() + Seq::<u8>::empty()
        =~= start.given_back(events));
}

/// Whether the set-up is still going on.
spec fn setting_up(state: ServerSession) -> bool {
    !(state is AwaitEnd) && !(state is Remove) && !(state is Over)
}

proof fn lemma_nothing_handed_over_before_install(
    start: ServerSession,
    events: Seq<ServerSessionEvent>,
)
    requires
        start.accepts(events),
        setting_up(start.run(events)),
    ensures
        start.handed_over(events) == Seq::<u8>::empty(),
    decreases events.len(),
{
    if events.len() > 0 {
        lemma_nothing_handed_over_before_install(start, events.drop_last());
    }
}

/// A kernel device that cannot be had is no reason to give a session up: it is
/// torn down only where NAT in this process fails.
pub proof fn law_gives_up_only_without_any_nat(state: ServerSession, event: ServerSessionEvent)
    requires
        state.expects(event),
        state.next(event) == ServerSession::Disconnect,
    ensures
        state == ServerSession::StartUserspace,
        event == (ServerSessionEvent::UserspaceStarted { ok: false }),
{
}

/// The end of a session ends the task that its start began, and no other, as
/// long as the peer has had no other session in between.
pub proof fn law_an_end_ends_its_own_task(book: TaskBook, peer: PeerId, tunnel: u64)
    requires
        book.wf(),
        book.next < u64::MAX,
    ensures
        ({
            let up = book.after(SessionEvent::Connected { peer_id: peer, tunnel });
            let down = up.after(SessionEvent::Disconnected { peer_id: peer });
            &&& up.wf()
            &&& up.ticket_of(peer) == Some(book.next)
            &&& down.ticket_of(peer) is None
            &&& forall|other: PeerId|
                other@.identity != peer@.identity ==> #[trigger] down.ticket_of(other)
                    == book.ticket_of(other)
        }),
{
}

/// A session is taken out from among the clients only when it has ended, however it
/// does NAT: once it is installed, with a slot or without, nothing comes before its
/// end, and nothing but its removal comes after it.
pub proof fn law_an_installed_session_stays_until_it_ends(
    state: ServerSession,
    event: ServerSessionEvent,
)
    requires
        state.expects(event),
    ensures
        state.next(event) == ServerSession::Remove <==> state == ServerSession::AwaitEnd && event
            == ServerSessionEvent::Ended,
        state.next(event) == ServerSession::AwaitEnd <==> state is Install && event
            == ServerSessionEvent::Installed,
        state.next(event) == ServerSession::Over <==> {
            ||| state == ServerSession::Remove && event == ServerSessionEvent::Removed
            ||| state == ServerSession::Disconnect && event == ServerSessionEvent::Disconnected
        },
{
}

/// A session is installed exactly when it has NAT: with its slot when the device of
/// that slot was attached, and without one when NAT in this process was started.
pub proof fn law_a_session_is_installed_with_its_nat(
    state: ServerSession,
    event: ServerSessionEvent,
    slot: u8,
)
    requires
        state.expects(event),
    ensures
        state.next(event) == (ServerSession::Install { with_slot: Some(slot) }) <==> state
            == (ServerSession::AttachTun { slot }) && event == (ServerSessionEvent::TunAttached {
            ok: true,
        }),
        state.next(event) == (ServerSession::Install { with_slot: None }) <==> state
            == ServerSession::StartUserspace && event == (ServerSessionEvent::UserspaceStarted {
            ok: true,
        }),
{
}

/// The device that is opened is that of the slot that was taken, and the one that is
/// attached is the one that was opened.
pub proof fn law_a_device_belongs_to_the_slot_taken(
    state: ServerSession,
    event: ServerSessionEvent,
    slot: u8,
)
    requires
        state.expects(event),
    ensures
        state.next(event) == (ServerSession::OpenTun { slot }) <==> state == ServerSession::TakeSlot
            && event == ServerSessionEvent::SlotTaken(Some(slot)),
        state.next(event) == (ServerSession::AttachTun { slot }) <==> state
            == (ServerSession::OpenTun { slot }) && event == (ServerSessionEvent::TunOpened {
            ok: true,
        }),
        state.next(event) != ServerSession::TakeSlot,
{
}

/// A slot is given back exactly when its device could not be opened or attached, and
/// the device is closed exactly if it had been opened. After that, as where there was
/// no slot to take, the session goes on with NAT in this process; and it is given up
/// exactly where that fails.
pub proof fn law_a_failed_device_leads_to_userspace_nat(
    state: ServerSession,
    event: ServerSessionEvent,
    slot: u8,
)
    requires
        state.expects(event),
    ensures
        state.next(event) == (ServerSession::ReleaseSlot { slot, close_device: false }) <==> state
            == (ServerSession::OpenTun { slot }) && event == (ServerSessionEvent::TunOpened {
            ok: false,
        }),
        state.next(event) == (ServerSession::ReleaseSlot { slot, close_device: true }) <==> state
            == (ServerSession::AttachTun { slot }) && event == (ServerSessionEvent::TunAttached {
            ok: false,
        }),
        state.next(event) == ServerSession::StartUserspace <==> {
            ||| state == ServerSession::TakeSlot && event == ServerSessionEvent::SlotTaken(None)
            ||| state is ReleaseSlot && event == ServerSessionEvent::SlotReleased
        },
        state.next(event) == ServerSession::Disconnect <==> state == ServerSession::StartUserspace
            && event == (ServerSessionEvent::UserspaceStarted { ok: false }),
{
}

/// A session looks for a slot first exactly where kernel NAT was chosen and the
/// system has it, and starts with NAT in this process everywhere else.
pub proof fn law_kernel_nat_is_tried_where_it_is_chosen(nat_mode: NatMode, unix: bool)
    ensures
        ServerSession::initial(nat_mode, unix) == ServerSession::TakeSlot <==> nat_mode
            == NatMode::Kernel && unix,
        ServerSession::initial(nat_mode, unix) == ServerSession::StartUserspace <==> nat_mode
            == NatMode::Userspace || !unix,
{
}

/// Each thing there is to do has its own outcome, and a session that is over has
/// none left.
pub proof fn law_each_step_of_a_session_has_its_outcome(
    state: ServerSession,
    event: ServerSessionEvent,
)
    ensures
        state.expects(event) <==> {
            ||| state is TakeSlot && event is SlotTaken
            ||| state is OpenTun && event is TunOpened
            ||| state is AttachTun && event is TunAttached
            ||| state is ReleaseSlot && event is SlotReleased
            ||| state is StartUserspace && event is UserspaceStarted
            ||| state is Install && event is Installed
            ||| state is AwaitEnd && event is Ended
            ||| state is Remove && event is Removed
            ||| state is Disconnect && event is Disconnected
        },
{
}

/// Whatever happens, a session whose set-up is over was either installed and then
/// ended and removed, or never had any NAT and was torn down: in every run to its end
/// the last but one thing done was the one or the other.
pub proof fn law_a_session_ends_by_removal_or_teardown(
    nat_mode: NatMode,
    unix: bool,
    events: Seq<ServerSessionEvent>,
)
    requires
        ServerSession::initial(nat_mode, unix).accepts(events),
        ServerSession::initial(nat_mode, unix).run(events) == ServerSession::Over,
    ensures
        ({
            let n = events.len() as int;
            ||| {
                &&& n >= 4
                &&& events[n - 1] == ServerSessionEvent::Removed
                &&& events[n - 2] == ServerSessionEvent::Ended
                &&& events[n - 3] == ServerSessionEvent::Installed
            }
            ||| {
                &&& n >= 2
                &&& events[n - 1] == ServerSessionEvent::Disconnected
                &&& events[n - 2] == (ServerSessionEvent::UserspaceStarted { ok: false })
            }
        }),
{
    let start = ServerSession::initial(nat_mode, unix);
    let n = events.len() as int;
    let e1 = events.drop_last();
    let e2 = e1.drop_last();
    let e3 = e2.drop_last();
    assert(start.accepts(e1) && start.run(e1).expects(events[n - 1]));
    assert(start.accepts(e2) && start.run(e2).expects(events[n - 2]));
    if start.run(e1) == ServerSession::Remove {
        assert(start.run(e2) == ServerSession::AwaitEnd);
        assert(start.accepts(e3) && start.run(e3).expects(events[n - 3]));
        assert(start.run(e3) is Install);
    } else {
        assert(start.run(e1) == ServerSession::Disconnect);
        assert(start.run(e2) == ServerSession::StartUserspace);
    }
}

/// Each event of the manager changes the task of its own peer alone: a start puts a
/// new ticket there, an end leaves none, and a failure leaves every task as it is.
pub proof fn law_an_event_changes_its_own_peers_task(
    book: TaskBook,
    peer: PeerId,
    other: PeerId,
    tunnel: u64,
)
    requires
        book.wf(),
        book.next < u64::MAX,
        other@.identity != peer@.identity,
    ensures
        ({
            let up = book.after(SessionEvent::Connected { peer_id: peer, tunnel });
            &&& up.ticket_of(peer) == Some(book.next)
            &&& up.open[peer@.identity].peer == peer
            &&& up.ticket_of(other) == book.ticket_of(other)
            &&& up.next == book.next + 1
        }),
        ({
            let down = book.after(SessionEvent::Disconnected { peer_id: peer });
            &&& down.ticket_of(peer) is None
            &&& down.ticket_of(other) == book.ticket_of(other)
            &&& down.next == book.next
        }),
        book.after(SessionEvent::Failed { peer_id: peer }) == book,
        book.ticket_of(peer) != Some(book.next),
        book.open.contains_key(peer@.identity) ==> book.ticket_of(peer) == Some(
            book.open[peer@.identity].ticket,
        ),
        !book.open.contains_key(peer@.identity) ==> book.ticket_of(peer) is None,
{
}

/// A message names its cause: that of an unknown NAT ends with the name that was
/// given, and that of a failed probe has the system's words in brackets, between a
/// beginning and an end that are the same for every cause.
pub proof fn law_messages_of_a_server_name_their_cause(name: String, a: String, b: String)
    ensures
        ServerError::UnknownNatMode(name).text() == "unknown --nat-mode: "@ + name@,
        ({
            let n = "server: kernel TUN open failed ("@.len() as int;
            let of_a = ServerError::ProbeFailed(a).text();
            let of_b = ServerError::ProbeFailed(b).text();
            &&& of_a.take(n) == "server: kernel TUN open failed ("@
            &&& of_a.subrange(n, n + a@.len()) == a@
            &&& of_a.skip(n + a@.len()) == of_b.skip(n + b@.len())
        }),
{
    let n = "server: kernel TUN open failed ("@.len() as int;
    let of_a = ServerError::ProbeFailed(a).text();
    let of_b = ServerError::ProbeFailed(b).text();
    assert(of_a.take(n) =~= "server: kernel TUN open failed ("@);
    assert(of_a.subrange(n, n + a@.len()) =~= a@);
    assert(of_a.skip(n + a@.len()) =~= of_b.skip(n + b@.len()));
}

/// NAT goes by its exact name. Userspace NAT is there on every system and kernel NAT on
/// Unix alone, and no other name means either.
pub proof fn law_nat_goes_by_its_name(name: Seq<char>, unix: bool)
    ensures
        nat_named(name, unix) == Some(NatMode::Kernel) <==> name == "kernel"@ && unix,
        nat_named(name, unix) == Some(NatMode::Userspace) <==> name == "userspace"@,
        nat_named(name, unix) is None <==> name != "userspace"@ && !(name == "kernel"@ && unix),
{
    reveal_strlit("kernel");
    reveal_strlit("userspace");
    assert("kernel"@.len() == 6);
    assert("userspace"@.len() == 9);
}

/// A task ends with the session that it was started for, or when the same peer has a
/// new one: what an event ends is the task of the peer that it is about, and after it
/// no task has that ticket. A failure ends none.
pub proof fn law_a_task_ends_with_its_session(book: TaskBook, peer: PeerId, tunnel: u64)
    requires
        book.wf(),
        book.next < u64::MAX,
    ensures
        book.ended_by(SessionEvent::Connected { peer_id: peer, tunnel }) == book.ticket_of(peer),
        book.ended_by(SessionEvent::Disconnected { peer_id: peer }) == book.ticket_of(peer),
        book.ended_by(SessionEvent::Failed { peer_id: peer }) is None,
        book.after(SessionEvent::Connected { peer_id: peer, tunnel }).ended_by(
            SessionEvent::Disconnected { peer_id: peer },
        ) == Some(book.next),
        book.after(SessionEvent::Disconnected { peer_id: peer }).ended_by(
            SessionEvent::Disconnected { peer_id: peer },
        ) is None,
{
}

} // verus!
