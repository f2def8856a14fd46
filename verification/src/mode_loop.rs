//! The loop that runs the daemon's modes.
//!
//! Each round waits for the user to sign in, brings the control channel up,
//! waits for a mode to be chosen, runs it, and tears it down. [`ModeLoop`] holds
//! where the loop is. [`ModeLoop::action`] says what to do next, and
//! [`ModeLoop::step`] takes what came of it.
use crate::activation::Mode;
use crate::text::same_text;
use vstd::prelude::*;

verus! {

/// How long to wait before looking for a token again.
pub const AUTH_POLL_MILLIS: u64 = 1000;

/// How long to wait before trying to connect again.
pub const CONNECT_RETRY_MILLIS: u64 = 2000;

/// How long to wait before looking for the handshake again.
pub const HANDSHAKE_POLL_MILLIS: u64 = 250;

/// How many times to wait for the handshake before going on without it.
pub const HANDSHAKE_POLLS: u32 = 40;

/// The mode of a given name.
pub open spec fn mode_named(name: Seq<char>) -> Option<Mode> {
    if name == "client"@ {
        Some(Mode::Client)
    } else if name == "server"@ {
        Some(Mode::Server)
    } else {
        None
    }
}

/// The mode of a given name.
pub fn parse_mode(name: &str) -> (r: Option<Mode>)
    ensures
        r == mode_named(name@),
{
    if same_text(name, "client") {
        Some(Mode::Client)
    } else if same_text(name, "server") {
        Some(Mode::Server)
    } else {
        None
    }
}

/// Which mode to run for a name, or the message that there is none.
pub fn run_one_mode(name: &str) -> (r: Result<Mode, String>)
    ensures
        match mode_named(name@) {
            Some(mode) => r == Ok::<Mode, String>(mode),
            None => r matches Err(text) && text@ == "unknown mode: "@ + name@,
        },
{
    match parse_mode(name) {
        Some(mode) => Ok(mode),
        None => Err("unknown mode: ".to_owned().concat(name)),
    }
}

/// Where the loop is.
#[derive(Debug, Clone, Copy, PartialEq, Eq, Structural)]
pub enum ModeLoop {
    /// At the start of a round: is there a token?
    CheckAuth,
    /// There was none.
    AwaitAuth,
    /// There is one: connect.
    Connect,
    /// That failed.
    Backoff,
    /// Connected, as far as the call goes: is the handshake done?
    Handshake { tries: u32 },
    /// It was not.
    HandshakePause { tries: u32 },
    /// Which mode did the user choose?
    ChooseMode,
    /// None.
    AwaitMode,
    Running { mode: Mode },
    /// A client's call failed: forget whom it was to.
    ForgetPeer,
    /// The mode is over. With `exit`, so is the loop.
    TearDown { exit: bool },
    Exited,
}

/// What to do next.
#[derive(Debug, Clone, Copy, PartialEq, Eq, Structural)]
pub enum LoopAction {
    QueryAuthenticated,
    Sleep { millis: u64 },
    Connect,
    QueryConnected,
    ReadMode,
    AwaitModeChange,
    /// Run a mode until it ends or the user chooses anew.
    Run { mode: Mode },
    ForgetPeer,
    TearDown,
    Exit,
}

/// What came of it.
pub enum LoopEvent {
    Authenticated(bool),
    Slept,
    /// Whether the call to connect went through.
    ConnectResult(bool),
    /// Whether the handshake is done.
    Connected(bool),
    /// The name of the mode in the configuration.
    ModeRead(Option<String>),
    ModeChanged,
    /// Nobody can choose a mode any more.
    ModeChannelClosed,
    /// The mode came to its end, with an error or without.
    RunEnded { ok: bool },
    PeerForgotten,
    TornDown,
}

impl ModeLoop {
    /// The loop counts no further than it waits.
    pub open spec fn wf(self) -> bool {
        match self {
            ModeLoop::Handshake { tries } => tries <= HANDSHAKE_POLLS,
            ModeLoop::HandshakePause { tries } => tries < HANDSHAKE_POLLS,
            _ => true,
        }
    }

    /// What there is to do in each place.
    pub open spec fn to_do(self) -> LoopAction {
        match self {
            ModeLoop::CheckAuth => LoopAction::QueryAuthenticated,
            ModeLoop::AwaitAuth => LoopAction::Sleep { millis: AUTH_POLL_MILLIS },
            ModeLoop::Connect => LoopAction::Connect,
            ModeLoop::Backoff => LoopAction::Sleep { millis: CONNECT_RETRY_MILLIS },
            ModeLoop::Handshake { .. } => LoopAction::QueryConnected,
            ModeLoop::HandshakePause { .. } => LoopAction::Sleep { millis: HANDSHAKE_POLL_MILLIS },
            ModeLoop::ChooseMode => LoopAction::ReadMode,
            ModeLoop::AwaitMode => LoopAction::AwaitModeChange,
            ModeLoop::Running { mode } => LoopAction::Run { mode },
            ModeLoop::ForgetPeer => LoopAction::ForgetPeer,
            ModeLoop::TearDown { .. } => LoopAction::TearDown,
            ModeLoop::Exited => LoopAction::Exit,
        }
    }

    /// What can come of it.
    pub open spec fn expects(self, event: LoopEvent) -> bool {
        match self.to_do() {
            LoopAction::QueryAuthenticated => event is Authenticated,
            LoopAction::Sleep { .. } => event is Slept,
            LoopAction::Connect => event is ConnectResult,
            LoopAction::QueryConnected => event is Connected,
            LoopAction::ReadMode => event is ModeRead,
            LoopAction::AwaitModeChange => event is ModeChanged || event is ModeChannelClosed,
            LoopAction::Run { .. } => event is RunEnded || event is ModeChanged
                || event is ModeChannelClosed,
            LoopAction::ForgetPeer => event is PeerForgotten,
            LoopAction::TearDown => event is TornDown,
            LoopAction::Exit => false,
        }
    }

    /// Where the loop goes from each place.
    pub open spec fn next(self, event: LoopEvent) -> ModeLoop {
        match (self, event) {
            (ModeLoop::CheckAuth, LoopEvent::Authenticated(true)) => ModeLoop::Connect,
            (ModeLoop::CheckAuth, _) => ModeLoop::AwaitAuth,
            (ModeLoop::AwaitAuth, _) => ModeLoop::CheckAuth,
            (ModeLoop::Connect, LoopEvent::ConnectResult(true)) => ModeLoop::Handshake { tries: 0 },
            (ModeLoop::Connect, _) => ModeLoop::Backoff,
            (ModeLoop::Backoff, _) => ModeLoop::CheckAuth,
            (ModeLoop::Handshake { tries }, LoopEvent::Connected(false)) if tries
                < HANDSHAKE_POLLS => ModeLoop::HandshakePause { tries },
            (ModeLoop::Handshake { .. }, _) => ModeLoop::ChooseMode,
            (ModeLoop::HandshakePause { tries }, _) => ModeLoop::Handshake {
                tries: (tries + 1) as u32,
            },
            (ModeLoop::ChooseMode, LoopEvent::ModeRead(Some(name))) => match mode_named(name@) {
                Some(mode) => ModeLoop::Running { mode },
                None => ModeLoop::AwaitMode,
            },
            (ModeLoop::ChooseMode, _) => ModeLoop::AwaitMode,
            (ModeLoop::AwaitMode, LoopEvent::ModeChannelClosed) => ModeLoop::TearDown {
                exit: true,
            },
            (ModeLoop::AwaitMode, _) => ModeLoop::CheckAuth,
            (ModeLoop::Running { mode: Mode::Client }, LoopEvent::RunEnded { ok: false }) =>
                ModeLoop::ForgetPeer,
            (ModeLoop::Running { .. }, LoopEvent::ModeChannelClosed) => ModeLoop::TearDown {
                exit: true,
            },
            (ModeLoop::Running { .. }, _) => ModeLoop::TearDown { exit: false },
            (ModeLoop::ForgetPeer, _) => ModeLoop::TearDown { exit: false },
            (ModeLoop::TearDown { exit: true }, _) => ModeLoop::Exited,
            (ModeLoop::TearDown { exit: false }, _) => ModeLoop::CheckAuth,
            (ModeLoop::Exited, _) => ModeLoop::Exited,
        }
    }

    /// Where a run of events leads.
    pub open spec fn run(self, events: Seq<LoopEvent>) -> ModeLoop
        decreases events.len(),
    {
        if events.len() == 0 {
            self
        } else {
            self.run(events.drop_last()).next(events.last())
        }
    }

    /// Whether each event of a run is one that can come where it comes.
    pub open spec fn accepts(self, events: Seq<LoopEvent>) -> bool
        decreases events.len(),
    {
        events.len() > 0 ==> {
            &&& self.accepts(events.drop_last())
            &&& self.run(events.drop_last()).expects(events.last())
        }
    }

    /// The start of the loop.
    pub fn new() -> (r: ModeLoop)
        ensures
            r == ModeLoop::CheckAuth,
            r.wf(),
    {
        ModeLoop::CheckAuth
    }

    /// What to do next.
    pub fn action(self) -> (r: LoopAction)
        ensures
            r == self.to_do(),
    {
        match self {
            ModeLoop::CheckAuth => LoopAction::QueryAuthenticated,
            ModeLoop::AwaitAuth => LoopAction::Sleep { millis: AUTH_POLL_MILLIS },
            ModeLoop::Connect => LoopAction::Connect,
            ModeLoop::Backoff => LoopAction::Sleep { millis: CONNECT_RETRY_MILLIS },
            ModeLoop::Handshake { .. } => LoopAction::QueryConnected,
            ModeLoop::HandshakePause { .. } => LoopAction::Sleep { millis: HANDSHAKE_POLL_MILLIS },
            ModeLoop::ChooseMode => LoopAction::ReadMode,
            ModeLoop::AwaitMode => LoopAction::AwaitModeChange,
            ModeLoop::Running { mode } => LoopAction::Run { mode },
            ModeLoop::ForgetPeer => LoopAction::ForgetPeer,
            ModeLoop::TearDown { .. } => LoopAction::TearDown,
            ModeLoop::Exited => LoopAction::Exit,
        }
    }

    /// Takes what came of it.
    pub fn step(self, event: LoopEvent) -> (r: ModeLoop)
        requires
            self.wf(),
            self.expects(event),
        ensures
            r.wf(),
            r == self.next(event),
    {
        match self {
            ModeLoop::CheckAuth => match event {
                LoopEvent::Authenticated(true) => ModeLoop::Connect,
                _ => ModeLoop::AwaitAuth,
            },
            ModeLoop::AwaitAuth => ModeLoop::CheckAuth,
            ModeLoop::Connect => match event {
                LoopEvent::ConnectResult(true) => ModeLoop::Handshake { tries: 0 },
                _ => ModeLoop::Backoff,
            },
            ModeLoop::Backoff => ModeLoop::CheckAuth,
            ModeLoop::Handshake { tries } => match event {
                LoopEvent::Connected(false) => if tries < HANDSHAKE_POLLS {
                    ModeLoop::HandshakePause { tries }
                } else {
                    ModeLoop::ChooseMode
                },
                _ => ModeLoop::ChooseMode,
            },
            ModeLoop::HandshakePause { tries } => ModeLoop::Handshake { tries: tries + 1 },
            ModeLoop::ChooseMode => match event {
                LoopEvent::ModeRead(Some(name)) => match parse_mode(name.as_str()) {
                    Some(mode) => ModeLoop::Running { mode },
                    None => ModeLoop::AwaitMode,
                },
                _ => ModeLoop::AwaitMode,
            },
            ModeLoop::AwaitMode => match event {
                LoopEvent::ModeChannelClosed => ModeLoop::TearDown { exit: true },
                _ => ModeLoop::CheckAuth,
            },
            ModeLoop::Running { mode } => match event {
                LoopEvent::RunEnded { ok } => match mode {
                    Mode::Client => if ok {
                        ModeLoop::TearDown { exit: false }
                    } else {
                        ModeLoop::ForgetPeer
                    },
                    Mode::Server => ModeLoop::TearDown { exit: false },
                },
                LoopEvent::ModeChannelClosed => ModeLoop::TearDown { exit: true },
                _ => ModeLoop::TearDown { exit: false },
            },
            ModeLoop::ForgetPeer => ModeLoop::TearDown { exit: false },
            ModeLoop::TearDown { exit } => if exit {
                ModeLoop::Exited
            } else {
                ModeLoop::CheckAuth
            },
            ModeLoop::Exited => ModeLoop::Exited,
        }
    }
}

/// The loop connects only right after it has seen a token.
pub proof fn law_connects_only_with_a_token(state: ModeLoop, event: LoopEvent)
    requires
        state.expects(event),
        state.next(event) == ModeLoop::Connect,
    ensures
        state == ModeLoop::CheckAuth,
        event == LoopEvent::Authenticated(true),
{
}

/// A mode runs only when the user chose it by its name, after the handshake was
/// seen or given up on.
pub proof fn law_runs_only_a_chosen_mode(state: ModeLoop, event: LoopEvent, mode: Mode)
    requires
        state.expects(event),
        state.next(event) == (ModeLoop::Running { mode }),
    ensures
        state == ModeLoop::ChooseMode,
        event matches LoopEvent::ModeRead(Some(name)) && mode_named(name@) == Some(mode),
{
}

/// However a mode ends, it is torn down before anything else is done, but for
/// one thing: after an error in client mode the peer is forgotten first, so the
/// next round calls nobody.
pub proof fn law_every_mode_is_torn_down(mode: Mode, event: LoopEvent, after: LoopEvent)
    requires
        (ModeLoop::Running { mode }).expects(event),
        (ModeLoop::Running { mode }).next(event).expects(after),
    ensures
        ({
            let then = (ModeLoop::Running { mode }).next(event);
            let client_error = mode == Mode::Client && event == (LoopEvent::RunEnded { ok: false });
            &&& client_error ==> then == ModeLoop::ForgetPeer && then.next(after) is TearDown
            &&& !client_error ==> then is TearDown
        }),
{
}

/// The loop ends only when nobody can choose a mode any more, and only after a
/// tear-down.
pub proof fn law_exits_only_when_the_choice_is_closed(
    state: ModeLoop,
    event: LoopEvent,
    after: LoopEvent,
)
    requires
        state.expects(event),
        state.next(event).expects(after),
        state.next(event).next(after) == ModeLoop::Exited,
    ensures
        event == LoopEvent::ModeChannelClosed,
        state.next(event) == (ModeLoop::TearDown { exit: true }),
{
}

/// Waiting for the handshake is bounded: the loop pauses no more than
/// [`HANDSHAKE_POLLS`] times. As long as it is still at it, it has taken two
/// events for each pause, so it is never at it for longer than twice that.
pub proof fn law_handshake_wait_is_bounded(events: Seq<LoopEvent>)
    requires
        (ModeLoop::Handshake { tries: 0 }).accepts(events),
        forall|n: int|
            0 <= n <= events.len() ==> ({
                let at = (ModeLoop::Handshake { tries: 0 }).run(#[trigger] events.take(n));
                at is Handshake || at is HandshakePause
            }),
    ensures
        events.len() <= 2 * HANDSHAKE_POLLS,
{
    lemma_handshake_progress(events);
}

/// How far the wait for the handshake has come after so many events.
proof fn lemma_handshake_progress(events: Seq<LoopEvent>)
    requires
        (ModeLoop::Handshake { tries: 0 }).accepts(events),
        forall|n: int|
            0 <= n <= events.len() ==> ({
                let at = (ModeLoop::Handshake { tries: 0 }).run(#[trigger] events.take(n));
                at is Handshake || at is HandshakePause
            }),
    ensures
        events.len() <= 2 * HANDSHAKE_POLLS,
        (ModeLoop::Handshake { tries: 0 }).run(events) == (if events.len() % 2 == 0 {
            ModeLoop::Handshake { tries: (events.len() / 2) as u32 }
        } else {
            ModeLoop::HandshakePause { tries: (events.len() / 2) as u32 }
        }),
    decreases events.len(),
{
    if events.len() > 0 {
        let rest = events.drop_last();
        assert forall|n: int| 0 <= n <= rest.len() implies ({
            let at = (ModeLoop::Handshake { tries: 0 }).run(#[trigger] rest.take(n));
            at is Handshake || at is HandshakePause
        }) by {
            assert(rest.take(n) =~= events.take(n));
        }
        lemma_handshake_progress(rest);
        assert(events.take(events.len() as int) =~= events);
    }
}

/// After the last pause the loop goes on, whether the handshake is done or not.
pub proof fn law_handshake_wait_gives_up(event: LoopEvent)
    requires
        event is Connected,
    ensures
        (ModeLoop::Handshake { tries: HANDSHAKE_POLLS }).next(event) == ModeLoop::ChooseMode,
{
}

/// A mode is meant by its exact name and by nothing else.
pub proof fn law_modes_go_by_their_names(name: Seq<char>)
    ensures
        mode_named(name) == Some(Mode::Client) <==> name == "client"@,
        mode_named(name) == Some(Mode::Server) <==> name == "server"@,
        mode_named(name) is None <==> name != "client"@ && name != "server"@,
{
    reveal_strlit("client");
    reveal_strlit("server");
    assert("client"@[0] == 'c');
    assert("server"@[0] == 's');
}

/// A round begins with the question for a token. Without one the loop waits a second
/// and asks again, for as long as it takes, and with one it connects.
pub proof fn law_a_round_begins_with_a_token(state: ModeLoop, event: LoopEvent)
    requires
        state.expects(event),
    ensures
        state.next(event) == ModeLoop::AwaitAuth <==> state == ModeLoop::CheckAuth && event
            == LoopEvent::Authenticated(false),
        state.next(event) == ModeLoop::Connect <==> state == ModeLoop::CheckAuth && event
            == LoopEvent::Authenticated(true),
        state.next(event) == ModeLoop::CheckAuth <==> {
            ||| state == ModeLoop::AwaitAuth
            ||| state == ModeLoop::Backoff
            ||| state == ModeLoop::AwaitMode && event == LoopEvent::ModeChanged
            ||| state == (ModeLoop::TearDown { exit: false })
        },
{
}

/// A connect that fails is tried again from the token on, after a pause. One that
/// goes through is followed by the wait for the handshake: each time the handshake is
/// not there the loop pauses once, forty times at most, and it goes on as soon as the
/// handshake is there or the pauses are used up.
pub proof fn law_the_handshake_is_waited_for(state: ModeLoop, event: LoopEvent, tries: u32)
    requires
        state.wf(),
        state.expects(event),
    ensures
        state.next(event) == ModeLoop::Backoff <==> state == ModeLoop::Connect && event
            == LoopEvent::ConnectResult(false),
        state.next(event) == (ModeLoop::Handshake { tries: 0 }) <==> state == ModeLoop::Connect
            && event == LoopEvent::ConnectResult(true),
        tries > 0 ==> (state.next(event) == (ModeLoop::Handshake { tries }) <==> state
            == (ModeLoop::HandshakePause { tries: (tries - 1) as u32 })),
        state.next(event) == (ModeLoop::HandshakePause { tries }) <==> tries < 40 && state
            == (ModeLoop::Handshake { tries }) && event == LoopEvent::Connected(false),
        state.next(event) == ModeLoop::ChooseMode <==> {
            ||| state is Handshake && event == LoopEvent::Connected(true)
            ||| state == (ModeLoop::Handshake { tries: 40 })
        },
{
}

/// The mode that runs is the one that the configuration names. Where it names none,
/// or none that there is, the loop waits for a choice, and goes through a whole round
/// again once there is one.
pub proof fn law_the_mode_named_is_run(state: ModeLoop, event: LoopEvent)
    requires
        state.expects(event),
    ensures
        state.next(event) == (ModeLoop::Running { mode: Mode::Client }) <==> state
            == ModeLoop::ChooseMode && (event matches LoopEvent::ModeRead(Some(name)) && name@
            == "client"@),
        state.next(event) == (ModeLoop::Running { mode: Mode::Server }) <==> state
            == ModeLoop::ChooseMode && (event matches LoopEvent::ModeRead(Some(name)) && name@
            == "server"@),
        state.next(event) == ModeLoop::AwaitMode <==> state == ModeLoop::ChooseMode && !(
        event matches LoopEvent::ModeRead(Some(name)) && (name@ == "client"@ || name@
            == "server"@)),
{
    law_modes_go_by_their_names("client"@);
    law_modes_go_by_their_names("server"@);
}

/// A peer is forgotten exactly after an error of a client. The loop is torn down for
/// good exactly when nobody can choose any more, be it while a mode runs or while
/// none does, and it is torn down to go on after every other end of a mode.
pub proof fn law_how_a_mode_ends_decides_what_follows(state: ModeLoop, event: LoopEvent)
    requires
        state.expects(event),
    ensures
        state.next(event) == ModeLoop::ForgetPeer <==> state == (ModeLoop::Running {
            mode: Mode::Client,
        }) && event == (LoopEvent::RunEnded { ok: false }),
        state.next(event) == (ModeLoop::TearDown { exit: true }) <==> event
            == LoopEvent::ModeChannelClosed,
        state.next(event) == (ModeLoop::TearDown { exit: false }) <==> {
            ||| state == ModeLoop::ForgetPeer
            ||| state is Running && event == LoopEvent::ModeChanged
            ||| state is Running && event == (LoopEvent::RunEnded { ok: true })
            ||| state == (ModeLoop::Running { mode: Mode::Server }) && event
                == (LoopEvent::RunEnded { ok: false })
        },
        state.next(event) == ModeLoop::Exited <==> state == (ModeLoop::TearDown { exit: true }),
{
}

/// Each place in the loop has one thing to do, and no two kinds of place have the
/// same one but for the pauses, which last a second without a token, two after a
/// failed connect and a quarter of one for the handshake.
pub proof fn law_each_place_has_its_own_task(state: ModeLoop, mode: Mode)
    ensures
        state.to_do() == LoopAction::QueryAuthenticated <==> state == ModeLoop::CheckAuth,
        state.to_do() == (LoopAction::Sleep { millis: 1000 }) <==> state == ModeLoop::AwaitAuth,
        state.to_do() == LoopAction::Connect <==> state == ModeLoop::Connect,
        state.to_do() == (LoopAction::Sleep { millis: 2000 }) <==> state == ModeLoop::Backoff,
        state.to_do() == LoopAction::QueryConnected <==> state is Handshake,
        state.to_do() == (LoopAction::Sleep { millis: 250 }) <==> state is HandshakePause,
        state.to_do() == LoopAction::ReadMode <==> state == ModeLoop::ChooseMode,
        state.to_do() == LoopAction::AwaitModeChange <==> state == ModeLoop::AwaitMode,
        state.to_do() == (LoopAction::Run { mode }) <==> state == (ModeLoop::Running { mode }),
        state.to_do() == LoopAction::ForgetPeer <==> state == ModeLoop::ForgetPeer,
        state.to_do() == LoopAction::TearDown <==> state is TearDown,
        state.to_do() == LoopAction::Exit <==> state == ModeLoop::Exited,
{
}

/// What can come of each task is its own outcome; while a mode is awaited or runs the
/// user may also choose, or be gone. Nothing comes once the loop has ended.
pub proof fn law_each_task_of_the_loop_has_its_outcome(state: ModeLoop, event: LoopEvent)
    ensures
        state.expects(event) <==> {
            ||| state is CheckAuth && event is Authenticated
            ||| (state is AwaitAuth || state is Backoff || state is HandshakePause)
                && event is Slept
            ||| state is Connect && event is ConnectResult
            ||| state is Handshake && event is Connected
            ||| state is ChooseMode && event is ModeRead
            ||| (state is AwaitMode || state is Running) && (event is ModeChanged
                || event is ModeChannelClosed)
            ||| state is Running && event is RunEnded
            ||| state is ForgetPeer && event is PeerForgotten
            ||| state is TearDown && event is TornDown
        },
{
}

/// Once a client has failed, the next mode that runs does so only after the peer was
/// forgotten, the mode torn down, and the token and the channel looked after anew: a
/// run from the failure to a running mode is at least six events long and begins with
/// those.
pub proof fn law_a_failed_client_starts_over(events: Seq<LoopEvent>, mode: Mode)
    requires
        events.len() > 0,
        events[0] == (LoopEvent::RunEnded { ok: false }),
        (ModeLoop::Running { mode: Mode::Client }).accepts(events),
        (ModeLoop::Running { mode: Mode::Client }).run(events) == (ModeLoop::Running { mode }),
    ensures
        events.len() >= 6,
        events[1] == LoopEvent::PeerForgotten,
        events[2] == LoopEvent::TornDown,
        events[3] is Authenticated,
{
    let start = ModeLoop::Running { mode: Mode::Client };
    lemma_prefix(start, events, 1);
    lemma_prefix(start, events, 2);
    lemma_prefix(start, events, 3);
    lemma_prefix(start, events, 4);
    lemma_prefix(start, events, 5);
    assert(events.take(0) =~= Seq::<LoopEvent>::empty());
    let n = events.len() as int;
    assert(events.take(n) =~= events);
}

/// A run up to its `n`th event, from the one before.
proof fn lemma_prefix(start: ModeLoop, events: Seq<LoopEvent>, n: int)
    requires
        n >= 1,
        start.accepts(events),
    ensures
        n <= events.len() ==> {
            &&& start.run(events.take(n)) == start.run(events.take(n - 1)).next(events[n - 1])
            &&& start.run(events.take(n - 1)).expects(events[n - 1])
        },
    decreases events.len(),
{
    if n < events.len() {
        lemma_prefix(start, events.drop_last(), n);
        assert(events.drop_last().take(n) =~= events.take(n));
        assert(events.drop_last().take(n - 1) =~= events.take(n - 1));
    } else if n == events.len() {
        assert(events.take(n) =~= events);
        assert(events.take(n - 1) =~= events.drop_last());
    }
}

} // verus!
