//! What crosses between the library and an application on the JVM, as plain
//! numbers and strings.
use crate::session::SessionEvent;
use crate::signaling::CallDecision;
use crate::signaling::PlaceCallError;
use vstd::prelude::*;

verus! {

/// How a request to place a call went.
pub enum PlaceCallReport {
    /// The handle names no manager.
    BadHandle,
    /// The provider does not know the peer.
    UnknownPeer,
    /// The call was placed, or could not be.
    Placed(Result<(), PlaceCallError>),
}

/// The number that stands for each report.
pub open spec fn report_number(report: PlaceCallReport) -> i32 {
    match report {
        PlaceCallReport::Placed(Ok(())) => 0,
        PlaceCallReport::Placed(Err(PlaceCallError::Rejected)) => 1,
        PlaceCallReport::Placed(Err(PlaceCallError::NoPeer)) => 2,
        PlaceCallReport::UnknownPeer => 2,
        PlaceCallReport::Placed(Err(PlaceCallError::NotAuthenticated)) => 3,
        PlaceCallReport::Placed(Err(PlaceCallError::Transport(_))) => 4,
        PlaceCallReport::BadHandle => 5,
    }
}

/// The number that stands for a report.
pub fn place_call_code(report: &PlaceCallReport) -> (code: i32)
    ensures
        code == report_number(*report),
{
    match report {
        PlaceCallReport::BadHandle => 5,
        PlaceCallReport::UnknownPeer => 2,
        PlaceCallReport::Placed(Ok(())) => 0,
        PlaceCallReport::Placed(Err(e)) => match e {
            PlaceCallError::Rejected => 1,
            PlaceCallError::NoPeer => 2,
            PlaceCallError::NotAuthenticated => 3,
            PlaceCallError::Transport(_) => 4,
        },
    }
}

/// What came of asking the application about an incoming call.
#[derive(Debug, Clone, Copy, PartialEq, Eq, Structural)]
pub enum DeciderReply {
    /// The application could not be reached.
    Unreachable,
    /// It threw an exception.
    Threw,
    /// It answered something that is not a number.
    NotANumber,
    Code(i32),
}

/// The decision that a reply stands for. A call is accepted or rejected only on
/// an express word; everything else is silence.
pub open spec fn decision_of(reply: DeciderReply) -> CallDecision {
    if reply == DeciderReply::Code(0) {
        CallDecision::Accept
    } else if reply == DeciderReply::Code(1) {
        CallDecision::Reject
    } else {
        CallDecision::SilentlyIgnore
    }
}

/// The decision that a reply stands for.
pub fn read_decision(reply: DeciderReply) -> (decision: CallDecision)
    ensures
        decision == decision_of(reply),
{
    match reply {
        DeciderReply::Code(code) => if code == 0 {
            CallDecision::Accept
        } else if code == 1 {
            CallDecision::Reject
        } else {
            CallDecision::SilentlyIgnore
        },
        _ => CallDecision::SilentlyIgnore,
    }
}

/// A method of the application's session listener.
#[derive(Debug, Clone, Copy, PartialEq, Eq, Structural)]
pub enum ListenerMethod {
    OnConnected,
    OnDisconnected,
    OnFailed,
}

impl ListenerMethod {
    /// The name of each method.
    pub open spec fn name_text(self) -> Seq<char> {
        match self {
            ListenerMethod::OnConnected => "onConnected"@,
            ListenerMethod::OnDisconnected => "onDisconnected"@,
            ListenerMethod::OnFailed => "onFailed"@,
        }
    }

    /// The signature of each method: the peer, and for `onConnected` the handle
    /// of the tunnel.
    pub open spec fn signature_text(self) -> Seq<char> {
        match self {
            ListenerMethod::OnConnected => "(Ljava/lang/String;J)V"@,
            _ => "(Ljava/lang/String;)V"@,
        }
    }

    /// The name of the method.
    pub fn name(self) -> (s: &'static str)
        ensures
            s@ == self.name_text(),
    {
        match self {
            ListenerMethod::OnConnected => "onConnected",
            ListenerMethod::OnDisconnected => "onDisconnected",
            ListenerMethod::OnFailed => "onFailed",
        }
    }

    /// The signature of the method.
    pub fn signature(self) -> (s: &'static str)
        ensures
            s@ == self.signature_text(),
    {
        match self {
            ListenerMethod::OnConnected => "(Ljava/lang/String;J)V",
            _ => "(Ljava/lang/String;)V",
        }
    }
}

/// A call of the application's session listener. With a tunnel, the handle of
/// the tunnel goes along.
pub struct ListenerCall {
    pub method: ListenerMethod,
    pub peer_id: String,
    pub tunnel: Option<u64>,
}

/// The call that tells the listener of an event.
pub fn listener_call(event: &SessionEvent) -> (call: ListenerCall)
    ensures
        match event {
            SessionEvent::Connected { peer_id, tunnel } => {
                &&& call.method == ListenerMethod::OnConnected
                &&& call.peer_id@ == peer_id@.id
                &&& call.tunnel == Some(*tunnel)
            },
            SessionEvent::Disconnected { peer_id } => {
                &&& call.method == ListenerMethod::OnDisconnected
                &&& call.peer_id@ == peer_id@.id
                &&& call.tunnel is None
            },
            SessionEvent::Failed { peer_id } => {
                &&& call.method == ListenerMethod::OnFailed
                &&& call.peer_id@ == peer_id@.id
                &&& call.tunnel is None
            },
        },
{
    match event {
        SessionEvent::Connected { peer_id, tunnel } => ListenerCall {
            method: ListenerMethod::OnConnected,
            peer_id: peer_id.to_display(),
            tunnel: Some(*tunnel),
        },
        SessionEvent::Disconnected { peer_id } => ListenerCall {
            method: ListenerMethod::OnDisconnected,
            peer_id: peer_id.to_display(),
            tunnel: None,
        },
        SessionEvent::Failed { peer_id } => ListenerCall {
            method: ListenerMethod::OnFailed,
            peer_id: peer_id.to_display(),
            tunnel: None,
        },
    }
}

/// A truth value of the JVM, where anything but zero is true.
pub fn flag_is_set(flag: u8) -> (b: bool)
    ensures
        b == (flag != 0),
{
    flag != 0
}

/// The answer to a question about a tunnel, as a truth value of the JVM: no
/// answer, as for a handle that names no tunnel, is a no.
pub fn answer_flag(answer: Option<bool>) -> (flag: u8)
    ensures
        flag == (if answer == Some(true) {
            1
        } else {
            0int
        }),
{
    match answer {
        Some(true) => 1,
        _ => 0,
    }
}

/// The port that a number of the JVM stands for.
pub open spec fn port_of(port: int) -> int {
    if port < 0 {
        0
    } else {
        port % 0x1_0000
    }
}

/// The port to listen on. A negative one stands for none in particular, and of
/// one that is too large the low 16 bits count.
pub fn requested_port(port: i32) -> (r: u16)
    ensures
        r == port_of(port as int),
        r == (if port < 0 {
            0
        } else {
            port as int % 0x1_0000
        }),
{
    if port < 0 {
        0
    } else {
        let low: i32 = port % 0x1_0000;
        low as u16
    }
}

/// The port that a listener is bound to, and zero where there is none.
pub fn bound_port(bound: Option<u16>) -> (r: i32)
    ensures
        r == match bound {
            Some(port) => port as int,
            None => 0,
        },
{
    match bound {
        Some(port) => port as i32,
        None => 0,
    }
}

/// A counter as a signed number of the same bits.
pub open spec fn signed(n: u64) -> int {
    if n <= i64::MAX {
        n as int
    } else {
        n - 0x1_0000_0000_0000_0000
    }
}

fn to_signed(n: u64) -> (r: i64)
    ensures
        r == signed(n),
{
    let r: i64 = #[verifier::truncate]
    (n as i64);
    assert(n <= 0x7fff_ffff_ffff_ffff ==> n as i64 == n) by (bit_vector);
    assert(n > 0x7fff_ffff_ffff_ffff ==> n as i64 == n - 0x1_0000_0000_0000_0000) by (bit_vector);
    r
}

/// The traffic counters of a tunnel, as a row for the JVM.
pub fn stats_row(stats: [u64; 4]) -> (row: Vec<i64>)
    ensures
        row@.len() == 4,
        forall|i: int| 0 <= i < 4 ==> #[trigger] row@[i] == signed(stats@[i]),
{
    let mut row: Vec<i64> = Vec::new();
    let mut i: usize = 0;
    while i < 4
        invariant
            i <= 4,
            row@.len() == i,
            forall|j: int| 0 <= j < i ==> #[trigger] row@[j] == signed(stats@[j]),
        decreases 4 - i,
    {
        row.push(to_signed(stats[i]));
        i += 1;
    }
    row
}

/// The state of a tunnel's flows.
pub struct FlowStats {
    pub tcp_flows: u64,
    pub udp_flows: u64,
    pub srtt_min_ms: u64,
    pub srtt_med_ms: u64,
    pub srtt_max_ms: u64,
    pub rttvar_med_ms: u64,
    pub rto_med_ms: u64,
    pub flight_total_bytes: u64,
    pub rto_retx_total: u64,
    /// How many TCP flows are in each state.
    pub tcp_state_counts: [u64; 11],
}

impl FlowStats {
    /// The figures in the order in which the JVM has them: the nine totals, then
    /// the count of each TCP state.
    pub open spec fn figures(&self) -> Seq<u64> {
        seq![
            self.tcp_flows,
            self.udp_flows,
            self.srtt_min_ms,
            self.srtt_med_ms,
            self.srtt_max_ms,
            self.rttvar_med_ms,
            self.rto_med_ms,
            self.flight_total_bytes,
            self.rto_retx_total,
        ] + self.tcp_state_counts@
    }

    /// The figures as a row for the JVM.
    pub fn row(&self) -> (row: Vec<i64>)
        ensures
            row@.len() == 20,
            row@.len() == self.figures().len(),
            forall|i: int| 0 <= i < row@.len() ==> #[trigger] row@[i] == signed(self.figures()[i]),
    {
        let mut row: Vec<i64> = Vec::new();
        row.push(to_signed(self.tcp_flows));
        row.push(to_signed(self.udp_flows));
        row.push(to_signed(self.srtt_min_ms));
        row.push(to_signed(self.srtt_med_ms));
        row.push(to_signed(self.srtt_max_ms));
        row.push(to_signed(self.rttvar_med_ms));
        row.push(to_signed(self.rto_med_ms));
        row.push(to_signed(self.flight_total_bytes));
        row.push(to_signed(self.rto_retx_total));
        let mut i: usize = 0;
        while i < 11
            invariant
                i <= 11,
                row@.len() == 9 + i,
                forall|j: int|
                    0 <= j < row@.len() ==> #[trigger] row@[j] == signed(self.figures()[j]),
            decreases 11 - i,
        {
            row.push(to_signed(self.tcp_state_counts[i]));
            i += 1;
        }
        row
    }
}

/// Zero stands for success alone: any call that was not placed has another
/// number.
pub proof fn law_zero_means_placed(report: PlaceCallReport)
    ensures
        report_number(report) == 0 <==> report matches PlaceCallReport::Placed(Ok(_)),
        0 <= report_number(report) <= 5,
{
}

/// A failure on the way to the application never lets a call in, nor refuses it.
pub proof fn law_failures_are_silent(reply: DeciderReply)
    requires
        !(reply is Code),
    ensures
        decision_of(reply) == CallDecision::SilentlyIgnore,
{
}

/// Each number stands for the reports that the application knows by it, and a peer
/// that is not known counts as one that never came.
pub proof fn law_each_number_has_its_meaning(report: PlaceCallReport)
    ensures
        report_number(report) == 1 <==> report == PlaceCallReport::Placed(
            Err(PlaceCallError::Rejected),
        ),
        report_number(report) == 2 <==> report == PlaceCallReport::Placed(
            Err(PlaceCallError::NoPeer),
        ) || report == PlaceCallReport::UnknownPeer,
        report_number(report) == 3 <==> report == PlaceCallReport::Placed(
            Err(PlaceCallError::NotAuthenticated),
        ),
        report_number(report) == 4 <==> (report matches PlaceCallReport::Placed(Err(e))
            && e is Transport),
        report_number(report) == 5 <==> report == PlaceCallReport::BadHandle,
{
}

/// A call is let in on one number alone and refused on one number alone, and every
/// other number is silence.
pub proof fn law_only_express_answers_count(code: i32)
    ensures
        decision_of(DeciderReply::Code(code)) == CallDecision::Accept <==> code == 0,
        decision_of(DeciderReply::Code(code)) == CallDecision::Reject <==> code == 1,
        decision_of(DeciderReply::Code(code)) == CallDecision::SilentlyIgnore <==> code != 0
            && code != 1,
{
}

/// The methods of a listener have names of their own, and only the one that hands a
/// tunnel over takes more than the peer.
pub proof fn law_listener_methods_are_told_apart(a: ListenerMethod, b: ListenerMethod)
    ensures
        a.name_text() == b.name_text() <==> a == b,
        ListenerMethod::OnConnected.name_text() == "onConnected"@,
        ListenerMethod::OnDisconnected.name_text() == "onDisconnected"@,
        ListenerMethod::OnFailed.name_text() == "onFailed"@,
        a.signature_text() == "(Ljava/lang/String;J)V"@ <==> a == ListenerMethod::OnConnected,
        a.signature_text() == "(Ljava/lang/String;)V"@ <==> a != ListenerMethod::OnConnected,
{
    reveal_strlit("onConnected");
    reveal_strlit("onDisconnected");
    reveal_strlit("onFailed");
    reveal_strlit("(Ljava/lang/String;J)V");
    reveal_strlit("(Ljava/lang/String;)V");
    assert("onConnected"@.len() == 11);
    assert("onDisconnected"@.len() == 14);
    assert("onFailed"@.len() == 8);
    assert("(Ljava/lang/String;J)V"@.len() == 22);
    assert("(Ljava/lang/String;)V"@.len() == 21);
}

/// A counter keeps its bits: its signed form fits the JVM's number, and differs from
/// it by nothing or by the full range. So different counters stay different.
pub proof fn law_signed_counters_keep_their_bits(a: u64, b: u64)
    ensures
        i64::MIN <= signed(a) <= i64::MAX,
        signed(a) == a || signed(a) == a - 0x1_0000_0000_0000_0000,
        signed(a) == signed(b) ==> a == b,
{
}

/// Every figure has its place in the row, and a row has a place for nothing else.
pub proof fn law_each_figure_has_its_place(stats: FlowStats, i: int)
    requires
        0 <= i < 11,
    ensures
        stats.figures().len() == 20,
        stats.figures()[0] == stats.tcp_flows,
        stats.figures()[1] == stats.udp_flows,
        stats.figures()[2] == stats.srtt_min_ms,
        stats.figures()[3] == stats.srtt_med_ms,
        stats.figures()[4] == stats.srtt_max_ms,
        stats.figures()[5] == stats.rttvar_med_ms,
        stats.figures()[6] == stats.rto_med_ms,
        stats.figures()[7] == stats.flight_total_bytes,
        stats.figures()[8] == stats.rto_retx_total,
        stats.figures()[9 + i] == stats.tcp_state_counts@[i],
{
}

/// A number that is a port stands for itself, a negative one for none in particular,
/// and all numbers that agree in their low bits for the same port.
pub proof fn law_ports_stand_for_themselves(port: int)
    ensures
        0 <= port <= u16::MAX ==> port_of(port) == port,
        port < 0 ==> port_of(port) == 0,
        port >= 0 ==> port_of(port + 0x1_0000) == port_of(port),
{
}

} // verus!
