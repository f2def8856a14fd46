//! Who may call: the policy that a server puts incoming calls to.
use crate::peer::PeerId;
use crate::signaling::CallDecision;
use vstd::prelude::*;

verus! {

/// How long an undecided call waits for the user, in seconds.
pub const PENDING_DECISION_SECS: u64 = 60;

/// What the policy looks at, as it stands when the call comes in. Peers are
/// listed by their string form.
pub struct AdmissionDecider {
    /// Peers that get no answer.
    pub blacklist: Vec<String>,
    /// Peers that are let in without asking.
    pub admission: Vec<String>,
    /// Peers that are connected.
    pub client_count: usize,
    /// How many may be.
    pub max_clients: usize,
}

/// What the policy says of a call.
#[derive(Debug, Clone, Copy, PartialEq, Eq, Structural)]
pub enum Admission {
    Decided(CallDecision),
    /// Ask the user, and wait [`PENDING_DECISION_SECS`] for an answer.
    Park,
}

/// What became of asking the user.
#[derive(Debug, Clone, Copy, PartialEq, Eq, Structural)]
pub enum PendingOutcome {
    Answered(CallDecision),
    /// Whoever was to answer went away.
    Abandoned,
    TimedOut,
}

/// The decision on a call that was put to the user. `clear_row` says that the
/// call still stands among the pending ones and is to be taken out.
#[derive(Debug, Clone, Copy, PartialEq, Eq, Structural)]
pub struct PendingVerdict {
    pub decision: CallDecision,
    pub clear_row: bool,
}

/// Whether a list names `id`.
pub open spec fn names(list: Seq<String>, id: Seq<char>) -> bool {
    exists|i: int| 0 <= i < list.len() && #[trigger] list[i]@ == id
}

/// Whether a list names `id`.
fn list_names(list: &Vec<String>, id: &String) -> (b: bool)
    ensures
        b == names(list@, id@),
{
    let mut i: usize = 0;
    while i < list.len()
        invariant
            i <= list@.len(),
            forall|j: int| 0 <= j < i ==> #[trigger] list@[j]@ != id@,
        decreases list@.len() - i,
    {
        if list[i] == *id {
            return true;
        }
        i += 1;
    }
    false
}

impl AdmissionDecider {
    /// The policy: a peer on the blacklist gets no answer, whatever else holds
    /// of it. A full server says nothing either, and the caller may try again.
    /// A peer on the allow-list comes in. Any other is for the user to decide.
    pub open spec fn rule(&self, id: Seq<char>) -> Admission {
        if names(self.blacklist@, id) {
            Admission::Decided(CallDecision::SilentlyIgnore)
        } else if self.client_count >= self.max_clients {
            Admission::Decided(CallDecision::SilentlyIgnore)
        } else if names(self.admission@, id) {
            Admission::Decided(CallDecision::Accept)
        } else {
            Admission::Park
        }
    }

    /// What the policy says of a call from `peer`.
    pub fn decide(&self, peer: &PeerId) -> (r: Admission)
        ensures
            r == self.rule(peer@.id),
    {
        let id: String = peer.id_str().to_owned();
        if list_names(&self.blacklist, &id) {
            Admission::Decided(CallDecision::SilentlyIgnore)
        } else if self.client_count >= self.max_clients {
            Admission::Decided(CallDecision::SilentlyIgnore)
        } else if list_names(&self.admission, &id) {
            Admission::Decided(CallDecision::Accept)
        } else {
            Admission::Park
        }
    }
}

/// What comes of a call that was put to the user.
pub open spec fn pending_rule(outcome: PendingOutcome) -> PendingVerdict {
    match outcome {
        PendingOutcome::Answered(decision) => PendingVerdict { decision, clear_row: false },
        PendingOutcome::Abandoned => PendingVerdict {
            decision: CallDecision::SilentlyIgnore,
            clear_row: false,
        },
        PendingOutcome::TimedOut => PendingVerdict {
            decision: CallDecision::SilentlyIgnore,
            clear_row: true,
        },
    }
}

/// The decision on a call that was put to the user: the user's own, or, where
/// there is none, to say nothing.
pub fn settle_pending(outcome: PendingOutcome) -> (r: PendingVerdict)
    ensures
        r == pending_rule(outcome),
        r.decision == match outcome {
            PendingOutcome::Answered(decision) => decision,
            _ => CallDecision::SilentlyIgnore,
        },
        r.clear_row <==> outcome == PendingOutcome::TimedOut,
{
    match outcome {
        PendingOutcome::Answered(decision) => PendingVerdict { decision, clear_row: false },
        PendingOutcome::Abandoned => PendingVerdict {
            decision: CallDecision::SilentlyIgnore,
            clear_row: false,
        },
        PendingOutcome::TimedOut => PendingVerdict {
            decision: CallDecision::SilentlyIgnore,
            clear_row: true,
        },
    }
}

/// A peer on the blacklist never comes in and never learns of it, whatever else
/// holds of it, and the user is not asked.
pub proof fn law_blacklisted_peers_are_ignored(decider: AdmissionDecider, id: Seq<char>)
    requires
        names(decider.blacklist@, id),
    ensures
        decider.rule(id) == Admission::Decided(CallDecision::SilentlyIgnore),
{
}

/// A full server takes nobody in, and asks nobody.
pub proof fn law_a_full_server_takes_nobody(decider: AdmissionDecider, id: Seq<char>)
    requires
        decider.client_count >= decider.max_clients,
    ensures
        decider.rule(id) == Admission::Decided(CallDecision::SilentlyIgnore),
{
}

/// Without the user's word only a peer on the allow-list comes in, and only
/// while there is room.
pub proof fn law_only_listed_peers_come_in_unasked(decider: AdmissionDecider, id: Seq<char>)
    ensures
        decider.rule(id) == Admission::Decided(CallDecision::Accept) <==> {
            &&& names(decider.admission@, id)
            &&& !names(decider.blacklist@, id)
            &&& decider.client_count < decider.max_clients
        },
{
}

/// A caller on neither list is always put to the user while there is room, and
/// nobody else ever is.
pub proof fn law_strangers_are_put_to_the_user(decider: AdmissionDecider, id: Seq<char>)
    ensures
        decider.rule(id) == Admission::Park <==> {
            &&& !names(decider.blacklist@, id)
            &&& !names(decider.admission@, id)
            &&& decider.client_count < decider.max_clients
        },
{
}

/// Silence is for the blacklist and for a full server alone, and nobody is ever
/// refused in so many words.
pub proof fn law_silence_has_two_reasons(decider: AdmissionDecider, id: Seq<char>)
    ensures
        decider.rule(id) == Admission::Decided(CallDecision::SilentlyIgnore) <==> names(
            decider.blacklist@,
            id,
        ) || decider.client_count >= decider.max_clients,
        decider.rule(id) != Admission::Decided(CallDecision::Reject),
{
}

/// Of the lists only one thing matters to a call: whether they name the caller.
/// Whom else they name, and how many, changes nothing, and of the counts only
/// whether there is room does.
pub proof fn law_only_the_callers_own_entries_matter(
    a: AdmissionDecider,
    b: AdmissionDecider,
    id: Seq<char>,
)
    requires
        names(a.blacklist@, id) == names(b.blacklist@, id),
        names(a.admission@, id) == names(b.admission@, id),
        (a.client_count < a.max_clients) == (b.client_count < b.max_clients),
    ensures
        a.rule(id) == b.rule(id),
{
}

/// A list names whom it has an entry for: an empty one nobody, and one more entry
/// names just that peer in addition.
pub proof fn law_a_list_names_its_entries(list: Seq<String>, entry: String, id: Seq<char>)
    ensures
        !names(Seq::<String>::empty(), id),
        names(list.push(entry), id) <==> names(list, id) || entry@ == id,
{
    if names(list, id) {
        let i = choose|i: int| 0 <= i < list.len() && #[trigger] list[i]@ == id;
        assert(list.push(entry)[i]@ == id);
    }
    assert(list.push(entry)[list.len() as int] == entry);
    if names(list.push(entry), id) {
        let i = choose|i: int| 0 <= i < list.len() + 1 && #[trigger] list.push(entry)[i]@ == id;
        if i < list.len() {
            assert(list[i]@ == id);
        }
    }
}

/// The user's word stands as it is given, whichever it is. Without one the caller
/// hears nothing, and only a call that ran out of time is still to be taken out.
pub proof fn law_the_users_word_stands(outcome: PendingOutcome)
    ensures
        outcome matches PendingOutcome::Answered(decision) ==> pending_rule(outcome).decision
            == decision,
        !(outcome is Answered) ==> pending_rule(outcome).decision == CallDecision::SilentlyIgnore,
        pending_rule(outcome).clear_row <==> outcome is TimedOut,
{
}

} // verus!
