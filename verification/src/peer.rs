//! Peer identity.
//!
//! A [`PeerId`] is an opaque, cheap-to-clone handle on whatever a signaling
//! provider knows of a peer. Two things can be read off it: its stable string
//! form, and whether it is the same handle as another one.
use crate::text::same_text;
use std::hash::Hash;
use std::hash::Hasher;
use std::sync::Arc;
use vstd::prelude::*;
use vstd::std_specs::cmp::PartialEqSpec;

verus! {

/// What a signaling provider keeps of a peer: a numeric uid, a public key, a
/// UUID. Applications see nothing of it but the string form.
pub trait PeerRef: Send + Sync + 'static {
    /// The stable string form, as a value. A verified implementation gives it a
    /// definition of its own. Only one outside of verified code may leave it as it
    /// is here, one value that nothing is known of and that all who leave it share.
    open spec fn id(&self) -> Seq<char> {
        arbitrary()
    }

    /// The stable string form. It is what applications store in config files,
    /// allow-lists and log lines, so it must not change while the peer lives.
    fn id_str(&self) -> (s: &str)
        ensures
            s@ == self.id(),
    ;
}

/// A reference of any type, held as itself. Behind the trait object of a
/// [`PeerId`] there is always one of these, whose string form is that of what
/// it holds.
struct Held<R> {
    inner: R,
}

impl<R: PeerRef> PeerRef for Held<R> {
    closed spec fn id(&self) -> Seq<char> {
        self.inner.id()
    }

    fn id_str(&self) -> (s: &str) {
        self.inner.id_str()
    }
}

/// What contracts say of a [`PeerId`].
#[verifier::ext_equal]
pub struct PeerView {
    /// Which handle this is. Clones of one handle share it.
    pub identity: usize,
    /// The stable string form.
    pub id: Seq<char>,
}

/// A handle on a peer.
///
/// Equality is identity: a handle equals its own clones and nothing else, so a
/// provider must hand out one handle per peer and cache it. The handle keeps
/// its allocation alive, which is what makes the address of that allocation
/// fit to tell live handles apart. Where the addresses of two handles agree, `==`
/// looks at their string forms as well: those of one allocation agree, so this
/// changes no answer, and that equal handles show one string is then proved
/// without a word about the allocator.
pub struct PeerId {
    identity: usize,
    peer: Arc<Box<dyn PeerRef>>,
}

impl View for PeerId {
    type V = PeerView;

    closed spec fn view(&self) -> PeerView {
        PeerView { identity: self.identity, id: self.peer.id() }
    }
}

/// The address of the allocation behind an `Arc`: `Arc::as_ptr`, then `addr`.
///
/// Nothing is claimed of the number. It is the allocator's choice, and all that
/// std says of it is that allocations alive at one time differ in it.
#[verifier::external_body]
fn allocation_address(a: &Arc<Box<dyn PeerRef>>) -> (address: usize) {
    Arc::as_ptr(a).addr()
}

/// Feeds a number to a hasher: `<usize as Hash>::hash`.
///
/// Nothing is claimed of the hasher afterwards: what a `Hasher` makes of its
/// input is up to the type behind it.
#[verifier::external_body]
fn hash_number<H: Hasher>(number: usize, state: &mut H) {
    number.hash(state)
}

impl PeerId {
    /// Makes a handle on `r`. Each call makes a new handle, under the address of an
    /// allocation of its own.
    ///
    /// No clause says that it is unequal to every other handle that is alive. That
    /// rests on the allocator, which gives no two live allocations one address,
    /// and a contract on one handle has no way to speak of all the others.
    pub fn new<R: PeerRef>(r: R) -> (p: PeerId)
        ensures
            p@.id == r.id(),
    {
        let boxed: Box<dyn PeerRef> = Box::new(Held { inner: r });
        let peer = Arc::new(boxed);
        let identity: usize = allocation_address(&peer);
        PeerId { identity, peer }
    }

    /// The stable string form.
    pub fn id_str(&self) -> (s: &str)
        ensures
            s@ == self@.id,
    {
        self.peer.id_str()
    }

    /// The stable string form as a string of its own, for display.
    pub fn to_display(&self) -> (s: String)
        ensures
            s@ == self@.id,
    {
        self.id_str().to_owned()
    }

    /// The form for diagnostics: `PeerId(..)` around the string form.
    pub fn to_debug(&self) -> (s: String)
        ensures
            s@ == "PeerId("@ + self@.id + ")"@,
    {
        let mut s: String = "PeerId(".to_owned();
        s.append(self.id_str());
        s.append(")");
        s
    }

    /// The number that tells this handle from others, to key a map with. Keep a
    /// clone of the handle beside the key: without one the number may be used
    /// again.
    pub(crate) fn identity(&self) -> (identity: usize)
        ensures
            identity == self@.identity,
    {
        self.identity
    }
}

impl Clone for PeerId {
    fn clone(&self) -> (r: PeerId)
        ensures
            r == *self,
    {
        PeerId { identity: self.identity, peer: self.peer.clone() }
    }
}

impl PartialEq for PeerId {
    fn eq(&self, other: &Self) -> (r: bool) {
        self.identity == other.identity && same_text(self.id_str(), other.id_str())
    }
}

impl vstd::std_specs::cmp::PartialEqSpecImpl for PeerId {
    open spec fn obeys_eq_spec() -> bool {
        true
    }

    open spec fn eq_spec(&self, other: &Self) -> bool {
        self@ == other@
    }
}

impl Eq for PeerId {

}

impl Hash for PeerId {
    fn hash<H: Hasher>(&self, state: &mut H) {
        hash_number(self.identity, state)
    }
}

/// Equality of handles is an equivalence: what a map keyed by peers relies on.
pub proof fn law_equality_is_an_equivalence(a: PeerId, b: PeerId, c: PeerId)
    ensures
        a.eq_spec(&a),
        a.eq_spec(&b) == b.eq_spec(&a),
        a.eq_spec(&b) && b.eq_spec(&c) ==> a.eq_spec(&c),
{
}

/// Equal handles show one string, and they are one key: peers that a map holds
/// apart are unequal.
pub proof fn law_equal_handles_show_one_string(a: PeerId, b: PeerId)
    requires
        a.eq_spec(&b),
    ensures
        a@.id == b@.id,
        a@.identity == b@.identity,
{
}

/// Handles are equal exactly if they are one key and show one string; nothing else
/// of them matters.
pub proof fn law_handles_are_told_apart_by_what_they_show(a: PeerId, b: PeerId)
    ensures
        a.eq_spec(&b) <==> a@.identity == b@.identity && a@.id == b@.id,
{
    if a@.identity == b@.identity && a@.id == b@.id {
        assert(a@ =~= b@);
    }
}

} // verus!
