//! The TUN devices of the daemon: their names and addresses.
use crate::text::decimal;
use crate::text::law_decimals_differ;
use crate::text::law_decimals_read_back;
use crate::text::number;
use crate::text::to_decimal;
use vstd::prelude::*;

verus! {

/// How many sessions can have a kernel TUN device at one time. The slots are
/// numbered below this; the number itself is kept for the probe.
pub const KERNEL_TUN_SLOT_LIMIT: u8 = 254;

/// The prefix length of every device's network.
pub const TUN_PREFIX_LEN: u8 = 24;

/// The MTU of every device.
pub const TUN_MTU: u32 = 1400;

/// A device to open.
pub struct TunSpec {
    pub name: String,
    pub addr: String,
    pub prefix_len: u8,
    pub mtu: u32,
}

/// What contracts say of a [`TunSpec`].
#[verifier::ext_equal]
pub struct TunView {
    pub name: Seq<char>,
    pub addr: Seq<char>,
    pub prefix_len: u8,
    pub mtu: u32,
}

impl View for TunSpec {
    type V = TunView;

    open spec fn view(&self) -> TunView {
        TunView {
            name: self.name@,
            addr: self.addr@,
            prefix_len: self.prefix_len,
            mtu: self.mtu,
        }
    }
}

/// The server's address in the network of a slot: `10.8.<slot>.1`.
pub open spec fn slot_address(slot: u8) -> Seq<char> {
    "10.8."@ + decimal(slot as nat) + ".1"@
}

/// The device of a session: `bale<slot>`, with a network to itself.
pub open spec fn session_device(slot: u8) -> TunView {
    TunView {
        name: "bale"@ + decimal(slot as nat),
        addr: slot_address(slot),
        prefix_len: TUN_PREFIX_LEN,
        mtu: TUN_MTU,
    }
}

/// The device that a server opens once, to see whether it may.
pub open spec fn probe_device() -> TunView {
    TunView {
        name: "bale_pf"@ + decimal(KERNEL_TUN_SLOT_LIMIT as nat),
        addr: slot_address(KERNEL_TUN_SLOT_LIMIT),
        prefix_len: TUN_PREFIX_LEN,
        mtu: TUN_MTU,
    }
}

/// The device of a client.
pub open spec fn client_device() -> TunView {
    TunView {
        name: "bale-c0"@,
        addr: "10.8.0.2"@,
        prefix_len: TUN_PREFIX_LEN,
        mtu: TUN_MTU,
    }
}

fn slot_addr(slot: u8) -> (s: String)
    ensures
        s@ == slot_address(slot),
{
    let digits: String = to_decimal(slot as u64);
    "10.8.".to_owned().concat(digits.as_str()).concat(".1")
}

/// The device of the session in `slot`.
pub fn session_tun(slot: u8) -> (r: TunSpec)
    ensures
        r@ == session_device(slot),
{
    let digits: String = to_decimal(slot as u64);
    TunSpec {
        name: "bale".to_owned().concat(digits.as_str()),
        addr: slot_addr(slot),
        prefix_len: TUN_PREFIX_LEN,
        mtu: TUN_MTU,
    }
}

/// The device that a server opens once, to see whether it may.
pub fn probe_tun() -> (r: TunSpec)
    ensures
        r@ == probe_device(),
{
    let digits: String = to_decimal(KERNEL_TUN_SLOT_LIMIT as u64);
    TunSpec {
        name: "bale_pf".to_owned().concat(digits.as_str()),
        addr: slot_addr(KERNEL_TUN_SLOT_LIMIT),
        prefix_len: TUN_PREFIX_LEN,
        mtu: TUN_MTU,
    }
}

/// The device of a client.
pub fn client_tun() -> (r: TunSpec)
    ensures
        r@ == client_device(),
{
    TunSpec {
        name: "bale-c0".to_owned(),
        addr: "10.8.0.2".to_owned(),
        prefix_len: TUN_PREFIX_LEN,
        mtu: TUN_MTU,
    }
}

/// Sessions in different slots have different devices and different networks.
pub proof fn law_slots_do_not_collide(a: u8, b: u8)
    requires
        a != b,
    ensures
        session_device(a).name != session_device(b).name,
        session_device(a).addr != session_device(b).addr,
{
    lemma_slot_addresses_differ(a, b);
    law_decimals_differ(a as nat, b as nat);
    if session_device(a).name == session_device(b).name {
        let n: int = "bale"@.len() as int;
        assert(session_device(a).name.skip(n) =~= decimal(a as nat));
        assert(session_device(b).name.skip(n) =~= decimal(b as nat));
    }
}

/// The probe collides with no session: its name is none of theirs, and its
/// network is that of no slot below the limit.
pub proof fn law_the_probe_does_not_collide(slot: u8)
    requires
        slot < KERNEL_TUN_SLOT_LIMIT,
    ensures
        probe_device().name != session_device(slot).name,
        probe_device().addr != session_device(slot).addr,
{
    lemma_slot_addresses_differ(slot, KERNEL_TUN_SLOT_LIMIT);
    reveal_strlit("bale");
    reveal_strlit("bale_pf");
    lemma_decimal_starts_with_a_digit(slot as nat);
    assert(probe_device().name[4] == '_');
    assert(session_device(slot).name[4] == decimal(slot as nat)[0]);
}

proof fn lemma_slot_addresses_differ(a: u8, b: u8)
    requires
        a != b,
    ensures
        slot_address(a) != slot_address(b),
{
    law_decimals_differ(a as nat, b as nat);
    if slot_address(a) == slot_address(b) {
        let n: int = "10.8."@.len() as int;
        let m: int = ".1"@.len() as int;
        let len: int = slot_address(a).len() as int;
        assert(slot_address(a).subrange(n, len - m) =~= decimal(a as nat));
        assert(slot_address(b).subrange(n, len - m) =~= decimal(b as nat));
    }
}

proof fn lemma_decimal_starts_with_a_digit(n: nat)
    ensures
        decimal(n).len() > 0,
        decimal(n)[0] != '_',
    decreases n,
{
    if n >= 10 {
        lemma_decimal_starts_with_a_digit(n / 10);
    }
}

/// The device of a session bears the number of its slot, in its name and as the third
/// part of its address; the server is the first host of that network.
pub proof fn law_a_session_device_bears_its_slot(slot: u8)
    ensures
        session_device(slot).name.take(4) == "bale"@,
        number(session_device(slot).name.skip(4)) == slot,
        session_device(slot).addr.take(5) == "10.8."@,
        ({
            let addr = session_device(slot).addr;
            let end = addr.len() - 2;
            &&& end > 5
            &&& number(addr.subrange(5, end)) == slot
            &&& addr.skip(end) == ".1"@
        }),
{
    reveal_strlit("bale");
    reveal_strlit("10.8.");
    reveal_strlit(".1");
    assert("bale"@.len() == 4);
    assert("10.8."@.len() == 5);
    assert(".1"@.len() == 2);
    law_decimals_read_back(slot as nat);
    let digits = decimal(slot as nat);
    let name = session_device(slot).name;
    let addr = session_device(slot).addr;
    assert(name.take(4) =~= "bale"@);
    assert(name.skip(4) =~= digits);
    assert(addr.take(5) =~= "10.8."@);
    assert(addr.subrange(5, addr.len() - 2) =~= digits);
    assert(addr.skip(addr.len() - 2) =~= ".1"@);
}

/// The probe stands where the session of the slot past the last would stand, under a
/// name of its own.
pub proof fn law_the_probe_stands_past_the_last_slot()
    ensures
        KERNEL_TUN_SLOT_LIMIT == 254,
        probe_device().addr == session_device(KERNEL_TUN_SLOT_LIMIT).addr,
        probe_device().name == "bale_pf"@ + decimal(254),
{
}

/// Every device has the same kind of network, with room for the tunnel's own framing.
pub proof fn law_devices_share_their_network_settings(slot: u8)
    ensures
        session_device(slot).prefix_len == 24,
        session_device(slot).mtu == 1400,
        probe_device().prefix_len == 24,
        probe_device().mtu == 1400,
        client_device().prefix_len == 24,
        client_device().mtu == 1400,
{
}

/// A client is the second host of the first network, so it never has the address of a
/// server's device, nor the name of one.
pub proof fn law_a_client_device_collides_with_no_session(slot: u8)
    ensures
        client_device().addr == "10.8.0.2"@,
        client_device().name == "bale-c0"@,
        client_device().addr != session_device(slot).addr,
        client_device().name != session_device(slot).name,
{
    reveal_strlit("10.8.0.2");
    reveal_strlit("bale-c0");
    reveal_strlit("bale");
    reveal_strlit(".1");
    law_decimals_read_back(slot as nat);
    assert("10.8.0.2"@.last() == '2');
    assert(session_device(slot).addr.last() == '1');
    assert("bale-c0"@[4] == '-');
    assert(session_device(slot).name[4] == decimal(slot as nat)[0]);
}

} // verus!
