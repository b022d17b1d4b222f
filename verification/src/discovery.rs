//! The decisions of WS-Discovery: which local addresses to probe from, the
//! probe's header, and the messages shown along the way.

use vstd::prelude::*;
use crate::error::{DeviceError, DeviceErrorView};
use crate::text::{joined, decimal, push_decimal};

verus! {

/// An IPv4 address by its four octets.
#[derive(Debug, Clone, Copy)]
pub struct Ipv4 {
    pub a: u8,
    pub b: u8,
    pub c: u8,
    pub d: u8,
}

/// The address of a local network interface.
#[derive(Debug, Clone, Copy)]
pub enum InterfaceAddress {
    /// An IPv4 socket address.
    Inet4(Ipv4),
    /// An IPv6 socket address.
    Inet6,
    /// Any other kind of address (link layer, ...).
    Other,
}

impl Ipv4 {
    /// Whether the address is a loopback address (127.0.0.0/8).
    pub open spec fn loopback(&self) -> bool {
        self.a == 127
    }

    /// Tests `loopback`.
    pub fn is_loopback(&self) -> (res: bool)
        ensures
            res == self.loopback(),
    {
        self.a == 127
    }

    /// The dotted decimal text of the address.
    pub open spec fn text(&self) -> Seq<char> {
        decimal(self.a as nat) + seq!['.'] + decimal(self.b as nat) + seq!['.'] + decimal(
            self.c as nat,
        ) + seq!['.'] + decimal(self.d as nat)
    }

    /// Renders the address in dotted decimal notation.
    pub fn to_text(&self) -> (res: String)
        ensures
            res@ == self.text(),
    {
        proof {
            reveal_strlit(".");
        }
        let mut out = String::new();
        push_decimal(&mut out, self.a as u64);
        out.append(".");
        push_decimal(&mut out, self.b as u64);
        out.append(".");
        push_decimal(&mut out, self.c as u64);
        out.append(".");
        push_decimal(&mut out, self.d as u64);
        out
    }
}

/// The multicast group of WS-Discovery, 239.255.255.250.
pub open spec fn multicast_group_spec() -> Ipv4 {
    Ipv4 { a: 239, b: 255, c: 255, d: 250 }
}

/// Returns the multicast group that probes are sent to.
pub fn multicast_group() -> (res: Ipv4)
    ensures
        res == multicast_group_spec(),
{
    Ipv4 { a: 239, b: 255, c: 255, d: 250 }
}

/// The UDP port of WS-Discovery.
pub const MULTICAST_PORT: u16 = 3702;

/// The local port that probes are sent from (any free port).
pub const LOCAL_PORT: u16 = 0;

/// How long to wait for an answer to a probe, in milliseconds.
pub const RESPONSE_TIMEOUT_MS: u64 = 5000;

/// The size of the buffer that an answer is read into.
pub const RESPONSE_BUFFER_LEN: usize = 16384;

/// The IPv4 addresses, in order, of the interfaces that have a non-loopback
/// IPv4 address.
pub open spec fn probe_sources_spec(addrs: Seq<Option<InterfaceAddress>>) -> Seq<Ipv4>
    decreases addrs.len(),
{
    if addrs.len() == 0 {
        Seq::empty()
    } else {
        probe_sources_spec(addrs.drop_last()) + match addrs.last() {
            Some(InterfaceAddress::Inet4(ip)) => if ip.loopback() {
                Seq::empty()
            } else {
                seq![ip]
            },
            _ => Seq::empty(),
        }
    }
}

/// Chooses the local addresses to probe from: the IPv4 addresses of the
/// interfaces, except loopback ones, in the order given.
pub fn probe_sources(addrs: &Vec<Option<InterfaceAddress>>) -> (res: Vec<Ipv4>)
    ensures
        res@ == probe_sources_spec(addrs@),
{
    let mut out: Vec<Ipv4> = Vec::new();
    let n = addrs.len();
    let mut i: usize = 0;
    while i < n
        invariant
            n == addrs@.len(),
            i <= n,
            out@ == probe_sources_spec(addrs@.take(i as int)),
        decreases n - i,
    {
        proof {
            let t = addrs@.take(i + 1);
            assert(t.drop_last() =~= addrs@.take(i as int));
            assert(t.last() == addrs@[i as int]);
        }
        match addrs[i] {
            Some(InterfaceAddress::Inet4(ip)) => {
                if !ip.is_loopback() {
                    out.push(ip);
                } else {
                    assert(out@ =~= out@ + Seq::<Ipv4>::empty());
                }
            },
            _ => {
                assert(out@ =~= out@ + Seq::<Ipv4>::empty());
            },
        }
        i = i + 1;
    }
    proof {
        assert(addrs@.take(n as int) =~= addrs@);
    }
    out
}

/// Every address chosen to probe from is a non-loopback IPv4 address of one
/// of the interfaces.
pub proof fn lemma_probe_sources_are_local_non_loopback(addrs: Seq<Option<InterfaceAddress>>)
    ensures
        forall|k: int|
            0 <= k < probe_sources_spec(addrs).len() ==> {
                let ip = #[trigger] probe_sources_spec(addrs)[k];
                &&& !ip.loopback()
                &&& exists|i: int|
                    0 <= i < addrs.len() && #[trigger] addrs[i] == Some(
                        InterfaceAddress::Inet4(ip),
                    )
            },
    decreases addrs.len(),
{
    if addrs.len() > 0 {
        let init = addrs.drop_last();
        lemma_probe_sources_are_local_non_loopback(init);
        let prev = probe_sources_spec(init);
        assert forall|k: int| 0 <= k < probe_sources_spec(addrs).len() implies {
            let ip = #[trigger] probe_sources_spec(addrs)[k];
            &&& !ip.loopback()
            &&& exists|i: int|
                0 <= i < addrs.len() && #[trigger] addrs[i] == Some(InterfaceAddress::Inet4(ip))
        } by {
            let ip = probe_sources_spec(addrs)[k];
            if k < prev.len() {
                assert(ip == prev[k]);
                let i = choose|i: int|
                    0 <= i < init.len() && #[trigger] init[i] == Some(InterfaceAddress::Inet4(ip));
                assert(addrs[i] == init[i]);
            } else {
                assert(addrs[addrs.len() - 1] == addrs.last());
            }
        }
    }
}

/// Every non-loopback IPv4 address of an interface is chosen to probe from.
pub proof fn lemma_probe_sources_cover_all_ipv4(addrs: Seq<Option<InterfaceAddress>>)
    ensures
        forall|i: int|
            0 <= i < addrs.len() ==> (#[trigger] addrs[i] matches Some(InterfaceAddress::Inet4(ip))
                ==> (!ip.loopback() ==> probe_sources_spec(addrs).contains(ip))),
    decreases addrs.len(),
{
    if addrs.len() > 0 {
        let init = addrs.drop_last();
        lemma_probe_sources_cover_all_ipv4(init);
        let prev = probe_sources_spec(init);
        let all = probe_sources_spec(addrs);
        assert forall|i: int|
            0 <= i < addrs.len() implies (#[trigger] addrs[i] matches Some(
                InterfaceAddress::Inet4(ip),
            ) ==> (!ip.loopback() ==> all.contains(ip))) by {
            if let Some(InterfaceAddress::Inet4(ip)) = addrs[i] {
                if !ip.loopback() {
                    if i < addrs.len() - 1 {
                        assert(init[i] == addrs[i]);
                        assert(prev.contains(ip));
                        let k = choose|k: int| 0 <= k < prev.len() && prev[k] == ip;
                        assert(all[k] == prev[k]);
                    } else {
                        assert(all[all.len() - 1] == ip);
                    }
                }
            }
        }
    }
}

/// An IPv4 address is a loopback address exactly when its first octet is
/// 127 (the block 127.0.0.0/8).
pub proof fn lemma_loopback_is_first_octet_127(ip: Ipv4)
    ensures
        ip.loopback() <==> ip.a == 127,
{
}

/// The addresses probed from are exactly the IPv4 interface addresses whose
/// first octet is not 127: each chosen one is such an address of some
/// interface, and each such address is chosen.
pub proof fn lemma_probe_sources_are_ipv4_outside_127(addrs: Seq<Option<InterfaceAddress>>)
    ensures
        forall|k: int|
            0 <= k < probe_sources_spec(addrs).len() ==> {
                let ip = #[trigger] probe_sources_spec(addrs)[k];
                &&& ip.a != 127
                &&& exists|i: int|
                    0 <= i < addrs.len() && #[trigger] addrs[i] == Some(
                        InterfaceAddress::Inet4(ip),
                    )
            },
        forall|i: int|
            0 <= i < addrs.len() ==> (#[trigger] addrs[i] matches Some(InterfaceAddress::Inet4(ip))
                ==> (ip.a != 127 ==> probe_sources_spec(addrs).contains(ip))),
{
    lemma_probe_sources_are_local_non_loopback(addrs);
    lemma_probe_sources_cover_all_ipv4(addrs);
    assert forall|k: int| 0 <= k < probe_sources_spec(addrs).len() implies #[trigger] probe_sources_spec(
        addrs,
    )[k].a != 127 by {
        lemma_loopback_is_first_octet_127(probe_sources_spec(addrs)[k]);
    }
}

/// The message shown before probing from a local address.
pub fn checking_message(ip: &Ipv4) -> (res: String)
    ensures
        res@ == "Checking "@ + ip.text() + " for cameras...\n"@,
{
    let mut out = String::from_str("Checking ");
    let text = ip.to_text();
    out.append(text.as_str());
    out.append(" for cameras...\n");
    out
}

/// The error when the local addresses cannot be listed, given the reason.
pub fn interfaces_error(reason: &str) -> (res: DeviceError)
    ensures
        res@ == DeviceErrorView::Unknown(Some("Could not get local IP addresses: "@ + reason@)),
{
    DeviceError::from(joined("Could not get local IP addresses: ", reason))
}

/// The error when a probe cannot be sent, given the reason.
pub fn probe_error(reason: &str) -> (res: DeviceError)
    ensures
        res@ == DeviceErrorView::Unknown(Some("Could not send probe: "@ + reason@)),
{
    DeviceError::from(joined("Could not send probe: ", reason))
}

/// The header of a WS-Discovery probe.
#[derive(Debug)]
pub struct ProbeHeader {
    pub message_id: String,
    pub action: String,
    pub to: String,
}

/// The probe action.
pub open spec fn probe_action() -> Seq<char> {
    "http://schemas.xmlsoap.org/ws/2005/04/discovery/Probe"@
}

/// The address that probes are sent to.
pub open spec fn probe_to() -> Seq<char> {
    "urn:schemas-xmlsoap-org:ws:2005:04:discovery"@
}

/// Builds the header of a probe whose message id is the given UUID (in its
/// hyphenated text form).
pub fn build_probe_header(uuid: &str) -> (res: ProbeHeader)
    ensures
        res.message_id@ == "uuid:"@ + uuid@,
        res.action@ == probe_action(),
        res.to@ == probe_to(),
{
    ProbeHeader {
        message_id: joined("uuid:", uuid),
        action: String::from_str("http://schemas.xmlsoap.org/ws/2005/04/discovery/Probe"),
        to: String::from_str("urn:schemas-xmlsoap-org:ws:2005:04:discovery"),
    }
}

/// Whether `c` is a lower-case hexadecimal digit.
pub open spec fn lower_hex_digit(c: char) -> bool {
    ('0' <= c <= '9') || ('a' <= c <= 'f')
}

/// Whether `u` is the hyphenated, lower-case text of a version 4 (random)
/// UUID: 36 characters, `-` at positions 8, 13, 18 and 23, hexadecimal
/// digits elsewhere, version digit `4` at position 14, and one of `8`, `9`,
/// `a`, `b` (the RFC 4122 variant) at position 19.
pub open spec fn v4_uuid_text(u: Seq<char>) -> bool {
    &&& u.len() == 36
    &&& forall|i: int|
        0 <= i < 36 ==> if i == 8 || i == 13 || i == 18 || i == 23 {
            #[trigger] u[i] == '-'
        } else {
            lower_hex_digit(u[i])
        }
    &&& u[14] == '4'
    &&& (u[19] == '8' || u[19] == '9' || u[19] == 'a' || u[19] == 'b')
}

/// Calls `uuid::Uuid::new_v4` and renders the UUID with its `Display` impl.
/// The UUID is random; the contract claims the form that the source shows
/// for every outcome: `new_v4` masks the random bits to set version 4 and
/// the RFC 4122 variant, and `Display` writes the hyphenated lower-case form.
/// `new_v4` panics when the operating system's random source fails; that
/// depends on no argument, so no `requires` names it.
#[verifier::external_body]
pub(crate) fn random_uuid_text() -> (res: String)
    ensures
        v4_uuid_text(res@),
{
    uuid::Uuid::new_v4().to_string()
}

/// Builds the header of a new probe, with a freshly drawn random UUID as
/// its message id.
pub fn new_probe_header() -> (res: ProbeHeader)
    ensures
        exists|uuid: Seq<char>| v4_uuid_text(uuid) && res.message_id@ == "uuid:"@ + uuid,
        res.action@ == probe_action(),
        res.to@ == probe_to(),
{
    let uuid = random_uuid_text();
    let res = build_probe_header(uuid.as_str());
    assert(v4_uuid_text(uuid@) && res.message_id@ == "uuid:"@ + uuid@);
    res
}

} // verus!
