//! The parts of an IP packet that the stack reads: its addresses and its protocol.
//!
//! The octets are read by smoltcp's packet views. Each function here that makes such a call
//! states which octets the answer comes from.

use crate::addr::IpAddr;
use smoltcp::wire::{Ipv4Packet, Ipv6Packet};
use vstd::prelude::*;

verus! {

/// A whole IP packet as it travels, header included.
pub type AnyIpPktFrame = Vec<u8>;

#[verifier::external_type_specification]
#[verifier::external_body]
pub struct ExWireError(smoltcp::wire::Error);

/// The two versions of the Internet Protocol.
#[derive(Clone, Copy, Debug, PartialEq, Eq)]
pub enum IpVersion {
    Ipv4,
    Ipv6,
}

/// The protocol that an IP packet carries.
#[derive(Clone, Copy, Debug, PartialEq, Eq)]
pub enum IpProtocol {
    Icmp,
    Tcp,
    Udp,
    Icmpv6,
    /// Any other protocol, by its number.
    Other(u8),
}

impl IpProtocol {
    /// The protocol with the given number.
    pub open spec fn numbered(number: u8) -> IpProtocol {
        if number == 1 {
            IpProtocol::Icmp
        } else if number == 6 {
            IpProtocol::Tcp
        } else if number == 17 {
            IpProtocol::Udp
        } else if number == 58 {
            IpProtocol::Icmpv6
        } else {
            IpProtocol::Other(number)
        }
    }

    /// The protocol with the given number.
    pub fn from_number(number: u8) -> (protocol: IpProtocol)
        ensures
            protocol == IpProtocol::numbered(number),
    {
        match number {
            1 => IpProtocol::Icmp,
            6 => IpProtocol::Tcp,
            17 => IpProtocol::Udp,
            58 => IpProtocol::Icmpv6,
            other => IpProtocol::Other(other),
        }
    }

    /// Whether the stack takes packets of the protocol in.
    pub open spec fn carried(self) -> bool {
        !(self is Other)
    }

    /// Decides [`IpProtocol::carried`].
    pub fn is_carried(&self) -> (answer: bool)
        ensures
            answer == self.carried(),
    {
        match self {
            IpProtocol::Tcp | IpProtocol::Udp | IpProtocol::Icmp | IpProtocol::Icmpv6 => true,
            IpProtocol::Other(_) => false,
        }
    }
}

/// The number that two octets spell, the high one first.
pub open spec fn be16(high: u8, low: u8) -> int {
    high * 256 + low
}

/// Whether the octets are a whole IPv4 packet: the fixed header is there, and header length,
/// total length and the length of the buffer do not decrease in that order.
pub open spec fn ipv4_complete(data: Seq<u8>) -> bool {
    let header_len = (data[0] % 16) * 4;
    let total_len = be16(data[2], data[3]);
    20 <= data.len() && header_len <= total_len <= data.len()
}

/// Whether the octets are a whole IPv6 packet: the fixed header is there, and as many octets
/// after it as the header says.
pub open spec fn ipv6_complete(data: Seq<u8>) -> bool {
    40 <= data.len() && 40 + be16(data[4], data[5]) <= data.len()
}

/// The version that a packet's first four bits give, where there is such a version.
pub open spec fn version_of(data: Seq<u8>) -> Option<IpVersion> {
    if data[0] / 16 == 4 {
        Some(IpVersion::Ipv4)
    } else if data[0] / 16 == 6 {
        Some(IpVersion::Ipv6)
    } else {
        None
    }
}

/// What the stack reads of an IP packet.
#[derive(Clone, Copy, Debug, PartialEq, Eq)]
pub struct IpPacket {
    pub src_addr: IpAddr,
    pub dst_addr: IpAddr,
    pub protocol: IpProtocol,
}

/// What the stack reads of an IPv4 packet with these octets.
pub open spec fn ipv4_packet(d: Seq<u8>) -> IpPacket {
    IpPacket {
        src_addr: IpAddr::V4([d[12], d[13], d[14], d[15]]),
        dst_addr: IpAddr::V4([d[16], d[17], d[18], d[19]]),
        protocol: IpProtocol::numbered(d[9]),
    }
}

/// The IPv6 address in the sixteen octets from `at`.
pub open spec fn ipv6_addr_at(d: Seq<u8>, at: int) -> IpAddr {
    IpAddr::V6(
        [
            d[at],
            d[at + 1],
            d[at + 2],
            d[at + 3],
            d[at + 4],
            d[at + 5],
            d[at + 6],
            d[at + 7],
            d[at + 8],
            d[at + 9],
            d[at + 10],
            d[at + 11],
            d[at + 12],
            d[at + 13],
            d[at + 14],
            d[at + 15],
        ],
    )
}

/// What the stack reads of an IPv6 packet with these octets.
pub open spec fn ipv6_packet(d: Seq<u8>) -> IpPacket {
    IpPacket {
        src_addr: ipv6_addr_at(d, 8),
        dst_addr: ipv6_addr_at(d, 24),
        protocol: IpProtocol::numbered(d[6]),
    }
}

/// What the stack reads of these octets, where they are a whole packet of a known version.
pub open spec fn packet_of(data: Seq<u8>) -> Option<IpPacket> {
    match version_of(data) {
        Some(IpVersion::Ipv4) if ipv4_complete(data) => Some(ipv4_packet(data)),
        Some(IpVersion::Ipv6) if ipv6_complete(data) => Some(ipv6_packet(data)),
        _ => None,
    }
}

impl IpPacket {
    /// Reads a packet, which must have at least one octet. The error comes where the first four
    /// bits give no known version, and where the packet is not whole.
    pub fn new_checked(data: &[u8]) -> (packet: Result<IpPacket, smoltcp::wire::Error>)
        requires
            data@.len() > 0,
        ensures
            packet is Ok <==> packet_of(data@) is Some,
            packet matches Ok(packet) ==> packet_of(data@) == Some(packet),
            packet matches Ok(packet) ==> data@[0] / 16 == 4 ==> {
                &&& data@.len() >= 20
                &&& packet.src_addr matches IpAddr::V4(src)
                &&& packet.dst_addr matches IpAddr::V4(dst)
                &&& src@ == data@.subrange(12, 16)
                &&& dst@ == data@.subrange(16, 20)
                &&& packet.protocol == IpProtocol::numbered(data@[9])
            },
            packet matches Ok(packet) ==> data@[0] / 16 == 6 ==> {
                &&& data@.len() >= 40
                &&& packet.src_addr matches IpAddr::V6(src)
                &&& packet.dst_addr matches IpAddr::V6(dst)
                &&& src@ == data@.subrange(8, 24)
                &&& dst@ == data@.subrange(24, 40)
                &&& packet.protocol == IpProtocol::numbered(data@[6])
            },
            packet is Ok ==> data@[0] / 16 == 4 || data@[0] / 16 == 6,
    {
        match version(data)? {
            IpVersion::Ipv4 => {
                check_ipv4(data)?;
                let src_addr = ipv4_src_addr(data);
                let dst_addr = ipv4_dst_addr(data);
                let protocol = IpProtocol::from_number(ipv4_next_header(data));
                proof {
                    assert(src_addr =~= [data@[12], data@[13], data@[14], data@[15]]);
                    assert(dst_addr =~= [data@[16], data@[17], data@[18], data@[19]]);
                }
                Ok(
                    IpPacket {
                        src_addr: IpAddr::V4(src_addr),
                        dst_addr: IpAddr::V4(dst_addr),
                        protocol,
                    },
                )
            },
            IpVersion::Ipv6 => {
                check_ipv6(data)?;
                let src_addr = IpAddr::V6(ipv6_src_addr(data));
                let dst_addr = IpAddr::V6(ipv6_dst_addr(data));
                let protocol = IpProtocol::from_number(ipv6_next_header(data));
                proof {
                    lemma_ipv6_addr_at(src_addr, data@, 8);
                    lemma_ipv6_addr_at(dst_addr, data@, 24);
                }
                Ok(IpPacket { src_addr, dst_addr, protocol })
            },
        }
    }
}

/// An IPv6 address with the sixteen octets from `at` is the address that stands there.
proof fn lemma_ipv6_addr_at(addr: IpAddr, d: Seq<u8>, at: int)
    requires
        0 <= at,
        at + 16 <= d.len(),
        addr matches IpAddr::V6(octets) && octets@ == d.subrange(at, at + 16),
    ensures
        addr == ipv6_addr_at(d, at),
{
    let octets = addr->V6_0;
    assert forall|i: int| 0 <= i < 16 implies #[trigger] octets@[i] == d[at + i] by {
        assert(octets@[i] == d.subrange(at, at + 16)[i]);
    }
    assert(octets =~= ipv6_addr_at(d, at)->V6_0);
}

/// Which octets are a packet is a matter of the version and of the lengths alone. An IPv4 packet
/// has the version 4, a fixed header of 20 octets, a header length that is no more than the total
/// length, and at least as many octets as the total length. An IPv6 packet has the version 6, a
/// fixed header of 40 octets, and at least as many octets after it as the payload length. Nothing
/// else is a packet.
pub proof fn law_whole_packets(data: Seq<u8>)
    requires
        data.len() > 0,
    ensures
        packet_of(data) is Some <==> {
            ||| {
                &&& data[0] / 16 == 4
                &&& data.len() >= 20
                &&& (data[0] % 16) * 4 <= data[2] * 256 + data[3]
                &&& data[2] * 256 + data[3] <= data.len()
            }
            ||| {
                &&& data[0] / 16 == 6
                &&& data.len() >= 40
                &&& data.len() - 40 >= data[4] * 256 + data[5]
            }
        },
{
}

/// The addresses of an IPv4 packet are four octets each, the source from octet 12 on and the
/// destination from octet 16 on, and its protocol is the one with the number in octet 9.
pub proof fn law_ipv4_octets(data: Seq<u8>, packet: IpPacket, i: int)
    requires
        data.len() > 0,
        data[0] / 16 == 4,
        packet_of(data) == Some(packet),
        0 <= i < 4,
    ensures
        packet.src_addr matches IpAddr::V4(src) && src@[i] == data[12 + i],
        packet.dst_addr matches IpAddr::V4(dst) && dst@[i] == data[16 + i],
        packet.protocol == IpProtocol::numbered(data[9]),
{
}

/// The addresses of an IPv6 packet are sixteen octets each, the source from octet 8 on and the
/// destination from octet 24 on, and its protocol is the one with the number in octet 6.
pub proof fn law_ipv6_octets(data: Seq<u8>, packet: IpPacket, i: int)
    requires
        data.len() > 0,
        data[0] / 16 == 6,
        packet_of(data) == Some(packet),
        0 <= i < 16,
    ensures
        packet.src_addr matches IpAddr::V6(src) && src@[i] == data[8 + i],
        packet.dst_addr matches IpAddr::V6(dst) && dst@[i] == data[24 + i],
        packet.protocol == IpProtocol::numbered(data[6]),
{
}

/// Two IPv4 packets that differ in any octet of an address have different addresses there, and
/// two whose addresses agree octet for octet have the same.
pub proof fn law_ipv4_addresses_told_apart(a: Seq<u8>, b: Seq<u8>)
    requires
        a.len() > 0,
        b.len() > 0,
        a[0] / 16 == 4,
        b[0] / 16 == 4,
        packet_of(a) is Some,
        packet_of(b) is Some,
    ensures
        packet_of(a)->0.src_addr == packet_of(b)->0.src_addr <==> forall|k: int|
            12 <= k < 16 ==> a[k] == #[trigger] b[k],
        packet_of(a)->0.dst_addr == packet_of(b)->0.dst_addr <==> forall|k: int|
            16 <= k < 20 ==> a[k] == #[trigger] b[k],
{
    lemma_same_octets(a, b, packet_of(a)->0.src_addr, packet_of(b)->0.src_addr, 12, 4);
    lemma_same_octets(a, b, packet_of(a)->0.dst_addr, packet_of(b)->0.dst_addr, 16, 4);
}

/// Two IPv6 packets that differ in any octet of an address have different addresses there, and
/// two whose addresses agree octet for octet have the same.
pub proof fn law_ipv6_addresses_told_apart(a: Seq<u8>, b: Seq<u8>)
    requires
        a.len() > 0,
        b.len() > 0,
        a[0] / 16 == 6,
        b[0] / 16 == 6,
        packet_of(a) is Some,
        packet_of(b) is Some,
    ensures
        packet_of(a)->0.src_addr == packet_of(b)->0.src_addr <==> forall|k: int|
            8 <= k < 24 ==> a[k] == #[trigger] b[k],
        packet_of(a)->0.dst_addr == packet_of(b)->0.dst_addr <==> forall|k: int|
            24 <= k < 40 ==> a[k] == #[trigger] b[k],
{
    lemma_same_octets(a, b, packet_of(a)->0.src_addr, packet_of(b)->0.src_addr, 8, 16);
    lemma_same_octets(a, b, packet_of(a)->0.dst_addr, packet_of(b)->0.dst_addr, 24, 16);
}

/// The octets of an address.
spec fn octets_in(addr: IpAddr) -> Seq<u8> {
    match addr {
        IpAddr::V4(octets) => octets@,
        IpAddr::V6(octets) => octets@,
    }
}

/// Two addresses of one version that stand at the same place of two packets are the same exactly
/// when the octets there are.
proof fn lemma_same_octets(
    a: Seq<u8>,
    b: Seq<u8>,
    first: IpAddr,
    second: IpAddr,
    at: int,
    len: int,
)
    requires
        first is V4 <==> second is V4,
        octets_in(first).len() == len,
        octets_in(second).len() == len,
        forall|i: int| 0 <= i < len ==> #[trigger] octets_in(first)[i] == a[at + i],
        forall|i: int| 0 <= i < len ==> #[trigger] octets_in(second)[i] == b[at + i],
    ensures
        first == second <==> forall|k: int| at <= k < at + len ==> a[k] == #[trigger] b[k],
{
    if first == second {
        assert forall|k: int| at <= k < at + len implies a[k] == #[trigger] b[k] by {
            assert(octets_in(first)[k - at] == a[at + (k - at)]);
            assert(octets_in(second)[k - at] == b[at + (k - at)]);
        }
    }
    if forall|k: int| at <= k < at + len ==> a[k] == #[trigger] b[k] {
        assert forall|i: int| 0 <= i < len implies octets_in(first)[i] == octets_in(second)[i] by {
            assert(a[at + i] == b[at + i]);
        }
        match (first, second) {
            (IpAddr::V4(x), IpAddr::V4(y)) => {
                assert forall|i: int| 0 <= i < 4 implies x@[i] == y@[i] by {
                    assert(octets_in(first)[i] == octets_in(second)[i]);
                }
                assert(x =~= y);
            },
            (IpAddr::V6(x), IpAddr::V6(y)) => {
                assert forall|i: int| 0 <= i < 16 implies x@[i] == y@[i] by {
                    assert(octets_in(first)[i] == octets_in(second)[i]);
                }
                assert(x =~= y);
            },
            _ => {},
        }
    }
}

/// Octets behind a whole packet change nothing of what the stack reads of it.
pub proof fn law_octets_behind_do_not_count(data: Seq<u8>, behind: Seq<u8>)
    requires
        data.len() > 0,
        packet_of(data) is Some,
    ensures
        packet_of(data + behind) == packet_of(data),
{
    assert forall|i: int| 0 <= i < data.len() implies (data + behind)[i] == data[i] by {}
}

/// The stack knows four protocols, each by its number. Any other is known by its number alone,
/// so no two numbers stand for the same protocol.
pub proof fn law_protocol_numbers(number: u8, other: u8)
    ensures
        IpProtocol::numbered(number) is Icmp <==> number == 1,
        IpProtocol::numbered(number) is Tcp <==> number == 6,
        IpProtocol::numbered(number) is Udp <==> number == 17,
        IpProtocol::numbered(number) is Icmpv6 <==> number == 58,
        IpProtocol::numbered(number) matches IpProtocol::Other(kept) ==> kept == number,
        IpProtocol::numbered(number) == IpProtocol::numbered(other) <==> number == other,
{
}

/// The stack carries TCP, UDP and both versions of ICMP, by their numbers 6, 17, 1 and 58, and
/// nothing else.
pub proof fn law_carried_protocols(protocol: IpProtocol, number: u8)
    ensures
        protocol.carried() <==> protocol is Tcp || protocol is Udp || protocol is Icmp
            || protocol is Icmpv6,
        IpProtocol::numbered(number).carried() <==> number == 6 || number == 17 || number == 1
            || number == 58,
{
}

/// `IpVersion::of_packet` of smoltcp: the version that the first four bits give. It panics
/// where there is no octet.
#[verifier::external_body]
fn version(data: &[u8]) -> (version: Result<IpVersion, smoltcp::wire::Error>)
    requires
        data@.len() > 0,
    ensures
        version is Ok <==> version_of(data@) is Some,
        version matches Ok(version) ==> version_of(data@) == Some(version),
{
    match smoltcp::wire::IpVersion::of_packet(data)? {
        smoltcp::wire::IpVersion::Ipv4 => Ok(IpVersion::Ipv4),
        smoltcp::wire::IpVersion::Ipv6 => Ok(IpVersion::Ipv6),
    }
}

/// `Ipv4Packet::new_checked` of smoltcp: whether the octets are a whole IPv4 packet, by the
/// lengths alone.
#[verifier::external_body]
fn check_ipv4(data: &[u8]) -> (checked: Result<(), smoltcp::wire::Error>)
    ensures
        checked is Ok <==> ipv4_complete(data@),
{
    Ipv4Packet::new_checked(data).map(|_packet| ())
}

/// `Ipv4Packet::src_addr` of smoltcp: octets 12 to 15. It panics where they are missing.
#[verifier::external_body]
fn ipv4_src_addr(data: &[u8]) -> (octets: [u8; 4])
    requires
        data@.len() >= 20,
    ensures
        octets@ == data@.subrange(12, 16),
{
    Ipv4Packet::new_unchecked(data).src_addr().octets()
}

/// `Ipv4Packet::dst_addr` of smoltcp: octets 16 to 19. It panics where they are missing.
#[verifier::external_body]
fn ipv4_dst_addr(data: &[u8]) -> (octets: [u8; 4])
    requires
        data@.len() >= 20,
    ensures
        octets@ == data@.subrange(16, 20),
{
    Ipv4Packet::new_unchecked(data).dst_addr().octets()
}

/// `Ipv4Packet::next_header` of smoltcp: the protocol number in octet 9. It panics where the
/// octet is missing.
#[verifier::external_body]
fn ipv4_next_header(data: &[u8]) -> (number: u8)
    requires
        data@.len() >= 20,
    ensures
        number == data@[9],
{
    Ipv4Packet::new_unchecked(data).next_header().into()
}

/// `Ipv6Packet::new_checked` of smoltcp: whether the octets are a whole IPv6 packet, by the
/// lengths alone.
#[verifier::external_body]
fn check_ipv6(data: &[u8]) -> (checked: Result<(), smoltcp::wire::Error>)
    ensures
        checked is Ok <==> ipv6_complete(data@),
{
    Ipv6Packet::new_checked(data).map(|_packet| ())
}

/// `Ipv6Packet::src_addr` of smoltcp: octets 8 to 23. It panics where they are missing.
#[verifier::external_body]
fn ipv6_src_addr(data: &[u8]) -> (octets: [u8; 16])
    requires
        data@.len() >= 40,
    ensures
        octets@ == data@.subrange(8, 24),
{
    Ipv6Packet::new_unchecked(data).src_addr().octets()
}

/// `Ipv6Packet::dst_addr` of smoltcp: octets 24 to 39. It panics where they are missing.
#[verifier::external_body]
fn ipv6_dst_addr(data: &[u8]) -> (octets: [u8; 16])
    requires
        data@.len() >= 40,
    ensures
        octets@ == data@.subrange(24, 40),
{
    Ipv6Packet::new_unchecked(data).dst_addr().octets()
}

/// `Ipv6Packet::next_header` of smoltcp: the protocol number in octet 6. It panics where the
/// octet is missing.
#[verifier::external_body]
fn ipv6_next_header(data: &[u8]) -> (number: u8)
    requires
        data@.len() >= 40,
    ensures
        number == data@[6],
{
    Ipv6Packet::new_unchecked(data).next_header().into()
}

/// The text of every wire error of smoltcp: `Display` writes the same words for each.
#[verifier::external_body]
pub(crate) fn wire_error_text(error: &smoltcp::wire::Error) -> (text: String)
    ensures
        text@ == "wire::Error"@,
{
    error.to_string()
}

} // verus!
