//! IPv4 and IPv6 headers: what they say of a packet, and where its
//! transport payload lies.

use crate::csum;
use crate::csum::model::CSumState;
use crate::wire::{be128_at, be16_at, be32_at, be32_bytes, u128_at, u16_at, u32_at, u32_bytes};
use vstd::prelude::*;

verus! {

/// The two versions of the Internet Protocol.
#[derive(Clone, Copy, PartialEq, Eq, Structural, PartialOrd, Ord, Hash, Debug)]
pub enum IpFamily {
    IPv4,
    IPv6,
}

/// An address of either family, as the number that its bytes encode in
/// network byte order.
#[derive(Clone, Copy, PartialEq, Eq, Structural, PartialOrd, Ord, Hash, Debug)]
pub enum IpAddress {
    V4(u32),
    V6(u128),
}

/// What the IP layer says of a packet.
#[derive(Clone, Copy, PartialEq, Eq, PartialOrd, Ord, Hash, Debug)]
pub struct IpInfo {
    pub source: IpAddress,
    pub destination: IpAddress,
    /// Offset in bytes, identification (16 bits of it in IPv4) and the
    /// more-fragments flag of a fragment; `None` for a whole datagram.
    pub fragment: Option<(usize, u32, bool)>,
    /// The protocol of the payload; in IPv6 the first next-header value that
    /// is no extension header known here.
    pub protocol: u8,
    /// IPv6 only: the length came from a jumbo payload option.
    pub jumbo: bool,
}

/// Why an IP packet was not decoded.
#[derive(Clone, Copy, PartialEq, Eq, Structural, PartialOrd, Ord, Hash, Debug)]
pub enum IpError {
    HeaderTruncated,
    VersionMismatch,
    /// IPv4 only.
    HeaderTooShort,
    /// IPv4 only.
    HeaderLongerThanPacket { header_length: usize, total_length: usize },
    /// IPv6 only.
    ExtensionHeaderLongerThanPacket,
    HeaderChecksumMismatch,
    /// IPv6 only.
    InvalidExtensionHeader,
    /// Offset and size together exceed what a datagram can hold.
    FragmentOversize,
    PayloadTruncated { expected_length: usize },
}

/// A decoded packet in the model: what the header says, and the bounds of
/// the transport payload within the input.
pub struct IpPacket {
    pub info: IpInfo,
    pub start: int,
    pub end: int,
}

/// The header length that an IPv4 header declares, in bytes.
pub open spec fn ipv4_header_length(s: Seq<u8>) -> int {
    (s[0] % 16) as int * 4
}

/// The total length that an IPv4 header declares.
pub open spec fn ipv4_total_length(s: Seq<u8>) -> int {
    be16_at(s, 2) as int
}

/// The fragment offset that an IPv4 header declares, in bytes.
pub open spec fn ipv4_fragment_offset(s: Seq<u8>) -> int {
    (be16_at(s, 6) % 0x2000) as int * 8
}

/// The more-fragments flag of an IPv4 header.
pub open spec fn ipv4_more_fragments(s: Seq<u8>) -> bool {
    be16_at(s, 6) / 0x2000 % 2 == 1
}

/// The fragment entry for an offset, an identification and a flag: absent
/// for a datagram that is whole.
pub open spec fn fragment_of(offset: int, identification: u32, more: bool) -> Option<
    (usize, u32, bool),
> {
    if offset != 0 || more {
        Some((offset as usize, identification, more))
    } else {
        None
    }
}

/// The one's-complement sum over `header` verifies.
pub open spec fn header_verifies(header: Seq<u8>) -> bool {
    CSumState::empty().feed(header).verifies()
}

/// What an IPv4 header says once it has passed every check.
pub open spec fn ipv4_info(s: Seq<u8>) -> IpInfo {
    IpInfo {
        source: IpAddress::V4(be32_at(s, 12)),
        destination: IpAddress::V4(be32_at(s, 16)),
        fragment: fragment_of(
            ipv4_fragment_offset(s),
            be16_at(s, 4) as u32,
            ipv4_more_fragments(s),
        ),
        protocol: s[9],
        jumbo: false,
    }
}

/// The decoding of an IPv4 packet: the checks in the order in which they
/// reject, then the header's content and the payload's bounds.
pub open spec fn spec_check_ipv4(s: Seq<u8>) -> Result<IpPacket, IpError> {
    let header_length = ipv4_header_length(s);
    let total_length = ipv4_total_length(s);
    if s.len() < 20 {
        Err(IpError::HeaderTruncated)
    } else if s[0] / 16 != 4 {
        Err(IpError::VersionMismatch)
    } else if header_length < 20 {
        Err(IpError::HeaderTooShort)
    } else if header_length > total_length {
        Err(
            IpError::HeaderLongerThanPacket {
                header_length: header_length as usize,
                total_length: total_length as usize,
            },
        )
    } else if header_length > s.len() {
        Err(IpError::HeaderTruncated)
    } else if !header_verifies(s.subrange(0, header_length)) {
        Err(IpError::HeaderChecksumMismatch)
    } else if ipv4_fragment_offset(s) + total_length > 0xffff {
        Err(IpError::FragmentOversize)
    } else if total_length > s.len() {
        Err(IpError::PayloadTruncated { expected_length: total_length as usize })
    } else {
        Ok(IpPacket { info: ipv4_info(s), start: header_length, end: total_length })
    }
}

/// The length that a jumbo payload option in a hop-by-hop header gives,
/// scanning the options from offset `off`. Padding bytes are stepped over,
/// other options skipped by their length. A jumbo option counts only at an
/// offset of the form 4n + 2, with four bytes of content that say more than
/// 65535; a jumbo option that is anything else, or an option that runs past
/// the header, ends the scan without a length.
pub open spec fn spec_find_jumbo(h: Seq<u8>, off: int) -> Option<usize>
    decreases h.len() - off,
{
    if off < 0 || off >= h.len() {
        None
    } else if h[off] == 0 {
        spec_find_jumbo(h, off + 1)
    } else if h[off] == 0xC2 {
        if off % 4 == 2 && off + 6 <= h.len() && h[off + 1] == 4 && be32_at(h, off + 2) > 65535 {
            Some(be32_at(h, off + 2) as usize)
        } else {
            None
        }
    } else if off + 1 >= h.len() {
        None
    } else {
        let skip = 2 + h[off + 1] as nat;
        if off + skip > h.len() {
            None
        } else {
            spec_find_jumbo(h, off + skip)
        }
    }
}

/// Where an IPv6 packet stands after its fixed header and a hop-by-hop
/// header, if it has one.
pub struct HopByHop {
    pub next_header: u8,
    pub offset: int,
    pub payload_length: int,
    pub jumbo: bool,
}

/// The first step past the fixed IPv6 header. A hop-by-hop header must fit
/// in the packet; where the fixed header declares no payload length, the
/// hop-by-hop header must give one in a jumbo payload option.
pub open spec fn spec_hop_by_hop(s: Seq<u8>) -> Result<HopByHop, IpError> {
    let declared = be16_at(s, 4) as int;
    let length = 8 + 8 * (s[41] as int);
    if s[6] != 0 {
        Ok(HopByHop { next_header: s[6], offset: 40, payload_length: declared, jumbo: false })
    } else if 48 > s.len() || 40 + length > s.len() {
        Err(IpError::ExtensionHeaderLongerThanPacket)
    } else if declared != 0 {
        Ok(
            HopByHop {
                next_header: s[40],
                offset: 40 + length,
                payload_length: declared,
                jumbo: false,
            },
        )
    } else {
        match spec_find_jumbo(s.subrange(40, 40 + length), 2) {
            Some(n) => Ok(
                HopByHop {
                    next_header: s[40],
                    offset: 40 + length,
                    payload_length: n as int,
                    jumbo: true,
                },
            ),
            None => Err(IpError::PayloadTruncated { expected_length: 0 }),
        }
    }
}

/// Where the walk over the extension headers of an IPv6 packet ends.
pub struct ExtensionWalk {
    pub fragment: Option<(usize, u32, bool)>,
    pub protocol: u8,
    pub offset: int,
}

/// The fragment offset that an IPv6 fragment header at `at` declares, in
/// bytes.
pub open spec fn ipv6_fragment_offset(s: Seq<u8>, at: int) -> int {
    be16_at(s, at + 2) as int - be16_at(s, at + 2) as int % 8
}

/// The more-fragments flag of an IPv6 fragment header at `at`.
pub open spec fn ipv6_more_fragments(s: Seq<u8>, at: int) -> bool {
    be16_at(s, at + 2) % 2 == 1
}

/// The walk over the extension headers of the packet `s`, which ends with
/// its payload, from the header of type `next_header` at `offset`. Routing
/// and destination option headers are skipped. A fragment header ends the
/// walk and is recorded. A hop-by-hop header is in order only in the first
/// place, so not here. Any other type, or too little room for one more
/// header, ends the walk with that type as the protocol.
pub open spec fn spec_walk_extensions(
    s: Seq<u8>,
    next_header: u8,
    offset: int,
    jumbo: bool,
) -> Result<ExtensionWalk, IpError>
    decreases s.len() - offset,
{
    if offset < 0 || offset > s.len() {
        Err(IpError::ExtensionHeaderLongerThanPacket)
    } else if offset + 8 >= s.len() {
        Ok(ExtensionWalk { fragment: None, protocol: next_header, offset })
    } else if next_header == 0 {
        Err(IpError::InvalidExtensionHeader)
    } else if next_header == 43 || next_header == 60 {
        let length = 8 + 8 * (s[offset + 1] as nat);
        if offset + length > s.len() {
            Err(IpError::ExtensionHeaderLongerThanPacket)
        } else {
            spec_walk_extensions(s, s[offset], offset + length, jumbo)
        }
    } else if next_header == 44 {
        let remaining = s.len() - (offset + 8);
        if jumbo {
            Err(IpError::InvalidExtensionHeader)
        } else if ipv6_more_fragments(s, offset) && remaining % 8 != 0 {
            Err(IpError::InvalidExtensionHeader)
        } else if ipv6_fragment_offset(s, offset) + remaining > 0xffff - 40 {
            Err(IpError::FragmentOversize)
        } else {
            Ok(
                ExtensionWalk {
                    fragment: Some(
                        (
                            ipv6_fragment_offset(s, offset) as usize,
                            be32_at(s, offset + 4),
                            ipv6_more_fragments(s, offset),
                        ),
                    ),
                    protocol: s[offset],
                    offset: offset + 8,
                },
            )
        }
    } else {
        Ok(ExtensionWalk { fragment: None, protocol: next_header, offset })
    }
}

/// The decoding of an IPv6 packet. No checksum is verified: an IPv6 header
/// carries none.
pub open spec fn spec_check_ipv6(s: Seq<u8>) -> Result<IpPacket, IpError> {
    if s.len() < 40 {
        Err(IpError::HeaderTruncated)
    } else if s[0] / 16 != 6 {
        Err(IpError::VersionMismatch)
    } else {
        match spec_hop_by_hop(s) {
            Err(e) => Err(e),
            Ok(first) => if first.payload_length > s.len() - 40 {
                Err(IpError::PayloadTruncated { expected_length: first.payload_length as usize })
            } else {
                let end = first.payload_length + 40;
                match spec_walk_extensions(
                    s.subrange(0, end),
                    first.next_header,
                    first.offset,
                    first.jumbo,
                ) {
                    Err(e) => Err(e),
                    Ok(walk) => Ok(
                        IpPacket {
                            info: IpInfo {
                                source: IpAddress::V6(be128_at(s, 8)),
                                destination: IpAddress::V6(be128_at(s, 24)),
                                fragment: walk.fragment,
                                protocol: walk.protocol,
                                jumbo: first.jumbo,
                            },
                            start: walk.offset,
                            end,
                        },
                    ),
                }
            },
        }
    }
}

/// The decoding of a packet of the given family.
pub open spec fn spec_check_packet(family: IpFamily, s: Seq<u8>) -> Result<IpPacket, IpError> {
    match family {
        IpFamily::IPv4 => spec_check_ipv4(s),
        IpFamily::IPv6 => spec_check_ipv6(s),
    }
}

/// A decoder's answer agrees with the model: the same error, or the same
/// header content with the payload that the model's bounds cut out of `s`.
pub open spec fn decoded_as(
    r: Result<(IpInfo, &[u8]), IpError>,
    model: Result<IpPacket, IpError>,
    s: Seq<u8>,
) -> bool {
    match model {
        Ok(packet) => r matches Ok((info, payload)) && info == packet.info && 0 <= packet.start
            <= packet.end <= s.len() && payload@ == s.subrange(packet.start, packet.end),
        Err(e) => r == Err::<(IpInfo, &[u8]), IpError>(e),
    }
}

/// The pseudo-header that a transport checksum covers besides the transport
/// bytes: the addresses, the protocol and the transport length, laid out as
/// the family prescribes.
pub open spec fn pseudo_header(family: IpFamily, s: Seq<u8>, transport_size: int) -> Seq<u8> {
    let size = be32_bytes((transport_size % 0x1_0000_0000) as u32);
    match family {
        IpFamily::IPv4 => s.subrange(12, 20) + seq![0u8, s[9]] + size,
        IpFamily::IPv6 => s.subrange(8, 40) + size + seq![0u8, 0u8, 0u8, s[6]],
    }
}

/// Scans the options of a hop-by-hop header for a jumbo payload length.
fn find_jumbo_payload_option(hop_by_hop_header: &[u8]) -> (r: Option<usize>)
    ensures
        r == spec_find_jumbo(hop_by_hop_header@, 2),
{
    let n = hop_by_hop_header.len();
    let mut off: usize = 2;
    while off < n
        invariant
            n == hop_by_hop_header.len(),
            2 <= off,
            spec_find_jumbo(hop_by_hop_header@, off as int) == spec_find_jumbo(
                hop_by_hop_header@,
                2,
            ),
        decreases n - off,
    {
        let kind = hop_by_hop_header[off];
        if kind == 0 {
            off += 1;
        } else if kind == 0xC2 {
            if off % 4 != 2 {
                return None;
            }
            if n - off < 6 {
                return None;
            }
            if hop_by_hop_header[off + 1] != 4 {
                return None;
            }
            let payload_length = u32_at(hop_by_hop_header, off + 2);
            if payload_length <= 65535 {
                return None;
            }
            return Some(payload_length as usize);
        } else {
            if n - off < 2 {
                return None;
            }
            let skip = 2 + hop_by_hop_header[off + 1] as usize;
            if skip > n - off {
                return None;
            }
            off += skip;
        }
    }
    None
}

/// Decodes an IPv4 packet.
fn check_ipv4<'a>(ip_payload: &'a [u8]) -> (r: Result<(IpInfo, &'a [u8]), IpError>)
    ensures
        decoded_as(r, spec_check_ipv4(ip_payload@), ip_payload@),
{
    if ip_payload.len() < 20 {
        return Err(IpError::HeaderTruncated);
    }
    if ip_payload[0] / 16 != 4 {
        return Err(IpError::VersionMismatch);
    }
    let header_length = (ip_payload[0] % 16) as usize * 4;
    if header_length < 20 {
        return Err(IpError::HeaderTooShort);
    }
    let total_length = u16_at(ip_payload, 2) as usize;
    if header_length > total_length {
        return Err(IpError::HeaderLongerThanPacket { header_length, total_length });
    }
    if header_length > ip_payload.len() {
        return Err(IpError::HeaderTruncated);
    }
    if 0 != !csum::CSum::new().add(&ip_payload[0..header_length]).result() {
        return Err(IpError::HeaderChecksumMismatch);
    }
    let fragment_spec = u16_at(ip_payload, 6);
    let fragment_offset = (fragment_spec % 0x2000) as usize * 8;
    let fragment_id = u16_at(ip_payload, 4) as u32;
    let flag_mf = fragment_spec / 0x2000 % 2 == 1;
    if fragment_offset + total_length > 0xffff {
        return Err(IpError::FragmentOversize);
    }
    if total_length > ip_payload.len() {
        return Err(IpError::PayloadTruncated { expected_length: total_length });
    }
    Ok(
        (
            IpInfo {
                source: IpAddress::V4(u32_at(ip_payload, 12)),
                destination: IpAddress::V4(u32_at(ip_payload, 16)),
                fragment: if 0 != fragment_offset || flag_mf {
                    Some((fragment_offset, fragment_id, flag_mf))
                } else {
                    None
                },
                protocol: ip_payload[9],
                jumbo: false,
            },
            &ip_payload[header_length..total_length],
        ),
    )
}

/// Takes the first step past the fixed header of an IPv6 packet: over a
/// hop-by-hop header, if there is one. Gives the next header's type and
/// offset, the payload length, and whether that length is a jumbo length.
fn hop_by_hop(ip_payload: &[u8]) -> (r: Result<(u8, usize, usize, bool), IpError>)
    requires
        ip_payload.len() >= 40,
    ensures
        match spec_hop_by_hop(ip_payload@) {
            Ok(first) => r == Ok::<(u8, usize, usize, bool), IpError>(
                (
                    first.next_header,
                    first.offset as usize,
                    first.payload_length as usize,
                    first.jumbo,
                ),
            ) && 40 <= first.offset <= ip_payload.len() && 0 <= first.payload_length
                <= usize::MAX,
            Err(e) => r == Err::<(u8, usize, usize, bool), IpError>(e),
        },
{
    let payload_length = u16_at(ip_payload, 4) as usize;
    let next_header = ip_payload[6];
    if 0 != next_header {
        return Ok((next_header, 40, payload_length, false));
    }
    // A hop-by-hop header must come first if present.
    if ip_payload.len() < 48 {
        return Err(IpError::ExtensionHeaderLongerThanPacket);
    }
    let hop_by_hop_length = 8 + 8 * (ip_payload[41] as usize);
    if hop_by_hop_length > ip_payload.len() - 40 {
        return Err(IpError::ExtensionHeaderLongerThanPacket);
    }
    let payload_offset = 40 + hop_by_hop_length;
    if 0 != payload_length {
        return Ok((ip_payload[40], payload_offset, payload_length, false));
    }
    match find_jumbo_payload_option(&ip_payload[40..payload_offset]) {
        Some(jumbo_length) => Ok((ip_payload[40], payload_offset, jumbo_length, true)),
        None => Err(IpError::PayloadTruncated { expected_length: payload_length }),
    }
}

/// Walks the extension headers of an IPv6 packet that ends with its payload.
/// Gives the fragment entry, the protocol and the payload's offset.
fn walk_extensions(ip_payload: &[u8], first_header: u8, first_offset: usize, jumbo: bool) -> (r:
    Result<(Option<(usize, u32, bool)>, u8, usize), IpError>)
    ensures
        match spec_walk_extensions(ip_payload@, first_header, first_offset as int, jumbo) {
            Ok(walk) => r == Ok::<(Option<(usize, u32, bool)>, u8, usize), IpError>(
                (walk.fragment, walk.protocol, walk.offset as usize),
            ) && 0 <= walk.offset <= ip_payload.len(),
            Err(e) => r == Err::<(Option<(usize, u32, bool)>, u8, usize), IpError>(e),
        },
{
    let n = ip_payload.len();
    let mut next_header = first_header;
    let mut payload_offset = first_offset;
    loop
        invariant
            n == ip_payload.len(),
            spec_walk_extensions(ip_payload@, next_header, payload_offset as int, jumbo)
                == spec_walk_extensions(ip_payload@, first_header, first_offset as int, jumbo),
        decreases n - payload_offset,
    {
        if payload_offset > n {
            return Err(IpError::ExtensionHeaderLongerThanPacket);
        }
        // Too little is left for one more extension header: what the last
        // header announced is the protocol.
        if n - payload_offset <= 8 {
            return Ok((None, next_header, payload_offset));
        }
        if next_header == 0 {
            // Hop-by-hop options are in order in the first place only.
            return Err(IpError::InvalidExtensionHeader);
        } else if next_header == 43 || next_header == 60 {
            // Routing and destination options are skipped.
            let length = 8 + 8 * (ip_payload[payload_offset + 1] as usize);
            if length > n - payload_offset {
                return Err(IpError::ExtensionHeaderLongerThanPacket);
            }
            next_header = ip_payload[payload_offset];
            payload_offset += length;
        } else if next_header == 44 {
            if jumbo {
                return Err(IpError::InvalidExtensionHeader);
            }
            let fragment_spec = u16_at(ip_payload, payload_offset + 2);
            let fragment_offset = (fragment_spec - fragment_spec % 8) as usize;
            let fragment_id = u32_at(ip_payload, payload_offset + 4);
            let flag_mf = fragment_spec % 2 == 1;
            let remaining = n - (payload_offset + 8);
            if flag_mf && 0 != remaining % 8 {
                return Err(IpError::InvalidExtensionHeader);
            }
            if remaining > 0xffff - 40 || fragment_offset + remaining > 0xffff - 40 {
                return Err(IpError::FragmentOversize);
            }
            // The content of a fragment is not looked into.
            return Ok(
                (
                    Some((fragment_offset, fragment_id, flag_mf)),
                    ip_payload[payload_offset],
                    payload_offset + 8,
                ),
            );
        } else {
            // No next header, or one that is not known here.
            return Ok((None, next_header, payload_offset));
        }
    }
}

/// Decodes an IPv6 packet.
fn check_ipv6<'a>(ip_payload: &'a [u8]) -> (r: Result<(IpInfo, &'a [u8]), IpError>)
    ensures
        decoded_as(r, spec_check_ipv6(ip_payload@), ip_payload@),
{
    if ip_payload.len() < 40 {
        return Err(IpError::HeaderTruncated);
    }
    if ip_payload[0] / 16 != 6 {
        return Err(IpError::VersionMismatch);
    }
    let (first_header, first_offset, payload_length, jumbo) = match hop_by_hop(ip_payload) {
        Ok(first) => first,
        Err(e) => { return Err(e); },
    };
    if payload_length > ip_payload.len() - 40 {
        return Err(IpError::PayloadTruncated { expected_length: payload_length });
    }
    let packet = &ip_payload[0..payload_length + 40];
    let (fragment, protocol, payload_offset) = match walk_extensions(
        packet,
        first_header,
        first_offset,
        jumbo,
    ) {
        Ok(walk) => walk,
        Err(e) => { return Err(e); },
    };
    let payload = &packet[payload_offset..payload_length + 40];
    proof {
        assert(payload@ == ip_payload@.subrange(payload_offset as int, payload_length + 40));
        assert(be128_at(packet@, 8) == be128_at(ip_payload@, 8));
        assert(be128_at(packet@, 24) == be128_at(ip_payload@, 24));
    }
    Ok(
        (
            IpInfo {
                source: IpAddress::V6(u128_at(packet, 8)),
                destination: IpAddress::V6(u128_at(packet, 24)),
                fragment,
                protocol,
                jumbo,
            },
            payload,
        ),
    )
}

impl IpFamily {
    /// Feeds the pseudo-header of a transport checksum to `csum`. The
    /// addresses and the protocol are taken from `ip_payload`, which holds
    /// the packet from its IP header on.
    pub fn pseudo_header_checksum_with<C: csum::traits::CSum>(
        self,
        ip_payload: &[u8],
        transport_size: usize,
        csum: C,
    ) -> (r: C)
        requires
            self == IpFamily::IPv4 ==> ip_payload.len() >= 20,
            self == IpFamily::IPv6 ==> ip_payload.len() >= 40,
        ensures
            r.state() == csum.state().feed(pseudo_header(self, ip_payload@, transport_size as int)),
    {
        let transport_size_bytes = u32_bytes((transport_size as u64 % 0x1_0000_0000) as u32);
        match self {
            IpFamily::IPv4 => {
                let protocol_bytes: [u8; 2] = [0, ip_payload[9]];
                proof {
                    let addresses = ip_payload@.subrange(12, 20);
                    csum::model::lemma_feed_split(csum.state(), addresses, protocol_bytes@);
                    csum::model::lemma_feed_split(
                        csum.state(),
                        addresses + protocol_bytes@,
                        transport_size_bytes@,
                    );
                    assert(protocol_bytes@ =~= seq![0u8, ip_payload@[9]]);
                }
                csum.add(&ip_payload[12..20]).add(protocol_bytes.as_slice()).add(
                    transport_size_bytes.as_slice(),
                )
            },
            IpFamily::IPv6 => {
                let next_header_bytes: [u8; 4] = [0, 0, 0, ip_payload[6]];
                proof {
                    let addresses = ip_payload@.subrange(8, 40);
                    csum::model::lemma_feed_split(csum.state(), addresses, transport_size_bytes@);
                    csum::model::lemma_feed_split(
                        csum.state(),
                        addresses + transport_size_bytes@,
                        next_header_bytes@,
                    );
                    assert(next_header_bytes@ =~= seq![0u8, 0u8, 0u8, ip_payload@[6]]);
                }
                csum.add(&ip_payload[8..40]).add(transport_size_bytes.as_slice()).add(
                    next_header_bytes.as_slice(),
                )
            },
        }
    }

    /// Feeds the pseudo-header of a transport checksum to an accumulator of
    /// the width that the decoders use.
    pub fn pseudo_header_checksum(
        self,
        ip_payload: &[u8],
        transport_size: usize,
        csum: csum::CSum,
    ) -> (r: csum::CSum)
        requires
            self == IpFamily::IPv4 ==> ip_payload.len() >= 20,
            self == IpFamily::IPv6 ==> ip_payload.len() >= 40,
        ensures
            r@ == csum@.feed(pseudo_header(self, ip_payload@, transport_size as int)),
    {
        self.pseudo_header_checksum_with(ip_payload, transport_size, csum)
    }

    /// Decodes a packet of this family: checks its header, and gives what
    /// the header says together with the transport payload.
    pub fn check_packet<'a>(self, ip_payload: &'a [u8]) -> (r: Result<(IpInfo, &'a [u8]), IpError>)
        ensures
            decoded_as(r, spec_check_packet(self, ip_payload@), ip_payload@),
    {
        match self {
            IpFamily::IPv4 => check_ipv4(ip_payload),
            IpFamily::IPv6 => check_ipv6(ip_payload),
        }
    }
}

} // verus!
