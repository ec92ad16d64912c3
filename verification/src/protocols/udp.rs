//! UDP headers: the ports, and the datagram's payload once its length and
//! checksum are found in order.

use super::ip::{pseudo_header, IpFamily, IpInfo};
use crate::csum;
use crate::csum::model::{lemma_feed_split, CSumState};
use crate::wire::{be16_at, u16_at};
use vstd::prelude::*;

verus! {

/// What the UDP layer says of a datagram.
#[derive(Clone, Copy, PartialEq, Eq, Structural, PartialOrd, Ord, Hash, Debug)]
pub struct UdpInfo {
    pub source_port: u16,
    pub destination_port: u16,
}

/// The IP and UDP layers of one datagram, for whoever prints them together.
pub struct IpUdpInfo<'a>(pub &'a IpInfo, pub &'a UdpInfo);

/// Why a UDP datagram was not decoded.
#[derive(Clone, Copy, PartialEq, Eq, Structural, PartialOrd, Ord, Hash, Debug)]
pub enum UdpError {
    HeaderTruncated,
    /// The length that the header declares, which is less than the header's
    /// own.
    HeaderTooShort(usize),
    ChecksumMismatch,
    /// The length that the header declares, and what is there.
    PayloadTruncated(usize, usize),
}

/// The length of the datagram that starts `u`: what its header declares, or
/// all of `u` where the header declares nothing and the packet is a jumbo
/// packet.
pub open spec fn spec_udp_length(jumbo: bool, u: Seq<u8>) -> Result<int, UdpError> {
    let declared = be16_at(u, 4) as int;
    if u.len() < 8 {
        Err(UdpError::HeaderTruncated)
    } else if declared == 0 {
        if jumbo {
            Ok(u.len() as int)
        } else {
            Err(UdpError::HeaderTooShort(0))
        }
    } else if declared < 8 {
        Err(UdpError::HeaderTooShort(declared as usize))
    } else if declared > u.len() {
        Err(UdpError::PayloadTruncated(declared as usize, u.len() as usize))
    } else {
        Ok(declared)
    }
}

/// The checksum of `datagram` is in order: it verifies together with the
/// pseudo-header, or the datagram came over IPv4 with no checksum at all.
pub open spec fn udp_checksum_ok(family: IpFamily, ip: Seq<u8>, datagram: Seq<u8>) -> bool {
    ||| family == IpFamily::IPv4 && be16_at(datagram, 6) == 0
    ||| CSumState::empty().feed(pseudo_header(family, ip, datagram.len() as int) + datagram).verifies()
}

/// Whether the decoding of the UDP datagram that starts `u` reads addresses
/// and protocol from the IP header: it does wherever the datagram's length
/// is in order and its checksum is to be verified.
pub open spec fn udp_reads_ip_header(family: IpFamily, jumbo: bool, u: Seq<u8>) -> bool {
    match spec_udp_length(jumbo, u) {
        Err(_) => false,
        Ok(_) => !(family == IpFamily::IPv4 && be16_at(u, 6) == 0),
    }
}

/// The decoding of the UDP datagram that starts `u`, carried by the IP
/// packet `ip`: the ports, and the end of the payload, which starts after
/// the eight bytes of the header.
pub open spec fn spec_check_udp(family: IpFamily, jumbo: bool, ip: Seq<u8>, u: Seq<u8>) -> Result<
    (UdpInfo, int),
    UdpError,
> {
    match spec_udp_length(jumbo, u) {
        Err(e) => Err(e),
        Ok(length) => if !udp_checksum_ok(family, ip, u.subrange(0, length)) {
            Err(UdpError::ChecksumMismatch)
        } else {
            Ok(
                (
                    UdpInfo { source_port: be16_at(u, 0), destination_port: be16_at(u, 2) },
                    length,
                ),
            )
        },
    }
}

/// Decodes the UDP datagram `udp_payload`, the transport payload of the
/// packet whose IP header starts `ip_payload` and is described by `ip_info`.
/// Where the checksum is verified, `ip_payload` has to hold the fixed part
/// of the IP header.
pub fn check_udp<'a>(
    ip_family: IpFamily,
    ip_info: &IpInfo,
    ip_payload: &[u8],
    udp_payload: &'a [u8],
) -> (r: Result<(UdpInfo, &'a [u8]), UdpError>)
    requires
        udp_reads_ip_header(ip_family, ip_info.jumbo, udp_payload@) ==> ip_payload.len() >= (
        match ip_family {
            IpFamily::IPv4 => 20usize,
            IpFamily::IPv6 => 40usize,
        }),
    ensures
        match spec_check_udp(ip_family, ip_info.jumbo, ip_payload@, udp_payload@) {
            Ok((info, end)) => r matches Ok((i, payload)) && i == info && 8 <= end
                <= udp_payload@.len() && payload@ == udp_payload@.subrange(8, end),
            Err(e) => r == Err::<(UdpInfo, &[u8]), UdpError>(e),
        },
{
    if udp_payload.len() < 8 {
        return Err(UdpError::HeaderTruncated);
    }
    let udp_length = u16_at(udp_payload, 4);
    let datagram = if 0 == udp_length {
        if !ip_info.jumbo {
            return Err(UdpError::HeaderTooShort(udp_length as usize));
        }
        assert(udp_payload@.subrange(0, udp_payload@.len() as int) =~= udp_payload@);
        udp_payload
    } else if udp_length < 8 {
        return Err(UdpError::HeaderTooShort(udp_length as usize));
    } else if udp_length as usize > udp_payload.len() {
        return Err(UdpError::PayloadTruncated(udp_length as usize, udp_payload.len()));
    } else {
        &udp_payload[0..udp_length as usize]
    };
    let verified = match ip_family {
        IpFamily::IPv4 => 0 != u16_at(datagram, 6),
        IpFamily::IPv6 => true,
    };
    if verified {
        proof {
            lemma_feed_split(
                CSumState::empty(),
                pseudo_header(ip_family, ip_payload@, datagram@.len() as int),
                datagram@,
            );
        }
        if 0 != !ip_family.pseudo_header_checksum(
            ip_payload,
            datagram.len(),
            csum::CSum::new(),
        ).add(datagram).result() {
            return Err(UdpError::ChecksumMismatch);
        }
    }
    Ok(
        (
            UdpInfo {
                source_port: u16_at(datagram, 0),
                destination_port: u16_at(datagram, 2),
            },
            &datagram[8..datagram.len()],
        ),
    )
}

} // verus!
