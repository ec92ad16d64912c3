//! The link layer: which IP family a captured frame carries, and where the
//! IP packet starts.

use super::ip::IpFamily;
use crate::wire::{be16_at, u16_at};
use vstd::prelude::*;

verus! {

/// The link types that can be decoded, named as the capture library names
/// them.
#[allow(non_camel_case_types)]
#[derive(Clone, Copy, PartialEq, Eq, Structural, PartialOrd, Ord, Hash, Debug)]
pub enum Linktype {
    /// Ethernet.
    DLT_EN10MB,
    /// Linux "cooked" capture.
    DLT_LINUX_SLL,
    /// Raw IPv4.
    DLT_IPV4,
    /// Raw IPv6.
    DLT_IPV6,
}

/// Why no IP packet was found in a frame.
#[derive(Clone, Copy, PartialEq, Eq, Structural, PartialOrd, Ord, Hash, Debug)]
pub enum LinkFindIpError {
    UnexpectedEndOfData,
    UnknownEtherType(u16),
}

/// The link type with the given number, if it is one that can be decoded.
pub open spec fn linktype_of(code: i32) -> Option<Linktype> {
    if code == 1 {
        Some(Linktype::DLT_EN10MB)
    } else if code == 113 {
        Some(Linktype::DLT_LINUX_SLL)
    } else if code == 228 {
        Some(Linktype::DLT_IPV4)
    } else if code == 229 {
        Some(Linktype::DLT_IPV6)
    } else {
        None
    }
}

/// The family and the start of the IP packet in a frame whose EtherType
/// field stands at `pos`. Each 802.1Q tag moves the field on by four bytes,
/// as often as tags are stacked.
pub open spec fn spec_find_ethertype(s: Seq<u8>, pos: int) -> Result<(IpFamily, int), LinkFindIpError>
    decreases s.len() - pos,
{
    if pos < 0 || pos + 1 >= s.len() {
        Err(LinkFindIpError::UnexpectedEndOfData)
    } else {
        let ethertype = be16_at(s, pos);
        if ethertype == 0x0800 {
            Ok((IpFamily::IPv4, pos + 2))
        } else if ethertype == 0x86DD {
            Ok((IpFamily::IPv6, pos + 2))
        } else if ethertype == 0x8100 || ethertype == 0x9100 {
            if pos + 4 > s.len() {
                Err(LinkFindIpError::UnexpectedEndOfData)
            } else {
                spec_find_ethertype(s, pos + 4)
            }
        } else {
            Err(LinkFindIpError::UnknownEtherType(ethertype))
        }
    }
}

impl Linktype {
    /// The number by which the capture library knows this link type.
    pub open spec fn spec_code(self) -> i32 {
        match self {
            Linktype::DLT_EN10MB => 1,
            Linktype::DLT_LINUX_SLL => 113,
            Linktype::DLT_IPV4 => 228,
            Linktype::DLT_IPV6 => 229,
        }
    }

    /// The family and the start of the IP packet in a frame of this link
    /// type. A raw link type fixes the family, and the frame is the packet.
    pub open spec fn spec_find_ip_layer(self, s: Seq<u8>) -> Result<(IpFamily, int), LinkFindIpError> {
        match self {
            Linktype::DLT_EN10MB => spec_find_ethertype(s, 12),
            Linktype::DLT_LINUX_SLL => spec_find_ethertype(s, 14),
            Linktype::DLT_IPV4 => Ok((IpFamily::IPv4, 0)),
            Linktype::DLT_IPV6 => Ok((IpFamily::IPv6, 0)),
        }
    }

    /// The number by which the capture library knows this link type.
    pub fn code(self) -> (r: i32)
        ensures
            r == self.spec_code(),
            linktype_of(r) == Some(self),
    {
        match self {
            Linktype::DLT_EN10MB => 1,
            Linktype::DLT_LINUX_SLL => 113,
            Linktype::DLT_IPV4 => 228,
            Linktype::DLT_IPV6 => 229,
        }
    }

    /// Finds the IP packet in a frame: strips the link layer and says which
    /// family follows.
    pub fn find_ip_layer<'a>(&self, payload: &'a [u8]) -> (r: Result<
        (IpFamily, &'a [u8]),
        LinkFindIpError,
    >)
        ensures
            match self.spec_find_ip_layer(payload@) {
                Ok((family, start)) => r matches Ok((f, packet)) && f == family && 0 <= start
                    <= payload@.len() && packet@ == payload@.subrange(
                    start,
                    payload@.len() as int,
                ),
                Err(e) => r == Err::<(IpFamily, &[u8]), LinkFindIpError>(e),
            },
    {
        let n = payload.len();
        // The position of the EtherType field that is looked at next.
        let mut pos: usize = match *self {
            Linktype::DLT_EN10MB => 12,
            Linktype::DLT_LINUX_SLL => 14,
            Linktype::DLT_IPV4 => {
                assert(payload@.subrange(0, n as int) =~= payload@);
                return Ok((IpFamily::IPv4, payload));
            },
            Linktype::DLT_IPV6 => {
                assert(payload@.subrange(0, n as int) =~= payload@);
                return Ok((IpFamily::IPv6, payload));
            },
        };
        loop
            invariant
                n == payload.len(),
                spec_find_ethertype(payload@, pos as int) == self.spec_find_ip_layer(payload@),
            decreases n - pos,
        {
            if pos >= n || n - pos < 2 {
                return Err(LinkFindIpError::UnexpectedEndOfData);
            }
            let ethertype = u16_at(payload, pos);
            if ethertype == 0x0800 {
                return Ok((IpFamily::IPv4, &payload[pos + 2..n]));
            } else if ethertype == 0x86DD {
                return Ok((IpFamily::IPv6, &payload[pos + 2..n]));
            } else if ethertype == 0x8100 || ethertype == 0x9100 {
                // An 802.1Q tag: the EtherType proper follows it.
                if n - pos < 4 {
                    return Err(LinkFindIpError::UnexpectedEndOfData);
                }
                pos += 4;
            } else {
                return Err(LinkFindIpError::UnknownEtherType(ethertype));
            }
        }
    }

    /// The link type that the capture library reports under the number `lt`,
    /// if it is one that can be decoded.
    pub fn try_from(lt: i32) -> (r: Option<Linktype>)
        ensures
            r == linktype_of(lt),
            r matches Some(l) ==> l.spec_code() == lt,
    {
        if lt == 1 {
            Some(Linktype::DLT_EN10MB)
        } else if lt == 113 {
            Some(Linktype::DLT_LINUX_SLL)
        } else if lt == 228 {
            Some(Linktype::DLT_IPV4)
        } else if lt == 229 {
            Some(Linktype::DLT_IPV6)
        } else {
            None
        }
    }
}

} // verus!
