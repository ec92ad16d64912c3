//! The fixed header of a DNS message, and the extent of its four sections.

pub mod opcode;
pub mod rcode;

use crate::wire::{be16_at, u16_at};
use vstd::prelude::*;

verus! {

/// The direction of a DNS message.
#[derive(Clone, Copy, PartialEq, Eq, Structural, PartialOrd, Ord, Hash, Debug)]
pub enum DnsType {
    Query,
    Response,
}

/// The fixed header of a DNS message.
#[derive(Clone, Copy, PartialEq, Eq, Structural, PartialOrd, Ord, Hash, Debug)]
pub struct DnsInfo {
    pub id: u16,
    pub qr: DnsType,
    pub opcode: u8,
    pub authoritative_answer: bool,
    pub truncation: bool,
    pub recursion_desired: bool,
    pub recursion_available: bool,
    pub rcode: u8,
    pub qdcount: u16,
    pub ancount: u16,
    pub nscount: u16,
    pub arcount: u16,
}

/// The header that the first twelve bytes of `s` encode. The flags word is
/// laid out, from the top bit down, as QR, four bits of opcode, AA, TC, RD,
/// RA, three reserved bits and four bits of response code.
pub open spec fn spec_dns_header(s: Seq<u8>) -> DnsInfo {
    let packed = be16_at(s, 2);
    DnsInfo {
        id: be16_at(s, 0),
        qr: if packed / 0x8000 == 0 {
            DnsType::Query
        } else {
            DnsType::Response
        },
        opcode: (packed / 0x800 % 0x10) as u8,
        authoritative_answer: packed / 0x400 % 2 == 1,
        truncation: packed / 0x200 % 2 == 1,
        recursion_desired: packed / 0x100 % 2 == 1,
        recursion_available: packed / 0x80 % 2 == 1,
        rcode: (packed % 0x10) as u8,
        qdcount: be16_at(s, 4),
        ancount: be16_at(s, 6),
        nscount: be16_at(s, 8),
        arcount: be16_at(s, 10),
    }
}

/// The header of the DNS message `s`, which a payload of fewer than twelve
/// bytes does not hold.
pub open spec fn spec_dns_info(s: Seq<u8>) -> Option<DnsInfo> {
    if s.len() < 12 {
        None
    } else {
        Some(spec_dns_header(s))
    }
}

/// Decodes the fixed header of a DNS message. Fails only on a payload that
/// is too short to hold one.
pub fn dns_info(udp_payload: &[u8]) -> (r: Option<DnsInfo>)
    ensures
        r == spec_dns_info(udp_payload@),
{
    if udp_payload.len() < 12 {
        return None;
    }
    let packed = u16_at(udp_payload, 2);
    Some(
        DnsInfo {
            id: u16_at(udp_payload, 0),
            qr: if 0 == packed / 0x8000 {
                DnsType::Query
            } else {
                DnsType::Response
            },
            opcode: (packed / 0x800 % 0x10) as u8,
            authoritative_answer: packed / 0x400 % 2 == 1,
            truncation: packed / 0x200 % 2 == 1,
            recursion_desired: packed / 0x100 % 2 == 1,
            recursion_available: packed / 0x80 % 2 == 1,
            rcode: (packed % 0x10) as u8,
            qdcount: u16_at(udp_payload, 4),
            ancount: u16_at(udp_payload, 6),
            nscount: u16_at(udp_payload, 8),
            arcount: u16_at(udp_payload, 10),
        },
    )
}

/// Why the sections of a DNS message could not be walked.
#[derive(Clone, Copy, PartialEq, Eq, Structural, PartialOrd, Ord, Hash, Debug)]
pub enum DnsParseError {
    InvalidLengthOctetInName,
    NameTooLong,
    InvalidCompressedName,
    /// To be expected of a message that was truncated.
    UnexpectedEndOfData,
}

/// The length of the name that starts at `start` in the message `s`, of
/// which the labels before `pos` have been stepped over. A name ends with
/// an empty label or with a compression pointer, which must point to before
/// itself in the message. A label holds at most 63 bytes, and a name fewer
/// than 255.
pub open spec fn spec_name_length_from(s: Seq<u8>, start: int, pos: int) -> Result<
    usize,
    DnsParseError,
>
    decreases s.len() - pos,
{
    if pos < 0 || pos >= s.len() {
        Err(DnsParseError::UnexpectedEndOfData)
    } else if s[pos] == 0 {
        Ok((pos + 1 - start) as usize)
    } else if s[pos] >= 0xc0 {
        if pos + 1 >= s.len() {
            Err(DnsParseError::UnexpectedEndOfData)
        } else if (s[pos] % 0x40) as int * 0x100 + s[pos + 1] as int >= pos {
            Err(DnsParseError::InvalidCompressedName)
        } else {
            Ok((pos + 2 - start) as usize)
        }
    } else if s[pos] < 64 {
        let next = pos + 1 + s[pos] as nat;
        if next - start >= 255 {
            Err(DnsParseError::NameTooLong)
        } else if next >= s.len() {
            Err(DnsParseError::UnexpectedEndOfData)
        } else {
            spec_name_length_from(s, start, next)
        }
    } else {
        Err(DnsParseError::InvalidLengthOctetInName)
    }
}

/// The length of the name that starts at `start` in the message `s`.
pub open spec fn spec_name_length(s: Seq<u8>, start: int) -> Result<usize, DnsParseError> {
    spec_name_length_from(s, start, start)
}

/// The length of the question that starts at `start` in the message `s`: a
/// name, a type and a class.
pub open spec fn spec_question_length(s: Seq<u8>, start: int) -> Result<usize, DnsParseError> {
    match spec_name_length(s, start) {
        Err(e) => Err(e),
        Ok(name_len) => if s.len() < start + name_len + 4 {
            Err(DnsParseError::UnexpectedEndOfData)
        } else {
            Ok((name_len + 4) as usize)
        },
    }
}

/// The length of the resource record that starts at `start` in the message
/// `s`: a name, ten bytes of type, class, time to live and data length, and
/// the data.
pub open spec fn spec_rr_length(s: Seq<u8>, start: int) -> Result<usize, DnsParseError> {
    match spec_name_length(s, start) {
        Err(e) => Err(e),
        Ok(name_len) => if s.len() < start + name_len + 10 {
            Err(DnsParseError::UnexpectedEndOfData)
        } else if s.len() < start + name_len + 10 + be16_at(s, start + name_len + 8) {
            Err(DnsParseError::UnexpectedEndOfData)
        } else {
            Ok((name_len + 10 + be16_at(s, start + name_len + 8)) as usize)
        },
    }
}

/// The offset in `s` after `count` entries that start at `pos`: resource
/// records if `records` says so, questions otherwise.
pub open spec fn spec_skip_entries(s: Seq<u8>, pos: int, count: nat, records: bool) -> Result<
    int,
    DnsParseError,
>
    decreases count,
{
    if count == 0 {
        Ok(pos)
    } else {
        match if records {
            spec_rr_length(s, pos)
        } else {
            spec_question_length(s, pos)
        } {
            Err(e) => Err(e),
            Ok(length) => spec_skip_entries(s, pos + length, (count - 1) as nat, records),
        }
    }
}

/// The length of the name that starts at `start` in the message `buf`.
pub fn name_length(buf: &[u8], start: usize) -> (r: Result<usize, DnsParseError>)
    ensures
        r == spec_name_length(buf@, start as int),
        r matches Ok(n) ==> 1 <= n <= 256 && start + n <= buf@.len(),
{
    let n = buf.len();
    let mut pos: usize = start;
    while pos < n
        invariant
            n == buf.len(),
            start <= pos,
            pos - start < 255,
            spec_name_length_from(buf@, start as int, pos as int) == spec_name_length(
                buf@,
                start as int,
            ),
        decreases n - pos,
    {
        let octet = buf[pos];
        if 0 == octet {
            // The empty label that ends a name.
            return Ok(pos + 1 - start);
        } else if octet >= 0xc0 {
            // A compression pointer, which ends the name as well.
            if n - pos < 2 {
                return Err(DnsParseError::UnexpectedEndOfData);
            }
            let new_pos = (octet % 0x40) as usize * 0x100 + buf[pos + 1] as usize;
            if new_pos >= pos {
                return Err(DnsParseError::InvalidCompressedName);
            }
            return Ok(pos + 2 - start);
        } else if octet < 64 {
            let length = 1 + octet as usize;
            if pos - start + length >= 255 {
                return Err(DnsParseError::NameTooLong);
            }
            if length >= n - pos {
                return Err(DnsParseError::UnexpectedEndOfData);
            }
            pos += length;
        } else {
            // Reserved for future use.
            return Err(DnsParseError::InvalidLengthOctetInName);
        }
    }
    Err(DnsParseError::UnexpectedEndOfData)
}

/// The length of the question that starts at `start` in the message `buf`.
pub fn question_length(buf: &[u8], start: usize) -> (r: Result<usize, DnsParseError>)
    ensures
        r == spec_question_length(buf@, start as int),
        r matches Ok(n) ==> 1 <= n && start + n <= buf@.len(),
{
    let name_len = match name_length(buf, start) {
        Ok(l) => l,
        Err(e) => { return Err(e); },
    };
    // The type and the class follow the name.
    if buf.len() - start - name_len < 4 {
        return Err(DnsParseError::UnexpectedEndOfData);
    }
    Ok(name_len + 4)
}

/// The length of the resource record that starts at `start` in the message
/// `buf`.
pub fn rr_length(buf: &[u8], start: usize) -> (r: Result<usize, DnsParseError>)
    ensures
        r == spec_rr_length(buf@, start as int),
        r matches Ok(n) ==> 1 <= n && start + n <= buf@.len(),
{
    let name_len = match name_length(buf, start) {
        Ok(l) => l,
        Err(e) => { return Err(e); },
    };
    // Type, class and time to live follow the name, then the data's length.
    if buf.len() - start - name_len < 10 {
        return Err(DnsParseError::UnexpectedEndOfData);
    }
    let rdlength = u16_at(buf, start + name_len + 8) as usize;
    if buf.len() - start - name_len - 10 < rdlength {
        return Err(DnsParseError::UnexpectedEndOfData);
    }
    Ok(name_len + 10 + rdlength)
}

/// Where each section of a DNS message ends, as an offset into the message.
/// A section that a truncated message does not hold whole has no end.
#[derive(Clone, Copy, PartialEq, Eq, Structural, Debug)]
pub struct DnsPacketSections {
    pub question: Option<usize>,
    pub answer: Option<usize>,
    pub authority: Option<usize>,
    pub additional: Option<usize>,
}

/// How a walk over the sections goes on after one section: with the offset
/// where the section ends, with what is known so far if the message says
/// that it was truncated and ended early, or with an error.
pub open spec fn spec_section_end(
    walked: Result<int, DnsParseError>,
    truncation: bool,
    so_far: DnsPacketSections,
) -> Result<Result<int, DnsPacketSections>, DnsParseError> {
    match walked {
        Ok(end) => Ok(Ok(end)),
        Err(DnsParseError::UnexpectedEndOfData) if truncation => Ok(Err(so_far)),
        Err(e) => Err(e),
    }
}

/// The ends of the four sections of the message `s` with the header `info`:
/// as many questions as the header counts, then as many answer, authority
/// and additional records as it counts of each. A message that does not
/// even hold the header ends before the first section.
pub open spec fn spec_dns_sections(s: Seq<u8>, info: DnsInfo) -> Result<
    DnsPacketSections,
    DnsParseError,
> {
    let none = DnsPacketSections { question: None, answer: None, authority: None, additional: None };
    match spec_section_end(
        if s.len() < 12 {
            Err(DnsParseError::UnexpectedEndOfData)
        } else {
            spec_skip_entries(s, 12, info.qdcount as nat, false)
        },
        info.truncation,
        none,
    ) {
        Err(e) => Err(e),
        Ok(Err(partial)) => Ok(partial),
        Ok(Ok(question)) => {
            let q = DnsPacketSections { question: Some(question as usize), ..none };
            match spec_section_end(
                spec_skip_entries(s, question, info.ancount as nat, true),
                info.truncation,
                q,
            ) {
                Err(e) => Err(e),
                Ok(Err(partial)) => Ok(partial),
                Ok(Ok(answer)) => {
                    let a = DnsPacketSections { answer: Some(answer as usize), ..q };
                    match spec_section_end(
                        spec_skip_entries(s, answer, info.nscount as nat, true),
                        info.truncation,
                        a,
                    ) {
                        Err(e) => Err(e),
                        Ok(Err(partial)) => Ok(partial),
                        Ok(Ok(authority)) => {
                            let n = DnsPacketSections { authority: Some(authority as usize), ..a };
                            match spec_section_end(
                                spec_skip_entries(s, authority, info.arcount as nat, true),
                                info.truncation,
                                n,
                            ) {
                                Err(e) => Err(e),
                                Ok(Err(partial)) => Ok(partial),
                                Ok(Ok(additional)) => Ok(
                                    DnsPacketSections {
                                        additional: Some(additional as usize),
                                        ..n
                                    },
                                ),
                            }
                        },
                    }
                },
            }
        },
    }
}

/// Steps over `count` entries of a section that starts at `pos`.
fn skip_entries(udp_payload: &[u8], pos: usize, count: u16, records: bool) -> (r: Result<
    usize,
    DnsParseError,
>)
    requires
        pos <= udp_payload.len(),
    ensures
        match spec_skip_entries(udp_payload@, pos as int, count as nat, records) {
            Ok(end) => r == Ok::<usize, DnsParseError>(end as usize) && pos <= end
                <= udp_payload@.len(),
            Err(e) => r == Err::<usize, DnsParseError>(e),
        },
{
    let n = udp_payload.len();
    let mut at = pos;
    let mut left = count;
    while left > 0
        invariant
            n == udp_payload.len(),
            pos <= at <= n,
            spec_skip_entries(udp_payload@, at as int, left as nat, records) == spec_skip_entries(
                udp_payload@,
                pos as int,
                count as nat,
                records,
            ),
        decreases left,
    {
        let length = match if records {
            rr_length(udp_payload, at)
        } else {
            question_length(udp_payload, at)
        } {
            Ok(l) => l,
            Err(e) => { return Err(e); },
        };
        at += length;
        left -= 1;
    }
    Ok(at)
}

/// Walks the four sections of a DNS message and says where each ends. In a
/// message that is marked as truncated, data that ends early ends the walk
/// with the sections found so far; in any other it is an error.
pub fn dns_sections(udp_payload: &[u8], info: &DnsInfo) -> (r: Result<
    DnsPacketSections,
    DnsParseError,
>)
    ensures
        r == spec_dns_sections(udp_payload@, *info),
{
    let mut result = DnsPacketSections {
        question: None,
        answer: None,
        authority: None,
        additional: None,
    };
    let header = if udp_payload.len() < 12 {
        Err(DnsParseError::UnexpectedEndOfData)
    } else {
        skip_entries(udp_payload, 12, info.qdcount, false)
    };
    let question = match header {
        Ok(end) => end,
        Err(DnsParseError::UnexpectedEndOfData) if info.truncation => { return Ok(result); },
        Err(e) => { return Err(e); },
    };
    result.question = Some(question);
    let answer = match skip_entries(udp_payload, question, info.ancount, true) {
        Ok(end) => end,
        Err(DnsParseError::UnexpectedEndOfData) if info.truncation => { return Ok(result); },
        Err(e) => { return Err(e); },
    };
    result.answer = Some(answer);
    let authority = match skip_entries(udp_payload, answer, info.nscount, true) {
        Ok(end) => end,
        Err(DnsParseError::UnexpectedEndOfData) if info.truncation => { return Ok(result); },
        Err(e) => { return Err(e); },
    };
    result.authority = Some(authority);
    let additional = match skip_entries(udp_payload, authority, info.arcount, true) {
        Ok(end) => end,
        Err(DnsParseError::UnexpectedEndOfData) if info.truncation => { return Ok(result); },
        Err(e) => { return Err(e); },
    };
    result.additional = Some(additional);
    Ok(result)
}

} // verus!
