//! The message format in which a DNS response travels to the collector: a
//! signature, the nameserver's address, and the response as it was captured.

use crate::capture::ForwardError;
use crate::protocols::{DnsInfo, IpAddress, IpInfo};
use crate::wire::{be16_bytes, be32_bytes, u32_bytes, write_u16};
use vstd::prelude::*;

verus! {

/// The operating system's I/O error, which is carried along unopened.
#[verifier::external_type_specification]
#[verifier::external_body]
pub struct ExIoError(std::io::Error);

/// The bytes that a message carries before the DNS payload.
pub const HEADER_SIZE: usize = 12;

/// The bytes that a stream carries before each message.
pub const STREAM_PREFIX_SIZE: usize = 2;

/// Why a response was not forwarded.
#[derive(Debug)]
pub enum DnsXfr01Error {
    /// The response is longer than the forwarder was set up for. The next
    /// response may well fit.
    BufferTooSmall,
    /// The socket failed. It has to be set up anew.
    IoError(std::io::Error),
}

/// `std::io::Error::to_string`, the text that the standard library has for
/// an I/O error. Nothing is claimed of the text.
#[verifier::external_body]
fn io_error_text(e: &std::io::Error) -> String {
    e.to_string()
}

impl DnsXfr01Error {
    /// A few words on the error: the library's own for a response that did
    /// not fit, the operating system's for an error of the socket.
    pub fn description(&self) -> (r: String)
        ensures
            self is BufferTooSmall ==> r@ == "buffer too small"@,
    {
        match self {
            DnsXfr01Error::BufferTooSmall => "buffer too small".to_owned(),
            DnsXfr01Error::IoError(e) => io_error_text(e),
        }
    }
}

impl ForwardError for DnsXfr01Error {
    /// After any error of the socket the forwarder has to be set up anew;
    /// after a response that did not fit it has not.
    open spec fn spec_fatal(&self) -> bool {
        self is IoError
    }

    fn fatal(&self) -> (r: bool) {
        match *self {
            DnsXfr01Error::BufferTooSmall => false,
            DnsXfr01Error::IoError(_) => true,
        }
    }
}

/// The eight bytes that open every message: `DNSXFR01` in ASCII.
pub open spec fn spec_signature() -> Seq<u8> {
    seq![0x44u8, 0x4e, 0x53, 0x58, 0x46, 0x52, 0x30, 0x31]
}

/// The nameserver that a message names: the source of an authoritative
/// response that came over IPv4, and zero for any other response.
pub open spec fn spec_nameserver(ip_info: IpInfo, dns_info: DnsInfo) -> u32 {
    if dns_info.authoritative_answer {
        match ip_info.source {
            IpAddress::V4(a) => a,
            IpAddress::V6(_) => 0,
        }
    } else {
        0
    }
}

/// The message for a response: the signature, the nameserver in network
/// byte order, and the DNS payload.
pub open spec fn spec_message(ip_info: IpInfo, dns_info: DnsInfo, payload: Seq<u8>) -> Seq<u8> {
    spec_signature() + be32_bytes(spec_nameserver(ip_info, dns_info)) + payload
}

/// A message as it goes over a stream: its length in two bytes, big end
/// first, and the message.
pub open spec fn spec_stream_frame(message: Seq<u8>) -> Seq<u8> {
    be16_bytes(message.len() as u16) + message
}

/// The message at the head of `stream`, if the stream holds it whole.
pub open spec fn spec_stream_message(stream: Seq<u8>) -> Option<Seq<u8>> {
    if stream.len() < 2 {
        None
    } else {
        let length = crate::wire::be16_at(stream, 0) as int;
        if stream.len() < 2 + length {
            None
        } else {
            Some(stream.subrange(2, 2 + length))
        }
    }
}

/// `buf` with `bytes` written over it from offset `at`.
pub open spec fn overwritten(buf: Seq<u8>, at: int, bytes: Seq<u8>) -> Seq<u8> {
    buf.subrange(0, at) + bytes + buf.subrange(at + bytes.len(), buf.len() as int)
}

/// The eight bytes that open every message.
pub fn signature() -> (r: [u8; 8])
    ensures
        r@ == spec_signature(),
{
    let r = [0x44u8, 0x4e, 0x53, 0x58, 0x46, 0x52, 0x30, 0x31];
    assert(r@ =~= spec_signature());
    r
}

/// The nameserver that the message for a response names.
pub fn nameserver(ip_info: &IpInfo, dns_info: &DnsInfo) -> (r: u32)
    ensures
        r == spec_nameserver(*ip_info, *dns_info),
{
    // Only the nameserver of an authoritative answer is named, and only an
    // IPv4 address has room in the message.
    if dns_info.authoritative_answer {
        match ip_info.source {
            IpAddress::V4(a) => a,
            IpAddress::V6(_) => 0,
        }
    } else {
        0
    }
}

/// Writes `src` over `buf` from offset `at`.
fn copy_into(buf: &mut [u8], at: usize, src: &[u8])
    requires
        at + src.len() <= old(buf).len(),
    ensures
        final(buf)@ == overwritten(old(buf)@, at as int, src@),
{
    let n = src.len();
    let mut i: usize = 0;
    while i < n
        invariant
            n == src.len(),
            i <= n,
            at + n <= buf.len(),
            buf.len() == old(buf).len(),
            buf@ == overwritten(old(buf)@, at as int, src@.subrange(0, i as int)),
        decreases n - i,
    {
        buf[at + i] = src[i];
        i += 1;
        assert(buf@ =~= overwritten(old(buf)@, at as int, src@.subrange(0, i as int)));
    }
    assert(src@.subrange(0, n as int) =~= src@);
}

/// Writes the message for a response over `buf` from offset `at`, and gives
/// the message's length.
fn pack_at(buf: &mut [u8], at: usize, ip_info: &IpInfo, dns_info: &DnsInfo, payload: &[u8]) -> (r:
    usize)
    requires
        at + HEADER_SIZE + payload.len() <= old(buf).len(),
    ensures
        r == HEADER_SIZE + payload.len(),
        final(buf)@ == overwritten(
            old(buf)@,
            at as int,
            spec_message(*ip_info, *dns_info, payload@),
        ),
{
    let signature_bytes = signature();
    let nameserver_bytes = u32_bytes(nameserver(ip_info, dns_info));
    copy_into(buf, at, signature_bytes.as_slice());
    copy_into(buf, at + 8, nameserver_bytes.as_slice());
    copy_into(buf, at + 12, payload);
    assert(buf@ =~= overwritten(
        old(buf)@,
        at as int,
        spec_message(*ip_info, *dns_info, payload@),
    ));
    payload.len() + HEADER_SIZE
}

/// Writes the message for a response to the start of `buf` and gives the
/// part of `buf` that holds it. Fails, and leaves `buf` as it is, where the
/// message does not fit.
pub fn pack_buffer<'a>(
    buf: &'a mut [u8],
    ip_info: &IpInfo,
    dns_info: &DnsInfo,
    payload: &[u8],
) -> (r: Result<&'a [u8], DnsXfr01Error>)
    ensures
        payload.len() + HEADER_SIZE > old(buf).len() ==> r is Err && r->Err_0 is BufferTooSmall
            && final(buf)@ == old(buf)@,
        payload.len() + HEADER_SIZE <= old(buf).len() ==> r is Ok && r->Ok_0@ == spec_message(
            *ip_info,
            *dns_info,
            payload@,
        ) && final(buf)@ == overwritten(old(buf)@, 0, r->Ok_0@),
{
    if payload.len() > buf.len() || buf.len() - payload.len() < HEADER_SIZE {
        return Err(DnsXfr01Error::BufferTooSmall);
    }
    let n = pack_at(buf, 0, ip_info, dns_info, payload);
    let message = &buf[0..n];
    assert(message@ =~= spec_message(*ip_info, *dns_info, payload@));
    Ok(message)
}

/// Writes the message for a response to the start of `buf` as it goes over
/// a stream, and gives the part of `buf` that holds it: the message's length
/// in two bytes, then the message. Fails, and leaves `buf` as it is, where
/// this does not fit or where the message's length does not fit in the two
/// bytes.
pub fn pack_stream_buffer<'a>(
    buf: &'a mut [u8],
    ip_info: &IpInfo,
    dns_info: &DnsInfo,
    payload: &[u8],
) -> (r: Result<&'a [u8], DnsXfr01Error>)
    ensures
        payload.len() + HEADER_SIZE + STREAM_PREFIX_SIZE > old(buf).len() || payload.len()
            + HEADER_SIZE > 0xffff ==> r is Err && r->Err_0 is BufferTooSmall && final(buf)@
            == old(buf)@,
        payload.len() + HEADER_SIZE + STREAM_PREFIX_SIZE <= old(buf).len() && payload.len()
            + HEADER_SIZE <= 0xffff ==> r is Ok && r->Ok_0@ == spec_stream_frame(
            spec_message(*ip_info, *dns_info, payload@),
        ) && final(buf)@ == overwritten(old(buf)@, 0, r->Ok_0@),
{
    if payload.len() > 0xffff - HEADER_SIZE || payload.len() > buf.len() || buf.len()
        - payload.len() < HEADER_SIZE + STREAM_PREFIX_SIZE {
        return Err(DnsXfr01Error::BufferTooSmall);
    }
    let msglen = pack_at(buf, STREAM_PREFIX_SIZE, ip_info, dns_info, payload);
    // The length goes first, as a big-endian 16-bit number.
    write_u16(buf, msglen as u16);
    let frame = &buf[0..msglen + STREAM_PREFIX_SIZE];
    assert(frame@ =~= spec_stream_frame(spec_message(*ip_info, *dns_info, payload@)));
    Ok(frame)
}

/// A send buffer for datagrams that carry DNS payloads of up to
/// `max_message_size` bytes.
pub fn datagram_buffer(max_message_size: usize) -> (r: Vec<u8>)
    requires
        max_message_size + HEADER_SIZE <= usize::MAX,
    ensures
        r@ == Seq::new((max_message_size + HEADER_SIZE) as nat, |i: int| 0u8),
{
    vec![0u8; max_message_size + HEADER_SIZE]
}

/// A send buffer for a stream that carries DNS payloads of up to
/// `max_message_size` bytes.
pub fn stream_buffer(max_message_size: usize) -> (r: Vec<u8>)
    requires
        max_message_size + HEADER_SIZE + STREAM_PREFIX_SIZE <= usize::MAX,
    ensures
        r@ == Seq::new(
            (max_message_size + HEADER_SIZE + STREAM_PREFIX_SIZE) as nat,
            |i: int| 0u8,
        ),
{
    vec![0u8; max_message_size + HEADER_SIZE + STREAM_PREFIX_SIZE]
}

/// A message names the source of an authoritative response that came over
/// IPv4 in the four bytes after its signature, and holds four zero bytes
/// there for any other response.
pub proof fn lemma_nameserver_bytes(ip_info: IpInfo, dns_info: DnsInfo, payload: Seq<u8>)
    ensures
        spec_message(ip_info, dns_info, payload).subrange(8, 12) == if dns_info.authoritative_answer
            && ip_info.source is V4 {
            be32_bytes(ip_info.source->V4_0)
        } else {
            seq![0u8, 0u8, 0u8, 0u8]
        },
        spec_message(ip_info, dns_info, payload).subrange(0, 8) == spec_signature(),
        spec_message(ip_info, dns_info, payload).subrange(12, 12 + payload.len() as int) == payload,
        spec_message(ip_info, dns_info, payload).len() == 12 + payload.len(),
{
    let message = spec_message(ip_info, dns_info, payload);
    assert(message.subrange(8, 12) =~= be32_bytes(spec_nameserver(ip_info, dns_info)));
    assert(be32_bytes(0) =~= seq![0u8, 0u8, 0u8, 0u8]);
    assert(message.subrange(0, 8) =~= spec_signature());
    assert(message.subrange(12, 12 + payload.len() as int) =~= payload);
}

/// What goes over a stream for a message comes back as that message: the
/// two bytes in front say the message's length, and the message follows
/// them whole, whatever the stream holds after it.
pub proof fn lemma_stream_round_trip(message: Seq<u8>, rest: Seq<u8>)
    requires
        message.len() <= 0xffff,
    ensures
        crate::wire::be16_at(spec_stream_frame(message), 0) == message.len(),
        spec_stream_frame(message).len() == 2 + message.len(),
        spec_stream_message(spec_stream_frame(message) + rest) == Some(message),
{
    let frame = spec_stream_frame(message);
    let stream = frame + rest;
    let n = message.len() as u16;
    assert(crate::wire::be16(be16_bytes(n)[0], be16_bytes(n)[1]) == n);
    assert(stream.subrange(2, 2 + message.len() as int) =~= message);
}

} // verus!
