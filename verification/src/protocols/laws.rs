//! What holds of the decoders on every input.

use super::ip::{
    header_verifies, ipv4_fragment_offset, ipv4_header_length, ipv4_info, ipv4_more_fragments,
    ipv4_total_length, spec_check_ipv4, IpError, IpPacket,
};
use crate::csum::model::{
    lemma_shifted_sum_fails, lemma_weighted_sum_update, weight_at, weighted_sum,
};
use vstd::prelude::*;

verus! {

/// `s` with one bit of the byte at `index` inverted: bit 0 is the lowest.
pub open spec fn flip_bit(s: Seq<u8>, index: int, bit: u8) -> Seq<u8> {
    s.update(index, s[index] ^ (1u8 << bit))
}

/// An IPv4 packet is accepted if it holds twenty bytes, says version 4,
/// declares a header of twenty bytes or more that lies within the declared
/// total length, which lies within the packet, has a header checksum that
/// verifies, and does not reach past the largest datagram as a fragment.
/// The payload then lies between the header's end and the total length.
pub proof fn lemma_valid_ipv4_accepted(s: Seq<u8>)
    requires
        s.len() >= 20,
        s[0] / 16 == 4,
        20 <= ipv4_header_length(s) <= ipv4_total_length(s) <= s.len(),
        header_verifies(s.subrange(0, ipv4_header_length(s))),
        ipv4_fragment_offset(s) + ipv4_total_length(s) <= 0xffff,
    ensures
        spec_check_ipv4(s) == Ok::<IpPacket, IpError>(
            IpPacket {
                info: ipv4_info(s),
                start: ipv4_header_length(s),
                end: ipv4_total_length(s),
            },
        ),
{
}

/// A packet that is accepted meets each of the conditions under which one
/// is.
pub proof fn lemma_accepted_ipv4_valid(s: Seq<u8>)
    requires
        spec_check_ipv4(s) is Ok,
    ensures
        s.len() >= 20,
        s[0] / 16 == 4,
        20 <= ipv4_header_length(s) <= ipv4_total_length(s) <= s.len(),
        header_verifies(s.subrange(0, ipv4_header_length(s))),
        ipv4_fragment_offset(s) + ipv4_total_length(s) <= 0xffff,
        spec_check_ipv4(s)->Ok_0.info.fragment is Some <==> ipv4_fragment_offset(s) > 0
            || ipv4_more_fragments(s),
{
}

/// What inverting one bit does to a byte: the byte changes by the bit's
/// value, up or down; a bit of the upper half changes the upper half, and a
/// bit of the lower half leaves the upper half alone.
proof fn lemma_flip(v: u8, bit: u8)
    requires
        bit < 8,
    ensures
        ({
            let f = v ^ (1u8 << bit);
            let d = (1u8 << bit) as int;
            &&& 1 <= d <= 0x80
            &&& f as int - v as int == d || v as int - f as int == d
            &&& bit >= 4 ==> f / 16 != v / 16
            &&& bit < 4 ==> f / 16 == v / 16
        }),
{
    let f = v ^ (1u8 << bit);
    let d = 1u8 << bit;
    assert(bit < 8 ==> 1 <= (1u8 << bit) <= 0x80) by (bit_vector);
    assert(bit < 8 ==> ((v ^ (1u8 << bit)) > v ==> (v ^ (1u8 << bit)) - v == (1u8 << bit)))
        by (bit_vector);
    assert(bit < 8 ==> ((v ^ (1u8 << bit)) <= v ==> v - (v ^ (1u8 << bit)) == (1u8 << bit)))
        by (bit_vector);
    assert(4 <= bit < 8 ==> (v ^ (1u8 << bit)) / 16 != v / 16) by (bit_vector);
    assert(bit < 4 ==> (v ^ (1u8 << bit)) / 16 == v / 16) by (bit_vector);
}

/// A header whose checksum verifies has one that does not once a single
/// bit of it is inverted.
pub proof fn lemma_flipped_header_fails(header: Seq<u8>, index: int, bit: u8)
    requires
        header_verifies(header),
        0 <= index < header.len(),
        bit < 8,
    ensures
        !header_verifies(flip_bit(header, index, bit)),
{
    let v = header[index];
    let f = v ^ (1u8 << bit);
    lemma_flip(v, bit);
    lemma_weighted_sum_update(header, false, index, f);
    let sum = weighted_sum(header, false);
    let shifted = weighted_sum(flip_bit(header, index, bit), false);
    let w = weight_at(index, false);
    assert(shifted - sum == w * (f as int - v as int));
    assert(w == 1 || w == 0x100);
    assert(1 <= shifted - sum <= 0x8000 || 1 <= sum - shifted <= 0x8000) by {
        if w == 1 {
            assert(shifted - sum == f as int - v as int);
        } else {
            assert(shifted - sum == 0x100 * (f as int - v as int));
        }
    }
    lemma_shifted_sum_fails(sum, shifted);
}

/// An IPv4 packet that is accepted is rejected once a single bit of its
/// header is inverted: as of the wrong version, as one with a header that
/// is too short or longer than the packet, or for its checksum. Left out
/// is the one case in which this does not hold: a bit of the header length
/// is inverted, and what the new length takes for the header happens to
/// verify.
pub proof fn lemma_ipv4_bit_flip_rejected(s: Seq<u8>, index: int, bit: u8)
    requires
        spec_check_ipv4(s) is Ok,
        0 <= index < ipv4_header_length(s),
        bit < 8,
        !({
            let flipped = flip_bit(s, index, bit);
            &&& index == 0
            &&& bit < 4
            &&& 20 <= ipv4_header_length(flipped) <= ipv4_total_length(flipped)
            &&& header_verifies(flipped.subrange(0, ipv4_header_length(flipped)))
        }),
    ensures
        match spec_check_ipv4(flip_bit(s, index, bit)) {
            Err(IpError::VersionMismatch) => index == 0 && bit >= 4,
            Err(IpError::HeaderTooShort) => index == 0 && bit < 4,
            Err(IpError::HeaderLongerThanPacket { .. }) => index == 0 || index == 2 || index == 3,
            Err(IpError::HeaderChecksumMismatch) => true,
            _ => false,
        },
{
    let flipped = flip_bit(s, index, bit);
    let header_length = ipv4_header_length(s);
    lemma_flip(s[index], bit);
    if index == 0 {
        if bit < 4 {
            assert(flipped[2] == s[2] && flipped[3] == s[3]);
            assert(ipv4_total_length(flipped) == ipv4_total_length(s));
        }
    } else {
        assert(flipped[0] == s[0]);
        assert(ipv4_header_length(flipped) == header_length);
        if ipv4_header_length(flipped) <= ipv4_total_length(flipped) {
            assert(flipped.subrange(0, header_length) =~= flip_bit(
                s.subrange(0, header_length),
                index,
                bit,
            ));
            lemma_flipped_header_fails(s.subrange(0, header_length), index, bit);
        }
    }
}

} // verus!
