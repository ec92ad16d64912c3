//! The mathematics of the Internet checksum: one's-complement sums of
//! big-endian 16-bit words, seen as arithmetic modulo `0xffff`.

use vstd::arithmetic::div_mod::{lemma_fundamental_div_mod, lemma_mod_multiples_vanish};
use vstd::endian::{endianness, Endian};
use vstd::prelude::*;

verus! {

/// The 16-bit one's-complement representative of `n`: zero stands for itself,
/// every other number for the value in `1..=0xffff` congruent to it modulo
/// `0xffff`. This is what remains of `n` once all carries are folded back in.
pub open spec fn ones16(n: nat) -> nat {
    if n == 0 {
        0
    } else {
        ((n - 1) % 0xffff + 1) as nat
    }
}

/// Addition with end-around carry on numbers below `limit`.
pub open spec fn end_around_add(a: nat, b: nat, limit: nat) -> nat {
    if a + b < limit {
        a + b
    } else {
        (a + b + 1 - limit) as nat
    }
}

/// Addition modulo `limit` on numbers below `limit`.
pub open spec fn wrapped_add(a: nat, b: nat, limit: nat) -> nat {
    if a + b < limit {
        a + b
    } else {
        (a + b - limit) as nat
    }
}

/// The sum of the bytes of `s`, each weighted by its place in a big-endian
/// 16-bit word. `odd` says that the first byte of `s` is the second byte of
/// a word.
pub open spec fn weighted_sum(s: Seq<u8>, odd: bool) -> nat
    decreases s.len(),
{
    if s.len() == 0 {
        0
    } else {
        (if odd {
            s[0] as nat
        } else {
            s[0] as nat * 0x100
        }) + weighted_sum(s.subrange(1, s.len() as int), !odd)
    }
}

/// What a checksum accumulator stands for: the folded sum of the stream so
/// far, and whether the stream stopped in the middle of a word.
pub struct CSumState {
    pub odd: bool,
    pub sum: nat,
}

impl CSumState {
    /// The state before any byte was fed.
    pub open spec fn empty() -> CSumState {
        CSumState { odd: false, sum: 0 }
    }

    /// Every reachable state holds a folded sum.
    pub open spec fn wf(self) -> bool {
        self.sum <= 0xffff
    }

    /// The state after feeding `s`.
    pub open spec fn feed(self, s: Seq<u8>) -> CSumState {
        CSumState {
            odd: self.odd != (s.len() % 2 == 1),
            sum: ones16(self.sum + weighted_sum(s, self.odd)),
        }
    }

    /// The checksum in the machine's own byte order: the number whose bytes
    /// in memory are the checksum's two bytes as they go on the wire.
    pub open spec fn result(self) -> u16 {
        native_u16(self.sum as u16)
    }

    /// A received checksum verifies when the complement of the sum is zero.
    pub open spec fn verifies(self) -> bool {
        self.sum == 0xffff
    }
}

/// `x` with its two bytes exchanged.
pub open spec fn swap16(x: u16) -> u16 {
    ((x as int % 0x100) * 0x100 + x as int / 0x100) as u16
}

/// The number that this machine reads from the two bytes of the big-endian
/// encoding of `x`.
pub open spec fn native_u16(x: u16) -> u16 {
    match endianness() {
        Endian::Big => x,
        Endian::Little => swap16(x),
    }
}

/// Positive numbers that differ by a multiple of `0xffff` fold to the same
/// value.
pub proof fn lemma_ones16_congruent(n: nat, k: nat)
    requires
        n >= 1,
    ensures
        ones16(n + 0xffff * k) == ones16(n),
{
    lemma_mod_multiples_vanish(k as int, n as int - 1, 0xffff);
    assert(0xffff * (k as int) + (n as int - 1) == (n + 0xffff * k) as int - 1);
}

/// Folding may be done early or late.
pub proof fn lemma_ones16_absorb(a: nat, b: nat)
    ensures
        ones16(ones16(a) + b) == ones16(a + b),
{
    if a >= 1 {
        let k = ((a as int - 1) / 0xffff) as nat;
        lemma_fundamental_div_mod(a as int - 1, 0xffff);
        assert(a == ones16(a) + 0xffff * k);
        lemma_ones16_congruent(ones16(a) + b, k);
        assert(ones16(a) + b + 0xffff * k == a + b);
    }
}

/// An end-around carry in a register of any width whose largest value is a
/// multiple of `0xffff` does not change the folded sum.
pub proof fn lemma_end_around_add_folds(a: nat, b: nat, limit: nat, k: nat)
    requires
        a < limit,
        b < limit,
        limit == 0xffff * k + 1,
    ensures
        end_around_add(a, b, limit) < limit,
        ones16(end_around_add(a, b, limit)) == ones16(a + b),
        end_around_add(a, b, limit) == 0 <==> a + b == 0,
{
    if a + b >= limit {
        let r = end_around_add(a, b, limit);
        assert(r >= 1);
        assert(r + 0xffff * k == a + b);
        lemma_ones16_congruent(r, k);
    }
}

/// The weighted sum of a concatenation.
pub proof fn lemma_weighted_sum_concat(a: Seq<u8>, b: Seq<u8>, odd: bool)
    ensures
        weighted_sum(a + b, odd) == weighted_sum(a, odd) + weighted_sum(
            b,
            odd != (a.len() % 2 == 1),
        ),
    decreases a.len(),
{
    if a.len() == 0 {
        assert(a + b =~= b);
    } else {
        let rest = a.subrange(1, a.len() as int);
        assert((a + b).subrange(1, (a + b).len() as int) =~= rest + b);
        lemma_weighted_sum_concat(rest, b, !odd);
    }
}

/// The weighted sum of a single byte.
pub proof fn lemma_weighted_sum_one(s: Seq<u8>, odd: bool)
    requires
        s.len() == 1,
    ensures
        weighted_sum(s, odd) == if odd {
            s[0] as nat
        } else {
            s[0] as nat * 0x100
        },
{
    assert(s.subrange(1, 1).len() == 0);
    assert(weighted_sum(s.subrange(1, 1), !odd) == 0);
}

/// The weighted sum of one whole word.
pub proof fn lemma_weighted_sum_word(s: Seq<u8>)
    requires
        s.len() == 2,
    ensures
        weighted_sum(s, false) == s[0] as nat * 0x100 + s[1] as nat,
{
    let rest = s.subrange(1, 2);
    lemma_weighted_sum_one(rest, true);
}

/// Feeding a stream in two parts gives the state that feeding it whole
/// gives, wherever it is split.
pub proof fn lemma_feed_split(st: CSumState, a: Seq<u8>, b: Seq<u8>)
    ensures
        st.feed(a).feed(b) == st.feed(a + b),
{
    lemma_weighted_sum_concat(a, b, st.odd);
    lemma_ones16_absorb(st.sum + weighted_sum(a, st.odd), weighted_sum(b, st.feed(a).odd));
}

/// The checksum of a stream does not depend on how the stream was cut into
/// slices: two parts fed one after the other give the result of the whole.
pub proof fn lemma_result_split(st: CSumState, a: Seq<u8>, b: Seq<u8>)
    ensures
        st.feed(a).feed(b).result() == st.feed(a + b).result(),
        st.feed(a).feed(b).verifies() == st.feed(a + b).verifies(),
{
    lemma_feed_split(st, a, b);
}

/// The weight of the byte at `index` of a stream: `0x100` for the first
/// byte of a word, 1 for the second.
pub open spec fn weight_at(index: int, odd: bool) -> nat {
    if (index % 2 == 0) != odd {
        0x100
    } else {
        1
    }
}

/// Changing one byte of a stream changes the weighted sum by the change of
/// that byte, times the byte's weight.
pub proof fn lemma_weighted_sum_update(s: Seq<u8>, odd: bool, index: int, value: u8)
    requires
        0 <= index < s.len(),
    ensures
        weighted_sum(s.update(index, value), odd) - weighted_sum(s, odd) == weight_at(index, odd)
            * (value as int - s[index] as int),
    decreases index,
{
    let changed = s.update(index, value);
    let rest = s.subrange(1, s.len() as int);
    if index == 0 {
        assert(changed.subrange(1, changed.len() as int) =~= rest);
    } else {
        assert(changed.subrange(1, changed.len() as int) =~= rest.update(index - 1, value));
        lemma_weighted_sum_update(rest, !odd, index - 1, value);
    }
}

/// A sum that verifies no longer does once it has grown or shrunk by a
/// number from 1 to `0x8000`.
pub proof fn lemma_shifted_sum_fails(sum: nat, shifted: nat)
    requires
        ones16(sum) == 0xffff,
        1 <= shifted - sum <= 0x8000 || 1 <= sum - shifted <= 0x8000,
    ensures
        ones16(shifted) != 0xffff,
{
    let q = (sum as int - 1) / 0xffff;
    lemma_fundamental_div_mod(sum as int - 1, 0xffff);
    assert(sum == 0xffff * (q + 1));
    if shifted > sum {
        let d = shifted - sum;
        lemma_mod_multiples_vanish(q + 1, d - 1, 0xffff);
        assert(0xffff * (q + 1) + (d - 1) == shifted as int - 1);
    } else if shifted >= 1 {
        let d = sum - shifted;
        lemma_mod_multiples_vanish(q, 0xffff - d - 1, 0xffff);
        assert(0xffff * q + (0xffff - d - 1) == shifted as int - 1);
    }
}

} // verus!
