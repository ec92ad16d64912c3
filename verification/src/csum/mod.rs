//! The Internet checksum: a 16-bit one's-complement sum over a byte stream
//! that may arrive in slices of any length.

pub mod model;
pub mod onecomplement;
pub mod traits;

pub use self::onecomplement::OneComplement;

use self::model::{
    end_around_add, lemma_end_around_add_folds, lemma_feed_split, lemma_ones16_absorb,
    lemma_ones16_congruent, lemma_weighted_sum_one, lemma_weighted_sum_word, native_u16, ones16,
    swap16, CSumState,
};
use self::onecomplement::UnsignedInt;
use vstd::prelude::*;

verus! {

/// `u16::to_be` of the standard library, which leaves a number as it is on a
/// big-endian machine and exchanges its two bytes on a little-endian one.
/// Trusted: the result is taken to be `native_u16` of the argument.
#[verifier::external_body]
fn u16_to_be(x: u16) -> (r: u16)
    ensures
        r == native_u16(x),
{
    x.to_be()
}

/// Folds the carries of a 32-bit one's-complement sum into 16 bits.
pub fn fold_csum_u32(u: u32) -> (r: u16)
    ensures
        r as nat == ones16(u as nat),
{
    let a = (u >> 16) as u16;
    let b = (u & 0xffff) as u16;
    proof {
        assert(u == (u >> 16) * 0x1_0000 + (u & 0xffff) && (u >> 16) <= 0xffff && (u & 0xffff)
            <= 0xffff) by (bit_vector);
        if a as nat + b as nat >= 1 {
            lemma_ones16_congruent(a as nat + b as nat, a as nat);
        }
        lemma_end_around_add_folds(a as nat, b as nat, 0x1_0000, 1);
    }
    match UnsignedInt::overflowing_add(a, b) {
        (res, false) => res,
        (res, true) => res + 1,
    }
}

/// Folds the carries of a 64-bit one's-complement sum into 16 bits.
pub fn fold_csum_u64(u: u64) -> (r: u16)
    ensures
        r as nat == ones16(u as nat),
{
    let a = (u >> 32) as u32;
    let b = (u & 0xffff_ffff) as u32;
    proof {
        assert(u == (u >> 32) * 0x1_0000_0000 + (u & 0xffff_ffff) && (u >> 32) <= 0xffff_ffff && (u
            & 0xffff_ffff) <= 0xffff_ffff) by (bit_vector);
        if a as nat + b as nat >= 1 {
            lemma_ones16_congruent(a as nat + b as nat, a as nat * 0x1_0001);
        }
        lemma_end_around_add_folds(a as nat, b as nat, 0x1_0000_0000, 0x1_0001);
    }
    fold_csum_u32(
        match UnsignedInt::overflowing_add(a, b) {
            (res, false) => res,
            (res, true) => res + 1,
        },
    )
}

/// A register whose one's-complement sums fold into 16 bits.
pub trait FoldCSum: UnsignedInt {
    /// The 16-bit sum that `self` folds to.
    fn fold_csum(self) -> (r: u16)
        ensures
            r as nat == ones16(self.to_nat()),
    ;
}

impl FoldCSum for u16 {
    fn fold_csum(self) -> (r: u16) {
        self
    }
}

impl FoldCSum for u32 {
    fn fold_csum(self) -> (r: u16) {
        fold_csum_u32(self)
    }
}

impl FoldCSum for u64 {
    fn fold_csum(self) -> (r: u16) {
        fold_csum_u64(self)
    }
}

/// What a sum in a register and a place in the stream stand for.
pub open spec fn state_of(odd_position: bool, sum: nat) -> CSumState {
    CSumState { odd: odd_position, sum: ones16(sum) }
}

/// One end-around addition of the weighted sum of `chunk` takes a register
/// from a state to the state fed with `chunk`.
pub proof fn lemma_register_step(a: nat, w: nat, limit: nat, k: nat, odd: bool, chunk: Seq<u8>)
    requires
        a < limit,
        w < limit,
        limit == 0xffff * k + 1,
        w == model::weighted_sum(chunk, odd),
    ensures
        ones16(end_around_add(a, w, limit)) == state_of(odd, a).feed(chunk).sum,
{
    lemma_end_around_add_folds(a, w, limit, k);
    lemma_ones16_absorb(a, w);
}

/// The complement of a folded sum is zero exactly when the sum verifies,
/// whichever byte order the machine has.
pub proof fn lemma_complement_zero(st: CSumState)
    requires
        st.wf(),
    ensures
        (!st.result() == 0) == st.verifies(),
{
    let x = st.sum as u16;
    let s = swap16(x);
    assert(!x == 0 <==> x == 0xffff) by (bit_vector);
    assert(!s == 0 <==> s == 0xffff) by (bit_vector);
    assert(s == 0xffff <==> x == 0xffff) by {
        assert(x as int % 0x100 <= 0xff && x as int / 0x100 <= 0xff);
    }
}

/// Adds the big-endian words of `data` to a 16-bit register. A slice that
/// starts in the middle of a word gives its first byte as that word's second
/// half; one that ends in the middle of a word leaves the first half behind.
fn accumulate_u16(inner: OneComplement<u16>, odd_position: bool, data: &[u8]) -> (r: (
    OneComplement<u16>,
    bool,
))
    ensures
        state_of(r.1, r.0@) == state_of(odd_position, inner@).feed(data@),
{
    let n = data.len();
    let ghost start = state_of(odd_position, inner@);
    let mut sum = inner;
    let mut i: usize = 0;
    if n == 0 {
        assert(data@.len() == 0);
        return (inner, odd_position);
    }
    proof {
        inner.lemma_view();
        assert(start.feed(data@.subrange(0, 0)) == state_of(odd_position, inner@));
    }
    if odd_position {
        let low = OneComplement::new(data[0] as u16);
        proof {
            lemma_weighted_sum_one(data@.subrange(0, 1), true);
            lemma_register_step(inner@, low@, 0x1_0000, 1, true, data@.subrange(0, 1));
        }
        sum = sum.add(low);
        i = 1;
    }
    while n - i >= 2
        invariant
            n == data.len(),
            i <= n,
            state_of(false, sum@) == start.feed(data@.subrange(0, i as int)),
        decreases n - i,
    {
        let word = OneComplement::new(data[i] as u16 * 0x100 + data[i + 1] as u16);
        proof {
            let prefix = data@.subrange(0, i as int);
            let chunk = data@.subrange(i as int, i + 2);
            sum.lemma_view();
            lemma_weighted_sum_word(chunk);
            lemma_register_step(sum@, word@, 0x1_0000, 1, false, chunk);
            lemma_feed_split(start, prefix, chunk);
            assert(prefix + chunk =~= data@.subrange(0, i + 2));
        }
        sum = sum.add(word);
        i += 2;
    }
    let mut odd = false;
    if i < n {
        let high = OneComplement::new(data[i] as u16 * 0x100);
        proof {
            let prefix = data@.subrange(0, i as int);
            let chunk = data@.subrange(i as int, i + 1);
            sum.lemma_view();
            lemma_weighted_sum_one(chunk, false);
            lemma_register_step(sum@, high@, 0x1_0000, 1, false, chunk);
            lemma_feed_split(start, prefix, chunk);
            assert(prefix + chunk =~= data@.subrange(0, i + 1));
        }
        sum = sum.add(high);
        odd = true;
    }
    assert(data@.subrange(0, n as int) =~= data@);
    (sum, odd)
}

/// Adds the big-endian words of `data` to a 32-bit register. A slice that
/// starts in the middle of a word gives its first byte as that word's second
/// half; one that ends in the middle of a word leaves the first half behind.
fn accumulate_u32(inner: OneComplement<u32>, odd_position: bool, data: &[u8]) -> (r: (
    OneComplement<u32>,
    bool,
))
    ensures
        state_of(r.1, r.0@) == state_of(odd_position, inner@).feed(data@),
{
    let n = data.len();
    let ghost start = state_of(odd_position, inner@);
    let mut sum = inner;
    let mut i: usize = 0;
    if n == 0 {
        assert(data@.len() == 0);
        return (inner, odd_position);
    }
    proof {
        inner.lemma_view();
        assert(start.feed(data@.subrange(0, 0)) == state_of(odd_position, inner@));
    }
    if odd_position {
        let low = OneComplement::new(data[0] as u32);
        proof {
            lemma_weighted_sum_one(data@.subrange(0, 1), true);
            lemma_register_step(inner@, low@, 0x1_0000_0000, 0x1_0001, true, data@.subrange(0, 1));
        }
        sum = sum.add(low);
        i = 1;
    }
    while n - i >= 2
        invariant
            n == data.len(),
            i <= n,
            state_of(false, sum@) == start.feed(data@.subrange(0, i as int)),
        decreases n - i,
    {
        let word = OneComplement::new(data[i] as u32 * 0x100 + data[i + 1] as u32);
        proof {
            let prefix = data@.subrange(0, i as int);
            let chunk = data@.subrange(i as int, i + 2);
            sum.lemma_view();
            lemma_weighted_sum_word(chunk);
            lemma_register_step(sum@, word@, 0x1_0000_0000, 0x1_0001, false, chunk);
            lemma_feed_split(start, prefix, chunk);
            assert(prefix + chunk =~= data@.subrange(0, i + 2));
        }
        sum = sum.add(word);
        i += 2;
    }
    let mut odd = false;
    if i < n {
        let high = OneComplement::new(data[i] as u32 * 0x100);
        proof {
            let prefix = data@.subrange(0, i as int);
            let chunk = data@.subrange(i as int, i + 1);
            sum.lemma_view();
            lemma_weighted_sum_one(chunk, false);
            lemma_register_step(sum@, high@, 0x1_0000_0000, 0x1_0001, false, chunk);
            lemma_feed_split(start, prefix, chunk);
            assert(prefix + chunk =~= data@.subrange(0, i + 1));
        }
        sum = sum.add(high);
        odd = true;
    }
    assert(data@.subrange(0, n as int) =~= data@);
    (sum, odd)
}

/// Adds the big-endian words of `data` to a 64-bit register. A slice that
/// starts in the middle of a word gives its first byte as that word's second
/// half; one that ends in the middle of a word leaves the first half behind.
fn accumulate_u64(inner: OneComplement<u64>, odd_position: bool, data: &[u8]) -> (r: (
    OneComplement<u64>,
    bool,
))
    ensures
        state_of(r.1, r.0@) == state_of(odd_position, inner@).feed(data@),
{
    let n = data.len();
    let ghost start = state_of(odd_position, inner@);
    let mut sum = inner;
    let mut i: usize = 0;
    if n == 0 {
        assert(data@.len() == 0);
        return (inner, odd_position);
    }
    proof {
        inner.lemma_view();
        assert(start.feed(data@.subrange(0, 0)) == state_of(odd_position, inner@));
    }
    if odd_position {
        let low = OneComplement::new(data[0] as u64);
        proof {
            lemma_weighted_sum_one(data@.subrange(0, 1), true);
            lemma_register_step(inner@, low@, 0x1_0000_0000_0000_0000, 0x1_0001_0001_0001, true, data@.subrange(0, 1));
        }
        sum = sum.add(low);
        i = 1;
    }
    while n - i >= 2
        invariant
            n == data.len(),
            i <= n,
            state_of(false, sum@) == start.feed(data@.subrange(0, i as int)),
        decreases n - i,
    {
        let word = OneComplement::new(data[i] as u64 * 0x100 + data[i + 1] as u64);
        proof {
            let prefix = data@.subrange(0, i as int);
            let chunk = data@.subrange(i as int, i + 2);
            sum.lemma_view();
            lemma_weighted_sum_word(chunk);
            lemma_register_step(sum@, word@, 0x1_0000_0000_0000_0000, 0x1_0001_0001_0001, false, chunk);
            lemma_feed_split(start, prefix, chunk);
            assert(prefix + chunk =~= data@.subrange(0, i + 2));
        }
        sum = sum.add(word);
        i += 2;
    }
    let mut odd = false;
    if i < n {
        let high = OneComplement::new(data[i] as u64 * 0x100);
        proof {
            let prefix = data@.subrange(0, i as int);
            let chunk = data@.subrange(i as int, i + 1);
            sum.lemma_view();
            lemma_weighted_sum_one(chunk, false);
            lemma_register_step(sum@, high@, 0x1_0000_0000_0000_0000, 0x1_0001_0001_0001, false, chunk);
            lemma_feed_split(start, prefix, chunk);
            assert(prefix + chunk =~= data@.subrange(0, i + 1));
        }
        sum = sum.add(high);
        odd = true;
    }
    assert(data@.subrange(0, n as int) =~= data@);
    (sum, odd)
}

/// An Internet checksum that sums in a 64-bit register, the width that the decoders use.
#[derive(Clone, Copy, PartialEq, Eq, PartialOrd, Ord, Hash, Debug)]
pub struct CSum {
    odd_position: bool,
    inner: OneComplement<u64>,
}

impl View for CSum {
    type V = CSumState;

    closed spec fn view(&self) -> CSumState {
        state_of(self.odd_position, self.inner@)
    }
}

impl CSum {
    /// An accumulator that was fed nothing.
    pub fn new() -> (r: CSum)
        ensures
            r@ == CSumState::empty(),
    {
        CSum { odd_position: false, inner: OneComplement::new(0) }
    }

    /// Every accumulator holds a folded sum.
    pub proof fn lemma_wf(self)
        ensures
            self@.wf(),
    {
    }

    /// The checksum of the bytes fed so far, in the machine's byte order:
    /// its bytes in memory are the two checksum bytes as a sender would
    /// transmit them before inversion. The complement of the result is zero
    /// exactly when the sum verifies.
    pub fn result(self) -> (r: u16)
        ensures
            r == self@.result(),
            (!r == 0) == self@.verifies(),
    {
        proof {
            lemma_complement_zero(self@);
        }
        u16_to_be(self.inner.into_inner().fold_csum())
    }

    /// Feeds `data`, which continues the stream where the last slice ended.
    pub fn add(self, data: &[u8]) -> (r: Self)
        ensures
            r@ == self@.feed(data@),
    {
        let (inner, odd_position) = accumulate_u64(self.inner, self.odd_position, data);
        CSum { odd_position, inner }
    }
}

impl Default for CSum {
    fn default() -> (r: Self)
        ensures
            r@ == CSumState::empty(),
    {
        CSum::new()
    }
}

impl traits::CSum for CSum {
    open spec fn state(self) -> CSumState {
        self@
    }

    proof fn lemma_state_wf(self) {
        self.lemma_wf();
    }

    fn new() -> (r: Self) {
        CSum::new()
    }

    fn result(self) -> (r: u16) {
        CSum::result(self)
    }

    fn add(self, data: &[u8]) -> (r: Self) {
        CSum::add(self, data)
    }
}

/// An Internet checksum that sums in a 16-bit register.
#[derive(Clone, Copy, PartialEq, Eq, PartialOrd, Ord, Hash, Debug)]
pub struct CSum16 {
    odd_position: bool,
    inner: OneComplement<u16>,
}

impl View for CSum16 {
    type V = CSumState;

    closed spec fn view(&self) -> CSumState {
        state_of(self.odd_position, self.inner@)
    }
}

impl CSum16 {
    /// An accumulator that was fed nothing.
    pub fn new() -> (r: CSum16)
        ensures
            r@ == CSumState::empty(),
    {
        CSum16 { odd_position: false, inner: OneComplement::new(0) }
    }

    /// Every accumulator holds a folded sum.
    pub proof fn lemma_wf(self)
        ensures
            self@.wf(),
    {
    }

    /// The checksum of the bytes fed so far, in the machine's byte order:
    /// its bytes in memory are the two checksum bytes as a sender would
    /// transmit them before inversion. The complement of the result is zero
    /// exactly when the sum verifies.
    pub fn result(self) -> (r: u16)
        ensures
            r == self@.result(),
            (!r == 0) == self@.verifies(),
    {
        proof {
            lemma_complement_zero(self@);
        }
        u16_to_be(self.inner.into_inner().fold_csum())
    }

    /// Feeds `data`, which continues the stream where the last slice ended.
    pub fn add(self, data: &[u8]) -> (r: Self)
        ensures
            r@ == self@.feed(data@),
    {
        let (inner, odd_position) = accumulate_u16(self.inner, self.odd_position, data);
        CSum16 { odd_position, inner }
    }
}

impl Default for CSum16 {
    fn default() -> (r: Self)
        ensures
            r@ == CSumState::empty(),
    {
        CSum16::new()
    }
}

impl traits::CSum for CSum16 {
    open spec fn state(self) -> CSumState {
        self@
    }

    proof fn lemma_state_wf(self) {
        self.lemma_wf();
    }

    fn new() -> (r: Self) {
        CSum16::new()
    }

    fn result(self) -> (r: u16) {
        CSum16::result(self)
    }

    fn add(self, data: &[u8]) -> (r: Self) {
        CSum16::add(self, data)
    }
}

/// An Internet checksum that sums in a 32-bit register.
#[derive(Clone, Copy, PartialEq, Eq, PartialOrd, Ord, Hash, Debug)]
pub struct CSum32 {
    odd_position: bool,
    inner: OneComplement<u32>,
}

impl View for CSum32 {
    type V = CSumState;

    closed spec fn view(&self) -> CSumState {
        state_of(self.odd_position, self.inner@)
    }
}

impl CSum32 {
    /// An accumulator that was fed nothing.
    pub fn new() -> (r: CSum32)
        ensures
            r@ == CSumState::empty(),
    {
        CSum32 { odd_position: false, inner: OneComplement::new(0) }
    }

    /// Every accumulator holds a folded sum.
    pub proof fn lemma_wf(self)
        ensures
            self@.wf(),
    {
    }

    /// The checksum of the bytes fed so far, in the machine's byte order:
    /// its bytes in memory are the two checksum bytes as a sender would
    /// transmit them before inversion. The complement of the result is zero
    /// exactly when the sum verifies.
    pub fn result(self) -> (r: u16)
        ensures
            r == self@.result(),
            (!r == 0) == self@.verifies(),
    {
        proof {
            lemma_complement_zero(self@);
        }
        u16_to_be(self.inner.into_inner().fold_csum())
    }

    /// Feeds `data`, which continues the stream where the last slice ended.
    pub fn add(self, data: &[u8]) -> (r: Self)
        ensures
            r@ == self@.feed(data@),
    {
        let (inner, odd_position) = accumulate_u32(self.inner, self.odd_position, data);
        CSum32 { odd_position, inner }
    }
}

impl Default for CSum32 {
    fn default() -> (r: Self)
        ensures
            r@ == CSumState::empty(),
    {
        CSum32::new()
    }
}

impl traits::CSum for CSum32 {
    open spec fn state(self) -> CSumState {
        self@
    }

    proof fn lemma_state_wf(self) {
        self.lemma_wf();
    }

    fn new() -> (r: Self) {
        CSum32::new()
    }

    fn result(self) -> (r: u16) {
        CSum32::result(self)
    }

    fn add(self, data: &[u8]) -> (r: Self) {
        CSum32::add(self, data)
    }
}

/// An Internet checksum that sums in a 64-bit register.
#[derive(Clone, Copy, PartialEq, Eq, PartialOrd, Ord, Hash, Debug)]
pub struct CSum64 {
    odd_position: bool,
    inner: OneComplement<u64>,
}

impl View for CSum64 {
    type V = CSumState;

    closed spec fn view(&self) -> CSumState {
        state_of(self.odd_position, self.inner@)
    }
}

impl CSum64 {
    /// An accumulator that was fed nothing.
    pub fn new() -> (r: CSum64)
        ensures
            r@ == CSumState::empty(),
    {
        CSum64 { odd_position: false, inner: OneComplement::new(0) }
    }

    /// Every accumulator holds a folded sum.
    pub proof fn lemma_wf(self)
        ensures
            self@.wf(),
    {
    }

    /// The checksum of the bytes fed so far, in the machine's byte order:
    /// its bytes in memory are the two checksum bytes as a sender would
    /// transmit them before inversion. The complement of the result is zero
    /// exactly when the sum verifies.
    pub fn result(self) -> (r: u16)
        ensures
            r == self@.result(),
            (!r == 0) == self@.verifies(),
    {
        proof {
            lemma_complement_zero(self@);
        }
        u16_to_be(self.inner.into_inner().fold_csum())
    }

    /// Feeds `data`, which continues the stream where the last slice ended.
    pub fn add(self, data: &[u8]) -> (r: Self)
        ensures
            r@ == self@.feed(data@),
    {
        let (inner, odd_position) = accumulate_u64(self.inner, self.odd_position, data);
        CSum64 { odd_position, inner }
    }
}

impl Default for CSum64 {
    fn default() -> (r: Self)
        ensures
            r@ == CSumState::empty(),
    {
        CSum64::new()
    }
}

impl traits::CSum for CSum64 {
    open spec fn state(self) -> CSumState {
        self@
    }

    proof fn lemma_state_wf(self) {
        self.lemma_wf();
    }

    fn new() -> (r: Self) {
        CSum64::new()
    }

    fn result(self) -> (r: u16) {
        CSum64::result(self)
    }

    fn add(self, data: &[u8]) -> (r: Self) {
        CSum64::add(self, data)
    }
}

} // verus!
