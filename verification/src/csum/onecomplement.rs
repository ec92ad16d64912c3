//! One's-complement arithmetic on unsigned machine integers.

use super::model::{end_around_add, wrapped_add};
use vstd::prelude::*;

verus! {

/// An unsigned machine integer, as far as one's-complement arithmetic needs
/// it.
pub trait UnsignedInt: Copy {
    /// The number of values of the type: two to the power of its width.
    spec fn limit() -> nat;

    /// The number that `self` stands for.
    spec fn to_nat(self) -> nat;

    /// The type holds at least zero and one, and no value reaches `limit`.
    proof fn lemma_bounded(self)
        ensures
            self.to_nat() < Self::limit(),
            Self::limit() >= 2,
    ;

    /// Two values that stand for the same number are the same value.
    proof fn lemma_injective(self, other: Self)
        requires
            self.to_nat() == other.to_nat(),
        ensures
            self == other,
    ;

    /// The value that stands for `v`, where the type is wide enough.
    fn from_u8(v: u8) -> (r: Self)
        requires
            (v as nat) < Self::limit(),
        ensures
            r.to_nat() == v as nat,
    ;

    /// The bitwise complement.
    fn complement(self) -> (r: Self)
        ensures
            r.to_nat() == Self::limit() - 1 - self.to_nat(),
    ;

    /// The sum modulo `limit`, and whether the true sum reached `limit`.
    fn overflowing_add(self, other: Self) -> (r: (Self, bool))
        ensures
            r.1 == (self.to_nat() + other.to_nat() >= Self::limit()),
            r.0.to_nat() == wrapped_add(self.to_nat(), other.to_nat(), Self::limit()),
    ;

    /// The sum, where it stays below `limit`.
    fn checked_add(self, other: Self) -> (r: Option<Self>)
        ensures
            r is Some <==> self.to_nat() + other.to_nat() < Self::limit(),
            r is Some ==> r->Some_0.to_nat() == self.to_nat() + other.to_nat(),
    ;

    /// The sum modulo `limit`.
    fn wrapping_add(self, other: Self) -> (r: Self)
        ensures
            r.to_nat() == wrapped_add(self.to_nat(), other.to_nat(), Self::limit()),
    ;
}

impl UnsignedInt for u8 {
    open spec fn limit() -> nat {
        0x100
    }

    open spec fn to_nat(self) -> nat {
        self as nat
    }

    proof fn lemma_bounded(self) {
    }

    proof fn lemma_injective(self, other: Self) {
    }

    fn from_u8(v: u8) -> (r: Self) {
        v
    }

    fn complement(self) -> (r: Self) {
        assert(!self == 0xffu8 - self) by (bit_vector);
        !self
    }

    fn overflowing_add(self, other: Self) -> (r: (Self, bool)) {
        match u8::checked_add(self, other) {
            Some(res) => (res, false),
            None => (u8::wrapping_add(self, other), true),
        }
    }

    fn checked_add(self, other: Self) -> (r: Option<Self>) {
        u8::checked_add(self, other)
    }

    fn wrapping_add(self, other: Self) -> (r: Self) {
        u8::wrapping_add(self, other)
    }
}

impl UnsignedInt for u16 {
    open spec fn limit() -> nat {
        0x1_0000
    }

    open spec fn to_nat(self) -> nat {
        self as nat
    }

    proof fn lemma_bounded(self) {
    }

    proof fn lemma_injective(self, other: Self) {
    }

    fn from_u8(v: u8) -> (r: Self) {
        v as u16
    }

    fn complement(self) -> (r: Self) {
        assert(!self == 0xffffu16 - self) by (bit_vector);
        !self
    }

    fn overflowing_add(self, other: Self) -> (r: (Self, bool)) {
        match u16::checked_add(self, other) {
            Some(res) => (res, false),
            None => (u16::wrapping_add(self, other), true),
        }
    }

    fn checked_add(self, other: Self) -> (r: Option<Self>) {
        u16::checked_add(self, other)
    }

    fn wrapping_add(self, other: Self) -> (r: Self) {
        u16::wrapping_add(self, other)
    }
}

impl UnsignedInt for u32 {
    open spec fn limit() -> nat {
        0x1_0000_0000
    }

    open spec fn to_nat(self) -> nat {
        self as nat
    }

    proof fn lemma_bounded(self) {
    }

    proof fn lemma_injective(self, other: Self) {
    }

    fn from_u8(v: u8) -> (r: Self) {
        v as u32
    }

    fn complement(self) -> (r: Self) {
        assert(!self == 0xffff_ffffu32 - self) by (bit_vector);
        !self
    }

    fn overflowing_add(self, other: Self) -> (r: (Self, bool)) {
        match u32::checked_add(self, other) {
            Some(res) => (res, false),
            None => (u32::wrapping_add(self, other), true),
        }
    }

    fn checked_add(self, other: Self) -> (r: Option<Self>) {
        u32::checked_add(self, other)
    }

    fn wrapping_add(self, other: Self) -> (r: Self) {
        u32::wrapping_add(self, other)
    }
}

impl UnsignedInt for u64 {
    open spec fn limit() -> nat {
        0x1_0000_0000_0000_0000
    }

    open spec fn to_nat(self) -> nat {
        self as nat
    }

    proof fn lemma_bounded(self) {
    }

    proof fn lemma_injective(self, other: Self) {
    }

    fn from_u8(v: u8) -> (r: Self) {
        v as u64
    }

    fn complement(self) -> (r: Self) {
        assert(!self == 0xffff_ffff_ffff_ffffu64 - self) by (bit_vector);
        !self
    }

    fn overflowing_add(self, other: Self) -> (r: (Self, bool)) {
        match u64::checked_add(self, other) {
            Some(res) => (res, false),
            None => (u64::wrapping_add(self, other), true),
        }
    }

    fn checked_add(self, other: Self) -> (r: Option<Self>) {
        u64::checked_add(self, other)
    }

    fn wrapping_add(self, other: Self) -> (r: Self) {
        u64::wrapping_add(self, other)
    }
}

impl UnsignedInt for usize {
    open spec fn limit() -> nat {
        (usize::MAX + 1) as nat
    }

    open spec fn to_nat(self) -> nat {
        self as nat
    }

    proof fn lemma_bounded(self) {
    }

    proof fn lemma_injective(self, other: Self) {
    }

    fn from_u8(v: u8) -> (r: Self) {
        v as usize
    }

    fn complement(self) -> (r: Self) {
        usize::MAX - self
    }

    fn overflowing_add(self, other: Self) -> (r: (Self, bool)) {
        match usize::checked_add(self, other) {
            Some(res) => (res, false),
            None => (usize::wrapping_add(self, other), true),
        }
    }

    fn checked_add(self, other: Self) -> (r: Option<Self>) {
        usize::checked_add(self, other)
    }

    fn wrapping_add(self, other: Self) -> (r: Self) {
        usize::wrapping_add(self, other)
    }
}

/// An unsigned integer under one's-complement addition: a carry out of the
/// top bit comes back in at the bottom.
#[derive(Clone, Copy, PartialEq, Eq, PartialOrd, Ord, Hash, Debug)]
pub struct OneComplement<U: UnsignedInt> {
    inner: U,
}

impl<U: UnsignedInt> View for OneComplement<U> {
    type V = nat;

    closed spec fn view(&self) -> nat {
        self.inner.to_nat()
    }
}

impl<U: UnsignedInt> OneComplement<U> {
    /// The machine integer inside.
    pub closed spec fn get(self) -> U {
        self.inner
    }

    /// The view is the number that the integer inside stands for.
    pub proof fn lemma_view(self)
        ensures
            self@ == self.get().to_nat(),
            self@ < U::limit(),
    {
        self.inner.lemma_bounded();
    }

    /// Wraps `u` without changing it.
    pub fn new(u: U) -> (r: Self)
        ensures
            r.get() == u,
            r@ == u.to_nat(),
    {
        OneComplement { inner: u }
    }

    /// The one's-complement sum: the plain sum, with the carry added back
    /// in where there is one.
    pub fn add(self, b: Self) -> (r: Self)
        ensures
            r@ == end_around_add(self@, b@, U::limit()),
    {
        proof {
            self.inner.lemma_bounded();
            b.inner.lemma_bounded();
        }
        match self.inner.overflowing_add(b.inner) {
            (res, false) => OneComplement { inner: res },
            (res, true) => OneComplement { inner: res.wrapping_add(U::from_u8(1)) },
        }
    }

    /// The one's-complement negation: every bit inverted.
    pub fn not(self) -> (r: Self)
        ensures
            r@ == U::limit() - 1 - self@,
    {
        OneComplement { inner: self.inner.complement() }
    }

    /// Unwraps the machine integer.
    pub fn into_inner(self) -> (r: U)
        ensures
            r == self.get(),
            r.to_nat() == self@,
    {
        self.inner
    }
}

impl<U: UnsignedInt> Default for OneComplement<U> {
    fn default() -> (r: Self)
        ensures
            r@ == 0,
    {
        proof {
            let ghost any: U = arbitrary();
            any.lemma_bounded();
        }
        OneComplement { inner: U::from_u8(0) }
    }
}

impl<U: UnsignedInt> From<U> for OneComplement<U> {
    fn from(u: U) -> (r: Self) {
        OneComplement { inner: u }
    }
}

impl<U: UnsignedInt> vstd::std_specs::convert::FromSpecImpl<U> for OneComplement<U> {
    open spec fn obeys_from_spec() -> bool {
        true
    }

    closed spec fn from_spec(u: U) -> Self {
        OneComplement { inner: u }
    }
}

impl<U: UnsignedInt> OneComplement<U> {
    /// What `from` makes of a machine integer holds that integer.
    pub proof fn lemma_from(u: U)
        ensures
            <Self as vstd::std_specs::convert::FromSpec<U>>::from_spec(u).get() == u,
            <Self as vstd::std_specs::convert::FromSpec<U>>::from_spec(u)@ == u.to_nat(),
    {
    }
}

impl<U: UnsignedInt> core::ops::Add<OneComplement<U>> for OneComplement<U> {
    type Output = OneComplement<U>;

    fn add(self, other: OneComplement<U>) -> (r: OneComplement<U>)
        ensures
            r@ == end_around_add(self@, other@, U::limit()),
    {
        OneComplement::add(self, other)
    }
}

impl<U: UnsignedInt> vstd::std_specs::ops::AddSpecImpl<OneComplement<U>> for OneComplement<U> {
    open spec fn obeys_add_spec() -> bool {
        false
    }

    open spec fn add_req(self, other: OneComplement<U>) -> bool {
        true
    }

    open spec fn add_spec(self, other: OneComplement<U>) -> OneComplement<U> {
        self
    }
}

impl<U: UnsignedInt> core::ops::Not for OneComplement<U> {
    type Output = OneComplement<U>;

    fn not(self) -> (r: OneComplement<U>)
        ensures
            r@ == U::limit() - 1 - self@,
    {
        OneComplement::not(self)
    }
}

impl<U: UnsignedInt> vstd::std_specs::ops::NotSpecImpl for OneComplement<U> {
    open spec fn obeys_not_spec() -> bool {
        false
    }

    open spec fn not_req(self) -> bool {
        true
    }

    open spec fn not_spec(self) -> OneComplement<U> {
        self
    }
}

} // verus!
