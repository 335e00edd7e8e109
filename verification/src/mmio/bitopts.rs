//! Bit operations and helper traits

use vstd::prelude::*;

use crate::mmio::{RegisterLongName, TryFromValue};
use core::marker::PhantomData;

verus! {

/// IntLike properties needed to read/write/modify/clear a register.
///
/// The implementors are the fixed unsigned widths (8/16/32/64 bit). Each
/// operation is specified by a matching `spec` function, which every
/// implementation defines as the plain bitwise operator of its width, so
/// contracts over `IntLike` words stay exact. The proof obligations state
/// the bit-level algebra that the field arithmetic relies on; each
/// implementor discharges them once for its own width.
pub trait IntLike: Copy {
    /// Number of bits in the word.
    spec fn bits_spec() -> nat;

    /// Bitwise AND.
    spec fn and_spec(self, rhs: Self) -> Self;

    /// Bitwise OR.
    spec fn or_spec(self, rhs: Self) -> Self;

    /// Bitwise complement.
    spec fn not_spec(self) -> Self;

    /// Left shift by `n` bits.
    spec fn shl_spec(self, n: usize) -> Self;

    /// Logical right shift by `n` bits.
    spec fn shr_spec(self, n: usize) -> Self;

    /// The word with every bit zero.
    spec fn zero_spec() -> Self;

    /// The word with every bit one.
    spec fn ones_spec() -> Self;

    fn and(self, rhs: Self) -> (r: Self)
        ensures
            r == self.and_spec(rhs),
    ;

    fn or(self, rhs: Self) -> (r: Self)
        ensures
            r == self.or_spec(rhs),
    ;

    fn not(self) -> (r: Self)
        ensures
            r == self.not_spec(),
    ;

    fn shl(self, n: usize) -> (r: Self)
        requires
            (n as nat) < Self::bits_spec(),
        ensures
            r == self.shl_spec(n),
    ;

    fn shr(self, n: usize) -> (r: Self)
        requires
            (n as nat) < Self::bits_spec(),
        ensures
            r == self.shr_spec(n),
    ;

    fn equals(self, rhs: Self) -> (r: bool)
        ensures
            r == (self == rhs),
    ;

    /// Returns zero for every bit
    fn zero() -> (r: Self)
        ensures
            r == Self::zero_spec(),
    ;

    /// Returns one for every bit
    fn ones() -> (r: Self)
        ensures
            r == Self::ones_spec(),
    ;

    /// A value masked to a field's width and shifted into place has no set
    /// bit outside the shifted mask.
    proof fn lemma_val_in_mask(mask: Self, shift: usize, value: Self)
        requires
            (shift as nat) < Self::bits_spec(),
        ensures
            value.and_spec(mask).shl_spec(shift).and_spec(mask.shl_spec(shift))
                == value.and_spec(mask).shl_spec(shift),
    ;

    /// Extracting a field from a register that holds exactly that field's
    /// pattern gives the masked value back, provided the shifted mask loses
    /// no bits.
    proof fn lemma_round_trip(mask: Self, shift: usize, value: Self)
        requires
            (shift as nat) < Self::bits_spec(),
            mask.shl_spec(shift).shr_spec(shift) == mask,
        ensures
            value.and_spec(mask).shl_spec(shift).and_spec(mask.shl_spec(shift)).shr_spec(shift)
                == value.and_spec(mask),
    ;

    /// Merging a fragment whose value lies within its mask leaves every bit
    /// outside the mask unchanged.
    proof fn lemma_modify_preserves(current: Self, mask: Self, value: Self)
        requires
            value.and_spec(mask) == value,
        ensures
            current.and_spec(mask.not_spec()).or_spec(value).and_spec(mask.not_spec())
                == current.and_spec(mask.not_spec()),
    ;

    /// Two fragments over disjoint masks merge into a register in either
    /// order, or as one combined fragment, with the same result.
    proof fn lemma_disjoint_modify_commutes(current: Self, m1: Self, v1: Self, m2: Self, v2: Self)
        requires
            v1.and_spec(m1) == v1,
            v2.and_spec(m2) == v2,
            m1.and_spec(m2) == Self::zero_spec(),
        ensures
            current.and_spec(m1.or_spec(m2).not_spec()).or_spec(v1.or_spec(v2))
                == current.and_spec(m2.not_spec()).or_spec(v2).and_spec(m1.not_spec()).or_spec(v1),
            current.and_spec(m1.or_spec(m2).not_spec()).or_spec(v1.or_spec(v2))
                == current.and_spec(m1.not_spec()).or_spec(v1).and_spec(m2.not_spec()).or_spec(v2),
    ;

    /// The union of two fragments whose values lie within their masks again
    /// has its value within its mask.
    proof fn lemma_combine_wf(m1: Self, v1: Self, m2: Self, v2: Self)
        requires
            v1.and_spec(m1) == v1,
            v2.and_spec(m2) == v2,
        ensures
            v1.or_spec(v2).and_spec(m1.or_spec(m2)) == v1.or_spec(v2),
    ;

    /// Fragment composition is built on bitwise OR, which is commutative
    /// and associative.
    proof fn lemma_or_algebra(a: Self, b: Self, c: Self)
        ensures
            a.or_spec(b) == b.or_spec(a),
            a.or_spec(b).or_spec(c) == a.or_spec(b.or_spec(c)),
    ;
}

impl IntLike for u8 {
    open spec fn bits_spec() -> nat {
        8
    }

    open spec fn and_spec(self, rhs: u8) -> u8 {
        self & rhs
    }

    open spec fn or_spec(self, rhs: u8) -> u8 {
        self | rhs
    }

    open spec fn not_spec(self) -> u8 {
        !self
    }

    open spec fn shl_spec(self, n: usize) -> u8 {
        self << n
    }

    open spec fn shr_spec(self, n: usize) -> u8 {
        self >> n
    }

    open spec fn zero_spec() -> u8 {
        0
    }

    open spec fn ones_spec() -> u8 {
        0xff
    }

    fn and(self, rhs: u8) -> u8 {
        self & rhs
    }

    fn or(self, rhs: u8) -> u8 {
        self | rhs
    }

    fn not(self) -> u8 {
        !self
    }

    fn shl(self, n: usize) -> u8 {
        self << n
    }

    fn shr(self, n: usize) -> u8 {
        self >> n
    }

    fn equals(self, rhs: u8) -> bool {
        self == rhs
    }

    fn zero() -> u8 {
        0
    }

    fn ones() -> u8 {
        0xff
    }

    proof fn lemma_val_in_mask(mask: u8, shift: usize, value: u8) {
        assert((((value & mask) << shift) & (mask << shift)) == ((value & mask) << shift))
            by (bit_vector)
            requires
                shift < 8,
        ;
    }

    proof fn lemma_round_trip(mask: u8, shift: usize, value: u8) {
        assert(((((value & mask) << shift) & (mask << shift)) >> shift) == (value & mask))
            by (bit_vector)
            requires
                shift < 8,
                ((mask << shift) >> shift) == mask,
        ;
    }

    proof fn lemma_modify_preserves(current: u8, mask: u8, value: u8) {
        assert((((current & !mask) | value) & !mask) == (current & !mask)) by (bit_vector)
            requires
                (value & mask) == value,
        ;
    }

    proof fn lemma_disjoint_modify_commutes(current: u8, m1: u8, v1: u8, m2: u8, v2: u8) {
        assert(((current & !(m1 | m2)) | (v1 | v2)) == ((((current & !m2) | v2) & !m1) | v1))
            by (bit_vector)
            requires
                (v1 & m1) == v1,
                (v2 & m2) == v2,
                (m1 & m2) == 0,
        ;
        assert(((current & !(m1 | m2)) | (v1 | v2)) == ((((current & !m1) | v1) & !m2) | v2))
            by (bit_vector)
            requires
                (v1 & m1) == v1,
                (v2 & m2) == v2,
                (m1 & m2) == 0,
        ;
    }

    proof fn lemma_combine_wf(m1: u8, v1: u8, m2: u8, v2: u8) {
        assert(((v1 | v2) & (m1 | m2)) == (v1 | v2)) by (bit_vector)
            requires
                (v1 & m1) == v1,
                (v2 & m2) == v2,
        ;
    }

    proof fn lemma_or_algebra(a: u8, b: u8, c: u8) {
        assert((a | b) == (b | a) && ((a | b) | c) == (a | (b | c))) by (bit_vector);
    }
}

impl IntLike for u16 {
    open spec fn bits_spec() -> nat {
        16
    }

    open spec fn and_spec(self, rhs: u16) -> u16 {
        self & rhs
    }

    open spec fn or_spec(self, rhs: u16) -> u16 {
        self | rhs
    }

    open spec fn not_spec(self) -> u16 {
        !self
    }

    open spec fn shl_spec(self, n: usize) -> u16 {
        self << n
    }

    open spec fn shr_spec(self, n: usize) -> u16 {
        self >> n
    }

    open spec fn zero_spec() -> u16 {
        0
    }

    open spec fn ones_spec() -> u16 {
        0xffff
    }

    fn and(self, rhs: u16) -> u16 {
        self & rhs
    }

    fn or(self, rhs: u16) -> u16 {
        self | rhs
    }

    fn not(self) -> u16 {
        !self
    }

    fn shl(self, n: usize) -> u16 {
        self << n
    }

    fn shr(self, n: usize) -> u16 {
        self >> n
    }

    fn equals(self, rhs: u16) -> bool {
        self == rhs
    }

    fn zero() -> u16 {
        0
    }

    fn ones() -> u16 {
        0xffff
    }

    proof fn lemma_val_in_mask(mask: u16, shift: usize, value: u16) {
        assert((((value & mask) << shift) & (mask << shift)) == ((value & mask) << shift))
            by (bit_vector)
            requires
                shift < 16,
        ;
    }

    proof fn lemma_round_trip(mask: u16, shift: usize, value: u16) {
        assert(((((value & mask) << shift) & (mask << shift)) >> shift) == (value & mask))
            by (bit_vector)
            requires
                shift < 16,
                ((mask << shift) >> shift) == mask,
        ;
    }

    proof fn lemma_modify_preserves(current: u16, mask: u16, value: u16) {
        assert((((current & !mask) | value) & !mask) == (current & !mask)) by (bit_vector)
            requires
                (value & mask) == value,
        ;
    }

    proof fn lemma_disjoint_modify_commutes(current: u16, m1: u16, v1: u16, m2: u16, v2: u16) {
        assert(((current & !(m1 | m2)) | (v1 | v2)) == ((((current & !m2) | v2) & !m1) | v1))
            by (bit_vector)
            requires
                (v1 & m1) == v1,
                (v2 & m2) == v2,
                (m1 & m2) == 0,
        ;
        assert(((current & !(m1 | m2)) | (v1 | v2)) == ((((current & !m1) | v1) & !m2) | v2))
            by (bit_vector)
            requires
                (v1 & m1) == v1,
                (v2 & m2) == v2,
                (m1 & m2) == 0,
        ;
    }

    proof fn lemma_combine_wf(m1: u16, v1: u16, m2: u16, v2: u16) {
        assert(((v1 | v2) & (m1 | m2)) == (v1 | v2)) by (bit_vector)
            requires
                (v1 & m1) == v1,
                (v2 & m2) == v2,
        ;
    }

    proof fn lemma_or_algebra(a: u16, b: u16, c: u16) {
        assert((a | b) == (b | a) && ((a | b) | c) == (a | (b | c))) by (bit_vector);
    }
}

impl IntLike for u32 {
    open spec fn bits_spec() -> nat {
        32
    }

    open spec fn and_spec(self, rhs: u32) -> u32 {
        self & rhs
    }

    open spec fn or_spec(self, rhs: u32) -> u32 {
        self | rhs
    }

    open spec fn not_spec(self) -> u32 {
        !self
    }

    open spec fn shl_spec(self, n: usize) -> u32 {
        self << n
    }

    open spec fn shr_spec(self, n: usize) -> u32 {
        self >> n
    }

    open spec fn zero_spec() -> u32 {
        0
    }

    open spec fn ones_spec() -> u32 {
        0xffff_ffff
    }

    fn and(self, rhs: u32) -> u32 {
        self & rhs
    }

    fn or(self, rhs: u32) -> u32 {
        self | rhs
    }

    fn not(self) -> u32 {
        !self
    }

    fn shl(self, n: usize) -> u32 {
        self << n
    }

    fn shr(self, n: usize) -> u32 {
        self >> n
    }

    fn equals(self, rhs: u32) -> bool {
        self == rhs
    }

    fn zero() -> u32 {
        0
    }

    fn ones() -> u32 {
        0xffff_ffff
    }

    proof fn lemma_val_in_mask(mask: u32, shift: usize, value: u32) {
        assert((((value & mask) << shift) & (mask << shift)) == ((value & mask) << shift))
            by (bit_vector)
            requires
                shift < 32,
        ;
    }

    proof fn lemma_round_trip(mask: u32, shift: usize, value: u32) {
        assert(((((value & mask) << shift) & (mask << shift)) >> shift) == (value & mask))
            by (bit_vector)
            requires
                shift < 32,
                ((mask << shift) >> shift) == mask,
        ;
    }

    proof fn lemma_modify_preserves(current: u32, mask: u32, value: u32) {
        assert((((current & !mask) | value) & !mask) == (current & !mask)) by (bit_vector)
            requires
                (value & mask) == value,
        ;
    }

    proof fn lemma_disjoint_modify_commutes(current: u32, m1: u32, v1: u32, m2: u32, v2: u32) {
        assert(((current & !(m1 | m2)) | (v1 | v2)) == ((((current & !m2) | v2) & !m1) | v1))
            by (bit_vector)
            requires
                (v1 & m1) == v1,
                (v2 & m2) == v2,
                (m1 & m2) == 0,
        ;
        assert(((current & !(m1 | m2)) | (v1 | v2)) == ((((current & !m1) | v1) & !m2) | v2))
            by (bit_vector)
            requires
                (v1 & m1) == v1,
                (v2 & m2) == v2,
                (m1 & m2) == 0,
        ;
    }

    proof fn lemma_combine_wf(m1: u32, v1: u32, m2: u32, v2: u32) {
        assert(((v1 | v2) & (m1 | m2)) == (v1 | v2)) by (bit_vector)
            requires
                (v1 & m1) == v1,
                (v2 & m2) == v2,
        ;
    }

    proof fn lemma_or_algebra(a: u32, b: u32, c: u32) {
        assert((a | b) == (b | a) && ((a | b) | c) == (a | (b | c))) by (bit_vector);
    }
}

impl IntLike for u64 {
    open spec fn bits_spec() -> nat {
        64
    }

    open spec fn and_spec(self, rhs: u64) -> u64 {
        self & rhs
    }

    open spec fn or_spec(self, rhs: u64) -> u64 {
        self | rhs
    }

    open spec fn not_spec(self) -> u64 {
        !self
    }

    open spec fn shl_spec(self, n: usize) -> u64 {
        self << n
    }

    open spec fn shr_spec(self, n: usize) -> u64 {
        self >> n
    }

    open spec fn zero_spec() -> u64 {
        0
    }

    open spec fn ones_spec() -> u64 {
        0xffff_ffff_ffff_ffff
    }

    fn and(self, rhs: u64) -> u64 {
        self & rhs
    }

    fn or(self, rhs: u64) -> u64 {
        self | rhs
    }

    fn not(self) -> u64 {
        !self
    }

    fn shl(self, n: usize) -> u64 {
        self << n
    }

    fn shr(self, n: usize) -> u64 {
        self >> n
    }

    fn equals(self, rhs: u64) -> bool {
        self == rhs
    }

    fn zero() -> u64 {
        0
    }

    fn ones() -> u64 {
        0xffff_ffff_ffff_ffff
    }

    proof fn lemma_val_in_mask(mask: u64, shift: usize, value: u64) {
        assert((((value & mask) << shift) & (mask << shift)) == ((value & mask) << shift))
            by (bit_vector)
            requires
                shift < 64,
        ;
    }

    proof fn lemma_round_trip(mask: u64, shift: usize, value: u64) {
        assert(((((value & mask) << shift) & (mask << shift)) >> shift) == (value & mask))
            by (bit_vector)
            requires
                shift < 64,
                ((mask << shift) >> shift) == mask,
        ;
    }

    proof fn lemma_modify_preserves(current: u64, mask: u64, value: u64) {
        assert((((current & !mask) | value) & !mask) == (current & !mask)) by (bit_vector)
            requires
                (value & mask) == value,
        ;
    }

    proof fn lemma_disjoint_modify_commutes(current: u64, m1: u64, v1: u64, m2: u64, v2: u64) {
        assert(((current & !(m1 | m2)) | (v1 | v2)) == ((((current & !m2) | v2) & !m1) | v1))
            by (bit_vector)
            requires
                (v1 & m1) == v1,
                (v2 & m2) == v2,
                (m1 & m2) == 0,
        ;
        assert(((current & !(m1 | m2)) | (v1 | v2)) == ((((current & !m1) | v1) & !m2) | v2))
            by (bit_vector)
            requires
                (v1 & m1) == v1,
                (v2 & m2) == v2,
                (m1 & m2) == 0,
        ;
    }

    proof fn lemma_combine_wf(m1: u64, v1: u64, m2: u64, v2: u64) {
        assert(((v1 | v2) & (m1 | m2)) == (v1 | v2)) by (bit_vector)
            requires
                (v1 & m1) == v1,
                (v2 & m2) == v2,
        ;
    }

    proof fn lemma_or_algebra(a: u64, b: u64, c: u64) {
        assert((a | b) == (b | a) && ((a | b) | c) == (a | (b | c))) by (bit_vector);
    }
}

/// Specific section of a register.
///
/// The mask is unshifted (LSB-aligned; its width is the field's width) and
/// the shift places the field within the register. A field is well formed
/// when shifting the mask into place drops no bits.
pub struct Field<T: IntLike, R: RegisterLongName> {
    pub mask: T,
    pub shift: usize,
    pub associated_register: PhantomData<R>,
}

impl<T: IntLike, R: RegisterLongName> Clone for Field<T, R> {
    fn clone(&self) -> (r: Self)
        ensures
            r == *self,
    {
        *self
    }
}

impl<T: IntLike, R: RegisterLongName> Copy for Field<T, R> {
}

impl<T: IntLike, R: RegisterLongName> Field<T, R> {
    /// The field invariant: the shift stays inside the word and the shifted
    /// mask loses no bits.
    pub open spec fn wf(self) -> bool {
        &&& (self.shift as nat) < T::bits_spec()
        &&& self.mask.shl_spec(self.shift).shr_spec(self.shift) == self.mask
    }

    /// The field's bits of `val`, right-justified.
    pub open spec fn read_spec(self, val: T) -> T {
        val.and_spec(self.mask.shl_spec(self.shift)).shr_spec(self.shift)
    }

    /// Whether any of the field's bits of `val` is one.
    pub open spec fn is_set_spec(self, val: T) -> bool {
        val.and_spec(self.mask.shl_spec(self.shift)) != T::zero_spec()
    }

    pub fn new(mask: T, shift: usize) -> (r: Field<T, R>)
        requires
            (shift as nat) < T::bits_spec(),
            mask.shl_spec(shift).shr_spec(shift) == mask,
        ensures
            r.mask == mask,
            r.shift == shift,
            r.wf(),
    {
        Field { mask, shift, associated_register: PhantomData }
    }

    #[inline]
    pub fn read(self, val: T) -> (r: T)
        requires
            self.wf(),
        ensures
            r == self.read_spec(val),
    {
        val.and(self.mask.shl(self.shift)).shr(self.shift)
    }

    #[inline]
    /// Check if one or more bits in a field are set
    pub fn is_set(self, val: T) -> (r: bool)
        requires
            self.wf(),
        ensures
            r == self.is_set_spec(val),
    {
        !val.and(self.mask.shl(self.shift)).equals(T::zero())
    }

    #[inline]
    /// Read value of the field as an enum member
    pub fn read_as_enum<E: TryFromValue<T, EnumType = E>>(self, val: T) -> (r: Option<E>)
        requires
            self.wf(),
        ensures
            r == E::spec_try_from(self.read_spec(val)),
    {
        E::try_from(self.read(val))
    }

    /// Build a write fragment that sets this field to `value`; bits of
    /// `value` beyond the field's width are silently truncated.
    pub fn val(&self, value: T) -> (r: FieldValue<T, R>)
        requires
            self.wf(),
        ensures
            r.mask == self.mask.shl_spec(self.shift),
            r.value == value.and_spec(self.mask).shl_spec(self.shift),
            r.wf(),
    {
        FieldValue::<T, R>::new(self.mask, self.shift, value)
    }
}

/// Values for the specific register fields.
///
/// The mask and the value are shifted into their actual location in the
/// register. A fragment is well formed when its value has no set bit
/// outside its mask; every fragment the constructors build is well formed.
pub struct FieldValue<T: IntLike, R: RegisterLongName> {
    pub mask: T,
    pub value: T,
    pub associated_register: PhantomData<R>,
}

impl<T: IntLike, R: RegisterLongName> Clone for FieldValue<T, R> {
    fn clone(&self) -> (r: Self)
        ensures
            r == *self,
    {
        *self
    }
}

impl<T: IntLike, R: RegisterLongName> Copy for FieldValue<T, R> {
}

impl<T: IntLike, R: RegisterLongName> FieldValue<T, R> {
    /// The fragment invariant: the value has no set bit outside the mask.
    pub open spec fn wf(self) -> bool {
        self.value.and_spec(self.mask) == self.value
    }

    /// The register value after merging this fragment into `val`: bits under
    /// the mask take the fragment's value, all other bits keep `val`'s.
    pub open spec fn modify_spec(self, val: T) -> T {
        val.and_spec(self.mask.not_spec()).or_spec(self.value)
    }

    /// Whether any bit under the mask is one in `val`.
    pub open spec fn matches_any_spec(self, val: T) -> bool {
        val.and_spec(self.mask) != T::zero_spec()
    }

    /// Whether the bits under the mask in `val` equal the fragment's value.
    pub open spec fn matches_all_spec(self, val: T) -> bool {
        val.and_spec(self.mask) == self.value
    }

    /// Build the fragment that sets the field described by `mask` and
    /// `shift` to `value`: the same fragment that `Field::val` builds.
    pub fn new(mask: T, shift: usize, value: T) -> (r: Self)
        requires
            (shift as nat) < T::bits_spec(),
            mask.shl_spec(shift).shr_spec(shift) == mask,
        ensures
            r.mask == mask.shl_spec(shift),
            r.value == value.and_spec(mask).shl_spec(shift),
            r.wf(),
    {
        proof {
            T::lemma_val_in_mask(mask, shift, value);
        }
        FieldValue {
            mask: mask.shl(shift),
            value: value.and(mask).shl(shift),
            associated_register: PhantomData,
        }
    }

    /// Get the raw bitmask represented by this FieldValue.
    pub fn mask(self) -> (r: T)
        ensures
            r == self.mask,
    {
        self.mask
    }

    #[inline]
    pub fn read(&self, field: Field<T, R>) -> (r: T)
        requires
            field.wf(),
        ensures
            r == field.read_spec(self.value),
    {
        field.read(self.value)
    }

    /// Modify fields in a register value
    pub fn modify(self, val: T) -> (r: T)
        ensures
            r == self.modify_spec(val),
    {
        val.and(self.mask.not()).or(self.value)
    }

    /// Check if any specified parts of a field match
    pub fn matches_any(self, val: T) -> (r: bool)
        ensures
            r == self.matches_any_spec(val),
    {
        !val.and(self.mask).equals(T::zero())
    }

    /// Check if all specified parts of a field match
    pub fn matches_all(self, val: T) -> (r: bool)
        ensures
            r == self.matches_all_spec(val),
    {
        val.and(self.mask).equals(self.value)
    }

    /// Combine two fragments of the same register into one, so that both
    /// fields are written in a single register transaction.
    pub fn combine(self, rhs: Self) -> (r: Self)
        ensures
            r.mask == self.mask.or_spec(rhs.mask),
            r.value == self.value.or_spec(rhs.value),
            self.wf() && rhs.wf() ==> r.wf(),
    {
        proof {
            if self.wf() && rhs.wf() {
                T::lemma_combine_wf(self.mask, self.value, rhs.mask, rhs.value);
            }
        }
        FieldValue {
            mask: self.mask.or(rhs.mask),
            value: self.value.or(rhs.value),
            associated_register: PhantomData,
        }
    }

    /// Bit-for-bit inversion of both mask and value, used to build
    /// fragments that clear bits.
    pub fn complement(self) -> (r: Self)
        ensures
            r.mask == self.mask.not_spec(),
            r.value == self.value.not_spec(),
    {
        FieldValue {
            mask: self.mask.not(),
            value: self.value.not(),
            associated_register: PhantomData,
        }
    }
}

/// Round trip: writing the fragment `field.val(value)` into a register and
/// reading the same field back yields `value & mask` — bits of `value`
/// beyond the field's width are dropped.
pub proof fn lemma_field_round_trip<T: IntLike, R: RegisterLongName>(
    field: Field<T, R>,
    value: T,
    fragment: FieldValue<T, R>,
)
    requires
        field.wf(),
        fragment.mask == field.mask.shl_spec(field.shift),
        fragment.value == value.and_spec(field.mask).shl_spec(field.shift),
    ensures
        field.read_spec(fragment.value) == value.and_spec(field.mask),
{
    T::lemma_round_trip(field.mask, field.shift, value);
}

/// Order independence: two fragments over disjoint fields of the same
/// register can be merged one after the other in either order, or as one
/// combined fragment, with the same result.
pub proof fn lemma_combine_order_independent<T: IntLike, R: RegisterLongName>(
    f1: FieldValue<T, R>,
    f2: FieldValue<T, R>,
    combined: FieldValue<T, R>,
    current: T,
)
    requires
        f1.wf(),
        f2.wf(),
        f1.mask.and_spec(f2.mask) == T::zero_spec(),
        combined.mask == f1.mask.or_spec(f2.mask),
        combined.value == f1.value.or_spec(f2.value),
    ensures
        combined.modify_spec(current) == f1.modify_spec(f2.modify_spec(current)),
        combined.modify_spec(current) == f2.modify_spec(f1.modify_spec(current)),
{
    T::lemma_disjoint_modify_commutes(current, f1.mask, f1.value, f2.mask, f2.value);
}

/// Modify preserves untouched bits: merging a fragment into a register
/// value leaves every bit outside the fragment's mask as it was.
pub proof fn lemma_modify_preserves_untouched<T: IntLike, R: RegisterLongName>(
    fragment: FieldValue<T, R>,
    current: T,
)
    requires
        fragment.wf(),
    ensures
        fragment.modify_spec(current).and_spec(fragment.mask.not_spec())
            == current.and_spec(fragment.mask.not_spec()),
{
    T::lemma_modify_preserves(current, fragment.mask, fragment.value);
}

/// Fragment composition is commutative and associative: combining two
/// fragments in either order, or three fragments with either grouping,
/// yields the same mask and the same value.
pub proof fn lemma_combine_commutative_associative<T: IntLike, R: RegisterLongName>(
    f1: FieldValue<T, R>,
    f2: FieldValue<T, R>,
    f3: FieldValue<T, R>,
)
    ensures
        f1.mask.or_spec(f2.mask) == f2.mask.or_spec(f1.mask),
        f1.value.or_spec(f2.value) == f2.value.or_spec(f1.value),
        f1.mask.or_spec(f2.mask).or_spec(f3.mask) == f1.mask.or_spec(f2.mask.or_spec(f3.mask)),
        f1.value.or_spec(f2.value).or_spec(f3.value) == f1.value.or_spec(
            f2.value.or_spec(f3.value),
        ),
{
    T::lemma_or_algebra(f1.mask, f2.mask, f3.mask);
    T::lemma_or_algebra(f1.value, f2.value, f3.value);
}

} // verus!
