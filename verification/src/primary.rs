//! The numeric primitives: a uniform little-endian interface over the
//! machine's integer types, with the wrapping, saturating, widening and
//! checked arithmetic the interpreter dispatches on.

use vstd::prelude::*;

use crate::bytes::{
    clip_i128, euc_mod_pow, int_abs, le_to_nat, lemma_le_to_nat_bound, lemma_nat_to_le_snoc,
    lemma_pow256_add, lemma_pow256_mono, lemma_pow256_pos, lemma_pow256_values, nat_to_le, pow256,
    trunc_div_int, trunc_rem_int,
};
use crate::UWord;

verus! {

/// The little-endian bytes of `v`, `n` bytes long.
pub fn le_bytes_of(v: u128, n: usize) -> (r: Vec<u8>)
    requires
        n <= 16,
    ensures
        r@ == nat_to_le(v as nat, n as nat),
{
    let mut r: Vec<u8> = Vec::new();
    let mut cur: u128 = v;
    let mut i: usize = 0;
    proof {
        assert(nat_to_le(v as nat, 0) =~= Seq::<u8>::empty());
        assert(v as nat / pow256(0) == v as nat) by (nonlinear_arith);
    }
    while i < n
        invariant
            i <= n <= 16,
            r@ == nat_to_le(v as nat, i as nat),
            cur as nat == v as nat / pow256(i as nat),
        decreases n - i,
    {
        let ghost prev = cur as nat;
        let b = (cur % 256) as u8;
        r.push(b);
        cur = cur / 256;
        i = i + 1;
        proof {
            lemma_nat_to_le_snoc(v as nat, (i - 1) as nat);
            lemma_pow256_pos((i - 1) as nat);
            assert(prev / 256 == v as nat / (256 * pow256((i - 1) as nat))) by (nonlinear_arith)
                requires
                    prev == v as nat / pow256((i - 1) as nat),
                    pow256((i - 1) as nat) >= 1,
            ;
        }
    }
    r
}

/// The value of a little-endian byte slice, widened into one word.
pub fn le_value_of_slice(s: &[u8]) -> (r: u128)
    requires
        s@.len() <= 16,
    ensures
        r as nat == le_to_nat(s@),
{
    let n = s.len();
    let mut acc: u128 = 0;
    let mut i: usize = n;
    proof {
        assert(s@.skip(n as int) =~= Seq::<u8>::empty());
    }
    while i > 0
        invariant
            i <= n,
            n == s@.len() <= 16,
            acc as nat == le_to_nat(s@.skip(i as int)),
        decreases i,
    {
        i = i - 1;
        let b = s[i];
        proof {
            lemma_le_to_nat_bound(s@.skip(i as int + 1));
            lemma_pow256_mono(((n - i) - 1) as nat, 15);
            lemma_pow256_values();
            assert(acc as nat * 256 + 255 < pow256(16)) by (nonlinear_arith)
                requires
                    (acc as nat) < pow256(15),
                    pow256(16) == 256 * pow256(15),
            ;
        }
        acc = acc * 256 + (b as u128);
        proof {
            assert(s@.skip(i as int).drop_first() =~= s@.skip(i as int + 1));
            assert(s@.skip(i as int)[0] == s@[i as int]);
        }
    }
    proof {
        assert(s@.skip(0) =~= s@);
    }
    acc
}

/// An integer folded into `T` by its low bytes: the target of every
/// wrapping operation.
pub open spec fn prim_of_int<T: Primary>(v: int) -> T {
    T::of_le(euc_mod_pow(v, T::spec_size()))
}

/// The uniform little-endian interface of a numeric type: a size, the
/// bit pattern as a number, and the constructors the interpreter needs.
pub trait Primary: Sized + Copy {
    /// The size of this type in bytes.
    spec fn spec_size() -> nat;

    /// The unsigned value of the little-endian bit pattern.
    spec fn as_le(self) -> nat;

    /// The value whose bit pattern is `n mod 256^size`.
    spec fn of_le(n: nat) -> Self;

    /// The numeric value; signed types read their sign bit.
    spec fn as_int(self) -> int;

    proof fn lemma_size()
        ensures
            1 <= Self::spec_size() <= 16,
    ;

    proof fn lemma_le(self)
        ensures
            self.as_le() < pow256(Self::spec_size()),
            Self::of_le(self.as_le()) == self,
            (self.as_le() == 0) <==> (self.as_int() == 0),
    ;

    proof fn lemma_of_le(n: nat)
        ensures
            Self::of_le(n).as_le() == n % pow256(Self::spec_size()),
            Self::of_le(n) == Self::of_le(n % pow256(Self::spec_size())),
    ;

    fn size() -> (r: usize)
        ensures
            r as nat == Self::spec_size(),
    ;

    /// The bit pattern, widened into one unsigned word.
    fn le_val(&self) -> (r: u128)
        ensures
            r as nat == self.as_le(),
    ;

    /// The value with bit pattern `v` (high bytes dropped).
    fn of_le_val(v: u128) -> (r: Self)
        ensures
            r == Self::of_le(v as nat),
    ;

    /// The numeric value, clipped into the widest signed type by its
    /// bit pattern.
    fn to_i128(self) -> (r: i128)
        ensures
            r as int == clip_i128(self.as_int()),
    ;

    fn eq_val(self, o: Self) -> (r: bool)
        ensures
            r == (self.as_le() == o.as_le()),
    ;

    fn lt_val(self, o: Self) -> (r: bool)
        ensures
            r == (self.as_int() < o.as_int()),
    ;

    /// The little-endian bytes of this value.
    fn to_bytes(&self) -> (r: Vec<u8>)
        ensures
            r@ == nat_to_le(self.as_le(), Self::spec_size()),
    {
        proof {
            Self::lemma_size();
            self.lemma_le();
        }
        let r = le_bytes_of(self.le_val(), Self::size());
        r
    }

    /// The value read from a little-endian prefix, zero-padded up to
    /// this type's size.
    fn from_slice(s: &[u8]) -> (r: Self)
        requires
            s@.len() <= Self::spec_size(),
        ensures
            r == Self::of_le(le_to_nat(s@)),
    {
        proof {
            Self::lemma_size();
        }
        let v = le_value_of_slice(s);
        Self::of_le_val(v)
    }

    fn zero() -> (r: Self)
        ensures
            r == Self::of_le(0),
    {
        Self::of_le_val(0)
    }

    fn one() -> (r: Self)
        ensures
            r == Self::of_le(1),
    {
        Self::of_le_val(1)
    }

    /// The value whose bit pattern is the word's, zero-padded or
    /// truncated to this type's size.
    fn from_word(w: UWord) -> (r: Self)
        ensures
            r == Self::of_le(w as nat),
    {
        Self::of_le_val(w as u128)
    }

    /// The value whose bit pattern is the argument's low bytes.
    fn from_i128(v: i128) -> (r: Self)
        ensures
            r == Self::of_le(euc_mod_pow(v as int, Self::spec_size())),
    {
        let pattern: u128 = if v >= 0 {
            v as u128
        } else {
            u128::MAX - ((-(v + 1)) as u128)
        };
        proof {
            Self::lemma_size();
            lemma_pow256_values();
            let s = Self::spec_size();
            lemma_pow256_pos(s);
            if v < 0 {
                assert(pattern as int == v + pow256(16));
                lemma_pow256_add(s, (16 - s) as nat);
                crate::bytes::lemma_int_mod_multiple(
                    v as int,
                    pow256(s) as int,
                    pow256((16 - s) as nat) as int,
                );
                assert((pattern as int) % (pow256(s) as int) == (v as int) % (pow256(s) as int));
            }
            assert(euc_mod_pow(pattern as int, s) == euc_mod_pow(v as int, s));
            assert((pattern as nat) % pow256(s) == euc_mod_pow(pattern as int, s));
            Self::lemma_of_le(pattern as nat);
        }
        Self::of_le_val(pattern)
    }

    fn is_zero(self) -> (r: bool)
        ensures
            r == (self.as_le() == 0),
    {
        proof {
            self.lemma_le();
        }
        self.le_val() == 0
    }
}

/// The value `v` reads as in the target type: the numeric value,
/// folded in by its low bytes where it does not fit.
pub open spec fn convert_spec<T: Primary, U: Primary>(v: T) -> U {
    U::of_le(euc_mod_pow(clip_i128(v.as_int()), U::spec_size()))
}

/// A numeric cast: the source's numeric value folded into the target.
pub trait Convert<T: Primary>: Primary {
    fn convert(v: T) -> (r: Self)
        ensures
            r == convert_spec::<T, Self>(v),
    ;
}

impl<T: Primary, U: Primary> Convert<T> for U {
    fn convert(v: T) -> (r: U) {
        U::from_i128(v.to_i128())
    }
}



/// Addition under the four overflow treatments.
pub trait Add: Primary {
    /// The sum folded into the type: two's-complement wrap-around.
    spec fn add_wrap_spec(self, o: Self) -> Self;

    /// The sum clamped to the type's extremes.
    spec fn add_sat_spec(self, o: Self) -> Self;

    /// The sum, or nothing where it does not fit the type.
    spec fn add_checked_spec(self, o: Self) -> Option<Self>;

    fn wrapping(self, o: Self) -> (r: Self)
        ensures
            r == self.add_wrap_spec(o),
    ;

    fn saturating(self, o: Self) -> (r: Self)
        ensures
            r == self.add_sat_spec(o),
    ;

    fn checked(self, o: Self) -> (r: Option<Self>)
        ensures
            r == self.add_checked_spec(o),
    ;
}

/// Subtraction under the four overflow treatments.
pub trait Sub: Primary {
    spec fn sub_wrap_spec(self, o: Self) -> Self;

    spec fn sub_sat_spec(self, o: Self) -> Self;

    spec fn sub_checked_spec(self, o: Self) -> Option<Self>;

    fn wrapping(self, o: Self) -> (r: Self)
        ensures
            r == self.sub_wrap_spec(o),
    ;

    fn saturating(self, o: Self) -> (r: Self)
        ensures
            r == self.sub_sat_spec(o),
    ;

    fn checked(self, o: Self) -> (r: Option<Self>)
        ensures
            r == self.sub_checked_spec(o),
    ;
}

/// Multiplication under the four overflow treatments.
pub trait Mul: Primary {
    spec fn mul_wrap_spec(self, o: Self) -> Self;

    spec fn mul_sat_spec(self, o: Self) -> Self;

    spec fn mul_checked_spec(self, o: Self) -> Option<Self>;

    fn wrapping(self, o: Self) -> (r: Self)
        ensures
            r == self.mul_wrap_spec(o),
    ;

    fn saturating(self, o: Self) -> (r: Self)
        ensures
            r == self.mul_sat_spec(o),
    ;

    fn checked(self, o: Self) -> (r: Option<Self>)
        ensures
            r == self.mul_checked_spec(o),
    ;
}

/// Division, rounding towards zero; only the wrapping form exists.
pub trait Div: Primary {
    /// Truncated division; the one overflowing case wraps to itself.
    spec fn div_wrap_spec(self, o: Self) -> Self;

    fn wrapping(self, o: Self) -> (r: Self)
        requires
            o.as_int() != 0,
        ensures
            r == self.div_wrap_spec(o),
    ;
}

/// Remainder pairing with truncated division; wrapping only.
pub trait Rem: Primary {
    /// The remainder with the dividend's sign.
    spec fn rem_wrap_spec(self, o: Self) -> Self;

    fn wrapping(self, o: Self) -> (r: Self)
        requires
            o.as_int() != 0,
        ensures
            r == self.rem_wrap_spec(o),
    ;
}

/// Left shift by an eight-bit count.
pub trait Shl: Primary {
    /// The shift with the count reduced modulo the bit width.
    spec fn shl_wrap_spec(self, o: u8) -> Self;

    /// The shift, or nothing for a count at or above the bit width.
    spec fn shl_checked_spec(self, o: u8) -> Option<Self>;

    fn wrapping(self, o: u8) -> (r: Self)
        ensures
            r == self.shl_wrap_spec(o),
    ;

    fn saturating(self, o: u8) -> (r: Self)
        ensures
            r == self.shl_wrap_spec(o),
    ;

    fn checked(self, o: u8) -> (r: Option<Self>)
        ensures
            r == self.shl_checked_spec(o),
    ;
}

/// Right shift by an eight-bit count; arithmetic on signed types.
pub trait Shr: Primary {
    spec fn shr_wrap_spec(self, o: u8) -> Self;

    spec fn shr_checked_spec(self, o: u8) -> Option<Self>;

    fn wrapping(self, o: u8) -> (r: Self)
        ensures
            r == self.shr_wrap_spec(o),
    ;

    fn saturating(self, o: u8) -> (r: Self)
        ensures
            r == self.shr_wrap_spec(o),
    ;

    fn checked(self, o: u8) -> (r: Option<Self>)
        ensures
            r == self.shr_checked_spec(o),
    ;
}

/// Negation under the overflow treatments.
pub trait Neg: Primary {
    spec fn neg_wrap_spec(self) -> Self;

    spec fn neg_checked_spec(self) -> Option<Self>;

    fn wrapping(self) -> (r: Self)
        ensures
            r == self.neg_wrap_spec(),
    ;

    fn saturating(self) -> (r: Self)
        ensures
            r == self.neg_wrap_spec(),
    ;

    fn checked(self) -> (r: Option<Self>)
        ensures
            r == self.neg_checked_spec(),
    ;
}

/// Adding one, derived from addition.
pub trait Inc: Primary {
    spec fn inc_wrap_spec(self) -> Self;

    spec fn inc_sat_spec(self) -> Self;

    spec fn inc_checked_spec(self) -> Option<Self>;

    fn wrapping(self) -> (r: Self)
        ensures
            r == self.inc_wrap_spec(),
    ;

    fn saturating(self) -> (r: Self)
        ensures
            r == self.inc_sat_spec(),
    ;

    fn checked(self) -> (r: Option<Self>)
        ensures
            r == self.inc_checked_spec(),
    ;
}

impl<T: Add> Inc for T {
    open spec fn inc_wrap_spec(self) -> T {
        self.add_wrap_spec(T::of_le(1))
    }

    open spec fn inc_sat_spec(self) -> T {
        self.add_sat_spec(T::of_le(1))
    }

    open spec fn inc_checked_spec(self) -> Option<T> {
        self.add_checked_spec(T::of_le(1))
    }

    fn wrapping(self) -> (r: T) {
        Add::wrapping(self, T::one())
    }

    fn saturating(self) -> (r: T) {
        Add::saturating(self, T::one())
    }

    fn checked(self) -> (r: Option<T>) {
        Add::checked(self, T::one())
    }
}

/// Subtracting one, derived from subtraction.
pub trait Dec: Primary {
    spec fn dec_wrap_spec(self) -> Self;

    spec fn dec_sat_spec(self) -> Self;

    spec fn dec_checked_spec(self) -> Option<Self>;

    fn wrapping(self) -> (r: Self)
        ensures
            r == self.dec_wrap_spec(),
    ;

    fn saturating(self) -> (r: Self)
        ensures
            r == self.dec_sat_spec(),
    ;

    fn checked(self) -> (r: Option<Self>)
        ensures
            r == self.dec_checked_spec(),
    ;
}

impl<T: Sub> Dec for T {
    open spec fn dec_wrap_spec(self) -> T {
        self.sub_wrap_spec(T::of_le(1))
    }

    open spec fn dec_sat_spec(self) -> T {
        self.sub_sat_spec(T::of_le(1))
    }

    open spec fn dec_checked_spec(self) -> Option<T> {
        self.sub_checked_spec(T::of_le(1))
    }

    fn wrapping(self) -> (r: T) {
        Sub::wrapping(self, T::one())
    }

    fn saturating(self) -> (r: T) {
        Sub::saturating(self, T::one())
    }

    fn checked(self) -> (r: Option<T>) {
        Sub::checked(self, T::one())
    }
}

/// The bitwise connectives; on the integer types only.
pub trait Bitwise: Primary {
    spec fn and_spec(self, o: Self) -> Self;

    spec fn or_spec(self, o: Self) -> Self;

    spec fn xor_spec(self, o: Self) -> Self;

    spec fn not_spec(self) -> Self;

    fn bit_and(self, o: Self) -> (r: Self)
        ensures
            r == self.and_spec(o),
    ;

    fn bit_or(self, o: Self) -> (r: Self)
        ensures
            r == self.or_spec(o),
    ;

    fn bit_xor(self, o: Self) -> (r: Self)
        ensures
            r == self.xor_spec(o),
    ;

    fn bit_not(self) -> (r: Self)
        ensures
            r == self.not_spec(),
    ;
}


impl Primary for u8 {
    open spec fn spec_size() -> nat {
        1
    }

    open spec fn as_le(self) -> nat {
        self as nat
    }

    open spec fn of_le(n: nat) -> Self {
        (n % 0x100) as u8
    }

    open spec fn as_int(self) -> int {
        self as int
    }

    proof fn lemma_size() {
    }

    proof fn lemma_le(self) {
        lemma_pow256_values();
        assert(self.as_le() < 0x100) by (nonlinear_arith);
        assert(self.as_le() % 0x100 == self.as_le()) by (nonlinear_arith)
            requires
                self.as_le() < 0x100,
        ;
        assert(Self::of_le(self.as_le()) == self);
        assert((self.as_le() == 0) <==> (self.as_int() == 0));
    }

    proof fn lemma_of_le(n: nat) {
        lemma_pow256_values();
        assert((n % 0x100) % 0x100 == n % 0x100) by (nonlinear_arith);
    }

    fn size() -> (r: usize) {
        1
    }

    fn le_val(&self) -> (r: u128) {
        *self as u128
    }

    fn of_le_val(v: u128) -> (r: Self) {
        proof {
            lemma_pow256_values();
        }
        (v % 0x100) as u8
    }

    fn to_i128(self) -> (r: i128) {
        self as i128
    }

    fn eq_val(self, o: Self) -> (r: bool) {
        self == o
    }

    fn lt_val(self, o: Self) -> (r: bool) {
        self < o
    }
}

impl Primary for i8 {
    open spec fn spec_size() -> nat {
        1
    }

    open spec fn as_le(self) -> nat {
        if self >= 0 {
            self as nat
        } else {
            (self as int + 0x100) as nat
        }
    }

    open spec fn of_le(n: nat) -> Self {
        if n % 0x100 < 0x80 {
            (n % 0x100) as i8
        } else {
            (n % 0x100 - 0x100) as i8
        }
    }

    open spec fn as_int(self) -> int {
        self as int
    }

    proof fn lemma_size() {
    }

    proof fn lemma_le(self) {
        lemma_pow256_values();
        assert(self.as_le() < 0x100) by (nonlinear_arith);
        assert(self.as_le() % 0x100 == self.as_le()) by (nonlinear_arith)
            requires
                self.as_le() < 0x100,
        ;
        assert(Self::of_le(self.as_le()) == self);
        assert((self.as_le() == 0) <==> (self.as_int() == 0));
    }

    proof fn lemma_of_le(n: nat) {
        lemma_pow256_values();
        assert((n % 0x100) % 0x100 == n % 0x100) by (nonlinear_arith);
    }

    fn size() -> (r: usize) {
        1
    }

    fn le_val(&self) -> (r: u128) {
        if *self >= 0 {
            *self as u128
        } else {
            ((*self as i128) + 0x100) as u128
        }
    }

    fn of_le_val(v: u128) -> (r: Self) {
        proof {
            lemma_pow256_values();
        }
        let m = v % 0x100;
        if m < 0x80 {
            m as i8
        } else {
            ((m as i128) - 0x100) as i8
        }
    }

    fn to_i128(self) -> (r: i128) {
        self as i128
    }

    fn eq_val(self, o: Self) -> (r: bool) {
        self == o
    }

    fn lt_val(self, o: Self) -> (r: bool) {
        self < o
    }
}

impl Primary for u16 {
    open spec fn spec_size() -> nat {
        2
    }

    open spec fn as_le(self) -> nat {
        self as nat
    }

    open spec fn of_le(n: nat) -> Self {
        (n % 0x1_0000) as u16
    }

    open spec fn as_int(self) -> int {
        self as int
    }

    proof fn lemma_size() {
    }

    proof fn lemma_le(self) {
        lemma_pow256_values();
        assert(self.as_le() < 0x1_0000) by (nonlinear_arith);
        assert(self.as_le() % 0x1_0000 == self.as_le()) by (nonlinear_arith)
            requires
                self.as_le() < 0x1_0000,
        ;
        assert(Self::of_le(self.as_le()) == self);
        assert((self.as_le() == 0) <==> (self.as_int() == 0));
    }

    proof fn lemma_of_le(n: nat) {
        lemma_pow256_values();
        assert((n % 0x1_0000) % 0x1_0000 == n % 0x1_0000) by (nonlinear_arith);
    }

    fn size() -> (r: usize) {
        2
    }

    fn le_val(&self) -> (r: u128) {
        *self as u128
    }

    fn of_le_val(v: u128) -> (r: Self) {
        proof {
            lemma_pow256_values();
        }
        (v % 0x1_0000) as u16
    }

    fn to_i128(self) -> (r: i128) {
        self as i128
    }

    fn eq_val(self, o: Self) -> (r: bool) {
        self == o
    }

    fn lt_val(self, o: Self) -> (r: bool) {
        self < o
    }
}

impl Primary for i16 {
    open spec fn spec_size() -> nat {
        2
    }

    open spec fn as_le(self) -> nat {
        if self >= 0 {
            self as nat
        } else {
            (self as int + 0x1_0000) as nat
        }
    }

    open spec fn of_le(n: nat) -> Self {
        if n % 0x1_0000 < 0x8000 {
            (n % 0x1_0000) as i16
        } else {
            (n % 0x1_0000 - 0x1_0000) as i16
        }
    }

    open spec fn as_int(self) -> int {
        self as int
    }

    proof fn lemma_size() {
    }

    proof fn lemma_le(self) {
        lemma_pow256_values();
        assert(self.as_le() < 0x1_0000) by (nonlinear_arith);
        assert(self.as_le() % 0x1_0000 == self.as_le()) by (nonlinear_arith)
            requires
                self.as_le() < 0x1_0000,
        ;
        assert(Self::of_le(self.as_le()) == self);
        assert((self.as_le() == 0) <==> (self.as_int() == 0));
    }

    proof fn lemma_of_le(n: nat) {
        lemma_pow256_values();
        assert((n % 0x1_0000) % 0x1_0000 == n % 0x1_0000) by (nonlinear_arith);
    }

    fn size() -> (r: usize) {
        2
    }

    fn le_val(&self) -> (r: u128) {
        if *self >= 0 {
            *self as u128
        } else {
            ((*self as i128) + 0x1_0000) as u128
        }
    }

    fn of_le_val(v: u128) -> (r: Self) {
        proof {
            lemma_pow256_values();
        }
        let m = v % 0x1_0000;
        if m < 0x8000 {
            m as i16
        } else {
            ((m as i128) - 0x1_0000) as i16
        }
    }

    fn to_i128(self) -> (r: i128) {
        self as i128
    }

    fn eq_val(self, o: Self) -> (r: bool) {
        self == o
    }

    fn lt_val(self, o: Self) -> (r: bool) {
        self < o
    }
}

impl Primary for u32 {
    open spec fn spec_size() -> nat {
        4
    }

    open spec fn as_le(self) -> nat {
        self as nat
    }

    open spec fn of_le(n: nat) -> Self {
        (n % 0x1_0000_0000) as u32
    }

    open spec fn as_int(self) -> int {
        self as int
    }

    proof fn lemma_size() {
    }

    proof fn lemma_le(self) {
        lemma_pow256_values();
        assert(self.as_le() < 0x1_0000_0000) by (nonlinear_arith);
        assert(self.as_le() % 0x1_0000_0000 == self.as_le()) by (nonlinear_arith)
            requires
                self.as_le() < 0x1_0000_0000,
        ;
        assert(Self::of_le(self.as_le()) == self);
        assert((self.as_le() == 0) <==> (self.as_int() == 0));
    }

    proof fn lemma_of_le(n: nat) {
        lemma_pow256_values();
        assert((n % 0x1_0000_0000) % 0x1_0000_0000 == n % 0x1_0000_0000) by (nonlinear_arith);
    }

    fn size() -> (r: usize) {
        4
    }

    fn le_val(&self) -> (r: u128) {
        *self as u128
    }

    fn of_le_val(v: u128) -> (r: Self) {
        proof {
            lemma_pow256_values();
        }
        (v % 0x1_0000_0000) as u32
    }

    fn to_i128(self) -> (r: i128) {
        self as i128
    }

    fn eq_val(self, o: Self) -> (r: bool) {
        self == o
    }

    fn lt_val(self, o: Self) -> (r: bool) {
        self < o
    }
}

impl Primary for i32 {
    open spec fn spec_size() -> nat {
        4
    }

    open spec fn as_le(self) -> nat {
        if self >= 0 {
            self as nat
        } else {
            (self as int + 0x1_0000_0000) as nat
        }
    }

    open spec fn of_le(n: nat) -> Self {
        if n % 0x1_0000_0000 < 0x8000_0000 {
            (n % 0x1_0000_0000) as i32
        } else {
            (n % 0x1_0000_0000 - 0x1_0000_0000) as i32
        }
    }

    open spec fn as_int(self) -> int {
        self as int
    }

    proof fn lemma_size() {
    }

    proof fn lemma_le(self) {
        lemma_pow256_values();
        assert(self.as_le() < 0x1_0000_0000) by (nonlinear_arith);
        assert(self.as_le() % 0x1_0000_0000 == self.as_le()) by (nonlinear_arith)
            requires
                self.as_le() < 0x1_0000_0000,
        ;
        assert(Self::of_le(self.as_le()) == self);
        assert((self.as_le() == 0) <==> (self.as_int() == 0));
    }

    proof fn lemma_of_le(n: nat) {
        lemma_pow256_values();
        assert((n % 0x1_0000_0000) % 0x1_0000_0000 == n % 0x1_0000_0000) by (nonlinear_arith);
    }

    fn size() -> (r: usize) {
        4
    }

    fn le_val(&self) -> (r: u128) {
        if *self >= 0 {
            *self as u128
        } else {
            ((*self as i128) + 0x1_0000_0000) as u128
        }
    }

    fn of_le_val(v: u128) -> (r: Self) {
        proof {
            lemma_pow256_values();
        }
        let m = v % 0x1_0000_0000;
        if m < 0x8000_0000 {
            m as i32
        } else {
            ((m as i128) - 0x1_0000_0000) as i32
        }
    }

    fn to_i128(self) -> (r: i128) {
        self as i128
    }

    fn eq_val(self, o: Self) -> (r: bool) {
        self == o
    }

    fn lt_val(self, o: Self) -> (r: bool) {
        self < o
    }
}

impl Primary for u64 {
    open spec fn spec_size() -> nat {
        8
    }

    open spec fn as_le(self) -> nat {
        self as nat
    }

    open spec fn of_le(n: nat) -> Self {
        (n % 0x1_0000_0000_0000_0000) as u64
    }

    open spec fn as_int(self) -> int {
        self as int
    }

    proof fn lemma_size() {
    }

    proof fn lemma_le(self) {
        lemma_pow256_values();
        assert(self.as_le() < 0x1_0000_0000_0000_0000) by (nonlinear_arith);
        assert(self.as_le() % 0x1_0000_0000_0000_0000 == self.as_le()) by (nonlinear_arith)
            requires
                self.as_le() < 0x1_0000_0000_0000_0000,
        ;
        assert(Self::of_le(self.as_le()) == self);
        assert((self.as_le() == 0) <==> (self.as_int() == 0));
    }

    proof fn lemma_of_le(n: nat) {
        lemma_pow256_values();
        assert((n % 0x1_0000_0000_0000_0000) % 0x1_0000_0000_0000_0000 == n % 0x1_0000_0000_0000_0000) by (nonlinear_arith);
    }

    fn size() -> (r: usize) {
        8
    }

    fn le_val(&self) -> (r: u128) {
        *self as u128
    }

    fn of_le_val(v: u128) -> (r: Self) {
        proof {
            lemma_pow256_values();
        }
        (v % 0x1_0000_0000_0000_0000) as u64
    }

    fn to_i128(self) -> (r: i128) {
        self as i128
    }

    fn eq_val(self, o: Self) -> (r: bool) {
        self == o
    }

    fn lt_val(self, o: Self) -> (r: bool) {
        self < o
    }
}

impl Primary for i64 {
    open spec fn spec_size() -> nat {
        8
    }

    open spec fn as_le(self) -> nat {
        if self >= 0 {
            self as nat
        } else {
            (self as int + 0x1_0000_0000_0000_0000) as nat
        }
    }

    open spec fn of_le(n: nat) -> Self {
        if n % 0x1_0000_0000_0000_0000 < 0x8000_0000_0000_0000 {
            (n % 0x1_0000_0000_0000_0000) as i64
        } else {
            (n % 0x1_0000_0000_0000_0000 - 0x1_0000_0000_0000_0000) as i64
        }
    }

    open spec fn as_int(self) -> int {
        self as int
    }

    proof fn lemma_size() {
    }

    proof fn lemma_le(self) {
        lemma_pow256_values();
        assert(self.as_le() < 0x1_0000_0000_0000_0000) by (nonlinear_arith);
        assert(self.as_le() % 0x1_0000_0000_0000_0000 == self.as_le()) by (nonlinear_arith)
            requires
                self.as_le() < 0x1_0000_0000_0000_0000,
        ;
        assert(Self::of_le(self.as_le()) == self);
        assert((self.as_le() == 0) <==> (self.as_int() == 0));
    }

    proof fn lemma_of_le(n: nat) {
        lemma_pow256_values();
        assert((n % 0x1_0000_0000_0000_0000) % 0x1_0000_0000_0000_0000 == n % 0x1_0000_0000_0000_0000) by (nonlinear_arith);
    }

    fn size() -> (r: usize) {
        8
    }

    fn le_val(&self) -> (r: u128) {
        if *self >= 0 {
            *self as u128
        } else {
            ((*self as i128) + 0x1_0000_0000_0000_0000) as u128
        }
    }

    fn of_le_val(v: u128) -> (r: Self) {
        proof {
            lemma_pow256_values();
        }
        let m = v % 0x1_0000_0000_0000_0000;
        if m < 0x8000_0000_0000_0000 {
            m as i64
        } else {
            ((m as i128) - 0x1_0000_0000_0000_0000) as i64
        }
    }

    fn to_i128(self) -> (r: i128) {
        self as i128
    }

    fn eq_val(self, o: Self) -> (r: bool) {
        self == o
    }

    fn lt_val(self, o: Self) -> (r: bool) {
        self < o
    }
}

impl Primary for u128 {
    open spec fn spec_size() -> nat {
        16
    }

    open spec fn as_le(self) -> nat {
        self as nat
    }

    open spec fn of_le(n: nat) -> Self {
        (n % (0x1_0000_0000_0000_0000_0000_0000_0000_0000 as nat)) as u128
    }

    open spec fn as_int(self) -> int {
        self as int
    }

    proof fn lemma_size() {
    }

    proof fn lemma_le(self) {
        lemma_pow256_values();
        assert(self.as_le() < (0x1_0000_0000_0000_0000_0000_0000_0000_0000 as nat)) by (nonlinear_arith);
        assert(self.as_le() % (0x1_0000_0000_0000_0000_0000_0000_0000_0000 as nat) == self.as_le()) by (nonlinear_arith)
            requires
                self.as_le() < (0x1_0000_0000_0000_0000_0000_0000_0000_0000 as nat),
        ;
        assert(Self::of_le(self.as_le()) == self);
        assert((self.as_le() == 0) <==> (self.as_int() == 0));
    }

    proof fn lemma_of_le(n: nat) {
        lemma_pow256_values();
        assert((n % (0x1_0000_0000_0000_0000_0000_0000_0000_0000 as nat)) % (0x1_0000_0000_0000_0000_0000_0000_0000_0000 as nat) == n % (0x1_0000_0000_0000_0000_0000_0000_0000_0000 as nat)) by (nonlinear_arith);
    }

    fn size() -> (r: usize) {
        16
    }

    fn le_val(&self) -> (r: u128) {
        *self as u128
    }

    fn of_le_val(v: u128) -> (r: Self) {
        proof {
            lemma_pow256_values();
            assert((v as nat) % pow256(16) == v as nat) by (nonlinear_arith)
                requires
                    (v as nat) < pow256(16),
            ;
        }
        v
    }

    fn to_i128(self) -> (r: i128) {
        if self <= i128::MAX as u128 {
            self as i128
        } else {
            -((u128::MAX - self) as i128) - 1
        }
    }

    fn eq_val(self, o: Self) -> (r: bool) {
        self == o
    }

    fn lt_val(self, o: Self) -> (r: bool) {
        self < o
    }
}

impl Primary for i128 {
    open spec fn spec_size() -> nat {
        16
    }

    open spec fn as_le(self) -> nat {
        if self >= 0 {
            self as nat
        } else {
            (self as int + 0x1_0000_0000_0000_0000_0000_0000_0000_0000) as nat
        }
    }

    open spec fn of_le(n: nat) -> Self {
        if n % (0x1_0000_0000_0000_0000_0000_0000_0000_0000 as nat) < 0x8000_0000_0000_0000_0000_0000_0000_0000 {
            (n % (0x1_0000_0000_0000_0000_0000_0000_0000_0000 as nat)) as i128
        } else {
            (n % (0x1_0000_0000_0000_0000_0000_0000_0000_0000 as nat) - (0x1_0000_0000_0000_0000_0000_0000_0000_0000 as nat)) as i128
        }
    }

    open spec fn as_int(self) -> int {
        self as int
    }

    proof fn lemma_size() {
    }

    proof fn lemma_le(self) {
        lemma_pow256_values();
        assert(self.as_le() < (0x1_0000_0000_0000_0000_0000_0000_0000_0000 as nat)) by (nonlinear_arith);
        assert(self.as_le() % (0x1_0000_0000_0000_0000_0000_0000_0000_0000 as nat) == self.as_le()) by (nonlinear_arith)
            requires
                self.as_le() < (0x1_0000_0000_0000_0000_0000_0000_0000_0000 as nat),
        ;
        assert(Self::of_le(self.as_le()) == self);
        assert((self.as_le() == 0) <==> (self.as_int() == 0));
    }

    proof fn lemma_of_le(n: nat) {
        lemma_pow256_values();
        assert((n % (0x1_0000_0000_0000_0000_0000_0000_0000_0000 as nat)) % (0x1_0000_0000_0000_0000_0000_0000_0000_0000 as nat) == n % (0x1_0000_0000_0000_0000_0000_0000_0000_0000 as nat)) by (nonlinear_arith);
    }

    fn size() -> (r: usize) {
        16
    }

    fn le_val(&self) -> (r: u128) {
        if *self >= 0 {
            *self as u128
        } else {
            u128::MAX - ((-(*self + 1)) as u128)
        }
    }

    fn of_le_val(v: u128) -> (r: Self) {
        proof {
            lemma_pow256_values();
            assert((v as nat) % pow256(16) == v as nat) by (nonlinear_arith)
                requires
                    (v as nat) < pow256(16),
            ;
        }
        if v < 0x8000_0000_0000_0000_0000_0000_0000_0000 {
            v as i128
        } else {
            -((u128::MAX - v) as i128) - 1
        }
    }

    fn to_i128(self) -> (r: i128) {
        self as i128
    }

    fn eq_val(self, o: Self) -> (r: bool) {
        self == o
    }

    fn lt_val(self, o: Self) -> (r: bool) {
        self < o
    }
}

impl Add for u8 {
    open spec fn add_wrap_spec(self, o: Self) -> Self {
        prim_of_int(self as int + o as int)
    }

    open spec fn add_sat_spec(self, o: Self) -> Self {
        if self + o > u8::MAX {
            u8::MAX
        } else if self + o < 0 {
            0
        } else {
            (self + o) as u8
        }
    }

    open spec fn add_checked_spec(self, o: Self) -> Option<Self> {
        if self + o > u8::MAX || self + o < 0 {
            None
        } else {
            Some((self + o) as u8)
        }
    }

    fn wrapping(self, o: Self) -> (r: Self) {
        proof {
            lemma_pow256_values();
        }
        self.wrapping_add(o)
    }

    fn saturating(self, o: Self) -> (r: Self) {
        self.saturating_add(o)
    }

    fn checked(self, o: Self) -> (r: Option<Self>) {
        self.checked_add(o)
    }
}

impl Sub for u8 {
    open spec fn sub_wrap_spec(self, o: Self) -> Self {
        prim_of_int(self as int - o as int)
    }

    open spec fn sub_sat_spec(self, o: Self) -> Self {
        if self - o > u8::MAX {
            u8::MAX
        } else if self - o < 0 {
            0
        } else {
            (self - o) as u8
        }
    }

    open spec fn sub_checked_spec(self, o: Self) -> Option<Self> {
        if self - o > u8::MAX || self - o < 0 {
            None
        } else {
            Some((self - o) as u8)
        }
    }

    fn wrapping(self, o: Self) -> (r: Self) {
        proof {
            lemma_pow256_values();
        }
        self.wrapping_sub(o)
    }

    fn saturating(self, o: Self) -> (r: Self) {
        self.saturating_sub(o)
    }

    fn checked(self, o: Self) -> (r: Option<Self>) {
        self.checked_sub(o)
    }
}

impl Mul for u8 {
    open spec fn mul_wrap_spec(self, o: Self) -> Self {
        prim_of_int(self as int * o as int)
    }

    open spec fn mul_sat_spec(self, o: Self) -> Self {
        if self * o > u8::MAX {
            u8::MAX
        } else if self * o < 0 {
            0
        } else {
            (self * o) as u8
        }
    }

    open spec fn mul_checked_spec(self, o: Self) -> Option<Self> {
        if self * o > u8::MAX || self * o < 0 {
            None
        } else {
            Some((self * o) as u8)
        }
    }

    fn wrapping(self, o: Self) -> (r: Self) {
        proof {
            lemma_pow256_values();
        }
        self.wrapping_mul(o)
    }

    fn saturating(self, o: Self) -> (r: Self) {
        proof {
            assert(self as int * o as int >= 0) by (nonlinear_arith)
                requires
                    self as int >= 0 && o as int >= 0,
            ;
        }
        match self.checked_mul(o) {
            Some(v) => v,
            None => u8::MAX,
        }
    }

    fn checked(self, o: Self) -> (r: Option<Self>) {
        self.checked_mul(o)
    }
}

impl Add for i8 {
    open spec fn add_wrap_spec(self, o: Self) -> Self {
        prim_of_int(self as int + o as int)
    }

    open spec fn add_sat_spec(self, o: Self) -> Self {
        if self + o > i8::MAX {
            i8::MAX
        } else if self + o < i8::MIN {
            i8::MIN
        } else {
            (self + o) as i8
        }
    }

    open spec fn add_checked_spec(self, o: Self) -> Option<Self> {
        if self + o > i8::MAX || self + o < i8::MIN {
            None
        } else {
            Some((self + o) as i8)
        }
    }

    fn wrapping(self, o: Self) -> (r: Self) {
        proof {
            lemma_pow256_values();
        }
        self.wrapping_add(o)
    }

    fn saturating(self, o: Self) -> (r: Self) {
        match self.checked_add(o) {
            Some(v) => v,
            None => {
                if o >= 0 {
                    i8::MAX
                } else {
                    i8::MIN
                }
            },
        }
    }

    fn checked(self, o: Self) -> (r: Option<Self>) {
        self.checked_add(o)
    }
}

impl Sub for i8 {
    open spec fn sub_wrap_spec(self, o: Self) -> Self {
        prim_of_int(self as int - o as int)
    }

    open spec fn sub_sat_spec(self, o: Self) -> Self {
        if self - o > i8::MAX {
            i8::MAX
        } else if self - o < i8::MIN {
            i8::MIN
        } else {
            (self - o) as i8
        }
    }

    open spec fn sub_checked_spec(self, o: Self) -> Option<Self> {
        if self - o > i8::MAX || self - o < i8::MIN {
            None
        } else {
            Some((self - o) as i8)
        }
    }

    fn wrapping(self, o: Self) -> (r: Self) {
        proof {
            lemma_pow256_values();
        }
        self.wrapping_sub(o)
    }

    fn saturating(self, o: Self) -> (r: Self) {
        match self.checked_sub(o) {
            Some(v) => v,
            None => {
                if o < 0 {
                    i8::MAX
                } else {
                    i8::MIN
                }
            },
        }
    }

    fn checked(self, o: Self) -> (r: Option<Self>) {
        self.checked_sub(o)
    }
}

impl Mul for i8 {
    open spec fn mul_wrap_spec(self, o: Self) -> Self {
        prim_of_int(self as int * o as int)
    }

    open spec fn mul_sat_spec(self, o: Self) -> Self {
        if self * o > i8::MAX {
            i8::MAX
        } else if self * o < i8::MIN {
            i8::MIN
        } else {
            (self * o) as i8
        }
    }

    open spec fn mul_checked_spec(self, o: Self) -> Option<Self> {
        if self * o > i8::MAX || self * o < i8::MIN {
            None
        } else {
            Some((self * o) as i8)
        }
    }

    fn wrapping(self, o: Self) -> (r: Self) {
        proof {
            lemma_pow256_values();
        }
        self.wrapping_mul(o)
    }

    fn saturating(self, o: Self) -> (r: Self) {
        match self.checked_mul(o) {
            Some(v) => v,
            None => {
                proof {
                    if (self >= 0) == (o >= 0) {
                        assert(self as int * o as int >= 0) by (nonlinear_arith)
                            requires
                                (self as int >= 0 && o as int >= 0) || ((self as int) < 0 && (o as int) < 0),
                        ;
                    } else {
                        assert(self as int * o as int <= 0) by (nonlinear_arith)
                            requires
                                (self as int >= 0 && o as int <= 0) || (self as int <= 0 && o as int >= 0),
                        ;
                    }
                }
                if (self >= 0) == (o >= 0) {
                    i8::MAX
                } else {
                    i8::MIN
                }
            },
        }
    }

    fn checked(self, o: Self) -> (r: Option<Self>) {
        self.checked_mul(o)
    }
}

impl Add for u16 {
    open spec fn add_wrap_spec(self, o: Self) -> Self {
        prim_of_int(self as int + o as int)
    }

    open spec fn add_sat_spec(self, o: Self) -> Self {
        if self + o > u16::MAX {
            u16::MAX
        } else if self + o < 0 {
            0
        } else {
            (self + o) as u16
        }
    }

    open spec fn add_checked_spec(self, o: Self) -> Option<Self> {
        if self + o > u16::MAX || self + o < 0 {
            None
        } else {
            Some((self + o) as u16)
        }
    }

    fn wrapping(self, o: Self) -> (r: Self) {
        proof {
            lemma_pow256_values();
        }
        self.wrapping_add(o)
    }

    fn saturating(self, o: Self) -> (r: Self) {
        self.saturating_add(o)
    }

    fn checked(self, o: Self) -> (r: Option<Self>) {
        self.checked_add(o)
    }
}

impl Sub for u16 {
    open spec fn sub_wrap_spec(self, o: Self) -> Self {
        prim_of_int(self as int - o as int)
    }

    open spec fn sub_sat_spec(self, o: Self) -> Self {
        if self - o > u16::MAX {
            u16::MAX
        } else if self - o < 0 {
            0
        } else {
            (self - o) as u16
        }
    }

    open spec fn sub_checked_spec(self, o: Self) -> Option<Self> {
        if self - o > u16::MAX || self - o < 0 {
            None
        } else {
            Some((self - o) as u16)
        }
    }

    fn wrapping(self, o: Self) -> (r: Self) {
        proof {
            lemma_pow256_values();
        }
        self.wrapping_sub(o)
    }

    fn saturating(self, o: Self) -> (r: Self) {
        self.saturating_sub(o)
    }

    fn checked(self, o: Self) -> (r: Option<Self>) {
        self.checked_sub(o)
    }
}

impl Mul for u16 {
    open spec fn mul_wrap_spec(self, o: Self) -> Self {
        prim_of_int(self as int * o as int)
    }

    open spec fn mul_sat_spec(self, o: Self) -> Self {
        if self * o > u16::MAX {
            u16::MAX
        } else if self * o < 0 {
            0
        } else {
            (self * o) as u16
        }
    }

    open spec fn mul_checked_spec(self, o: Self) -> Option<Self> {
        if self * o > u16::MAX || self * o < 0 {
            None
        } else {
            Some((self * o) as u16)
        }
    }

    fn wrapping(self, o: Self) -> (r: Self) {
        proof {
            lemma_pow256_values();
        }
        self.wrapping_mul(o)
    }

    fn saturating(self, o: Self) -> (r: Self) {
        proof {
            assert(self as int * o as int >= 0) by (nonlinear_arith)
                requires
                    self as int >= 0 && o as int >= 0,
            ;
        }
        match self.checked_mul(o) {
            Some(v) => v,
            None => u16::MAX,
        }
    }

    fn checked(self, o: Self) -> (r: Option<Self>) {
        self.checked_mul(o)
    }
}

impl Add for i16 {
    open spec fn add_wrap_spec(self, o: Self) -> Self {
        prim_of_int(self as int + o as int)
    }

    open spec fn add_sat_spec(self, o: Self) -> Self {
        if self + o > i16::MAX {
            i16::MAX
        } else if self + o < i16::MIN {
            i16::MIN
        } else {
            (self + o) as i16
        }
    }

    open spec fn add_checked_spec(self, o: Self) -> Option<Self> {
        if self + o > i16::MAX || self + o < i16::MIN {
            None
        } else {
            Some((self + o) as i16)
        }
    }

    fn wrapping(self, o: Self) -> (r: Self) {
        proof {
            lemma_pow256_values();
        }
        self.wrapping_add(o)
    }

    fn saturating(self, o: Self) -> (r: Self) {
        match self.checked_add(o) {
            Some(v) => v,
            None => {
                if o >= 0 {
                    i16::MAX
                } else {
                    i16::MIN
                }
            },
        }
    }

    fn checked(self, o: Self) -> (r: Option<Self>) {
        self.checked_add(o)
    }
}

impl Sub for i16 {
    open spec fn sub_wrap_spec(self, o: Self) -> Self {
        prim_of_int(self as int - o as int)
    }

    open spec fn sub_sat_spec(self, o: Self) -> Self {
        if self - o > i16::MAX {
            i16::MAX
        } else if self - o < i16::MIN {
            i16::MIN
        } else {
            (self - o) as i16
        }
    }

    open spec fn sub_checked_spec(self, o: Self) -> Option<Self> {
        if self - o > i16::MAX || self - o < i16::MIN {
            None
        } else {
            Some((self - o) as i16)
        }
    }

    fn wrapping(self, o: Self) -> (r: Self) {
        proof {
            lemma_pow256_values();
        }
        self.wrapping_sub(o)
    }

    fn saturating(self, o: Self) -> (r: Self) {
        match self.checked_sub(o) {
            Some(v) => v,
            None => {
                if o < 0 {
                    i16::MAX
                } else {
                    i16::MIN
                }
            },
        }
    }

    fn checked(self, o: Self) -> (r: Option<Self>) {
        self.checked_sub(o)
    }
}

impl Mul for i16 {
    open spec fn mul_wrap_spec(self, o: Self) -> Self {
        prim_of_int(self as int * o as int)
    }

    open spec fn mul_sat_spec(self, o: Self) -> Self {
        if self * o > i16::MAX {
            i16::MAX
        } else if self * o < i16::MIN {
            i16::MIN
        } else {
            (self * o) as i16
        }
    }

    open spec fn mul_checked_spec(self, o: Self) -> Option<Self> {
        if self * o > i16::MAX || self * o < i16::MIN {
            None
        } else {
            Some((self * o) as i16)
        }
    }

    fn wrapping(self, o: Self) -> (r: Self) {
        proof {
            lemma_pow256_values();
        }
        self.wrapping_mul(o)
    }

    fn saturating(self, o: Self) -> (r: Self) {
        match self.checked_mul(o) {
            Some(v) => v,
            None => {
                proof {
                    if (self >= 0) == (o >= 0) {
                        assert(self as int * o as int >= 0) by (nonlinear_arith)
                            requires
                                (self as int >= 0 && o as int >= 0) || ((self as int) < 0 && (o as int) < 0),
                        ;
                    } else {
                        assert(self as int * o as int <= 0) by (nonlinear_arith)
                            requires
                                (self as int >= 0 && o as int <= 0) || (self as int <= 0 && o as int >= 0),
                        ;
                    }
                }
                if (self >= 0) == (o >= 0) {
                    i16::MAX
                } else {
                    i16::MIN
                }
            },
        }
    }

    fn checked(self, o: Self) -> (r: Option<Self>) {
        self.checked_mul(o)
    }
}

impl Add for u32 {
    open spec fn add_wrap_spec(self, o: Self) -> Self {
        prim_of_int(self as int + o as int)
    }

    open spec fn add_sat_spec(self, o: Self) -> Self {
        if self + o > u32::MAX {
            u32::MAX
        } else if self + o < 0 {
            0
        } else {
            (self + o) as u32
        }
    }

    open spec fn add_checked_spec(self, o: Self) -> Option<Self> {
        if self + o > u32::MAX || self + o < 0 {
            None
        } else {
            Some((self + o) as u32)
        }
    }

    fn wrapping(self, o: Self) -> (r: Self) {
        proof {
            lemma_pow256_values();
        }
        self.wrapping_add(o)
    }

    fn saturating(self, o: Self) -> (r: Self) {
        self.saturating_add(o)
    }

    fn checked(self, o: Self) -> (r: Option<Self>) {
        self.checked_add(o)
    }
}

impl Sub for u32 {
    open spec fn sub_wrap_spec(self, o: Self) -> Self {
        prim_of_int(self as int - o as int)
    }

    open spec fn sub_sat_spec(self, o: Self) -> Self {
        if self - o > u32::MAX {
            u32::MAX
        } else if self - o < 0 {
            0
        } else {
            (self - o) as u32
        }
    }

    open spec fn sub_checked_spec(self, o: Self) -> Option<Self> {
        if self - o > u32::MAX || self - o < 0 {
            None
        } else {
            Some((self - o) as u32)
        }
    }

    fn wrapping(self, o: Self) -> (r: Self) {
        proof {
            lemma_pow256_values();
        }
        self.wrapping_sub(o)
    }

    fn saturating(self, o: Self) -> (r: Self) {
        self.saturating_sub(o)
    }

    fn checked(self, o: Self) -> (r: Option<Self>) {
        self.checked_sub(o)
    }
}

impl Mul for u32 {
    open spec fn mul_wrap_spec(self, o: Self) -> Self {
        prim_of_int(self as int * o as int)
    }

    open spec fn mul_sat_spec(self, o: Self) -> Self {
        if self * o > u32::MAX {
            u32::MAX
        } else if self * o < 0 {
            0
        } else {
            (self * o) as u32
        }
    }

    open spec fn mul_checked_spec(self, o: Self) -> Option<Self> {
        if self * o > u32::MAX || self * o < 0 {
            None
        } else {
            Some((self * o) as u32)
        }
    }

    fn wrapping(self, o: Self) -> (r: Self) {
        proof {
            lemma_pow256_values();
        }
        self.wrapping_mul(o)
    }

    fn saturating(self, o: Self) -> (r: Self) {
        proof {
            assert(self as int * o as int >= 0) by (nonlinear_arith)
                requires
                    self as int >= 0 && o as int >= 0,
            ;
        }
        match self.checked_mul(o) {
            Some(v) => v,
            None => u32::MAX,
        }
    }

    fn checked(self, o: Self) -> (r: Option<Self>) {
        self.checked_mul(o)
    }
}

impl Add for i32 {
    open spec fn add_wrap_spec(self, o: Self) -> Self {
        prim_of_int(self as int + o as int)
    }

    open spec fn add_sat_spec(self, o: Self) -> Self {
        if self + o > i32::MAX {
            i32::MAX
        } else if self + o < i32::MIN {
            i32::MIN
        } else {
            (self + o) as i32
        }
    }

    open spec fn add_checked_spec(self, o: Self) -> Option<Self> {
        if self + o > i32::MAX || self + o < i32::MIN {
            None
        } else {
            Some((self + o) as i32)
        }
    }

    fn wrapping(self, o: Self) -> (r: Self) {
        proof {
            lemma_pow256_values();
        }
        self.wrapping_add(o)
    }

    fn saturating(self, o: Self) -> (r: Self) {
        match self.checked_add(o) {
            Some(v) => v,
            None => {
                if o >= 0 {
                    i32::MAX
                } else {
                    i32::MIN
                }
            },
        }
    }

    fn checked(self, o: Self) -> (r: Option<Self>) {
        self.checked_add(o)
    }
}

impl Sub for i32 {
    open spec fn sub_wrap_spec(self, o: Self) -> Self {
        prim_of_int(self as int - o as int)
    }

    open spec fn sub_sat_spec(self, o: Self) -> Self {
        if self - o > i32::MAX {
            i32::MAX
        } else if self - o < i32::MIN {
            i32::MIN
        } else {
            (self - o) as i32
        }
    }

    open spec fn sub_checked_spec(self, o: Self) -> Option<Self> {
        if self - o > i32::MAX || self - o < i32::MIN {
            None
        } else {
            Some((self - o) as i32)
        }
    }

    fn wrapping(self, o: Self) -> (r: Self) {
        proof {
            lemma_pow256_values();
        }
        self.wrapping_sub(o)
    }

    fn saturating(self, o: Self) -> (r: Self) {
        match self.checked_sub(o) {
            Some(v) => v,
            None => {
                if o < 0 {
                    i32::MAX
                } else {
                    i32::MIN
                }
            },
        }
    }

    fn checked(self, o: Self) -> (r: Option<Self>) {
        self.checked_sub(o)
    }
}

impl Mul for i32 {
    open spec fn mul_wrap_spec(self, o: Self) -> Self {
        prim_of_int(self as int * o as int)
    }

    open spec fn mul_sat_spec(self, o: Self) -> Self {
        if self * o > i32::MAX {
            i32::MAX
        } else if self * o < i32::MIN {
            i32::MIN
        } else {
            (self * o) as i32
        }
    }

    open spec fn mul_checked_spec(self, o: Self) -> Option<Self> {
        if self * o > i32::MAX || self * o < i32::MIN {
            None
        } else {
            Some((self * o) as i32)
        }
    }

    fn wrapping(self, o: Self) -> (r: Self) {
        proof {
            lemma_pow256_values();
        }
        self.wrapping_mul(o)
    }

    fn saturating(self, o: Self) -> (r: Self) {
        match self.checked_mul(o) {
            Some(v) => v,
            None => {
                proof {
                    if (self >= 0) == (o >= 0) {
                        assert(self as int * o as int >= 0) by (nonlinear_arith)
                            requires
                                (self as int >= 0 && o as int >= 0) || ((self as int) < 0 && (o as int) < 0),
                        ;
                    } else {
                        assert(self as int * o as int <= 0) by (nonlinear_arith)
                            requires
                                (self as int >= 0 && o as int <= 0) || (self as int <= 0 && o as int >= 0),
                        ;
                    }
                }
                if (self >= 0) == (o >= 0) {
                    i32::MAX
                } else {
                    i32::MIN
                }
            },
        }
    }

    fn checked(self, o: Self) -> (r: Option<Self>) {
        self.checked_mul(o)
    }
}

impl Add for u64 {
    open spec fn add_wrap_spec(self, o: Self) -> Self {
        prim_of_int(self as int + o as int)
    }

    open spec fn add_sat_spec(self, o: Self) -> Self {
        if self + o > u64::MAX {
            u64::MAX
        } else if self + o < 0 {
            0
        } else {
            (self + o) as u64
        }
    }

    open spec fn add_checked_spec(self, o: Self) -> Option<Self> {
        if self + o > u64::MAX || self + o < 0 {
            None
        } else {
            Some((self + o) as u64)
        }
    }

    fn wrapping(self, o: Self) -> (r: Self) {
        proof {
            lemma_pow256_values();
        }
        self.wrapping_add(o)
    }

    fn saturating(self, o: Self) -> (r: Self) {
        self.saturating_add(o)
    }

    fn checked(self, o: Self) -> (r: Option<Self>) {
        self.checked_add(o)
    }
}

impl Sub for u64 {
    open spec fn sub_wrap_spec(self, o: Self) -> Self {
        prim_of_int(self as int - o as int)
    }

    open spec fn sub_sat_spec(self, o: Self) -> Self {
        if self - o > u64::MAX {
            u64::MAX
        } else if self - o < 0 {
            0
        } else {
            (self - o) as u64
        }
    }

    open spec fn sub_checked_spec(self, o: Self) -> Option<Self> {
        if self - o > u64::MAX || self - o < 0 {
            None
        } else {
            Some((self - o) as u64)
        }
    }

    fn wrapping(self, o: Self) -> (r: Self) {
        proof {
            lemma_pow256_values();
        }
        self.wrapping_sub(o)
    }

    fn saturating(self, o: Self) -> (r: Self) {
        self.saturating_sub(o)
    }

    fn checked(self, o: Self) -> (r: Option<Self>) {
        self.checked_sub(o)
    }
}

impl Mul for u64 {
    open spec fn mul_wrap_spec(self, o: Self) -> Self {
        prim_of_int(self as int * o as int)
    }

    open spec fn mul_sat_spec(self, o: Self) -> Self {
        if self * o > u64::MAX {
            u64::MAX
        } else if self * o < 0 {
            0
        } else {
            (self * o) as u64
        }
    }

    open spec fn mul_checked_spec(self, o: Self) -> Option<Self> {
        if self * o > u64::MAX || self * o < 0 {
            None
        } else {
            Some((self * o) as u64)
        }
    }

    fn wrapping(self, o: Self) -> (r: Self) {
        proof {
            lemma_pow256_values();
        }
        self.wrapping_mul(o)
    }

    fn saturating(self, o: Self) -> (r: Self) {
        proof {
            assert(self as int * o as int >= 0) by (nonlinear_arith)
                requires
                    self as int >= 0 && o as int >= 0,
            ;
        }
        match self.checked_mul(o) {
            Some(v) => v,
            None => u64::MAX,
        }
    }

    fn checked(self, o: Self) -> (r: Option<Self>) {
        self.checked_mul(o)
    }
}

impl Add for i64 {
    open spec fn add_wrap_spec(self, o: Self) -> Self {
        prim_of_int(self as int + o as int)
    }

    open spec fn add_sat_spec(self, o: Self) -> Self {
        if self + o > i64::MAX {
            i64::MAX
        } else if self + o < i64::MIN {
            i64::MIN
        } else {
            (self + o) as i64
        }
    }

    open spec fn add_checked_spec(self, o: Self) -> Option<Self> {
        if self + o > i64::MAX || self + o < i64::MIN {
            None
        } else {
            Some((self + o) as i64)
        }
    }

    fn wrapping(self, o: Self) -> (r: Self) {
        proof {
            lemma_pow256_values();
        }
        self.wrapping_add(o)
    }

    fn saturating(self, o: Self) -> (r: Self) {
        match self.checked_add(o) {
            Some(v) => v,
            None => {
                if o >= 0 {
                    i64::MAX
                } else {
                    i64::MIN
                }
            },
        }
    }

    fn checked(self, o: Self) -> (r: Option<Self>) {
        self.checked_add(o)
    }
}

impl Sub for i64 {
    open spec fn sub_wrap_spec(self, o: Self) -> Self {
        prim_of_int(self as int - o as int)
    }

    open spec fn sub_sat_spec(self, o: Self) -> Self {
        if self - o > i64::MAX {
            i64::MAX
        } else if self - o < i64::MIN {
            i64::MIN
        } else {
            (self - o) as i64
        }
    }

    open spec fn sub_checked_spec(self, o: Self) -> Option<Self> {
        if self - o > i64::MAX || self - o < i64::MIN {
            None
        } else {
            Some((self - o) as i64)
        }
    }

    fn wrapping(self, o: Self) -> (r: Self) {
        proof {
            lemma_pow256_values();
        }
        self.wrapping_sub(o)
    }

    fn saturating(self, o: Self) -> (r: Self) {
        match self.checked_sub(o) {
            Some(v) => v,
            None => {
                if o < 0 {
                    i64::MAX
                } else {
                    i64::MIN
                }
            },
        }
    }

    fn checked(self, o: Self) -> (r: Option<Self>) {
        self.checked_sub(o)
    }
}

impl Mul for i64 {
    open spec fn mul_wrap_spec(self, o: Self) -> Self {
        prim_of_int(self as int * o as int)
    }

    open spec fn mul_sat_spec(self, o: Self) -> Self {
        if self * o > i64::MAX {
            i64::MAX
        } else if self * o < i64::MIN {
            i64::MIN
        } else {
            (self * o) as i64
        }
    }

    open spec fn mul_checked_spec(self, o: Self) -> Option<Self> {
        if self * o > i64::MAX || self * o < i64::MIN {
            None
        } else {
            Some((self * o) as i64)
        }
    }

    fn wrapping(self, o: Self) -> (r: Self) {
        proof {
            lemma_pow256_values();
        }
        self.wrapping_mul(o)
    }

    fn saturating(self, o: Self) -> (r: Self) {
        match self.checked_mul(o) {
            Some(v) => v,
            None => {
                proof {
                    if (self >= 0) == (o >= 0) {
                        assert(self as int * o as int >= 0) by (nonlinear_arith)
                            requires
                                (self as int >= 0 && o as int >= 0) || ((self as int) < 0 && (o as int) < 0),
                        ;
                    } else {
                        assert(self as int * o as int <= 0) by (nonlinear_arith)
                            requires
                                (self as int >= 0 && o as int <= 0) || (self as int <= 0 && o as int >= 0),
                        ;
                    }
                }
                if (self >= 0) == (o >= 0) {
                    i64::MAX
                } else {
                    i64::MIN
                }
            },
        }
    }

    fn checked(self, o: Self) -> (r: Option<Self>) {
        self.checked_mul(o)
    }
}

impl Add for u128 {
    open spec fn add_wrap_spec(self, o: Self) -> Self {
        prim_of_int(self as int + o as int)
    }

    open spec fn add_sat_spec(self, o: Self) -> Self {
        if self + o > u128::MAX {
            u128::MAX
        } else if self + o < 0 {
            0
        } else {
            (self + o) as u128
        }
    }

    open spec fn add_checked_spec(self, o: Self) -> Option<Self> {
        if self + o > u128::MAX || self + o < 0 {
            None
        } else {
            Some((self + o) as u128)
        }
    }

    fn wrapping(self, o: Self) -> (r: Self) {
        proof {
            lemma_pow256_values();
        }
        self.wrapping_add(o)
    }

    fn saturating(self, o: Self) -> (r: Self) {
        self.saturating_add(o)
    }

    fn checked(self, o: Self) -> (r: Option<Self>) {
        self.checked_add(o)
    }
}

impl Sub for u128 {
    open spec fn sub_wrap_spec(self, o: Self) -> Self {
        prim_of_int(self as int - o as int)
    }

    open spec fn sub_sat_spec(self, o: Self) -> Self {
        if self - o > u128::MAX {
            u128::MAX
        } else if self - o < 0 {
            0
        } else {
            (self - o) as u128
        }
    }

    open spec fn sub_checked_spec(self, o: Self) -> Option<Self> {
        if self - o > u128::MAX || self - o < 0 {
            None
        } else {
            Some((self - o) as u128)
        }
    }

    fn wrapping(self, o: Self) -> (r: Self) {
        proof {
            lemma_pow256_values();
        }
        self.wrapping_sub(o)
    }

    fn saturating(self, o: Self) -> (r: Self) {
        self.saturating_sub(o)
    }

    fn checked(self, o: Self) -> (r: Option<Self>) {
        self.checked_sub(o)
    }
}

impl Mul for u128 {
    open spec fn mul_wrap_spec(self, o: Self) -> Self {
        prim_of_int(self as int * o as int)
    }

    open spec fn mul_sat_spec(self, o: Self) -> Self {
        if self * o > u128::MAX {
            u128::MAX
        } else if self * o < 0 {
            0
        } else {
            (self * o) as u128
        }
    }

    open spec fn mul_checked_spec(self, o: Self) -> Option<Self> {
        if self * o > u128::MAX || self * o < 0 {
            None
        } else {
            Some((self * o) as u128)
        }
    }

    fn wrapping(self, o: Self) -> (r: Self) {
        proof {
            lemma_pow256_values();
        }
        self.wrapping_mul(o)
    }

    fn saturating(self, o: Self) -> (r: Self) {
        proof {
            assert(self as int * o as int >= 0) by (nonlinear_arith)
                requires
                    self as int >= 0 && o as int >= 0,
            ;
        }
        match self.checked_mul(o) {
            Some(v) => v,
            None => u128::MAX,
        }
    }

    fn checked(self, o: Self) -> (r: Option<Self>) {
        self.checked_mul(o)
    }
}

impl Add for i128 {
    open spec fn add_wrap_spec(self, o: Self) -> Self {
        prim_of_int(self as int + o as int)
    }

    open spec fn add_sat_spec(self, o: Self) -> Self {
        if self + o > i128::MAX {
            i128::MAX
        } else if self + o < i128::MIN {
            i128::MIN
        } else {
            (self + o) as i128
        }
    }

    open spec fn add_checked_spec(self, o: Self) -> Option<Self> {
        if self + o > i128::MAX || self + o < i128::MIN {
            None
        } else {
            Some((self + o) as i128)
        }
    }

    fn wrapping(self, o: Self) -> (r: Self) {
        proof {
            lemma_pow256_values();
        }
        self.wrapping_add(o)
    }

    fn saturating(self, o: Self) -> (r: Self) {
        match self.checked_add(o) {
            Some(v) => v,
            None => {
                if o >= 0 {
                    i128::MAX
                } else {
                    i128::MIN
                }
            },
        }
    }

    fn checked(self, o: Self) -> (r: Option<Self>) {
        self.checked_add(o)
    }
}

impl Sub for i128 {
    open spec fn sub_wrap_spec(self, o: Self) -> Self {
        prim_of_int(self as int - o as int)
    }

    open spec fn sub_sat_spec(self, o: Self) -> Self {
        if self - o > i128::MAX {
            i128::MAX
        } else if self - o < i128::MIN {
            i128::MIN
        } else {
            (self - o) as i128
        }
    }

    open spec fn sub_checked_spec(self, o: Self) -> Option<Self> {
        if self - o > i128::MAX || self - o < i128::MIN {
            None
        } else {
            Some((self - o) as i128)
        }
    }

    fn wrapping(self, o: Self) -> (r: Self) {
        proof {
            lemma_pow256_values();
        }
        self.wrapping_sub(o)
    }

    fn saturating(self, o: Self) -> (r: Self) {
        match self.checked_sub(o) {
            Some(v) => v,
            None => {
                if o < 0 {
                    i128::MAX
                } else {
                    i128::MIN
                }
            },
        }
    }

    fn checked(self, o: Self) -> (r: Option<Self>) {
        self.checked_sub(o)
    }
}

impl Mul for i128 {
    open spec fn mul_wrap_spec(self, o: Self) -> Self {
        prim_of_int(self as int * o as int)
    }

    open spec fn mul_sat_spec(self, o: Self) -> Self {
        if self * o > i128::MAX {
            i128::MAX
        } else if self * o < i128::MIN {
            i128::MIN
        } else {
            (self * o) as i128
        }
    }

    open spec fn mul_checked_spec(self, o: Self) -> Option<Self> {
        if self * o > i128::MAX || self * o < i128::MIN {
            None
        } else {
            Some((self * o) as i128)
        }
    }

    fn wrapping(self, o: Self) -> (r: Self) {
        proof {
            lemma_pow256_values();
        }
        self.wrapping_mul(o)
    }

    fn saturating(self, o: Self) -> (r: Self) {
        match self.checked_mul(o) {
            Some(v) => v,
            None => {
                proof {
                    if (self >= 0) == (o >= 0) {
                        assert(self as int * o as int >= 0) by (nonlinear_arith)
                            requires
                                (self as int >= 0 && o as int >= 0) || ((self as int) < 0 && (o as int) < 0),
                        ;
                    } else {
                        assert(self as int * o as int <= 0) by (nonlinear_arith)
                            requires
                                (self as int >= 0 && o as int <= 0) || (self as int <= 0 && o as int >= 0),
                        ;
                    }
                }
                if (self >= 0) == (o >= 0) {
                    i128::MAX
                } else {
                    i128::MIN
                }
            },
        }
    }

    fn checked(self, o: Self) -> (r: Option<Self>) {
        self.checked_mul(o)
    }
}

impl Div for u8 {
    open spec fn div_wrap_spec(self, o: Self) -> Self {
        (self as int / o as int) as u8
    }

    fn wrapping(self, o: Self) -> (r: Self) {
        self / o
    }
}

impl Rem for u8 {
    open spec fn rem_wrap_spec(self, o: Self) -> Self {
        (self as int % o as int) as u8
    }

    fn wrapping(self, o: Self) -> (r: Self) {
        self % o
    }
}

impl Div for i8 {
    open spec fn div_wrap_spec(self, o: Self) -> Self {
        if self == i8::MIN && o == -1 {
            i8::MIN
        } else {
            trunc_div_int(self as int, o as int) as i8
        }
    }

    fn wrapping(self, o: Self) -> (r: Self) {
        if self == i8::MIN && o == -1 {
            return i8::MIN;
        }
        let ma: u8 = if self >= 0 {
            self as u8
        } else {
            (-(self as i128)) as u8
        };
        let mo: u8 = if o >= 0 {
            o as u8
        } else {
            (-(o as i128)) as u8
        };
        proof {
            assert(ma as nat == int_abs(self as int));
            assert(mo as nat == int_abs(o as int));
            assert(mo >= 1);
        }
        let q: u8 = ma / mo;
        proof {
            assert(q as nat == int_abs(self as int) / int_abs(o as int));
            assert(q * mo <= ma && q <= ma) by (nonlinear_arith)
                requires
                    q == ma / mo,
                    mo >= 1,
            ;
            if mo >= 2 {
                assert(2 * q <= q * mo) by (nonlinear_arith)
                    requires
                        mo >= 2,
                ;
            }
        }
        if (self < 0) != (o < 0) {
            if q > i8::MAX as u8 {
                i8::MIN
            } else {
                -(q as i8)
            }
        } else {
            q as i8
        }
    }
}

impl Rem for i8 {
    open spec fn rem_wrap_spec(self, o: Self) -> Self {
        trunc_rem_int(self as int, o as int) as i8
    }

    fn wrapping(self, o: Self) -> (r: Self) {
        let ma: u8 = if self >= 0 {
            self as u8
        } else {
            (-(self as i128)) as u8
        };
        let mo: u8 = if o >= 0 {
            o as u8
        } else {
            (-(o as i128)) as u8
        };
        proof {
            assert(ma as nat == int_abs(self as int));
            assert(mo as nat == int_abs(o as int));
            assert(mo >= 1);
        }
        let m: u8 = ma % mo;
        proof {
            assert(m as nat == int_abs(self as int) % int_abs(o as int));
            assert(m < mo) by (nonlinear_arith)
                requires
                    m == ma % mo,
                    mo >= 1,
            ;
        }
        if self < 0 {
            -(m as i8)
        } else {
            m as i8
        }
    }
}

impl Div for u16 {
    open spec fn div_wrap_spec(self, o: Self) -> Self {
        (self as int / o as int) as u16
    }

    fn wrapping(self, o: Self) -> (r: Self) {
        self / o
    }
}

impl Rem for u16 {
    open spec fn rem_wrap_spec(self, o: Self) -> Self {
        (self as int % o as int) as u16
    }

    fn wrapping(self, o: Self) -> (r: Self) {
        self % o
    }
}

impl Div for i16 {
    open spec fn div_wrap_spec(self, o: Self) -> Self {
        if self == i16::MIN && o == -1 {
            i16::MIN
        } else {
            trunc_div_int(self as int, o as int) as i16
        }
    }

    fn wrapping(self, o: Self) -> (r: Self) {
        if self == i16::MIN && o == -1 {
            return i16::MIN;
        }
        let ma: u16 = if self >= 0 {
            self as u16
        } else {
            (-(self as i128)) as u16
        };
        let mo: u16 = if o >= 0 {
            o as u16
        } else {
            (-(o as i128)) as u16
        };
        proof {
            assert(ma as nat == int_abs(self as int));
            assert(mo as nat == int_abs(o as int));
            assert(mo >= 1);
        }
        let q: u16 = ma / mo;
        proof {
            assert(q as nat == int_abs(self as int) / int_abs(o as int));
            assert(q * mo <= ma && q <= ma) by (nonlinear_arith)
                requires
                    q == ma / mo,
                    mo >= 1,
            ;
            if mo >= 2 {
                assert(2 * q <= q * mo) by (nonlinear_arith)
                    requires
                        mo >= 2,
                ;
            }
        }
        if (self < 0) != (o < 0) {
            if q > i16::MAX as u16 {
                i16::MIN
            } else {
                -(q as i16)
            }
        } else {
            q as i16
        }
    }
}

impl Rem for i16 {
    open spec fn rem_wrap_spec(self, o: Self) -> Self {
        trunc_rem_int(self as int, o as int) as i16
    }

    fn wrapping(self, o: Self) -> (r: Self) {
        let ma: u16 = if self >= 0 {
            self as u16
        } else {
            (-(self as i128)) as u16
        };
        let mo: u16 = if o >= 0 {
            o as u16
        } else {
            (-(o as i128)) as u16
        };
        proof {
            assert(ma as nat == int_abs(self as int));
            assert(mo as nat == int_abs(o as int));
            assert(mo >= 1);
        }
        let m: u16 = ma % mo;
        proof {
            assert(m as nat == int_abs(self as int) % int_abs(o as int));
            assert(m < mo) by (nonlinear_arith)
                requires
                    m == ma % mo,
                    mo >= 1,
            ;
        }
        if self < 0 {
            -(m as i16)
        } else {
            m as i16
        }
    }
}

impl Div for u32 {
    open spec fn div_wrap_spec(self, o: Self) -> Self {
        (self as int / o as int) as u32
    }

    fn wrapping(self, o: Self) -> (r: Self) {
        self / o
    }
}

impl Rem for u32 {
    open spec fn rem_wrap_spec(self, o: Self) -> Self {
        (self as int % o as int) as u32
    }

    fn wrapping(self, o: Self) -> (r: Self) {
        self % o
    }
}

impl Div for i32 {
    open spec fn div_wrap_spec(self, o: Self) -> Self {
        if self == i32::MIN && o == -1 {
            i32::MIN
        } else {
            trunc_div_int(self as int, o as int) as i32
        }
    }

    fn wrapping(self, o: Self) -> (r: Self) {
        if self == i32::MIN && o == -1 {
            return i32::MIN;
        }
        let ma: u32 = if self >= 0 {
            self as u32
        } else {
            (-(self as i128)) as u32
        };
        let mo: u32 = if o >= 0 {
            o as u32
        } else {
            (-(o as i128)) as u32
        };
        proof {
            assert(ma as nat == int_abs(self as int));
            assert(mo as nat == int_abs(o as int));
            assert(mo >= 1);
        }
        let q: u32 = ma / mo;
        proof {
            assert(q as nat == int_abs(self as int) / int_abs(o as int));
            assert(q * mo <= ma && q <= ma) by (nonlinear_arith)
                requires
                    q == ma / mo,
                    mo >= 1,
            ;
            if mo >= 2 {
                assert(2 * q <= q * mo) by (nonlinear_arith)
                    requires
                        mo >= 2,
                ;
            }
        }
        if (self < 0) != (o < 0) {
            if q > i32::MAX as u32 {
                i32::MIN
            } else {
                -(q as i32)
            }
        } else {
            q as i32
        }
    }
}

impl Rem for i32 {
    open spec fn rem_wrap_spec(self, o: Self) -> Self {
        trunc_rem_int(self as int, o as int) as i32
    }

    fn wrapping(self, o: Self) -> (r: Self) {
        let ma: u32 = if self >= 0 {
            self as u32
        } else {
            (-(self as i128)) as u32
        };
        let mo: u32 = if o >= 0 {
            o as u32
        } else {
            (-(o as i128)) as u32
        };
        proof {
            assert(ma as nat == int_abs(self as int));
            assert(mo as nat == int_abs(o as int));
            assert(mo >= 1);
        }
        let m: u32 = ma % mo;
        proof {
            assert(m as nat == int_abs(self as int) % int_abs(o as int));
            assert(m < mo) by (nonlinear_arith)
                requires
                    m == ma % mo,
                    mo >= 1,
            ;
        }
        if self < 0 {
            -(m as i32)
        } else {
            m as i32
        }
    }
}

impl Div for u64 {
    open spec fn div_wrap_spec(self, o: Self) -> Self {
        (self as int / o as int) as u64
    }

    fn wrapping(self, o: Self) -> (r: Self) {
        self / o
    }
}

impl Rem for u64 {
    open spec fn rem_wrap_spec(self, o: Self) -> Self {
        (self as int % o as int) as u64
    }

    fn wrapping(self, o: Self) -> (r: Self) {
        self % o
    }
}

impl Div for i64 {
    open spec fn div_wrap_spec(self, o: Self) -> Self {
        if self == i64::MIN && o == -1 {
            i64::MIN
        } else {
            trunc_div_int(self as int, o as int) as i64
        }
    }

    fn wrapping(self, o: Self) -> (r: Self) {
        if self == i64::MIN && o == -1 {
            return i64::MIN;
        }
        let ma: u64 = if self >= 0 {
            self as u64
        } else {
            (-(self as i128)) as u64
        };
        let mo: u64 = if o >= 0 {
            o as u64
        } else {
            (-(o as i128)) as u64
        };
        proof {
            assert(ma as nat == int_abs(self as int));
            assert(mo as nat == int_abs(o as int));
            assert(mo >= 1);
        }
        let q: u64 = ma / mo;
        proof {
            assert(q as nat == int_abs(self as int) / int_abs(o as int));
            assert(q * mo <= ma && q <= ma) by (nonlinear_arith)
                requires
                    q == ma / mo,
                    mo >= 1,
            ;
            if mo >= 2 {
                assert(2 * q <= q * mo) by (nonlinear_arith)
                    requires
                        mo >= 2,
                ;
            }
        }
        if (self < 0) != (o < 0) {
            if q > i64::MAX as u64 {
                i64::MIN
            } else {
                -(q as i64)
            }
        } else {
            q as i64
        }
    }
}

impl Rem for i64 {
    open spec fn rem_wrap_spec(self, o: Self) -> Self {
        trunc_rem_int(self as int, o as int) as i64
    }

    fn wrapping(self, o: Self) -> (r: Self) {
        let ma: u64 = if self >= 0 {
            self as u64
        } else {
            (-(self as i128)) as u64
        };
        let mo: u64 = if o >= 0 {
            o as u64
        } else {
            (-(o as i128)) as u64
        };
        proof {
            assert(ma as nat == int_abs(self as int));
            assert(mo as nat == int_abs(o as int));
            assert(mo >= 1);
        }
        let m: u64 = ma % mo;
        proof {
            assert(m as nat == int_abs(self as int) % int_abs(o as int));
            assert(m < mo) by (nonlinear_arith)
                requires
                    m == ma % mo,
                    mo >= 1,
            ;
        }
        if self < 0 {
            -(m as i64)
        } else {
            m as i64
        }
    }
}

impl Shl for u8 {
    open spec fn shl_wrap_spec(self, o: u8) -> Self {
        self << ((o as u32 % 8) as u8)
    }

    open spec fn shl_checked_spec(self, o: u8) -> Option<Self> {
        if (o as u32) < 8 {
            Some(self << ((o as u32 % 8) as u8))
        } else {
            None
        }
    }

    fn wrapping(self, o: u8) -> (r: Self) {
        self.wrapping_shl(o as u32)
    }

    fn saturating(self, o: u8) -> (r: Self) {
        self.wrapping_shl(o as u32)
    }

    fn checked(self, o: u8) -> (r: Option<Self>) {
        if (o as u32) < 8 {
            Some(self.wrapping_shl(o as u32))
        } else {
            None
        }
    }
}

impl Shr for u8 {
    open spec fn shr_wrap_spec(self, o: u8) -> Self {
        self >> ((o as u32 % 8) as u8)
    }

    open spec fn shr_checked_spec(self, o: u8) -> Option<Self> {
        if (o as u32) < 8 {
            Some(self >> ((o as u32 % 8) as u8))
        } else {
            None
        }
    }

    fn wrapping(self, o: u8) -> (r: Self) {
        self.wrapping_shr(o as u32)
    }

    fn saturating(self, o: u8) -> (r: Self) {
        self.wrapping_shr(o as u32)
    }

    fn checked(self, o: u8) -> (r: Option<Self>) {
        if (o as u32) < 8 {
            Some(self.wrapping_shr(o as u32))
        } else {
            None
        }
    }
}

impl Bitwise for u8 {
    open spec fn and_spec(self, o: Self) -> Self {
        self & o
    }

    open spec fn or_spec(self, o: Self) -> Self {
        self | o
    }

    open spec fn xor_spec(self, o: Self) -> Self {
        self ^ o
    }

    open spec fn not_spec(self) -> Self {
        !self
    }

    fn bit_and(self, o: Self) -> (r: Self) {
        self & o
    }

    fn bit_or(self, o: Self) -> (r: Self) {
        self | o
    }

    fn bit_xor(self, o: Self) -> (r: Self) {
        self ^ o
    }

    fn bit_not(self) -> (r: Self) {
        !self
    }
}

impl Neg for u8 {
    open spec fn neg_wrap_spec(self) -> Self {
        prim_of_int(-(self as int))
    }

    open spec fn neg_checked_spec(self) -> Option<Self> {
        if self == 0 {
            Some(0 as u8)
        } else {
            None
        }
    }

    fn wrapping(self) -> (r: Self) {
        proof {
            lemma_pow256_values();
        }
        (0 as u8).wrapping_sub(self)
    }

    fn saturating(self) -> (r: Self) {
        proof {
            lemma_pow256_values();
        }
        (0 as u8).wrapping_sub(self)
    }

    fn checked(self) -> (r: Option<Self>) {
        if self == 0 {
            Some(0)
        } else {
            None
        }
    }
}

impl Shl for i8 {
    open spec fn shl_wrap_spec(self, o: u8) -> Self {
        self << ((o as u32 % 8) as i8)
    }

    open spec fn shl_checked_spec(self, o: u8) -> Option<Self> {
        if (o as u32) < 8 {
            Some(self << ((o as u32 % 8) as i8))
        } else {
            None
        }
    }

    fn wrapping(self, o: u8) -> (r: Self) {
        self.wrapping_shl(o as u32)
    }

    fn saturating(self, o: u8) -> (r: Self) {
        self.wrapping_shl(o as u32)
    }

    fn checked(self, o: u8) -> (r: Option<Self>) {
        if (o as u32) < 8 {
            Some(self.wrapping_shl(o as u32))
        } else {
            None
        }
    }
}

impl Shr for i8 {
    open spec fn shr_wrap_spec(self, o: u8) -> Self {
        self >> ((o as u32 % 8) as i8)
    }

    open spec fn shr_checked_spec(self, o: u8) -> Option<Self> {
        if (o as u32) < 8 {
            Some(self >> ((o as u32 % 8) as i8))
        } else {
            None
        }
    }

    fn wrapping(self, o: u8) -> (r: Self) {
        self.wrapping_shr(o as u32)
    }

    fn saturating(self, o: u8) -> (r: Self) {
        self.wrapping_shr(o as u32)
    }

    fn checked(self, o: u8) -> (r: Option<Self>) {
        if (o as u32) < 8 {
            Some(self.wrapping_shr(o as u32))
        } else {
            None
        }
    }
}

impl Bitwise for i8 {
    open spec fn and_spec(self, o: Self) -> Self {
        self & o
    }

    open spec fn or_spec(self, o: Self) -> Self {
        self | o
    }

    open spec fn xor_spec(self, o: Self) -> Self {
        self ^ o
    }

    open spec fn not_spec(self) -> Self {
        !self
    }

    fn bit_and(self, o: Self) -> (r: Self) {
        self & o
    }

    fn bit_or(self, o: Self) -> (r: Self) {
        self | o
    }

    fn bit_xor(self, o: Self) -> (r: Self) {
        self ^ o
    }

    fn bit_not(self) -> (r: Self) {
        !self
    }
}

impl Neg for i8 {
    open spec fn neg_wrap_spec(self) -> Self {
        prim_of_int(-(self as int))
    }

    open spec fn neg_checked_spec(self) -> Option<Self> {
        if self == i8::MIN {
            None
        } else {
            Some((-(self as int)) as i8)
        }
    }

    fn wrapping(self) -> (r: Self) {
        proof {
            lemma_pow256_values();
        }
        (0 as i8).wrapping_sub(self)
    }

    fn saturating(self) -> (r: Self) {
        proof {
            lemma_pow256_values();
        }
        (0 as i8).wrapping_sub(self)
    }

    fn checked(self) -> (r: Option<Self>) {
        if self == i8::MIN {
            None
        } else {
            Some(-self)
        }
    }
}

impl Shl for u16 {
    open spec fn shl_wrap_spec(self, o: u8) -> Self {
        self << ((o as u32 % 16) as u16)
    }

    open spec fn shl_checked_spec(self, o: u8) -> Option<Self> {
        if (o as u32) < 16 {
            Some(self << ((o as u32 % 16) as u16))
        } else {
            None
        }
    }

    fn wrapping(self, o: u8) -> (r: Self) {
        self.wrapping_shl(o as u32)
    }

    fn saturating(self, o: u8) -> (r: Self) {
        self.wrapping_shl(o as u32)
    }

    fn checked(self, o: u8) -> (r: Option<Self>) {
        if (o as u32) < 16 {
            Some(self.wrapping_shl(o as u32))
        } else {
            None
        }
    }
}

impl Shr for u16 {
    open spec fn shr_wrap_spec(self, o: u8) -> Self {
        self >> ((o as u32 % 16) as u16)
    }

    open spec fn shr_checked_spec(self, o: u8) -> Option<Self> {
        if (o as u32) < 16 {
            Some(self >> ((o as u32 % 16) as u16))
        } else {
            None
        }
    }

    fn wrapping(self, o: u8) -> (r: Self) {
        self.wrapping_shr(o as u32)
    }

    fn saturating(self, o: u8) -> (r: Self) {
        self.wrapping_shr(o as u32)
    }

    fn checked(self, o: u8) -> (r: Option<Self>) {
        if (o as u32) < 16 {
            Some(self.wrapping_shr(o as u32))
        } else {
            None
        }
    }
}

impl Bitwise for u16 {
    open spec fn and_spec(self, o: Self) -> Self {
        self & o
    }

    open spec fn or_spec(self, o: Self) -> Self {
        self | o
    }

    open spec fn xor_spec(self, o: Self) -> Self {
        self ^ o
    }

    open spec fn not_spec(self) -> Self {
        !self
    }

    fn bit_and(self, o: Self) -> (r: Self) {
        self & o
    }

    fn bit_or(self, o: Self) -> (r: Self) {
        self | o
    }

    fn bit_xor(self, o: Self) -> (r: Self) {
        self ^ o
    }

    fn bit_not(self) -> (r: Self) {
        !self
    }
}

impl Neg for u16 {
    open spec fn neg_wrap_spec(self) -> Self {
        prim_of_int(-(self as int))
    }

    open spec fn neg_checked_spec(self) -> Option<Self> {
        if self == 0 {
            Some(0 as u16)
        } else {
            None
        }
    }

    fn wrapping(self) -> (r: Self) {
        proof {
            lemma_pow256_values();
        }
        (0 as u16).wrapping_sub(self)
    }

    fn saturating(self) -> (r: Self) {
        proof {
            lemma_pow256_values();
        }
        (0 as u16).wrapping_sub(self)
    }

    fn checked(self) -> (r: Option<Self>) {
        if self == 0 {
            Some(0)
        } else {
            None
        }
    }
}

impl Shl for i16 {
    open spec fn shl_wrap_spec(self, o: u8) -> Self {
        self << ((o as u32 % 16) as i16)
    }

    open spec fn shl_checked_spec(self, o: u8) -> Option<Self> {
        if (o as u32) < 16 {
            Some(self << ((o as u32 % 16) as i16))
        } else {
            None
        }
    }

    fn wrapping(self, o: u8) -> (r: Self) {
        self.wrapping_shl(o as u32)
    }

    fn saturating(self, o: u8) -> (r: Self) {
        self.wrapping_shl(o as u32)
    }

    fn checked(self, o: u8) -> (r: Option<Self>) {
        if (o as u32) < 16 {
            Some(self.wrapping_shl(o as u32))
        } else {
            None
        }
    }
}

impl Shr for i16 {
    open spec fn shr_wrap_spec(self, o: u8) -> Self {
        self >> ((o as u32 % 16) as i16)
    }

    open spec fn shr_checked_spec(self, o: u8) -> Option<Self> {
        if (o as u32) < 16 {
            Some(self >> ((o as u32 % 16) as i16))
        } else {
            None
        }
    }

    fn wrapping(self, o: u8) -> (r: Self) {
        self.wrapping_shr(o as u32)
    }

    fn saturating(self, o: u8) -> (r: Self) {
        self.wrapping_shr(o as u32)
    }

    fn checked(self, o: u8) -> (r: Option<Self>) {
        if (o as u32) < 16 {
            Some(self.wrapping_shr(o as u32))
        } else {
            None
        }
    }
}

impl Bitwise for i16 {
    open spec fn and_spec(self, o: Self) -> Self {
        self & o
    }

    open spec fn or_spec(self, o: Self) -> Self {
        self | o
    }

    open spec fn xor_spec(self, o: Self) -> Self {
        self ^ o
    }

    open spec fn not_spec(self) -> Self {
        !self
    }

    fn bit_and(self, o: Self) -> (r: Self) {
        self & o
    }

    fn bit_or(self, o: Self) -> (r: Self) {
        self | o
    }

    fn bit_xor(self, o: Self) -> (r: Self) {
        self ^ o
    }

    fn bit_not(self) -> (r: Self) {
        !self
    }
}

impl Neg for i16 {
    open spec fn neg_wrap_spec(self) -> Self {
        prim_of_int(-(self as int))
    }

    open spec fn neg_checked_spec(self) -> Option<Self> {
        if self == i16::MIN {
            None
        } else {
            Some((-(self as int)) as i16)
        }
    }

    fn wrapping(self) -> (r: Self) {
        proof {
            lemma_pow256_values();
        }
        (0 as i16).wrapping_sub(self)
    }

    fn saturating(self) -> (r: Self) {
        proof {
            lemma_pow256_values();
        }
        (0 as i16).wrapping_sub(self)
    }

    fn checked(self) -> (r: Option<Self>) {
        if self == i16::MIN {
            None
        } else {
            Some(-self)
        }
    }
}

impl Shl for u32 {
    open spec fn shl_wrap_spec(self, o: u8) -> Self {
        self << ((o as u32 % 32) as u32)
    }

    open spec fn shl_checked_spec(self, o: u8) -> Option<Self> {
        if (o as u32) < 32 {
            Some(self << ((o as u32 % 32) as u32))
        } else {
            None
        }
    }

    fn wrapping(self, o: u8) -> (r: Self) {
        self.wrapping_shl(o as u32)
    }

    fn saturating(self, o: u8) -> (r: Self) {
        self.wrapping_shl(o as u32)
    }

    fn checked(self, o: u8) -> (r: Option<Self>) {
        if (o as u32) < 32 {
            Some(self.wrapping_shl(o as u32))
        } else {
            None
        }
    }
}

impl Shr for u32 {
    open spec fn shr_wrap_spec(self, o: u8) -> Self {
        self >> ((o as u32 % 32) as u32)
    }

    open spec fn shr_checked_spec(self, o: u8) -> Option<Self> {
        if (o as u32) < 32 {
            Some(self >> ((o as u32 % 32) as u32))
        } else {
            None
        }
    }

    fn wrapping(self, o: u8) -> (r: Self) {
        self.wrapping_shr(o as u32)
    }

    fn saturating(self, o: u8) -> (r: Self) {
        self.wrapping_shr(o as u32)
    }

    fn checked(self, o: u8) -> (r: Option<Self>) {
        if (o as u32) < 32 {
            Some(self.wrapping_shr(o as u32))
        } else {
            None
        }
    }
}

impl Bitwise for u32 {
    open spec fn and_spec(self, o: Self) -> Self {
        self & o
    }

    open spec fn or_spec(self, o: Self) -> Self {
        self | o
    }

    open spec fn xor_spec(self, o: Self) -> Self {
        self ^ o
    }

    open spec fn not_spec(self) -> Self {
        !self
    }

    fn bit_and(self, o: Self) -> (r: Self) {
        self & o
    }

    fn bit_or(self, o: Self) -> (r: Self) {
        self | o
    }

    fn bit_xor(self, o: Self) -> (r: Self) {
        self ^ o
    }

    fn bit_not(self) -> (r: Self) {
        !self
    }
}

impl Neg for u32 {
    open spec fn neg_wrap_spec(self) -> Self {
        prim_of_int(-(self as int))
    }

    open spec fn neg_checked_spec(self) -> Option<Self> {
        if self == 0 {
            Some(0 as u32)
        } else {
            None
        }
    }

    fn wrapping(self) -> (r: Self) {
        proof {
            lemma_pow256_values();
        }
        (0 as u32).wrapping_sub(self)
    }

    fn saturating(self) -> (r: Self) {
        proof {
            lemma_pow256_values();
        }
        (0 as u32).wrapping_sub(self)
    }

    fn checked(self) -> (r: Option<Self>) {
        if self == 0 {
            Some(0)
        } else {
            None
        }
    }
}

impl Shl for i32 {
    open spec fn shl_wrap_spec(self, o: u8) -> Self {
        self << ((o as u32 % 32) as i32)
    }

    open spec fn shl_checked_spec(self, o: u8) -> Option<Self> {
        if (o as u32) < 32 {
            Some(self << ((o as u32 % 32) as i32))
        } else {
            None
        }
    }

    fn wrapping(self, o: u8) -> (r: Self) {
        self.wrapping_shl(o as u32)
    }

    fn saturating(self, o: u8) -> (r: Self) {
        self.wrapping_shl(o as u32)
    }

    fn checked(self, o: u8) -> (r: Option<Self>) {
        if (o as u32) < 32 {
            Some(self.wrapping_shl(o as u32))
        } else {
            None
        }
    }
}

impl Shr for i32 {
    open spec fn shr_wrap_spec(self, o: u8) -> Self {
        self >> ((o as u32 % 32) as i32)
    }

    open spec fn shr_checked_spec(self, o: u8) -> Option<Self> {
        if (o as u32) < 32 {
            Some(self >> ((o as u32 % 32) as i32))
        } else {
            None
        }
    }

    fn wrapping(self, o: u8) -> (r: Self) {
        self.wrapping_shr(o as u32)
    }

    fn saturating(self, o: u8) -> (r: Self) {
        self.wrapping_shr(o as u32)
    }

    fn checked(self, o: u8) -> (r: Option<Self>) {
        if (o as u32) < 32 {
            Some(self.wrapping_shr(o as u32))
        } else {
            None
        }
    }
}

impl Bitwise for i32 {
    open spec fn and_spec(self, o: Self) -> Self {
        self & o
    }

    open spec fn or_spec(self, o: Self) -> Self {
        self | o
    }

    open spec fn xor_spec(self, o: Self) -> Self {
        self ^ o
    }

    open spec fn not_spec(self) -> Self {
        !self
    }

    fn bit_and(self, o: Self) -> (r: Self) {
        self & o
    }

    fn bit_or(self, o: Self) -> (r: Self) {
        self | o
    }

    fn bit_xor(self, o: Self) -> (r: Self) {
        self ^ o
    }

    fn bit_not(self) -> (r: Self) {
        !self
    }
}

impl Neg for i32 {
    open spec fn neg_wrap_spec(self) -> Self {
        prim_of_int(-(self as int))
    }

    open spec fn neg_checked_spec(self) -> Option<Self> {
        if self == i32::MIN {
            None
        } else {
            Some((-(self as int)) as i32)
        }
    }

    fn wrapping(self) -> (r: Self) {
        proof {
            lemma_pow256_values();
        }
        (0 as i32).wrapping_sub(self)
    }

    fn saturating(self) -> (r: Self) {
        proof {
            lemma_pow256_values();
        }
        (0 as i32).wrapping_sub(self)
    }

    fn checked(self) -> (r: Option<Self>) {
        if self == i32::MIN {
            None
        } else {
            Some(-self)
        }
    }
}

impl Shl for u64 {
    open spec fn shl_wrap_spec(self, o: u8) -> Self {
        self << ((o as u32 % 64) as u64)
    }

    open spec fn shl_checked_spec(self, o: u8) -> Option<Self> {
        if (o as u32) < 64 {
            Some(self << ((o as u32 % 64) as u64))
        } else {
            None
        }
    }

    fn wrapping(self, o: u8) -> (r: Self) {
        self.wrapping_shl(o as u32)
    }

    fn saturating(self, o: u8) -> (r: Self) {
        self.wrapping_shl(o as u32)
    }

    fn checked(self, o: u8) -> (r: Option<Self>) {
        if (o as u32) < 64 {
            Some(self.wrapping_shl(o as u32))
        } else {
            None
        }
    }
}

impl Shr for u64 {
    open spec fn shr_wrap_spec(self, o: u8) -> Self {
        self >> ((o as u32 % 64) as u64)
    }

    open spec fn shr_checked_spec(self, o: u8) -> Option<Self> {
        if (o as u32) < 64 {
            Some(self >> ((o as u32 % 64) as u64))
        } else {
            None
        }
    }

    fn wrapping(self, o: u8) -> (r: Self) {
        self.wrapping_shr(o as u32)
    }

    fn saturating(self, o: u8) -> (r: Self) {
        self.wrapping_shr(o as u32)
    }

    fn checked(self, o: u8) -> (r: Option<Self>) {
        if (o as u32) < 64 {
            Some(self.wrapping_shr(o as u32))
        } else {
            None
        }
    }
}

impl Bitwise for u64 {
    open spec fn and_spec(self, o: Self) -> Self {
        self & o
    }

    open spec fn or_spec(self, o: Self) -> Self {
        self | o
    }

    open spec fn xor_spec(self, o: Self) -> Self {
        self ^ o
    }

    open spec fn not_spec(self) -> Self {
        !self
    }

    fn bit_and(self, o: Self) -> (r: Self) {
        self & o
    }

    fn bit_or(self, o: Self) -> (r: Self) {
        self | o
    }

    fn bit_xor(self, o: Self) -> (r: Self) {
        self ^ o
    }

    fn bit_not(self) -> (r: Self) {
        !self
    }
}

impl Neg for u64 {
    open spec fn neg_wrap_spec(self) -> Self {
        prim_of_int(-(self as int))
    }

    open spec fn neg_checked_spec(self) -> Option<Self> {
        if self == 0 {
            Some(0 as u64)
        } else {
            None
        }
    }

    fn wrapping(self) -> (r: Self) {
        proof {
            lemma_pow256_values();
        }
        (0 as u64).wrapping_sub(self)
    }

    fn saturating(self) -> (r: Self) {
        proof {
            lemma_pow256_values();
        }
        (0 as u64).wrapping_sub(self)
    }

    fn checked(self) -> (r: Option<Self>) {
        if self == 0 {
            Some(0)
        } else {
            None
        }
    }
}

impl Shl for i64 {
    open spec fn shl_wrap_spec(self, o: u8) -> Self {
        self << ((o as u32 % 64) as i64)
    }

    open spec fn shl_checked_spec(self, o: u8) -> Option<Self> {
        if (o as u32) < 64 {
            Some(self << ((o as u32 % 64) as i64))
        } else {
            None
        }
    }

    fn wrapping(self, o: u8) -> (r: Self) {
        self.wrapping_shl(o as u32)
    }

    fn saturating(self, o: u8) -> (r: Self) {
        self.wrapping_shl(o as u32)
    }

    fn checked(self, o: u8) -> (r: Option<Self>) {
        if (o as u32) < 64 {
            Some(self.wrapping_shl(o as u32))
        } else {
            None
        }
    }
}

impl Shr for i64 {
    open spec fn shr_wrap_spec(self, o: u8) -> Self {
        self >> ((o as u32 % 64) as i64)
    }

    open spec fn shr_checked_spec(self, o: u8) -> Option<Self> {
        if (o as u32) < 64 {
            Some(self >> ((o as u32 % 64) as i64))
        } else {
            None
        }
    }

    fn wrapping(self, o: u8) -> (r: Self) {
        self.wrapping_shr(o as u32)
    }

    fn saturating(self, o: u8) -> (r: Self) {
        self.wrapping_shr(o as u32)
    }

    fn checked(self, o: u8) -> (r: Option<Self>) {
        if (o as u32) < 64 {
            Some(self.wrapping_shr(o as u32))
        } else {
            None
        }
    }
}

impl Bitwise for i64 {
    open spec fn and_spec(self, o: Self) -> Self {
        self & o
    }

    open spec fn or_spec(self, o: Self) -> Self {
        self | o
    }

    open spec fn xor_spec(self, o: Self) -> Self {
        self ^ o
    }

    open spec fn not_spec(self) -> Self {
        !self
    }

    fn bit_and(self, o: Self) -> (r: Self) {
        self & o
    }

    fn bit_or(self, o: Self) -> (r: Self) {
        self | o
    }

    fn bit_xor(self, o: Self) -> (r: Self) {
        self ^ o
    }

    fn bit_not(self) -> (r: Self) {
        !self
    }
}

impl Neg for i64 {
    open spec fn neg_wrap_spec(self) -> Self {
        prim_of_int(-(self as int))
    }

    open spec fn neg_checked_spec(self) -> Option<Self> {
        if self == i64::MIN {
            None
        } else {
            Some((-(self as int)) as i64)
        }
    }

    fn wrapping(self) -> (r: Self) {
        proof {
            lemma_pow256_values();
        }
        (0 as i64).wrapping_sub(self)
    }

    fn saturating(self) -> (r: Self) {
        proof {
            lemma_pow256_values();
        }
        (0 as i64).wrapping_sub(self)
    }

    fn checked(self) -> (r: Option<Self>) {
        if self == i64::MIN {
            None
        } else {
            Some(-self)
        }
    }
}

impl Neg for u128 {
    open spec fn neg_wrap_spec(self) -> Self {
        prim_of_int(-(self as int))
    }

    open spec fn neg_checked_spec(self) -> Option<Self> {
        if self == 0 {
            Some(0 as u128)
        } else {
            None
        }
    }

    fn wrapping(self) -> (r: Self) {
        proof {
            lemma_pow256_values();
        }
        (0 as u128).wrapping_sub(self)
    }

    fn saturating(self) -> (r: Self) {
        proof {
            lemma_pow256_values();
        }
        (0 as u128).wrapping_sub(self)
    }

    fn checked(self) -> (r: Option<Self>) {
        if self == 0 {
            Some(0)
        } else {
            None
        }
    }
}

impl Neg for i128 {
    open spec fn neg_wrap_spec(self) -> Self {
        prim_of_int(-(self as int))
    }

    open spec fn neg_checked_spec(self) -> Option<Self> {
        if self == i128::MIN {
            None
        } else {
            Some((-(self as int)) as i128)
        }
    }

    fn wrapping(self) -> (r: Self) {
        proof {
            lemma_pow256_values();
        }
        (0 as i128).wrapping_sub(self)
    }

    fn saturating(self) -> (r: Self) {
        proof {
            lemma_pow256_values();
        }
        (0 as i128).wrapping_sub(self)
    }

    fn checked(self) -> (r: Option<Self>) {
        if self == i128::MIN {
            None
        } else {
            Some(-self)
        }
    }
}

} // verus!
