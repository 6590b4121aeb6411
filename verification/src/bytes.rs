//! The little-endian byte model.
//!
//! Every value a program can hold — a local, an immediate, a word in a
//! page — is a sequence of bytes read least-significant first.  The two
//! spec functions below fix that reading once; memory, codec and
//! interpreter contracts all speak through them.

use vstd::prelude::*;

verus! {

/// `256^n`: the number of values `n` bytes can hold.
pub open spec fn pow256(n: nat) -> nat
    decreases n,
{
    if n == 0 {
        1
    } else {
        256 * pow256((n - 1) as nat)
    }
}

/// The `n` little-endian bytes of `v` (higher bytes of `v` are dropped).
pub open spec fn nat_to_le(v: nat, n: nat) -> Seq<u8>
    decreases n,
{
    if n == 0 {
        Seq::empty()
    } else {
        seq![(v % 256) as u8] + nat_to_le(v / 256, (n - 1) as nat)
    }
}

/// The value of a little-endian byte sequence.
pub open spec fn le_to_nat(s: Seq<u8>) -> nat
    decreases s.len(),
{
    if s.len() == 0 {
        0
    } else {
        (s[0] + 256 * le_to_nat(s.drop_first())) as nat
    }
}

pub proof fn lemma_pow256_pos(n: nat)
    ensures
        pow256(n) >= 1,
    decreases n,
{
    if n > 0 {
        lemma_pow256_pos((n - 1) as nat);
    }
}

pub proof fn lemma_pow256_add(a: nat, b: nat)
    ensures
        pow256(a + b) == pow256(a) * pow256(b),
    decreases a,
{
    if a == 0 {
        assert(pow256(0 + b) == 1 * pow256(b)) by {
            assert(pow256(b) == 1 * pow256(b)) by (nonlinear_arith);
        }
    } else {
        lemma_pow256_add((a - 1) as nat, b);
        assert(256 * (pow256((a - 1) as nat) * pow256(b)) == (256 * pow256((a - 1) as nat))
            * pow256(b)) by (nonlinear_arith);
    }
}

pub proof fn lemma_nat_to_le_len(v: nat, n: nat)
    ensures
        nat_to_le(v, n).len() == n,
    decreases n,
{
    if n > 0 {
        lemma_nat_to_le_len(v / 256, (n - 1) as nat);
    }
}

/// Reading back the `n` little-endian bytes of `v` gives `v mod 256^n`.
pub proof fn lemma_le_roundtrip(v: nat, n: nat)
    ensures
        le_to_nat(nat_to_le(v, n)) == v % pow256(n),
    decreases n,
{
    if n == 0 {
        assert(v % 1 == 0) by (nonlinear_arith);
    } else {
        let s = nat_to_le(v, n);
        lemma_pow256_pos((n - 1) as nat);
        lemma_nat_to_le_len(v / 256, (n - 1) as nat);
        assert(s.drop_first() =~= nat_to_le(v / 256, (n - 1) as nat));
        lemma_le_roundtrip(v / 256, (n - 1) as nat);
        assert(le_to_nat(s) == v % 256 + 256 * ((v / 256) % pow256((n - 1) as nat)));
        lemma_mod_breakdown(v, pow256((n - 1) as nat));
    }
}

/// `v mod (256 * p) == v mod 256 + 256 * ((v / 256) mod p)`.
proof fn lemma_mod_breakdown(v: nat, p: nat)
    requires
        p >= 1,
    ensures
        v % (256 * p) == v % 256 + 256 * ((v / 256) % p),
{
    let q = (v / 256) / p;
    let r = (v / 256) % p;
    assert(v / 256 == q * p + r && r < p) by (nonlinear_arith)
        requires
            p >= 1,
            q == (v / 256) / p,
            r == (v / 256) % p,
    ;
    assert(v == 256 * (v / 256) + v % 256 && v % 256 < 256) by (nonlinear_arith);
    assert(v == q * (256 * p) + (256 * r + v % 256)) by (nonlinear_arith)
        requires
            v == 256 * (q * p + r) + v % 256,
    ;
    assert(256 * r + v % 256 < 256 * p) by (nonlinear_arith)
        requires
            r < p,
            v % 256 < 256,
    ;
    assert(v % (256 * p) == 256 * r + v % 256) by (nonlinear_arith)
        requires
            v == q * (256 * p) + (256 * r + v % 256),
            0 <= 256 * r + v % 256 < 256 * p,
    ;
}

/// A value below `256^n` is written exactly by its `n` bytes.
pub proof fn lemma_le_roundtrip_small(v: nat, n: nat)
    requires
        v < pow256(n),
    ensures
        le_to_nat(nat_to_le(v, n)) == v,
{
    lemma_le_roundtrip(v, n);
    lemma_pow256_pos(n);
    assert(v % pow256(n) == v) by (nonlinear_arith)
        requires
            v < pow256(n),
            pow256(n) >= 1,
    ;
}

/// The value of `n` bytes is below `256^n`.
pub proof fn lemma_le_to_nat_bound(s: Seq<u8>)
    ensures
        le_to_nat(s) < pow256(s.len()),
    decreases s.len(),
{
    if s.len() > 0 {
        lemma_le_to_nat_bound(s.drop_first());
        let p = pow256((s.len() - 1) as nat);
        assert(s[0] + 256 * le_to_nat(s.drop_first()) < 256 * p) by (nonlinear_arith)
            requires
                le_to_nat(s.drop_first()) < p,
                s[0] < 256,
        ;
    }
}



/// Concatenation of byte sequences associates.
pub proof fn lemma_add_assoc<A>(a: Seq<A>, b: Seq<A>, c: Seq<A>)
    ensures
        a + b + c == a + (b + c),
{
    assert(a + b + c =~= a + (b + c));
}

/// An empty tail adds nothing.
pub proof fn lemma_add_empty<A>(a: Seq<A>)
    ensures
        a + Seq::<A>::empty() == a,
{
    assert(a + Seq::<A>::empty() =~= a);
}

/// The length of a little-endian writing, available wherever one
/// appears.
pub broadcast proof fn lemma_nat_to_le_len_auto(v: nat, n: nat)
    ensures
        #[trigger] nat_to_le(v, n).len() == n,
{
    lemma_nat_to_le_len(v, n);
}

/// One more byte extends a little-endian writing at the high end.
pub proof fn lemma_nat_to_le_snoc(v: nat, n: nat)
    ensures
        nat_to_le(v, n + 1) =~= nat_to_le(v, n).push(((v / pow256(n)) % 256) as u8),
    decreases n,
{
    lemma_nat_to_le_len(v, n);
    lemma_nat_to_le_len(v, n + 1);
    if n == 0 {
        assert(v / 1 == v) by (nonlinear_arith);
    } else {
        lemma_nat_to_le_snoc(v / 256, (n - 1) as nat);
        lemma_pow256_pos((n - 1) as nat);
        assert((v / 256) / pow256((n - 1) as nat) == v / (256 * pow256((n - 1) as nat)))
            by (nonlinear_arith)
            requires
                pow256((n - 1) as nat) >= 1,
        ;
        assert forall|i: int| 0 <= i < n + 1 implies #[trigger] nat_to_le(v, n + 1)[i] == nat_to_le(
            v,
            n,
        ).push(((v / pow256(n)) % 256) as u8)[i] by {
            if i > 0 {
                assert(nat_to_le(v / 256, n)[i - 1] == nat_to_le(v / 256, (n - 1) as nat).push(
                    (((v / 256) / pow256((n - 1) as nat)) % 256) as u8,
                )[i - 1]);
            }
        }
    }
}




/// `pow256` at the sizes the numeric types use, as literals.
pub proof fn lemma_pow256_values()
    ensures
        pow256(0) == 1,
        pow256(1) == 0x100,
        pow256(2) == 0x1_0000,
        pow256(3) == 0x100_0000,
        pow256(4) == 0x1_0000_0000,
        pow256(8) == 0x1_0000_0000_0000_0000,
        pow256(15) == 0x1000000_00000000_00000000_00000000,
        pow256(16) == 0x100000000_00000000_00000000_00000000,
{
    reveal_with_fuel(pow256, 17);
    assert(pow256(0) == 1);
    assert(pow256(1) == 0x100);
    assert(pow256(2) == 0x1_0000);
    assert(pow256(3) == 0x100_0000);
    assert(pow256(4) == 0x1_0000_0000);
    assert(pow256(5) == 0x100_0000_0000);
    assert(pow256(6) == 0x1_0000_0000_0000);
    assert(pow256(7) == 0x100_0000_0000_0000);
    assert(pow256(8) == 0x1_0000_0000_0000_0000);
    assert(pow256(9) == 0x100_0000_0000_0000_0000);
    assert(pow256(10) == 0x1_0000_0000_0000_0000_0000);
    assert(pow256(11) == 0x100_0000_0000_0000_0000_0000);
    assert(pow256(12) == 0x1_0000_0000_0000_0000_0000_0000);
    assert(pow256(13) == 0x100_0000_0000_0000_0000_0000_0000);
    assert(pow256(14) == 0x1_0000_0000_0000_0000_0000_0000_0000);
    assert(pow256(15) == 0x100_0000_0000_0000_0000_0000_0000_0000);
    assert(pow256(16) == 0x1_0000_0000_0000_0000_0000_0000_0000_0000);
}

/// Larger byte counts hold no fewer values.
pub proof fn lemma_pow256_mono(a: nat, b: nat)
    requires
        a <= b,
    ensures
        pow256(a) <= pow256(b),
    decreases b,
{
    if a < b {
        lemma_pow256_mono(a, (b - 1) as nat);
        lemma_pow256_pos((b - 1) as nat);
    }
}

/// The magnitude of an integer.
pub open spec fn int_abs(a: int) -> nat {
    if a >= 0 {
        a as nat
    } else {
        (-a) as nat
    }
}

/// Division that rounds towards zero, as machine division does.
pub open spec fn trunc_div_int(a: int, b: int) -> int {
    if (a < 0) != (b < 0) {
        -((int_abs(a) / int_abs(b)) as int)
    } else {
        (int_abs(a) / int_abs(b)) as int
    }
}

/// The remainder that pairs with `trunc_div_int`: it has the dividend's
/// sign.
pub open spec fn trunc_rem_int(a: int, b: int) -> int {
    if a < 0 {
        -((int_abs(a) % int_abs(b)) as int)
    } else {
        (int_abs(a) % int_abs(b)) as int
    }
}

/// `v mod 256^n`, as the nonnegative representative.
pub open spec fn euc_mod_pow(v: int, n: nat) -> nat {
    (v % (pow256(n) as int)) as nat
}

/// An integer folded into the widest signed type's range by its bit
/// pattern.
pub open spec fn clip_i128(a: int) -> int {
    if a > i128::MAX {
        a - 0x1_0000_0000_0000_0000_0000_0000_0000_0000
    } else if a < i128::MIN {
        a + 0x1_0000_0000_0000_0000_0000_0000_0000_0000
    } else {
        a
    }
}

/// Shifting by a whole multiple of the modulus changes no residue.
pub proof fn lemma_int_mod_multiple(a: int, m: int, k: int)
    requires
        m >= 1,
    ensures
        (a + k * m) % m == a % m,
{
    let q = a / m;
    let r = a % m;
    assert(a == q * m + r && 0 <= r < m) by (nonlinear_arith)
        requires
            m >= 1,
            q == a / m,
            r == a % m,
    ;
    assert(a + k * m == (q + k) * m + r) by (nonlinear_arith)
        requires
            a == q * m + r,
    ;
    assert((a + k * m) % m == r) by (nonlinear_arith)
        requires
            a + k * m == (q + k) * m + r,
            0 <= r < m,
            m >= 1,
    ;
}

} // verus!

