//! Unbounded natural numbers as little-endian vectors of 32-bit limbs, with
//! just what exact comparison of products and powers needs.
use vstd::prelude::*;

verus! {

/// `b` raised to `e`.
pub open spec fn npow(b: nat, e: nat) -> nat
    decreases e,
{
    if e == 0 {
        1
    } else {
        npow(b, (e - 1) as nat) * b
    }
}

/// The limb base.
pub open spec fn limb_base() -> nat {
    0x1_0000_0000
}

/// Value of a little-endian limb sequence.
pub open spec fn limbs_val(s: Seq<u32>) -> nat
    decreases s.len(),
{
    if s.len() == 0 {
        0
    } else {
        limbs_val(s.drop_last()) + s.last() as nat * npow(limb_base(), (s.len() - 1) as nat)
    }
}

/// Appending a limb adds it at the next power of the base.
proof fn lemma_push(s: Seq<u32>, x: u32)
    ensures
        limbs_val(s.push(x)) == limbs_val(s) + x as nat * npow(limb_base(), s.len()),
{
    assert(s.push(x).drop_last() =~= s);
}

/// A value of `n` limbs is below the base to the `n`.
proof fn lemma_val_bound(s: Seq<u32>)
    ensures
        limbs_val(s) < npow(limb_base(), s.len()),
    decreases s.len(),
{
    if s.len() > 0 {
        let n = (s.len() - 1) as nat;
        lemma_val_bound(s.drop_last());
        let p = npow(limb_base(), n);
        let v = limbs_val(s.drop_last());
        let x = s.last() as nat;
        assert(v + x * p < p * limb_base()) by (nonlinear_arith)
            requires
                v < p,
                x < limb_base(),
                limb_base() == 0x1_0000_0000,
        ;
    }
}

/// Multiplies a limb number by a 64-bit factor.
pub fn mul_small(a: &Vec<u32>, f: u64) -> (r: Vec<u32>)
    ensures
        limbs_val(r@) == limbs_val(a@) * f,
{
    let mut r: Vec<u32> = Vec::new();
    let mut carry: u64 = 0;
    let mut i: usize = 0;
    proof {
        assert(limbs_val(a@.subrange(0, 0)) == 0);
        assert(limbs_val(r@) == 0);
        assert(npow(limb_base(), 0) == 1);
    }
    while i < a.len()
        invariant
            i <= a.len(),
            r@.len() == i,
            limbs_val(r@) + carry as nat * npow(limb_base(), i as nat) == limbs_val(
                a@.subrange(0, i as int),
            ) * f,
        decreases a.len() - i,
    {
        let ghost p = npow(limb_base(), i as nat);
        let ghost old_r = r@;
        let ghost old_carry = carry;
        let ai = a[i];
        assert(ai as u128 * f as u128 <= 0xffff_ffff * 0xffff_ffff_ffff_ffffu128) by (nonlinear_arith)
            requires
                ai <= 0xffff_ffff,
                f <= 0xffff_ffff_ffff_ffffu64,
        ;
        let x: u128 = ai as u128 * f as u128 + carry as u128;
        let lo: u32 = (x % 0x1_0000_0000) as u32;
        let hi: u64 = (x / 0x1_0000_0000) as u64;
        r.push(lo);
        carry = hi;
        i = i + 1;
        proof {
            lemma_push(old_r, lo);
            assert(a@.subrange(0, i as int).drop_last() =~= a@.subrange(0, i - 1));
            assert(npow(limb_base(), i as nat) == p * limb_base());
            let pre = limbs_val(a@.subrange(0, i - 1));
            assert(x == lo + hi * limb_base());
            assert(limbs_val(old_r) + lo * p + hi * (p * limb_base()) == (pre + ai * p) * f)
                by (nonlinear_arith)
                requires
                    limbs_val(old_r) + old_carry * p == pre * f,
                    x == lo + hi * limb_base(),
                    x == ai * f + old_carry,
            ;
        }
    }
    proof {
        assert(a@.subrange(0, a.len() as int) =~= a@);
    }
    let ghost n = r@.len();
    let ghost before = r@;
    let lo: u32 = (carry % 0x1_0000_0000) as u32;
    let hi: u32 = (carry / 0x1_0000_0000) as u32;
    r.push(lo);
    r.push(hi);
    proof {
        lemma_push(before, lo);
        lemma_push(before.push(lo), hi);
        let p = npow(limb_base(), n);
        assert(npow(limb_base(), n + 1) == p * limb_base());
        assert(lo * p + hi * (p * limb_base()) == carry * p) by (nonlinear_arith)
            requires
                carry == lo + hi * limb_base(),
        ;
    }
    r
}

/// The number `x`.
pub fn from_u64(x: u64) -> (r: Vec<u32>)
    ensures
        limbs_val(r@) == x,
{
    let mut one: Vec<u32> = Vec::new();
    proof {
        lemma_push(one@, 1);
        assert(npow(limb_base(), 0) == 1);
    }
    one.push(1);
    proof {
        assert(limbs_val(Seq::<u32>::empty()) == 0);
        assert(limbs_val(one@) == 1);
    }
    mul_small(&one, x)
}

/// Multiplies `a` by `f` raised to `e`.
pub fn mul_pow(a: &Vec<u32>, f: u64, e: u64) -> (r: Vec<u32>)
    ensures
        limbs_val(r@) == limbs_val(a@) * npow(f as nat, e as nat),
{
    let mut r = mul_small(a, 1);
    let mut k: u64 = 0;
    while k < e
        invariant
            k <= e,
            limbs_val(r@) == limbs_val(a@) * npow(f as nat, k as nat),
        decreases e - k,
    {
        let ghost before = limbs_val(r@);
        r = mul_small(&r, f);
        k = k + 1;
        proof {
            assert(before * f == limbs_val(a@) * npow(f as nat, k as nat)) by (nonlinear_arith)
                requires
                    before == limbs_val(a@) * npow(f as nat, (k - 1) as nat),
                    npow(f as nat, k as nat) == npow(f as nat, (k - 1) as nat) * f,
            ;
        }
    }
    r
}

/// Whether `a < b`, by subtraction with borrow.
pub fn less_than(a: &Vec<u32>, b: &Vec<u32>) -> (r: bool)
    ensures
        r == (limbs_val(a@) < limbs_val(b@)),
{
    let n: usize = if a.len() > b.len() { a.len() } else { b.len() };
    let mut borrow: u64 = 0;
    let ghost mut diff: int = 0;
    let mut i: usize = 0;
    while i < n
        invariant
            n == if a.len() > b.len() { a.len() } else { b.len() },
            i <= n,
            borrow <= 1,
            0 <= diff < npow(limb_base(), i as nat),
            limbs_val(a@.subrange(0, if i < a.len() { i as int } else { a.len() as int }))
                - limbs_val(b@.subrange(0, if i < b.len() { i as int } else { b.len() as int }))
                == diff - borrow * npow(limb_base(), i as nat),
        decreases n - i,
    {
        let x: u64 = if i < a.len() { a[i] as u64 } else { 0 };
        let y: u64 = if i < b.len() { b[i] as u64 } else { 0 };
        let ghost p = npow(limb_base(), i as nat);
        let ghost old_borrow = borrow;
        proof {
            limb_step(a@, i as int);
            limb_step(b@, i as int);
            assert(npow(limb_base(), (i + 1) as nat) == p * limb_base());
        }
        if x >= y + borrow {
            let d = x - y - borrow;
            proof {
                assert(diff + d * p < p * limb_base()) by (nonlinear_arith)
                    requires
                        diff < p,
                        d < limb_base(),
                ;
                diff = diff + d * p;
            }
            borrow = 0;
        } else {
            let d = x + 0x1_0000_0000 - y - borrow;
            proof {
                assert(diff + d * p < p * limb_base()) by (nonlinear_arith)
                    requires
                        diff < p,
                        d < limb_base(),
                ;
                assert(0 <= d * p) by (nonlinear_arith)
                    requires
                        0 <= d,
                        0 <= p,
                ;
                assert((x - y - old_borrow) * p == d * p - p * limb_base()) by (nonlinear_arith)
                    requires
                        d == x + limb_base() - y - old_borrow,
                ;
                diff = diff + d * p;
            }
            borrow = 1;
        }
        i = i + 1;
        proof {
            assert((x - y - old_borrow) * p == x * p - y * p - old_borrow * p) by (nonlinear_arith);
        }
    }
    proof {
        assert(a@.subrange(0, a.len() as int) =~= a@);
        assert(b@.subrange(0, b.len() as int) =~= b@);
    }
    borrow == 1
}

/// Value of the first `i + 1` limbs (or all of them, once past the end) in
/// terms of the first `i`.
proof fn limb_step(s: Seq<u32>, i: int)
    requires
        0 <= i,
    ensures
        limbs_val(s.subrange(0, if i + 1 < s.len() { i + 1 } else { s.len() as int }))
            == limbs_val(s.subrange(0, if i < s.len() { i } else { s.len() as int })) + (if i
            < s.len() {
            s[i] as nat
        } else {
            0nat
        }) * npow(limb_base(), i as nat),
{
    if i < s.len() {
        assert(s.subrange(0, i + 1).drop_last() =~= s.subrange(0, i));
    }
}

} // verus!
