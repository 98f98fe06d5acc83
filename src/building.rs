//! Building heights: a count scaled against the series maximum onto a
//! target height, by one of four curves, with exact rounding.
use vstd::prelude::*;
use crate::bignum::{npow, from_u64, mul_small, mul_pow, less_than};
use crate::stats::peak_of;
use crate::text::{lower_of, lowercase, text_is};

verus! {

/// The scaling curve applied to `count / max`.
#[derive(Clone, Copy, Debug, PartialEq, Eq, Structural)]
pub enum ScaleMode {
    /// The ratio itself.
    Linear,
    /// Square root of the ratio.
    Sqrt,
    /// `ln(1 + count) / ln(1 + max)`.
    Log,
    /// The ratio raised to 1.2 (also the fallback for unknown names).
    Dramatic,
}

/// The curve a lowercase scale name selects.
pub open spec fn scale_mode_of(lower: Seq<char>) -> ScaleMode {
    if lower == "linear"@ {
        ScaleMode::Linear
    } else if lower == "sqrt"@ {
        ScaleMode::Sqrt
    } else if lower == "log"@ {
        ScaleMode::Log
    } else {
        ScaleMode::Dramatic
    }
}

/// The curve an already lowercased scale name selects.
pub fn scale_mode(lower: &str) -> (r: ScaleMode)
    ensures
        r == scale_mode_of(lower@),
{
    if text_is(lower, "linear") {
        ScaleMode::Linear
    } else if text_is(lower, "sqrt") {
        ScaleMode::Sqrt
    } else if text_is(lower, "log") {
        ScaleMode::Log
    } else {
        ScaleMode::Dramatic
    }
}

/// `h - 1/2 <= t * curve(c, m)` for `h >= 1`, written over integers: the
/// curve value times `t` rounds to `h` or more.
pub open spec fn reaches(mode: ScaleMode, c: nat, m: nat, t: nat, h: nat) -> bool {
    let a = (2 * h - 1) as nat;
    match mode {
        ScaleMode::Linear => a * m <= 2 * t * c,
        ScaleMode::Sqrt => npow(a, 2) * m <= 4 * npow(t, 2) * c,
        ScaleMode::Dramatic => npow(a, 5) * npow(m, 6) <= 32 * npow(t, 5) * npow(c, 6),
        ScaleMode::Log => npow(m + 1, a) <= npow(c + 1, 2 * t),
    }
}

/// The largest `h <= k` that the rounded curve value reaches (0 if none):
/// `round(t * curve(c, m))`, capped at `k`.
pub open spec fn rounded(mode: ScaleMode, c: nat, m: nat, t: nat, k: nat) -> nat
    decreases k,
{
    if k == 0 {
        0
    } else if reaches(mode, c, m, t, k) {
        k
    } else {
        rounded(mode, c, m, t, (k - 1) as nat)
    }
}

/// Least height of a building whose count is positive.
pub open spec fn min_height(mode: ScaleMode) -> nat {
    match mode {
        ScaleMode::Dramatic => 2,
        _ => 1,
    }
}

/// Height of a day with count `c` when the series maximum is `m` and the
/// target height `t`: 0 if any of them is 0; else `t * curve(c / m)`
/// rounded half up, at most `t`, and at least the mode's least height.
pub open spec fn scaled_height(c: nat, m: nat, t: nat, mode: ScaleMode) -> nat {
    if m == 0 || c == 0 || t == 0 {
        0
    } else if rounded(mode, c, m, t, t) < min_height(mode) {
        min_height(mode)
    } else {
        rounded(mode, c, m, t, t)
    }
}

/// Powers grow with the base.
pub proof fn lemma_npow_base_mono(a: nat, b: nat, e: nat)
    requires
        a <= b,
    ensures
        npow(a, e) <= npow(b, e),
    decreases e,
{
    if e > 0 {
        lemma_npow_base_mono(a, b, (e - 1) as nat);
        let x = npow(a, (e - 1) as nat);
        let y = npow(b, (e - 1) as nat);
        assert(x * a <= y * b) by (nonlinear_arith)
            requires
                x <= y,
                a <= b,
        ;
    }
}

/// Powers of a positive base grow with the exponent.
pub proof fn lemma_npow_exp_mono(b: nat, e1: nat, e2: nat)
    requires
        b >= 1,
        e1 <= e2,
    ensures
        npow(b, e1) <= npow(b, e2),
    decreases e2,
{
    if e2 > e1 {
        lemma_npow_exp_mono(b, e1, (e2 - 1) as nat);
        let x = npow(b, (e2 - 1) as nat);
        assert(x <= x * b) by (nonlinear_arith)
            requires
                b >= 1,
        ;
    }
}

/// A smaller positive height is reached whenever a larger one is.
pub proof fn lemma_reaches_antitone(mode: ScaleMode, c: nat, m: nat, t: nat, a: nat, b: nat)
    requires
        1 <= a <= b,
        reaches(mode, c, m, t, b),
    ensures
        reaches(mode, c, m, t, a),
{
    let x = (2 * a - 1) as nat;
    let y = (2 * b - 1) as nat;
    match mode {
        ScaleMode::Linear => {
            assert(x * m <= y * m) by (nonlinear_arith)
                requires
                    x <= y,
            ;
        },
        ScaleMode::Sqrt => {
            lemma_npow_base_mono(x, y, 2);
            let (p, q) = (npow(x, 2), npow(y, 2));
            assert(p * m <= q * m) by (nonlinear_arith)
                requires
                    p <= q,
            ;
        },
        ScaleMode::Dramatic => {
            lemma_npow_base_mono(x, y, 5);
            let (p, q, z) = (npow(x, 5), npow(y, 5), npow(m, 6));
            assert(p * z <= q * z) by (nonlinear_arith)
                requires
                    p <= q,
            ;
        },
        ScaleMode::Log => {
            lemma_npow_exp_mono(m + 1, x, y);
        },
    }
}

/// A larger count reaches every height that a smaller one reaches.
pub proof fn lemma_reaches_count_mono(
    mode: ScaleMode,
    c1: nat,
    c2: nat,
    m: nat,
    t: nat,
    h: nat,
)
    requires
        c1 <= c2,
        reaches(mode, c1, m, t, h),
    ensures
        reaches(mode, c2, m, t, h),
{
    match mode {
        ScaleMode::Linear => {
            assert(2 * t * c1 <= 2 * t * c2) by (nonlinear_arith)
                requires
                    c1 <= c2,
            ;
        },
        ScaleMode::Sqrt => {
            let p = npow(t, 2);
            assert(4 * p * c1 <= 4 * p * c2) by (nonlinear_arith)
                requires
                    c1 <= c2,
            ;
        },
        ScaleMode::Dramatic => {
            lemma_npow_base_mono(c1, c2, 6);
            let (p, x, y) = (npow(t, 5), npow(c1, 6), npow(c2, 6));
            assert(32 * p * x <= 32 * p * y) by (nonlinear_arith)
                requires
                    x <= y,
            ;
        },
        ScaleMode::Log => {
            lemma_npow_base_mono(c1 + 1, c2 + 1, 2 * t);
        },
    }
}

/// `rounded` is at least every height up to `k` that is reached.
proof fn lemma_rounded_at_least(mode: ScaleMode, c: nat, m: nat, t: nat, k: nat, h: nat)
    requires
        1 <= h <= k,
        reaches(mode, c, m, t, h),
    ensures
        h <= rounded(mode, c, m, t, k),
    decreases k,
{
    if k > h && !reaches(mode, c, m, t, k) {
        lemma_rounded_at_least(mode, c, m, t, (k - 1) as nat, h);
    }
}

/// `rounded` is reached (or 0) and at most `k`.
pub proof fn lemma_rounded_reached(mode: ScaleMode, c: nat, m: nat, t: nat, k: nat)
    ensures
        rounded(mode, c, m, t, k) <= k,
        rounded(mode, c, m, t, k) == 0 || reaches(mode, c, m, t, rounded(mode, c, m, t, k)),
    decreases k,
{
    if k > 0 && !reaches(mode, c, m, t, k) {
        lemma_rounded_reached(mode, c, m, t, (k - 1) as nat);
    }
}

/// When `lo` is reached (or 0) and nothing in `(lo, k]` is, `rounded` is `lo`.
proof fn lemma_rounded_is(mode: ScaleMode, c: nat, m: nat, t: nat, k: nat, lo: nat)
    requires
        lo <= k,
        lo == 0 || reaches(mode, c, m, t, lo),
        forall|j: nat| lo < j <= k ==> !#[trigger] reaches(mode, c, m, t, j),
    ensures
        rounded(mode, c, m, t, k) == lo,
    decreases k,
{
    if k > lo {
        lemma_rounded_is(mode, c, m, t, (k - 1) as nat, lo);
    }
}

/// Scaled heights never decrease as the count grows.
pub proof fn lemma_scaled_height_monotone(c1: nat, c2: nat, m: nat, t: nat, mode: ScaleMode)
    requires
        c1 <= c2,
    ensures
        scaled_height(c1, m, t, mode) <= scaled_height(c2, m, t, mode),
{
    if m > 0 && c1 > 0 && t > 0 {
        let r1 = rounded(mode, c1, m, t, t);
        lemma_rounded_reached(mode, c1, m, t, t);
        if r1 > 0 {
            lemma_reaches_count_mono(mode, c1, c2, m, t, r1);
            lemma_rounded_at_least(mode, c2, m, t, t, r1);
        }
    }
}

/// A zero count, or a zero maximum, gives height 0 in every mode.
pub proof fn lemma_scaled_height_zero(c: nat, m: nat, t: nat, mode: ScaleMode)
    requires
        c == 0 || m == 0,
    ensures
        scaled_height(c, m, t, mode) == 0,
{
}

/// Whether height `h >= 1` is reached, by exact comparison of products.
fn reaches_exec(mode: ScaleMode, c: u32, m: u32, t: u32, h: u32) -> (r: bool)
    requires
        h >= 1,
    ensures
        r == reaches(mode, c as nat, m as nat, t as nat, h as nat),
{
    let a: u64 = 2 * h as u64 - 1;
    let one = from_u64(1);
    match mode {
        ScaleMode::Linear => {
            let lhs = mul_small(&from_u64(a), m as u64);
            let rhs = mul_small(&mul_small(&from_u64(2), t as u64), c as u64);
            !less_than(&rhs, &lhs)
        },
        ScaleMode::Sqrt => {
            let lhs = mul_small(&mul_pow(&one, a, 2), m as u64);
            let rhs = mul_small(&mul_pow(&from_u64(4), t as u64, 2), c as u64);
            !less_than(&rhs, &lhs)
        },
        ScaleMode::Dramatic => {
            let lhs = mul_pow(&mul_pow(&one, a, 5), m as u64, 6);
            let rhs = mul_pow(&mul_pow(&from_u64(32), t as u64, 5), c as u64, 6);
            !less_than(&rhs, &lhs)
        },
        ScaleMode::Log => {
            let lhs = mul_pow(&one, m as u64 + 1, a);
            let rhs = mul_pow(&one, c as u64 + 1, 2 * t as u64);
            !less_than(&rhs, &lhs)
        },
    }
}

/// Height for a count in a given mode, rounded exactly. The log curve
/// compares powers whose exponents grow with the target height, so its
/// cost grows with the target height too.
pub fn scale_height_in(
    contribution_count: u32,
    max_contributions: u32,
    target_height: u32,
    mode: ScaleMode,
) -> (r: u32)
    ensures
        r == scaled_height(
            contribution_count as nat,
            max_contributions as nat,
            target_height as nat,
            mode,
        ),
{
    if max_contributions == 0 || contribution_count == 0 || target_height == 0 {
        return 0;
    }
    let ghost (c, m, t) = (
        contribution_count as nat,
        max_contributions as nat,
        target_height as nat,
    );
    let mut lo: u32 = 0;
    let mut hi: u32 = target_height;
    while lo < hi
        invariant
            lo <= hi <= target_height,
            t == target_height,
            c == contribution_count,
            m == max_contributions,
            lo == 0 || reaches(mode, c, m, t, lo as nat),
            forall|j: nat| hi < j <= t ==> !#[trigger] reaches(mode, c, m, t, j),
        decreases hi - lo,
    {
        let mid: u32 = lo + (hi - lo - 1) / 2 + 1;
        if reaches_exec(mode, contribution_count, max_contributions, target_height, mid) {
            lo = mid;
        } else {
            proof {
                assert forall|j: nat| mid <= j <= t implies !#[trigger] reaches(mode, c, m, t, j) by {
                    if reaches(mode, c, m, t, j) {
                        lemma_reaches_antitone(mode, c, m, t, mid as nat, j);
                    }
                }
            }
            hi = mid - 1;
        }
    }
    proof {
        lemma_rounded_is(mode, c, m, t, t, lo as nat);
    }
    let least: u32 = match mode {
        ScaleMode::Dramatic => 2,
        _ => 1,
    };
    if lo < least {
        least
    } else {
        lo
    }
}

/// Height for a count; the scale name is matched without regard to case,
/// and an unknown name scales dramatically.
pub fn scale_height(
    contribution_count: u32,
    max_contributions: u32,
    target_height: u32,
    scale_name: &str,
) -> (r: u32)
    ensures
        r == scaled_height(
            contribution_count as nat,
            max_contributions as nat,
            target_height as nat,
            scale_mode_of(lower_of(scale_name@)),
        ),
{
    let lower = lowercase(scale_name);
    let mode = scale_mode(lower.as_str());
    scale_height_in(contribution_count, max_contributions, target_height, mode)
}

/// Largest count, or 1 for an empty series.
pub fn get_max_height(contributions: &[u32]) -> (r: u32)
    ensures
        r == if contributions@.len() == 0 {
            1
        } else {
            peak_of(contributions@)
        },
{
    if contributions.len() == 0 {
        1
    } else {
        crate::stats::peak_contributions(contributions)
    }
}

/// The height of every day, in a given mode.
pub fn building_heights_in(
    contributions: &[u32],
    max_contributions: u32,
    target_height: u32,
    mode: ScaleMode,
) -> (r: Vec<u32>)
    ensures
        r@.len() == contributions@.len(),
        forall|i: int|
            0 <= i < r@.len() ==> #[trigger] r@[i] == scaled_height(
                contributions@[i] as nat,
                max_contributions as nat,
                target_height as nat,
                mode,
            ),
{
    let mut heights: Vec<u32> = Vec::new();
    let mut i: usize = 0;
    while i < contributions.len()
        invariant
            i <= contributions.len(),
            heights@.len() == i,
            forall|j: int|
                0 <= j < i ==> #[trigger] heights@[j] == scaled_height(
                    contributions@[j] as nat,
                    max_contributions as nat,
                    target_height as nat,
                    mode,
                ),
        decreases contributions.len() - i,
    {
        heights.push(
            scale_height_in(contributions[i], max_contributions, target_height, mode),
        );
        i = i + 1;
    }
    heights
}

/// The height of every day; the scale name is matched as in `scale_height`.
pub fn compute_building_heights(
    contributions: &[u32],
    max_contributions: u32,
    target_height: u32,
    scale_name: &str,
) -> (r: Vec<u32>)
    ensures
        r@.len() == contributions@.len(),
        forall|i: int|
            0 <= i < r@.len() ==> #[trigger] r@[i] == scaled_height(
                contributions@[i] as nat,
                max_contributions as nat,
                target_height as nat,
                scale_mode_of(lower_of(scale_name@)),
            ),
{
    let lower = lowercase(scale_name);
    let mode = scale_mode(lower.as_str());
    building_heights_in(contributions, max_contributions, target_height, mode)
}

} // verus!
