//! Aggregates over a contribution series: sum, peak, active days and runs.
use vstd::prelude::*;

verus! {

/// Sum of all counts.
pub open spec fn total_of(s: Seq<u32>) -> int
    decreases s.len(),
{
    if s.len() == 0 {
        0
    } else {
        total_of(s.drop_last()) + s.last()
    }
}

/// Largest count, 0 for an empty series.
pub open spec fn peak_of(s: Seq<u32>) -> int
    decreases s.len(),
{
    if s.len() == 0 {
        0
    } else if s.last() > peak_of(s.drop_last()) {
        s.last() as int
    } else {
        peak_of(s.drop_last())
    }
}

/// Number of entries greater than zero.
pub open spec fn active_of(s: Seq<u32>) -> nat
    decreases s.len(),
{
    if s.len() == 0 {
        0
    } else {
        active_of(s.drop_last()) + if s.last() > 0 { 1nat } else { 0nat }
    }
}

/// Length of the run of entries greater than zero that ends the series.
pub open spec fn run_at_end(s: Seq<u32>) -> nat
    decreases s.len(),
{
    if s.len() == 0 {
        0
    } else if s.last() > 0 {
        run_at_end(s.drop_last()) + 1
    } else {
        0
    }
}

/// Length of the longest run of consecutive entries greater than zero.
pub open spec fn longest_run(s: Seq<u32>) -> nat
    decreases s.len(),
{
    if s.len() == 0 {
        0
    } else if run_at_end(s) > longest_run(s.drop_last()) {
        run_at_end(s)
    } else {
        longest_run(s.drop_last())
    }
}

/// The prefix of length `i + 1` is the prefix of length `i` followed by `s[i]`.
pub proof fn lemma_prefix_step(s: Seq<u32>, i: int)
    requires
        0 <= i < s.len(),
    ensures
        s.subrange(0, i + 1).drop_last() == s.subrange(0, i),
        s.subrange(0, i + 1).last() == s[i],
{
    assert(s.subrange(0, i + 1).drop_last() =~= s.subrange(0, i));
}

/// A sum never exceeds the length times the largest `u32`.
pub proof fn lemma_total_bounds(s: Seq<u32>)
    ensures
        0 <= total_of(s) <= s.len() * 0xffff_ffff,
    decreases s.len(),
{
    if s.len() > 0 {
        lemma_total_bounds(s.drop_last());
    }
}

/// Runs and counts of active entries never exceed the length.
pub proof fn lemma_run_bounds(s: Seq<u32>)
    ensures
        run_at_end(s) <= longest_run(s),
        longest_run(s) <= s.len(),
        active_of(s) <= s.len(),
        run_at_end(s) <= active_of(s),
    decreases s.len(),
{
    if s.len() > 0 {
        lemma_run_bounds(s.drop_last());
    }
}

/// Sum of all counts, exact.
pub fn total_contributions(s: &[u32]) -> (r: u128)
    ensures
        r == total_of(s@),
{
    let mut total: u128 = 0;
    let mut i: usize = 0;
    while i < s.len()
        invariant
            i <= s.len(),
            total == total_of(s@.subrange(0, i as int)),
        decreases s.len() - i,
    {
        proof {
            lemma_prefix_step(s@, i as int);
            lemma_total_bounds(s@.subrange(0, i as int));
        }
        total = total + s[i] as u128;
        i = i + 1;
    }
    proof {
        assert(s@.subrange(0, s.len() as int) =~= s@);
    }
    total
}

/// Largest count, 0 for an empty series.
pub fn peak_contributions(s: &[u32]) -> (r: u32)
    ensures
        r == peak_of(s@),
{
    let mut peak: u32 = 0;
    let mut i: usize = 0;
    while i < s.len()
        invariant
            i <= s.len(),
            peak == peak_of(s@.subrange(0, i as int)),
        decreases s.len() - i,
    {
        proof {
            lemma_prefix_step(s@, i as int);
        }
        if s[i] > peak {
            peak = s[i];
        }
        i = i + 1;
    }
    proof {
        assert(s@.subrange(0, s.len() as int) =~= s@);
    }
    peak
}

/// Number of entries greater than zero.
pub fn count_active_days(s: &[u32]) -> (r: usize)
    ensures
        r == active_of(s@),
{
    let mut active: usize = 0;
    let mut i: usize = 0;
    while i < s.len()
        invariant
            i <= s.len(),
            active == active_of(s@.subrange(0, i as int)),
        decreases s.len() - i,
    {
        proof {
            lemma_prefix_step(s@, i as int);
            lemma_run_bounds(s@.subrange(0, i as int));
        }
        if s[i] > 0 {
            active = active + 1;
        }
        i = i + 1;
    }
    proof {
        assert(s@.subrange(0, s.len() as int) =~= s@);
    }
    active
}

/// Length of the longest run of consecutive entries greater than zero.
pub fn calculate_longest_streak(s: &[u32]) -> (r: usize)
    ensures
        r == longest_run(s@),
{
    let mut longest: usize = 0;
    let mut current: usize = 0;
    let mut i: usize = 0;
    while i < s.len()
        invariant
            i <= s.len(),
            current == run_at_end(s@.subrange(0, i as int)),
            longest == longest_run(s@.subrange(0, i as int)),
        decreases s.len() - i,
    {
        proof {
            lemma_prefix_step(s@, i as int);
            lemma_run_bounds(s@.subrange(0, i as int));
        }
        if s[i] > 0 {
            current = current + 1;
            if current > longest {
                longest = current;
            }
        } else {
            current = 0;
        }
        i = i + 1;
    }
    proof {
        assert(s@.subrange(0, s.len() as int) =~= s@);
    }
    longest
}

/// The longest streak is at most the number of days, and it is 0 exactly
/// when no day is active.
pub proof fn lemma_longest_streak_law(s: Seq<u32>)
    ensures
        longest_run(s) <= s.len(),
        longest_run(s) == 0 <==> forall|i: int| 0 <= i < s.len() ==> s[i] == 0,
    decreases s.len(),
{
    lemma_run_bounds(s);
    if s.len() > 0 {
        let p = s.drop_last();
        lemma_longest_streak_law(p);
        if longest_run(s) == 0 {
            assert forall|i: int| 0 <= i < s.len() implies s[i] == 0 by {
                if i < s.len() - 1 {
                    assert(p[i] == s[i]);
                }
            }
        }
        if forall|i: int| 0 <= i < s.len() ==> s[i] == 0 {
            assert forall|i: int| 0 <= i < p.len() implies p[i] == 0 by {
                assert(p[i] == s[i]);
            }
            assert(s[s.len() - 1] == 0);
        }
    }
}

} // verus!
