use vstd::prelude::*;

verus! {

/// The total of a sequence of bin counts.
pub open spec fn sum_counts(s: Seq<u64>) -> nat
    decreases s.len(),
{
    if s.len() == 0 {
        0
    } else {
        sum_counts(s.drop_last()) + s.last() as nat
    }
}

/// The total of the first `j` counts is at most `j` times the largest `u64`.
proof fn lemma_prefix_sum_bound(s: Seq<u64>, j: int)
    requires
        0 <= j <= s.len(),
    ensures
        sum_counts(s.take(j)) <= j * u64::MAX,
    decreases j,
{
    if j > 0 {
        assert(s.take(j).drop_last() =~= s.take(j - 1));
        lemma_prefix_sum_bound(s, j - 1);
    }
}

/// Each count is at most the total: a histogram whose total is zero has
/// only empty bins.
pub proof fn lemma_count_le_total(s: Seq<u64>, i: int)
    requires
        0 <= i < s.len(),
    ensures
        s[i] <= sum_counts(s),
    decreases s.len(),
{
    if i < s.len() - 1 {
        lemma_count_le_total(s.drop_last(), i);
    }
}

/// The sum of all bin counts, exact: a `u128` holds the total of any
/// slice of `u64` counts.
pub fn total_count(bins: &[u64]) -> (r: u128)
    ensures
        r == sum_counts(bins@),
{
    let mut total: u128 = 0;
    let mut i: usize = 0;
    while i < bins.len()
        invariant
            0 <= i <= bins@.len(),
            total == sum_counts(bins@.take(i as int)),
        decreases bins@.len() - i,
    {
        proof {
            lemma_prefix_sum_bound(bins@, i as int);
            assert(bins@.take(i + 1).drop_last() =~= bins@.take(i as int));
            assert((i as int) * (u64::MAX as int) + (u64::MAX as int) < u128::MAX) by (nonlinear_arith)
                requires
                    i < usize::MAX,
            ;
        }
        total = total + bins[i] as u128;
        i = i + 1;
    }
    assert(bins@.take(bins@.len() as int) =~= bins@);
    total
}

/// The count of one bin together with the total of all bins, from which
/// the bin's multinomial variance `count * (1 - count / total)` follows.
pub fn count_and_total(bins: &[u64], bin: usize) -> (r: (u64, u128))
    requires
        bin < bins@.len(),
    ensures
        r.0 == bins@[bin as int],
        r.1 == sum_counts(bins@),
        r.0 <= r.1,
{
    proof {
        lemma_count_le_total(bins@, bin as int);
    }
    (bins[bin], total_count(bins))
}

} // verus!
