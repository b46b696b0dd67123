use vstd::prelude::*;

verus! {

/// The number of observations that a running estimator has absorbed.
///
/// This is the integer part of a running mean/variance summary: it grows by
/// one with each observation and by the other side's count on a merge, and
/// it decides which divisor, if any, each variance estimate uses.
#[derive(Clone, Copy, Debug, PartialEq, Eq, Structural)]
pub struct SampleCount {
    n: u64,
}

impl View for SampleCount {
    type V = nat;

    closed spec fn view(&self) -> nat {
        self.n as nat
    }
}

impl SampleCount {
    /// A count of no observations.
    pub fn new() -> (r: SampleCount)
        ensures
            r@ == 0,
    {
        SampleCount { n: 0 }
    }

    /// The number of observations absorbed so far.
    pub fn len(&self) -> (r: u64)
        ensures
            r == self@,
    {
        self.n
    }

    /// Whether no observation has been absorbed.
    pub fn is_empty(&self) -> (r: bool)
        ensures
            r == (self@ == 0),
    {
        self.n == 0
    }

    /// Absorb one more observation; returns the new count, by which the
    /// running mean is updated.
    pub fn record(&mut self) -> (r: u64)
        requires
            old(self)@ < u64::MAX,
        ensures
            final(self)@ == old(self)@ + 1,
            r == final(self)@,
    {
        self.n = self.n + 1;
        self.n
    }

    /// Absorb the observations counted by `other`, which is left unchanged.
    pub fn merge(&mut self, other: &SampleCount)
        requires
            old(self)@ + other@ <= u64::MAX,
        ensures
            final(self)@ == old(self)@ + other@,
    {
        self.n = self.n + other.n;
    }

    /// The divisor of the unbiased sample variance: `n - 1`, or `None`
    /// below two observations, where the estimate is zero by convention.
    pub fn sample_divisor(&self) -> (r: Option<u64>)
        ensures
            r == (if self@ >= 2 {
                Some((self@ - 1) as u64)
            } else {
                None
            }),
    {
        if self.n < 2 {
            None
        } else {
            Some(self.n - 1)
        }
    }

    /// The divisor of the population variance: `n`, or `None` below two
    /// observations, where the estimate is zero by convention.
    pub fn population_divisor(&self) -> (r: Option<u64>)
        ensures
            r == (if self@ >= 2 {
                Some(self@ as u64)
            } else {
                None
            }),
    {
        if self.n < 2 {
            None
        } else {
            Some(self.n)
        }
    }

    /// The divisor of the standard error of the mean: `n`, or `None` when
    /// nothing was observed, where the error is zero.
    pub fn error_divisor(&self) -> (r: Option<u64>)
        ensures
            r == (if self@ >= 1 {
                Some(self@ as u64)
            } else {
                None
            }),
    {
        if self.n == 0 {
            None
        } else {
            Some(self.n)
        }
    }
}

/// Merging a count of no observations leaves a count unchanged: `merged`
/// is what `a.merge(&e)` leaves in `a`.
pub proof fn lemma_merge_empty_count(a: SampleCount, e: SampleCount, merged: SampleCount)
    requires
        e@ == 0,
        merged@ == a@ + e@,
    ensures
        merged == a,
{
}

/// Merging counts does not depend on the order: `b` merged into `a` and `a`
/// merged into `b` give the same count.
pub proof fn lemma_merge_count_commutative(
    a: SampleCount,
    b: SampleCount,
    ab: SampleCount,
    ba: SampleCount,
)
    requires
        ab@ == a@ + b@,
        ba@ == b@ + a@,
    ensures
        ab == ba,
{
}

/// Merging three counts does not depend on the grouping: `(a + b) + c`
/// and `a + (b + c)`, each built by `merge`, give the same count.
pub proof fn lemma_merge_count_associative(
    a: SampleCount,
    b: SampleCount,
    c: SampleCount,
    ab: SampleCount,
    ab_c: SampleCount,
    bc: SampleCount,
    a_bc: SampleCount,
)
    requires
        ab@ == a@ + b@,
        ab_c@ == ab@ + c@,
        bc@ == b@ + c@,
        a_bc@ == a@ + bc@,
    ensures
        ab_c == a_bc,
{
}

/// Counting the observations of a sequence in two parts, split anywhere,
/// and merging the two counts gives the count of the whole sequence: `left`,
/// `right` and `whole` come from one `record` per observation, starting
/// from `new`.
pub proof fn lemma_split_count<A>(
    s: Seq<A>,
    i: int,
    left: SampleCount,
    right: SampleCount,
    whole: SampleCount,
    merged: SampleCount,
)
    requires
        0 <= i <= s.len(),
        left@ == s.take(i).len(),
        right@ == s.skip(i).len(),
        whole@ == s.len(),
        merged@ == left@ + right@,
    ensures
        merged == whole,
{
}

} // verus!
