//! Bisection search for the largest value of a closed `u64` interval that a
//! monotonic predicate accepts. The predicate is evaluated externally, one
//! candidate at a time: the caller asks for the next candidate, tests it,
//! and reports acceptance or rejection until the bracket collapses.

use vstd::prelude::*;

verus! {

/// Error returned by [`Bisect::finish`] when the search has not yet
/// narrowed the bracket to a single value.
#[derive(Clone, Copy, Debug, PartialEq, Eq, Structural)]
pub struct ConvergenceError;

/// Live state of one boundary search: the sought boundary is known to lie
/// in the closed interval `[min, max]`.
#[derive(Debug)]
pub struct Bisect {
    min: u64,
    max: u64,
}

/// The candidate proposed for a bracket `[low, high]` with `low < high`:
/// the floor midpoint while the bracket is wider than one, and the upper
/// edge once the bracket has width exactly one. A 2-wide bracket therefore
/// first tests its upper edge, not a true midpoint; this asymmetry is part
/// of the searcher's definition.
pub open spec fn candidate(low: u64, high: u64) -> u64
    recommends
        low < high,
{
    if high - low > 1 {
        ((low + high) / 2) as u64
    } else {
        high
    }
}

/// For a non-empty step the candidate lies strictly above the lower edge
/// and at most at the upper edge, so both narrowing moves shrink the
/// bracket and keep it non-empty.
pub proof fn lemma_candidate_bounds(low: u64, high: u64)
    requires
        low < high,
    ensures
        low < candidate(low, high) <= high,
{
}

impl Bisect {
    /// Lower edge of the current bracket.
    pub closed spec fn low(&self) -> u64 {
        self.min
    }

    /// Upper edge of the current bracket.
    pub closed spec fn high(&self) -> u64 {
        self.max
    }

    /// Bracket invariant: the interval `[low, high]` is non-empty.
    pub open spec fn well_formed(&self) -> bool {
        self.low() <= self.high()
    }

    /// Start a search over the closed interval `[min, max]`.
    pub fn new(min: u64, max: u64) -> (r: Self)
        requires
            min <= max,
        ensures
            r.low() == min,
            r.high() == max,
            r.well_formed(),
    {
        Self { min, max }
    }

    /// The next candidate to test, or `None` once the search has converged
    /// (the bracket holds a single value).
    pub fn next(&self) -> (r: Option<u64>)
        requires
            self.well_formed(),
        ensures
            r is None <==> self.low() == self.high(),
            r matches Some(c) ==> c == candidate(self.low(), self.high()),
            r matches Some(c) ==> self.low() < c <= self.high(),
    {
        if self.min == self.max {
            None
        } else {
            Some(self.with())
        }
    }

    /// Record that the pending candidate violated the predicate: the upper
    /// edge drops to just below the candidate. Only legal while a candidate
    /// is pending, that is after a `next` that returned `Some`.
    pub fn reject(&mut self)
        requires
            old(self).well_formed(),
            old(self).low() < old(self).high(),
        ensures
            final(self).low() == old(self).low(),
            final(self).high() == candidate(old(self).low(), old(self).high()) - 1,
            final(self).well_formed(),
    {
        let c = self.with();
        self.max = c - 1;
    }

    /// Record that the pending candidate satisfied the predicate: the lower
    /// edge rises to the candidate. Only legal while a candidate is pending.
    pub fn accept(&mut self)
        requires
            old(self).well_formed(),
            old(self).low() < old(self).high(),
        ensures
            final(self).low() == candidate(old(self).low(), old(self).high()),
            final(self).high() == old(self).high(),
            final(self).well_formed(),
    {
        self.min = self.with();
    }

    /// The pending candidate for a non-collapsed bracket. The sum is formed
    /// in a widened integer type, so the midpoint of `[0, u64::MAX]` is
    /// computed without overflow.
    fn with(&self) -> (r: u64)
        requires
            self.well_formed(),
            self.low() < self.high(),
        ensures
            r == candidate(self.low(), self.high()),
            self.low() < r <= self.high(),
    {
        if self.max - self.min > 1 {
            let wide: u128 = self.min as u128 + self.max as u128;
            (wide / 2) as u64
        } else {
            self.max
        }
    }

    /// The discovered boundary, available exactly when the search has
    /// converged; asking earlier reports non-convergence.
    pub fn finish(&self) -> (r: Result<u64, ConvergenceError>)
        ensures
            r is Ok <==> self.low() == self.high(),
            r matches Ok(v) ==> v == self.low(),
    {
        if self.min == self.max {
            Ok(self.min)
        } else {
            Err(ConvergenceError)
        }
    }

    // ----- Getter & Setter

    /// Lower edge of the current bracket.
    pub fn min(&self) -> (r: u64)
        ensures
            r == self.low(),
    {
        self.min
    }

    /// Upper edge of the current bracket.
    pub fn max(&self) -> (r: u64)
        ensures
            r == self.high(),
    {
        self.max
    }
}

/// The value a search starting at bracket `[low, high]` converges to when
/// every candidate `c` is accepted exactly when `p(c)` holds: the fixed
/// narrowing steps of the searcher, folded to the end.
pub open spec fn search_outcome(low: u64, high: u64, p: spec_fn(u64) -> bool) -> u64
    decreases high - low,
{
    if low >= high {
        low
    } else {
        let c = candidate(low, high);
        if p(c) {
            search_outcome(c, high, p)
        } else {
            search_outcome(low, (c - 1) as u64, p)
        }
    }
}

/// Drive a whole search: starting from the bracket `[min, max]`, test each
/// proposed candidate and feed the outcome back until the bracket collapses.
/// `test` must implement a monotonic predicate whose threshold `boundary`
/// lies inside the starting bracket (it accepts a value exactly when the
/// value is at most `boundary`); the search then returns that threshold.
pub fn run_search<F: Fn(u64) -> bool>(
    min: u64,
    max: u64,
    test: F,
    Ghost(boundary): Ghost<u64>,
) -> (r: u64)
    requires
        min <= boundary <= max,
        forall|n: u64| #[trigger] call_requires(test, (n,)),
        forall|n: u64, b: bool| #[trigger] call_ensures(test, (n,), b) ==> (b <==> n <= boundary),
    ensures
        r == boundary,
{
    let mut bisect = Bisect::new(min, max);
    loop
        invariant
            bisect.well_formed(),
            bisect.low() <= boundary <= bisect.high(),
            forall|n: u64| #[trigger] call_requires(test, (n,)),
            forall|n: u64, b: bool|
                #[trigger] call_ensures(test, (n,), b) ==> (b <==> n <= boundary),
        ensures
            bisect.low() == bisect.high(),
            bisect.low() == boundary,
        decreases bisect.high() - bisect.low(),
    {
        if let Some(current) = bisect.next() {
            if test(current) {
                bisect.accept();
            } else {
                bisect.reject();
            }
        } else {
            break;
        }
    }
    match bisect.finish() {
        Ok(value) => value,
        // The loop only ends once the bracket has collapsed, so
        // non-convergence cannot be reported here.
        Err(_) => 0,
    }
}

/// Law: for every bracket `[low, high]` and every monotonic predicate `p`
/// whose threshold `boundary` lies inside the bracket (`p` holds for all
/// values up to `boundary` and for none above it), driving the searcher to
/// convergence yields exactly `boundary`.
pub proof fn lemma_search_converges(low: u64, high: u64, p: spec_fn(u64) -> bool, boundary: u64)
    requires
        low <= boundary <= high,
        forall|n: u64| #[trigger] p(n) <==> n <= boundary,
    ensures
        search_outcome(low, high, p) == boundary,
    decreases high - low,
{
    if low < high {
        let c = candidate(low, high);
        lemma_candidate_bounds(low, high);
        if p(c) {
            lemma_search_converges(c, high, p, boundary);
        } else {
            lemma_search_converges(low, (c - 1) as u64, p, boundary);
        }
    }
}

} // verus!
