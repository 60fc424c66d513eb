//! Wiring between a probe session's verdict and the boundary searcher: the
//! bisection drivers feed each session's boolean outcome straight back into
//! the bracket, one candidate per session.

use vstd::prelude::*;

use crate::bisect::{Bisect, candidate};
use crate::probe::Verdict;

verus! {

/// Feed one bisection verdict back into the searcher: acceptance raises the
/// lower edge to the pending candidate, refusal drops the upper edge to
/// just below it. Only legal while a candidate is pending, and only for the
/// boolean verdicts the bisection probes produce.
pub fn apply_verdict(bisect: &mut Bisect, verdict: Verdict)
    requires
        verdict is Decision,
        old(bisect).well_formed(),
        old(bisect).low() < old(bisect).high(),
    ensures
        final(bisect).well_formed(),
        verdict == Verdict::Decision(true) ==> {
            &&& final(bisect).low() == candidate(old(bisect).low(), old(bisect).high())
            &&& final(bisect).high() == old(bisect).high()
        },
        verdict == Verdict::Decision(false) ==> {
            &&& final(bisect).low() == old(bisect).low()
            &&& final(bisect).high() == candidate(old(bisect).low(), old(bisect).high()) - 1
        },
{
    match verdict {
        Verdict::Decision(true) => bisect.accept(),
        Verdict::Decision(false) => bisect.reject(),
        Verdict::Classified(..) => {},
    }
}

} // verus!
