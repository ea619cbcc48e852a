//! Checking a configuration before any method is run.

use crate::harness::HarnessError;
use crate::scalar::Scalar;
use std::cmp::Ordering;
use vstd::prelude::*;
use vstd::std_specs::cmp::PartialOrdSpec;
use vstd::std_specs::convert::FromSpec;

verus! {

/// The comparison of `S`, and its conversion from a small integer, compute
/// exactly what their spec functions say.
pub open spec fn ordering_exact<S: Scalar + PartialOrd>() -> bool {
    S::obeys_partial_cmp_spec() && S::obeys_from_spec()
}

/// `a` is greater than `b`. A value that cannot be compared with `b`, as a
/// floating-point NaN cannot, is not greater than it.
pub open spec fn exceeds<S: Scalar + PartialOrd>(a: S, b: S) -> bool {
    a.partial_cmp_spec(&b) == Some(Ordering::Greater)
}

/// The step size `h` is positive and the end time `t_end` is after the
/// start time `t0`.
pub open spec fn valid_configuration<S: Scalar + PartialOrd>(t0: S, t_end: S, h: S) -> bool {
    exceeds(h, S::from_spec(0u8)) && exceeds(t_end, t0)
}

/// Accepts a configuration that can be integrated over and refuses any
/// other: a step size that is not positive, or an end time that is not
/// after the start time, would leave no meaningful number of steps.
pub fn check_configuration<S: Scalar + PartialOrd>(t0: S, t_end: S, h: S) -> (checked: Result<
    (),
    HarnessError,
>)
    ensures
        ordering_exact::<S>() ==> (checked.is_ok() <==> valid_configuration(t0, t_end, h)),
        checked.is_err() ==> checked == Err::<(), HarnessError>(HarnessError::InvalidConfiguration),
{
    let zero = S::from(0u8);
    if h > zero && t_end > t0 {
        Ok(())
    } else {
        Err(HarnessError::InvalidConfiguration)
    }
}

} // verus!
