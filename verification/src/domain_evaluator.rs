use vstd::prelude::*;

verus! {

/// Evaluates an observer-aware problem by running a policy of the
/// underlying domain on its domain states.
pub struct DomainEvaluator<P> {
    policy: P,
}

impl<P> DomainEvaluator<P> {
    /// The domain policy this evaluator runs.
    pub closed spec fn spec_policy(&self) -> P {
        self.policy
    }

    pub fn new(policy: P) -> (r: Self)
        ensures
            r.spec_policy() == policy,
    {
        Self { policy }
    }
}

} // verus!
