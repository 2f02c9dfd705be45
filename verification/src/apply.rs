//! The apply protocol: the commit interface shared by [`crate::Prepared`]
//! and [`crate::Chain`].
use vstd::prelude::*;

verus! {

/// A staged transaction that can be committed exactly once.
///
/// `apply` consumes the unit, so reuse after a commit attempt is not a
/// reachable state. Exactly one of the two outcomes results from a call:
/// `Ok` carries the unit's success output (for a prepared unit, the
/// transform's output together with a spent capability), `Err` its failure
/// evidence (the error together with the still-unconsumed capability). What
/// each outcome means for a given unit is stated by that unit's `post_ok`
/// and `post_err`.
pub trait Apply: Sized {
    /// What a successful commit yields.
    type Output;

    /// What a failed commit yields.
    type Failure;

    /// The obligation on the unit before it may be committed.
    spec fn pre(&self) -> bool;

    /// What holds of a successful commit's output.
    spec fn post_ok(&self, out: Self::Output) -> bool;

    /// What holds of a failed commit's evidence.
    spec fn post_err(&self, fail: Self::Failure) -> bool;

    /// Commits the staged transaction: stage, validate, then either make the
    /// mutation durable or abandon it, in one pass.
    fn apply(self) -> (r: Result<Self::Output, Self::Failure>)
        requires
            self.pre(),
        ensures
            match r {
                Ok(out) => self.post_ok(out),
                Err(fail) => self.post_err(fail),
            },
    ;
}

} // verus!
