//! Chaining of results.

use vstd::prelude::*;

verus! {

/// Chaining of computations that may fail.
pub trait ResultUtils<O, E>: Sized {
    /// The result that `self` stands for.
    spec fn outcome(self) -> Result<O, E>;

    /// Hands a success on to `f`, and an error through unchanged.
    fn flat_map<A, F: FnOnce(O) -> Result<A, E>>(self, f: F) -> (r: Result<A, E>)
        requires
            self.outcome() matches Ok(success) ==> call_requires(f, (success,)),
        ensures
            match self.outcome() {
                Ok(success) => call_ensures(f, (success,), r),
                Err(fail) => r == Err::<A, E>(fail),
            },
    ;
}

impl<O, E> ResultUtils<O, E> for Result<O, E> {
    open spec fn outcome(self) -> Result<O, E> {
        self
    }

    fn flat_map<A, F: FnOnce(O) -> Result<A, E>>(self, f: F) -> (r: Result<A, E>) {
        match self {
            Ok(success) => f(success),
            Err(fail) => Err(fail),
        }
    }
}

} // verus!
