//! The failure type of operations that cannot fail.

use vstd::pervasive::unreached;
use vstd::prelude::*;

verus! {

/// An "error" type that can never happen.
///
/// No value of this type exists, so a `Result<T, Never>` is always `Ok` and
/// occupies no more space than `T` itself.
#[derive(Clone, Copy, Debug)]
pub struct Never {
    void: core::convert::Infallible,
}

/// Type alias for a result that will never fail.
pub type OkResult<T> = Result<T, Never>;

impl Never {
    /// The invariant of this type: it holds of no value, so the type has none.
    #[verifier::type_invariant]
    pub open spec fn inhabited(self) -> bool {
        false
    }

    /// Turns a value of this type into a value of any other type. As no value
    /// of this type exists, no call of this function is ever executed, and
    /// none returns.
    pub fn absurd<A>(self) -> (any: A)
        ensures
            self.inhabited(),
    {
        proof {
            use_type_invariant(&self);
        }
        unreached()
    }
}

/// Extracts the value of a result that cannot fail.
pub fn into_ok<T>(result: OkResult<T>) -> (value: T)
    ensures
        result == Ok::<T, Never>(value),
{
    match result {
        Ok(value) => value,
        Err(never) => never.absurd(),
    }
}

} // verus!
