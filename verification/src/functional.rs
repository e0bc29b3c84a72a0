//! A small functional helper on `Result`.

use vstd::prelude::*;

verus! {

/// An `and_then` that also converts the error type of the continuation's
/// result into the error type of the receiver.
pub trait TransformingAndThen<T, E> {
    /// Applies `op` to the success value, converting `op`'s error through
    /// `From`; a receiver already in error passes its error through
    /// unchanged.
    fn and_then_fwd<U, E2, F: FnOnce(T) -> Result<U, E2>>(self, op: F) -> Result<U, E> where
        E: core::convert::From<E2>
        requires
            forall|t: T| #[trigger] call_requires(op, (t,)),
    ;
}

impl<T, E> TransformingAndThen<T, E> for Result<T, E> {
    fn and_then_fwd<U, E2, F: FnOnce(T) -> Result<U, E2>>(self, op: F) -> (r: Result<U, E>) where
        E: core::convert::From<E2>
        ensures
            (self is Err ==> r == Result::<U, E>::Err(self->Err_0)),
            (self is Ok ==> exists|m: Result<U, E2>|
                {
                    &&& #[trigger] call_ensures(op, (self->Ok_0,), m)
                    &&& (m is Ok <==> r is Ok)
                    &&& (m is Ok ==> r->Ok_0 == m->Ok_0)
                }),
    {
        match self {
            Ok(t) => match op(t) {
                Ok(u) => Ok(u),
                Err(e2) => Err(E::from(e2)),
            },
            Err(e) => Err(e),
        }
    }
}

} // verus!
