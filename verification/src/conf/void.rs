use vstd::prelude::*;
use vstd::pervasive::unreached;
use std::convert::Infallible;

verus! {

/// What the only variant of [`Void`] holds: a value of std's empty type, so
/// none can be built. The type invariant records that for proofs.
#[derive(Clone, Copy, Debug, PartialEq, Eq, PartialOrd, Ord)]
pub struct Never {
    never: Infallible,
}

impl Never {
    #[verifier::type_invariant]
    spec fn inhabited(self) -> bool {
        false
    }
}

/// A type with no values: the error of a source that cannot fail.
#[derive(Clone, Copy, Debug, PartialEq, Eq, PartialOrd, Ord)]
pub enum Void {
    Never(Never),
}

/// Eliminates a value that cannot exist.
pub fn unreachable<T>(x: Void) -> T {
    let Void::Never(n) = x;
    proof {
        use_type_invariant(&n);
    }
    unreached()
}

/// Unwrapping of a result whose error cannot occur.
pub trait ResultVoidExt<T>: Sized {
    /// The value that the result is known to hold.
    spec fn held(self) -> T;

    fn void_unwrap(self) -> (out: T)
        ensures
            out == self.held(),
    ;
}

impl<T> ResultVoidExt<T> for Result<T, Void> {
    open spec fn held(self) -> T {
        self->Ok_0
    }

    fn void_unwrap(self) -> (out: T)
        ensures
            self == Ok::<T, Void>(out),
    {
        match self {
            Ok(val) => val,
            Err(Void::Never(n)) => {
                proof {
                    use_type_invariant(&n);
                }
                unreachable(Void::Never(n))
            },
        }
    }
}

/// Unwrapping of a result whose success cannot occur.
pub trait ResultVoidErrExt<E>: Sized {
    /// The error that the result is known to hold.
    spec fn held_err(self) -> E;

    fn void_unwrap_err(self) -> (out: E)
        ensures
            out == self.held_err(),
    ;
}

impl<E> ResultVoidErrExt<E> for Result<Void, E> {
    open spec fn held_err(self) -> E {
        self->Err_0
    }

    fn void_unwrap_err(self) -> (out: E)
        ensures
            self == Err::<Void, E>(out),
    {
        match self {
            Ok(Void::Never(n)) => {
                proof {
                    use_type_invariant(&n);
                }
                unreachable(Void::Never(n))
            },
            Err(e) => e,
        }
    }
}

} // verus!
