use std::collections::VecDeque;
use vstd::prelude::*;

verus! {

/// Exchanges the nesting of an optional and a fallible value.
pub trait ResultOptionExt: Sized {
    type Out;

    /// The same content with the two layers exchanged.
    spec fn inverted(self) -> Self::Out;

    fn invert(self) -> (out: Self::Out)
        ensures
            out == self.inverted(),
    ;
}

impl<T, E> ResultOptionExt for Option<Result<T, E>> {
    type Out = Result<Option<T>, E>;

    open spec fn inverted(self) -> Result<Option<T>, E> {
        match self {
            Some(Err(e)) => Err(e),
            Some(Ok(v)) => Ok(Some(v)),
            None => Ok(None),
        }
    }

    fn invert(self) -> (out: Result<Option<T>, E>) {
        match self {
            Some(Err(e)) => Err(e),
            Some(Ok(v)) => Ok(Some(v)),
            None => Ok(None),
        }
    }
}

impl<T, E> ResultOptionExt for Result<Option<T>, E> {
    type Out = Option<Result<T, E>>;

    open spec fn inverted(self) -> Option<Result<T, E>> {
        match self {
            Ok(None) => None,
            Ok(Some(v)) => Some(Ok(v)),
            Err(e) => Some(Err(e)),
        }
    }

    fn invert(self) -> (out: Option<Result<T, E>>) {
        match self {
            Ok(None) => None,
            Ok(Some(v)) => Some(Ok(v)),
            Err(e) => Some(Err(e)),
        }
    }
}

/// The first element of a sequence, if it has one.
pub open spec fn head<A>(s: Seq<A>) -> Option<A> {
    if s.len() > 0 {
        Some(s[0])
    } else {
        None
    }
}

/// A sequence without its first element, if it has one.
pub open spec fn tail<A>(s: Seq<A>) -> Seq<A> {
    if s.len() > 0 {
        s.drop_first()
    } else {
        s
    }
}

/// A forward-only source of fallible values.
pub trait ResultIterExt {
    type Val;

    type Err;

    /// What the source has yet to hand out, in order.
    spec fn pending(&self) -> Seq<Result<Self::Val, Self::Err>>;

    /// Hands out the next value or error, or `Ok(None)` once nothing is left.
    fn next_invert(&mut self) -> (out: Result<Option<Self::Val>, Self::Err>)
        ensures
            out == head(old(self).pending()).inverted(),
            final(self).pending() == tail(old(self).pending()),
    ;
}

impl<T, E> ResultIterExt for VecDeque<Result<T, E>> {
    type Val = T;

    type Err = E;

    open spec fn pending(&self) -> Seq<Result<T, E>> {
        self@
    }

    fn next_invert(&mut self) -> (out: Result<Option<T>, E>) {
        let next = self.pop_front();
        proof {
            assert(self@ =~= tail(old(self)@));
        }
        next.invert()
    }
}

} // verus!
