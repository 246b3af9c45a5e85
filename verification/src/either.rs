//! A value from one of two merged sources.
//!
//! When a platform exposes one notification channel per preference kind,
//! the channels are merged into one logical delta source. Each item keeps a
//! tag saying which side it came from; per-source order is preserved, no
//! global order is imposed.

use vstd::prelude::*;

verus! {

/// A value tagged with the side of the merge it came from.
#[derive(Debug)]
pub enum Either<L, R> {
    Left(L),
    Right(R),
}

/// Tags a value as coming from the left source.
#[allow(non_snake_case)]
pub fn Left<L, R>(inner: L) -> (r: Either<L, R>)
    ensures
        r == Either::<L, R>::Left(inner),
{
    Either::Left(inner)
}

/// Tags a value as coming from the right source.
#[allow(non_snake_case)]
pub fn Right<L, R>(inner: R) -> (r: Either<L, R>)
    ensures
        r == Either::<L, R>::Right(inner),
{
    Either::Right(inner)
}

impl<T> Either<T, T> {
    /// When both sides carry the same item type, the merged stream hands
    /// the item on unchanged: only the tag is dropped.
    pub fn into_inner(self) -> (r: T)
        ensures
            (self == Either::<T, T>::Left(r)) || (self == Either::<T, T>::Right(r)),
    {
        match self {
            Either::Left(inner) => inner,
            Either::Right(inner) => inner,
        }
    }
}

} // verus!
