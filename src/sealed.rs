//! Traits that only this crate can implement, to keep the extension traits closed.
use vstd::prelude::*;

verus! {

/// Implemented for every sink, and for nothing else.
pub trait WarnExt<E> {

}

impl<E, W: crate::base::Warn<E>> WarnExt<E> for W {

}

/// Implemented for `core::option::Option` alone.
pub trait Option {

}

/// Implemented for `core::result::Result` alone.
pub trait Result<T, E> {

}

impl<T> Option for core::option::Option<T> {

}

impl<T, E> Result<T, E> for core::result::Result<T, E> {

}

} // verus!
