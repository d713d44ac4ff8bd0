use vstd::prelude::*;

use crate::base::Warn;

verus! {

/// Links [`Option`] with [`Warn`].
///
/// The trait is sealed: it is implemented for [`Option<T>`] and for nothing else.
pub trait OptionExt: crate::sealed::Option + Sized {
    /// Whether the value is absent.
    spec fn absent(&self) -> bool;

    /// Pushes `error` into `warn` if the option holds `None`. The option is returned
    /// unchanged.
    fn or_warn_with<E, W: Warn<E>>(self, error: E, warn: &mut W) -> (r: Self)
        ensures
            r == self,
            self.absent() ==> old(warn).warned(error, final(warn)),
            !self.absent() ==> *final(warn) == *old(warn),
    ;
}

/// Links [`Result`] with [`Warn`].
///
/// The trait is sealed: it is implemented for [`Result<T, E>`] and for nothing else.
pub trait ResultExt<T, E>: crate::sealed::Result<T, E> + Sized {
    /// The value as a `Result`.
    spec fn as_result(&self) -> Result<T, E>;

    /// Passes the error of the result on to `warn`.
    ///
    /// A success gives its value, and `warn` is left as it was. A failure gives
    /// `None`, and its error, converted through [`From`], is pushed into `warn`.
    fn or_warn<D: From<E>, W: Warn<D>>(self, warn: &mut W) -> (r: Option<T>)
        ensures
            r == match self.as_result() {
                Ok(v) => Some(v),
                Err(_) => None::<T>,
            },
            self.as_result() is Ok ==> *final(warn) == *old(warn),
            self.as_result() is Err ==> exists|d: D| #[trigger]
                call_ensures(D::from, (self.as_result()->Err_0,), d) && old(warn).warned(
                    d,
                    final(warn),
                ),
    ;

    /// Like [`ResultExt::or_warn`], but `func` is applied to the error in place of
    /// [`From`].
    fn or_warn_map<D, G: FnOnce(E) -> D, W: Warn<D>>(self, func: G, warn: &mut W) -> (r: Option<T>)
        requires
            self.as_result() is Err ==> call_requires(func, (self.as_result()->Err_0,)),
        ensures
            r == match self.as_result() {
                Ok(v) => Some(v),
                Err(_) => None::<T>,
            },
            self.as_result() is Ok ==> *final(warn) == *old(warn),
            self.as_result() is Err ==> exists|d: D| #[trigger]
                call_ensures(func, (self.as_result()->Err_0,), d) && old(warn).warned(
                    d,
                    final(warn),
                ),
    ;
}

impl<T> OptionExt for Option<T> {
    open spec fn absent(&self) -> bool {
        self is None
    }

    fn or_warn_with<E, W: Warn<E>>(self, error: E, warn: &mut W) -> (r: Self) {
        if self.is_none() {
            warn.warn(error);
        }
        self
    }
}

impl<T, E> ResultExt<T, E> for Result<T, E> {
    open spec fn as_result(&self) -> Result<T, E> {
        *self
    }

    fn or_warn<D: From<E>, W: Warn<D>>(self, warn: &mut W) -> (r: Option<T>) {
        match self {
            Ok(val) => Some(val),
            Err(err) => {
                warn.warn(D::from(err));
                None
            },
        }
    }

    fn or_warn_map<D, G: FnOnce(E) -> D, W: Warn<D>>(self, func: G, warn: &mut W) -> (r: Option<
        T,
    >) {
        match self {
            Ok(val) => Some(val),
            Err(err) => {
                warn.warn(func(err));
                None
            },
        }
    }
}

} // verus!
