//! Sinks for diagnostics: each of them implements [`Warn`].
use vstd::prelude::*;

use crate::base::{Adapt, AdaptMap, Warn, warned_all};
use std::io::Write;

verus! {

/// Ignores every diagnostic.
#[derive(Debug, Clone, Copy)]
pub struct Ignore;

impl<E> Warn<E> for Ignore {
    open spec fn warned(&self, error: E, next: &Self) -> bool {
        true
    }

    fn warn(&mut self, _error: E) {
    }
}

/// Writes every diagnostic to the standard error stream.
#[derive(Debug, Clone, Copy)]
pub struct Stderr;

/// Relies on `writeln!` into `std::io::stderr()`: prints one line, `error: ` and the
/// diagnostic's description. A failed write is ignored.
#[verifier::external_body]
fn print_error_line<E: std::fmt::Display>(error: &E) {
    let _ = writeln!(std::io::stderr(), "error: {}", error);
}

impl<E: std::fmt::Display> Warn<E> for Stderr {
    open spec fn warned(&self, error: E, next: &Self) -> bool {
        true
    }

    fn warn(&mut self, error: E) {
        print_error_line(&error);
    }
}

/// Collects every diagnostic into a [`Vec`], in the order of arrival.
#[derive(Debug, Clone)]
pub struct CollectAll<E>(pub Vec<E>);

impl<E> Default for CollectAll<E> {
    fn default() -> (r: Self)
        ensures
            r.0@ == Seq::<E>::empty(),
    {
        CollectAll(Vec::new())
    }
}

impl<E> Warn<E> for CollectAll<E> {
    open spec fn warned(&self, error: E, next: &Self) -> bool {
        next.0@ == self.0@.push(error)
    }

    fn warn(&mut self, error: E) {
        self.0.push(error);
    }
}

/// Keeps the first diagnostic that arrived.
#[derive(Debug, Clone)]
pub struct KeepFirst<E>(pub Option<E>);

impl<E> Default for KeepFirst<E> {
    fn default() -> (r: Self)
        ensures
            r.0 == None::<E>,
    {
        KeepFirst(None)
    }
}

impl<E> Warn<E> for KeepFirst<E> {
    open spec fn warned(&self, error: E, next: &Self) -> bool {
        next.0 == if self.0 is None {
            Some(error)
        } else {
            self.0
        }
    }

    fn warn(&mut self, error: E) {
        if self.0.is_none() {
            self.0 = Some(error);
        }
    }
}

/// Keeps the last diagnostic that arrived.
#[derive(Debug, Clone)]
pub struct KeepLast<E>(pub Option<E>);

impl<E> Default for KeepLast<E> {
    fn default() -> (r: Self)
        ensures
            r.0 == None::<E>,
    {
        KeepLast(None)
    }
}

impl<E> Warn<E> for KeepLast<E> {
    open spec fn warned(&self, error: E, next: &Self) -> bool {
        next.0 == Some(error)
    }

    fn warn(&mut self, error: E) {
        self.0 = Some(error);
    }
}

/// Sink that hands every diagnostic to a function.
#[derive(Debug)]
#[verifier::reject_recursive_types(E)]
pub struct FromFn<E, F: Fn(E)>(F, core::marker::PhantomData<E>);

impl<E, F: Fn(E)> FromFn<E, F> {
    /// The function may be called on every diagnostic.
    #[verifier::type_invariant]
    spec fn total(self) -> bool {
        forall|e: E| call_requires(self.0, (e,))
    }

    /// The function that receives the diagnostics.
    pub closed spec fn func(&self) -> F {
        self.0
    }
}

/// Creates a sink that hands every diagnostic to `func`.
pub fn from_fn<E, F: Fn(E)>(func: F) -> (r: FromFn<E, F>)
    requires
        forall|e: E| call_requires(func, (e,)),
    ensures
        r.func() == func,
{
    FromFn(func, core::marker::PhantomData)
}

impl<E, F: Fn(E)> Warn<E> for FromFn<E, F> {
    open spec fn warned(&self, error: E, next: &Self) -> bool {
        &&& next.func() == self.func()
        &&& call_ensures(self.func(), (error,), ())
    }

    fn warn(&mut self, error: E) {
        proof {
            use_type_invariant(&*self);
        }
        (self.0)(error)
    }
}

/// A collecting sink holds what it held before, then every diagnostic it was given,
/// in the order in which they were pushed.
pub proof fn lemma_collect_all_order<E>(start: CollectAll<E>, errors: Seq<E>, end: CollectAll<E>)
    requires
        warned_all(start, errors, end),
    ensures
        end.0@ == start.0@ + errors,
    decreases errors.len(),
{
    if errors.len() == 0 {
        assert(start.0@ + errors =~= start.0@);
    } else {
        let mid = choose|mid: CollectAll<E>|
            warned_all(start, errors.drop_last(), mid) && #[trigger] mid.warned(
                errors.last(),
                &end,
            );
        lemma_collect_all_order(start, errors.drop_last(), mid);
        assert(start.0@ + errors =~= (start.0@ + errors.drop_last()).push(errors.last()));
    }
}

/// A keep-first sink holds the first diagnostic it was ever given.
pub proof fn lemma_keep_first<E>(start: KeepFirst<E>, errors: Seq<E>, end: KeepFirst<E>)
    requires
        warned_all(start, errors, end),
    ensures
        end.0 == if start.0 is None && errors.len() > 0 {
            Some(errors[0])
        } else {
            start.0
        },
    decreases errors.len(),
{
    if errors.len() > 0 {
        let mid = choose|mid: KeepFirst<E>|
            warned_all(start, errors.drop_last(), mid) && #[trigger] mid.warned(
                errors.last(),
                &end,
            );
        lemma_keep_first(start, errors.drop_last(), mid);
    }
}

/// A keep-last sink holds the last diagnostic it was given.
pub proof fn lemma_keep_last<E>(start: KeepLast<E>, errors: Seq<E>, end: KeepLast<E>)
    requires
        warned_all(start, errors, end),
    ensures
        end.0 == if errors.len() > 0 {
            Some(errors.last())
        } else {
            start.0
        },
{
    if errors.len() > 0 {
        let mid = choose|mid: KeepLast<E>|
            warned_all(start, errors.drop_last(), mid) && #[trigger] mid.warned(
                errors.last(),
                &end,
            );
    }
}

/// Through a [`From`] adapter, a collecting sink receives the converted diagnostic
/// and nothing else: `E::from(error)`, where the conversion follows its specification.
pub proof fn lemma_adapt_collects_converted<'a, D, E: From<D>>(
    a: Adapt<'a, E, CollectAll<E>>,
    error: D,
    next: Adapt<'a, E, CollectAll<E>>,
)
    requires
        a.warned(error, &next),
    ensures
        exists|e: E| #[trigger]
            call_ensures(E::from, (error,), e) && next.target().0@ == a.target().0@.push(e),
        <E as vstd::std_specs::convert::FromSpec<D>>::obeys_from_spec() ==> next.target().0@
            == a.target().0@.push(<E as vstd::std_specs::convert::FromSpec<D>>::from_spec(error)),
{
}

/// Through a function adapter, a collecting sink receives what the function returned
/// on the diagnostic, and nothing else.
pub proof fn lemma_adapt_map_collects_mapped<'a, D, E, F: Fn(D) -> E>(
    a: AdaptMap<'a, D, E, F, CollectAll<E>>,
    error: D,
    next: AdaptMap<'a, D, E, F, CollectAll<E>>,
)
    requires
        a.warned(error, &next),
    ensures
        exists|e: E| #[trigger]
            call_ensures(a.func(), (error,), e) && next.target().0@ == a.target().0@.push(e),
        next.func() == a.func(),
{
}

/// Diagnostics pushed one after the other through a [`From`] adapter reach a
/// collecting sink converted, and in the order in which they were pushed.
pub proof fn lemma_adapt_collects_in_order<'a, D, E: From<D>>(
    start: Adapt<'a, E, CollectAll<E>>,
    errors: Seq<D>,
    end: Adapt<'a, E, CollectAll<E>>,
)
    requires
        warned_all(start, errors, end),
        <E as vstd::std_specs::convert::FromSpec<D>>::obeys_from_spec(),
    ensures
        end.target().0@ == start.target().0@ + errors.map_values(
            |d: D| <E as vstd::std_specs::convert::FromSpec<D>>::from_spec(d),
        ),
    decreases errors.len(),
{
    let conv = |d: D| <E as vstd::std_specs::convert::FromSpec<D>>::from_spec(d);
    if errors.len() == 0 {
        assert(start.target().0@ + errors.map_values(conv) =~= start.target().0@);
    } else {
        let mid = choose|mid: Adapt<'a, E, CollectAll<E>>|
            warned_all(start, errors.drop_last(), mid) && #[trigger] mid.warned(
                errors.last(),
                &end,
            );
        lemma_adapt_collects_in_order(start, errors.drop_last(), mid);
        lemma_adapt_collects_converted(mid, errors.last(), end);
        assert(start.target().0@ + errors.map_values(conv) =~= (start.target().0@
            + errors.drop_last().map_values(conv)).push(conv(errors.last())));
    }
}

} // verus!
