use vstd::prelude::*;

verus! {

/// Sink into which non-fatal diagnostics of type `E` are pushed.
pub trait Warn<E> {
    /// Whether `next` is a state that the sink may be in after it accepted `error`
    /// while in the state `self`.
    spec fn warned(&self, error: E, next: &Self) -> bool;

    /// Pushes `error` into the sink.
    fn warn(&mut self, error: E)
        ensures
            old(self).warned(error, final(self)),
    ;
}

/// Whether a sink that starts in `start` may end in `end` after accepting `errors`,
/// one after the other, in their order.
pub open spec fn warned_all<E, W: Warn<E>>(start: W, errors: Seq<E>, end: W) -> bool
    decreases errors.len(),
{
    if errors.len() == 0 {
        end == start
    } else {
        exists|mid: W|
            warned_all(start, errors.drop_last(), mid) && #[trigger] mid.warned(
                errors.last(),
                &end,
            )
    }
}

/// A sink that accepted one error after another has accepted the sequence of them.
pub proof fn lemma_warned_all_push<E, W: Warn<E>>(
    start: W,
    errors: Seq<E>,
    mid: W,
    error: E,
    end: W,
)
    requires
        warned_all(start, errors, mid),
        mid.warned(error, &end),
    ensures
        warned_all(start, errors.push(error), end),
{
    let all = errors.push(error);
    assert(all.drop_last() =~= errors);
    assert(warned_all(start, all.drop_last(), mid) && mid.warned(all.last(), &end));
}

/// Diagnostics pushed by two routines called one after the other reach the sink
/// in that order: those of the first, then those of the second.
pub proof fn lemma_warned_all_concat<E, W: Warn<E>>(
    a: W,
    first: Seq<E>,
    b: W,
    second: Seq<E>,
    c: W,
)
    requires
        warned_all(a, first, b),
        warned_all(b, second, c),
    ensures
        warned_all(a, first + second, c),
    decreases second.len(),
{
    if second.len() == 0 {
        assert(first + second =~= first);
    } else {
        let mid = choose|mid: W|
            warned_all(b, second.drop_last(), mid) && #[trigger] mid.warned(second.last(), &c);
        lemma_warned_all_concat(a, first, b, second.drop_last(), mid);
        assert((first + second).drop_last() =~= first + second.drop_last());
        assert((first + second).last() == second.last());
    }
}

/// Sink adapter that converts each diagnostic through [`From`] before it passes it
/// on to the wrapped sink.
pub struct Adapt<'a, E, W>(&'a mut W, core::marker::PhantomData<E>);

impl<'a, E, W> Adapt<'a, E, W> {
    /// The wrapped sink, in its current state.
    pub closed spec fn target(&self) -> W {
        *self.0
    }
}

impl<'a, D, E: From<D>, W: Warn<E>> Warn<D> for Adapt<'a, E, W> {
    open spec fn warned(&self, error: D, next: &Self) -> bool {
        exists|e: E| #[trigger]
            call_ensures(E::from, (error,), e) && self.target().warned(e, &next.target())
    }

    fn warn(&mut self, error: D) {
        let e = E::from(error);
        self.0.warn(e);
    }
}

/// A function that may be called on every value of type `D`.
#[verifier::reject_recursive_types(D)]
#[verifier::reject_recursive_types(E)]
struct Total<D, E, F: Fn(D) -> E>(F, core::marker::PhantomData<D>, core::marker::PhantomData<E>);

impl<D, E, F: Fn(D) -> E> Total<D, E, F> {
    #[verifier::type_invariant]
    spec fn inv(self) -> bool {
        forall|d: D| call_requires(self.0, (d,))
    }

    fn new(func: F) -> (r: Self)
        requires
            forall|d: D| call_requires(func, (d,)),
        ensures
            r.0 == func,
    {
        Total(func, core::marker::PhantomData, core::marker::PhantomData)
    }

    fn apply(&self, d: D) -> (e: E)
        ensures
            call_ensures(self.0, (d,), e),
    {
        proof {
            use_type_invariant(self);
        }
        (self.0)(d)
    }
}

/// Sink adapter that applies a function to each diagnostic before it passes the
/// result on to the wrapped sink.
#[verifier::reject_recursive_types(D)]
#[verifier::reject_recursive_types(E)]
pub struct AdaptMap<'a, D, E, F: Fn(D) -> E, W>(
    &'a mut W,
    Total<D, E, F>,
);

impl<'a, D, E, F: Fn(D) -> E, W> AdaptMap<'a, D, E, F, W> {
    /// The wrapped sink, in its current state.
    pub closed spec fn target(&self) -> W {
        *self.0
    }

    /// The function applied to each diagnostic.
    pub closed spec fn func(&self) -> F {
        self.1.0
    }
}

impl<'a, D, E, F: Fn(D) -> E, W: Warn<E>> Warn<D> for AdaptMap<'a, D, E, F, W> {
    open spec fn warned(&self, error: D, next: &Self) -> bool {
        &&& next.func() == self.func()
        &&& exists|e: E| #[trigger]
            call_ensures(self.func(), (error,), e) && self.target().warned(e, &next.target())
    }

    fn warn(&mut self, error: D) {
        let e = self.1.apply(error);
        self.0.warn(e);
    }
}

/// Extension methods of every [`Warn`] sink.
///
/// Every sink has them, and nothing else can: the trait is sealed.
pub trait WarnExt<E>: Warn<E> + crate::sealed::WarnExt<E> {
    /// Wraps the sink into an adapter that converts diagnostics of another type
    /// through [`From`].
    ///
    /// This is how a routine that pushes diagnostics of type `D` is called from one
    /// whose sink takes `E`: `inner(&mut warn.adapt())`.
    fn adapt(&mut self) -> (r: Adapt<'_, E, Self>)
        where
            Self: Sized,
        ensures
            r.target() == *old(self),
    {
        Adapt(self, core::marker::PhantomData)
    }

    /// Like [`WarnExt::adapt`], but applies `func` in place of [`From`].
    fn adapt_map<D, F>(&mut self, func: F) -> (r: AdaptMap<'_, D, E, F, Self>)
        where
            Self: Sized,
            F: Fn(D) -> E,
        requires
            forall|d: D| call_requires(func, (d,)),
        ensures
            r.target() == *old(self),
            r.func() == func,
    {
        AdaptMap(self, Total::new(func))
    }
}

impl<E, W: Warn<E>> WarnExt<E> for W {

}

} // verus!
