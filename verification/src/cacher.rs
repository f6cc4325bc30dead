//! A cache that runs its query once and answers every later call from memory.
//!
//! A [`Cacher`] starts empty. The first call of [`Cacher::value`] runs the query on the
//! argument it is given and keeps the result; every later call returns that result and
//! ignores its own argument. So the cache has two states, empty and filled, and one
//! transition between them, which it takes exactly once.
//!
//! The contracts speak of a [`CacherView`]: the query, the stored result, and a log of the
//! arguments the query has been run on. The log is ghost bookkeeping. It is extended in the one
//! place of the code where the query is called, and there only, so its length is the number
//! of times the query has run.

use vstd::prelude::*;

verus! {

/// The mathematical state of a [`Cacher`].
pub struct CacherView<F, E> {
    /// The computation being cached.
    pub query: F,
    /// The stored result, absent until the first call of `value`.
    pub cached: Option<E>,
    /// The arguments the query has been run on, oldest first.
    pub asked: Seq<E>,
}

impl<F, E> CacherView<F, E> where F: Fn(E) -> E {
    /// The state of a cache that has not been asked for its value yet.
    pub open spec fn fresh(query: F) -> Self {
        CacherView { query, cached: None, asked: Seq::empty() }
    }

    /// What every reachable state satisfies: an empty cache has never run its query, and a
    /// filled one has run it exactly once and holds a result of that run.
    pub open spec fn wf(self) -> bool {
        match self.cached {
            None => self.asked.len() == 0,
            Some(v) => self.asked.len() == 1 && call_ensures(self.query, (self.asked[0],), v),
        }
    }

    /// One call of `value`: from state `self`, given `arg`, to state `next`, returning `out`.
    ///
    /// A filled cache hands back what it holds and stays as it is, whatever `arg` is. An empty
    /// cache runs the query on `arg`, returns the result, stores it and logs the run.
    pub open spec fn value_step(self, arg: E, next: Self, out: E) -> bool {
        match self.cached {
            Some(v) => out == v && next == self,
            None => {
                &&& call_ensures(self.query, (arg,), out)
                &&& next == (CacherView {
                    query: self.query,
                    cached: Some(out),
                    asked: self.asked.push(arg),
                })
            },
        }
    }
}

/// Whether `states` and `outs` record a series of calls of `value`, one for each entry of
/// `args` in order: call `i` takes the cache from `states[i]` to `states[i + 1]` and returns
/// `outs[i]`.
pub open spec fn is_run<F, E>(states: Seq<CacherView<F, E>>, args: Seq<E>, outs: Seq<E>) -> bool
    where F: Fn(E) -> E {
    &&& states.len() == args.len() + 1
    &&& outs.len() == args.len()
    &&& forall|i: int|
        0 <= i < args.len() ==> states[i].value_step(#[trigger] args[i], states[i + 1], outs[i])
}

/// Wraps a one-argument computation and remembers the result of its first run.
///
/// Every `Cacher` is well-formed in the sense of [`CacherView::wf`]: this is kept as an
/// invariant of the type, so no method asks for it.
#[verifier::reject_recursive_types(E)]
pub struct Cacher<F, E> where F: Fn(E) -> E, E: Copy {
    query: F,
    slot: Slot<E>,
}

/// The part of a cache that changes: the stored result together with the log of query runs.
/// Both change in one assignment, so the two never disagree.
struct Slot<E> {
    value: Option<E>,
    asked: Ghost<Seq<E>>,
}

impl<F, E> View for Cacher<F, E> where F: Fn(E) -> E, E: Copy {
    type V = CacherView<F, E>;

    closed spec fn view(&self) -> CacherView<F, E> {
        CacherView { query: self.query, cached: self.slot.value, asked: self.slot.asked@ }
    }
}

impl<F, E> Cacher<F, E> where F: Fn(E) -> E, E: Copy {
    #[verifier::type_invariant]
    spec fn inv(self) -> bool {
        self@.wf()
    }

    /// Builds an empty cache around `query`, without running it.
    pub fn new(query: F) -> (c: Self)
        ensures
            c@ == CacherView::fresh(query),
    {
        Cacher { query, slot: Slot { value: None, asked: Ghost(Seq::empty()) } }
    }

    /// Returns the cached result, running the query on `arg` only if nothing is cached yet.
    ///
    /// The query must accept `arg` if it is going to be run, that is if the cache is empty.
    /// On a filled cache any `arg` will do, since it is not looked at.
    pub fn value(&mut self, arg: E) -> (v: E)
        requires
            old(self)@.cached is None ==> call_requires(old(self)@.query, (arg,)),
        ensures
            old(self)@.value_step(arg, final(self)@, v),
            final(self)@.wf(),
    {
        proof {
            use_type_invariant(&*self);
        }
        match self.slot.value {
            Some(v) => v,
            None => {
                let v = (self.query)(arg);
                let ghost asked = self.slot.asked@.push(arg);
                self.slot = Slot { value: Some(v), asked: Ghost(asked) };
                v
            },
        }
    }
}

/// A call of `value` keeps a well-formed state well-formed.
pub proof fn lemma_step_keeps_wf<F, E>(s: CacherView<F, E>, arg: E, next: CacherView<F, E>, out: E)
    where F: Fn(E) -> E
    requires
        s.wf(),
        s.value_step(arg, next, out),
    ensures
        next.wf(),
{
    if s.cached is None {
        assert(next.asked =~= seq![arg]);
    }
}

/// Once a cache is filled it never changes again: in a series of calls, every state from the
/// first filled one onwards is that same state.
pub proof fn lemma_filled_never_changes<F, E>(
    states: Seq<CacherView<F, E>>,
    args: Seq<E>,
    outs: Seq<E>,
    k: int,
    i: int,
) where F: Fn(E) -> E
    requires
        is_run(states, args, outs),
        0 <= k <= i <= args.len(),
        states[k].cached is Some,
    ensures
        states[i] == states[k],
    decreases i - k,
{
    if k < i {
        lemma_filled_never_changes(states, args, outs, k, i - 1);
        assert(states[i - 1].value_step(args[i - 1], states[i], outs[i - 1]));
    }
}

/// Memoization: two calls in a row on a new cache return the same value, and that value is a
/// result of the query on the first argument. The second argument plays no part, equal to the
/// first or not.
pub proof fn lemma_second_call_repeats_first<F, E>(
    query: F,
    a1: E,
    a2: E,
    s1: CacherView<F, E>,
    r1: E,
    s2: CacherView<F, E>,
    r2: E,
) where F: Fn(E) -> E
    requires
        CacherView::fresh(query).value_step(a1, s1, r1),
        s1.value_step(a2, s2, r2),
    ensures
        call_ensures(query, (a1,), r1),
        r2 == r1,
        s2 == s1,
{
}

/// Memoization of a query that computes the function `f`: both of two calls in a row on a
/// new cache return `f` of the first argument.
pub proof fn lemma_memoizes_function<F, E>(
    query: F,
    f: spec_fn(E) -> E,
    a1: E,
    a2: E,
    s1: CacherView<F, E>,
    r1: E,
    s2: CacherView<F, E>,
    r2: E,
) where F: Fn(E) -> E
    requires
        forall|a: E, r: E| call_ensures(query, (a,), r) ==> r == f(a),
        CacherView::fresh(query).value_step(a1, s1, r1),
        s1.value_step(a2, s2, r2),
    ensures
        r1 == f(a1),
        r2 == f(a1),
{
}

/// At most one run of the query: over any series of calls on a new cache, the query has run
/// exactly once after the first call, on that call's argument, and never again, however many
/// calls follow.
pub proof fn lemma_query_runs_once<F, E>(
    query: F,
    states: Seq<CacherView<F, E>>,
    args: Seq<E>,
    outs: Seq<E>,
) where F: Fn(E) -> E
    requires
        is_run(states, args, outs),
        states[0] == CacherView::fresh(query),
    ensures
        states[0].asked.len() == 0,
        forall|i: int| 1 <= i <= args.len() ==> (#[trigger] states[i]).asked == seq![args[0]],
{
    assert forall|i: int| 1 <= i <= args.len() implies (#[trigger] states[i]).asked == seq![
        args[0],
    ] by {
        assert(states[0].value_step(args[0], states[1], outs[0]));
        assert(states[1].asked =~= seq![args[0]]);
        lemma_filled_never_changes(states, args, outs, 1, i);
    }
}

/// Idempotence after fill: over any series of calls on a filled cache, every call returns the
/// value that was cached at the start, whatever its argument.
pub proof fn lemma_filled_returns_cached<F, E>(
    states: Seq<CacherView<F, E>>,
    args: Seq<E>,
    outs: Seq<E>,
) where F: Fn(E) -> E
    requires
        is_run(states, args, outs),
        states[0].cached is Some,
    ensures
        forall|i: int| 0 <= i < args.len() ==> Some(#[trigger] outs[i]) == states[0].cached,
{
    assert forall|i: int| 0 <= i < args.len() implies Some(#[trigger] outs[i])
        == states[0].cached by {
        lemma_filled_never_changes(states, args, outs, 0, i);
        assert(states[i].value_step(args[i], states[i + 1], outs[i]));
    }
}

/// Idempotence after fill, from the start: over any series of calls on a new cache, every call
/// returns what the first call returned, a result of the query on the first argument.
pub proof fn lemma_every_call_repeats_first<F, E>(
    query: F,
    states: Seq<CacherView<F, E>>,
    args: Seq<E>,
    outs: Seq<E>,
) where F: Fn(E) -> E
    requires
        is_run(states, args, outs),
        states[0] == CacherView::fresh(query),
    ensures
        args.len() > 0 ==> call_ensures(query, (args[0],), outs[0]),
        forall|i: int| 0 <= i < args.len() ==> #[trigger] outs[i] == outs[0],
{
    if args.len() > 0 {
        assert(states[0].value_step(args[0], states[1], outs[0]));
        assert forall|i: int| 0 <= i < args.len() implies #[trigger] outs[i] == outs[0] by {
            if i > 0 {
                lemma_filled_never_changes(states, args, outs, 1, i);
                assert(states[i].value_step(args[i], states[i + 1], outs[i]));
            }
        }
    }
}

} // verus!
