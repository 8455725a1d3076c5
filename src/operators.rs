//! Per-key semantics of the stateful steps of a pipeline.
//!
//! The user's callables (reducer, completion test, state builder, mapper)
//! are passed in as closures. Each may fail; a failure is handed back to the
//! caller unchanged. The contracts say what is done with whatever the
//! callables return, in terms of their own `ensures`.
use vstd::prelude::*;

verus! {

/// `out` is what folding `value` into the aggregator `prior` gives: the
/// value itself where there was no aggregator (the reducer is not called),
/// else the reducer's result on `(aggregator, value)`.
pub open spec fn combined<V, E, R: Fn(V, V) -> Result<V, E>>(
    reducer: R,
    prior: Option<V>,
    value: V,
    out: Result<V, E>,
) -> bool {
    match prior {
        None => out == Ok::<V, E>(value),
        Some(a) => reducer.ensures((a, value), out),
    }
}

/// `s` is the state that a key works on: its retained state, or a state
/// freshly made by `builder` where it had none.
pub open spec fn started<S, E, B: Fn() -> Result<S, E>>(builder: B, prior: Option<S>, s: S) -> bool {
    match prior {
        Some(p) => s == p,
        None => builder.ensures((), Ok::<S, E>(s)),
    }
}

/// `agg` is an aggregator that folding `values`, in this order, from an
/// empty aggregator can give.
pub open spec fn epoch_folds<V, E, R: Fn(V, V) -> Result<V, E>>(
    reducer: R,
    values: Seq<V>,
    agg: Option<V>,
) -> bool
    decreases values.len(),
{
    if values.len() == 0 {
        agg is None
    } else {
        exists|prev: Option<V>, u: V|
            #![trigger combined(reducer, prev, values.last(), Ok::<V, E>(u))]
            epoch_folds(reducer, values.drop_last(), prev) && combined(
                reducer,
                prev,
                values.last(),
                Ok::<V, E>(u),
            ) && agg == Some(u)
    }
}

/// One value for a key in a Reduce step.
///
/// The value is folded into the key's aggregator (it becomes the
/// aggregator if there was none), then `is_complete` is asked about the
/// result. If it says yes, the aggregator is returned for emission and the
/// key's aggregator is discarded; otherwise it is kept and nothing is
/// emitted. An error from either callable is returned.
pub fn reduce<V, E, R, C>(reducer: &R, is_complete: &C, aggregator: &mut Option<V>, value: V) -> (r: Result<Option<V>, E>) where
    R: Fn(V, V) -> Result<V, E>,
    C: Fn(&V) -> Result<bool, E>,

    requires
        forall|a: V, b: V| reducer.requires((a, b)),
        forall|a: &V| is_complete.requires((a,)),
    ensures
        r matches Ok(emit) ==> exists|u: V, done: bool|
            #![trigger combined(*reducer, *old(aggregator), value, Ok::<V, E>(u)), is_complete.ensures((&u,), Ok::<bool, E>(done))]
            combined(*reducer, *old(aggregator), value, Ok::<V, E>(u)) && is_complete.ensures(
                (&u,),
                Ok::<bool, E>(done),
            ) && (done ==> emit == Some(u) && *final(aggregator) == None::<V>) && (!done ==> emit
                == None::<V> && *final(aggregator) == Some(u)),
        r is Err ==> *final(aggregator) == None::<V>,
        r matches Err(e) ==> combined(*reducer, *old(aggregator), value, Err::<V, E>(e)) || exists|
            u: V,
        |
            #![trigger combined(*reducer, *old(aggregator), value, Ok::<V, E>(u))]
            combined(*reducer, *old(aggregator), value, Ok::<V, E>(u)) && is_complete.ensures(
                (&u,),
                Err::<bool, E>(e),
            ),
{
    let prior = aggregator.take();
    let ghost old_prior = prior;
    let updated = match prior {
        None => value,
        Some(a) => match reducer(a, value) {
            Ok(u) => u,
            Err(e) => {
                return Err(e);
            },
        },
    };
    assert(combined(*reducer, old_prior, value, Ok::<V, E>(updated)));
    match is_complete(&updated) {
        Ok(done) => {
            if done {
                Ok(Some(updated))
            } else {
                *aggregator = Some(updated);
                Ok(None)
            }
        },
        Err(e) => Err(e),
    }
}

/// One value for a key in a ReduceEpoch or ReduceEpochLocal step: the
/// value is folded into the key's aggregator for the current epoch. Nothing
/// is emitted here; the aggregator is emitted when the epoch closes.
pub fn reduce_epoch<V, E, R>(reducer: &R, aggregator: &mut Option<V>, value: V) -> (r: Result<(), E>) where
    R: Fn(V, V) -> Result<V, E>,

    requires
        forall|a: V, b: V| reducer.requires((a, b)),
    ensures
        r is Ok ==> (*final(aggregator) matches Some(u) && combined(
            *reducer,
            *old(aggregator),
            value,
            Ok::<V, E>(u),
        )),
        r is Err ==> *final(aggregator) == None::<V>,
        r matches Err(e) ==> combined(*reducer, *old(aggregator), value, Err::<V, E>(e)),
{
    let prior = aggregator.take();
    match prior {
        None => {
            *aggregator = Some(value);
            Ok(())
        },
        Some(a) => match reducer(a, value) {
            Ok(u) => {
                *aggregator = Some(u);
                Ok(())
            },
            Err(e) => Err(e),
        },
    }
}

/// At the close of an epoch, the aggregator of a key that received values
/// in it is handed out for emission, and the key starts the next epoch
/// with no aggregator.
pub fn close_epoch<V>(aggregator: &mut Option<V>) -> (r: V)
    requires
        *old(aggregator) is Some,
    ensures
        Some(r) == *old(aggregator),
        *final(aggregator) == None::<V>,
{
    aggregator.take().unwrap()
}

/// Folding one more value into an epoch's aggregator, as `reduce_epoch`
/// does on success, gives the fold of the epoch's values extended by that
/// value: what a key holds at the close of an epoch is the fold of all the
/// values it received in it.
pub proof fn law_reduce_epoch_extends_fold<V, E, R: Fn(V, V) -> Result<V, E>>(
    reducer: R,
    values: Seq<V>,
    prev: Option<V>,
    value: V,
    u: V,
)
    requires
        epoch_folds::<V, E, R>(reducer, values, prev),
        combined::<V, E, R>(reducer, prev, value, Ok::<V, E>(u)),
    ensures
        epoch_folds::<V, E, R>(reducer, values.push(value), Some(u)),
{
    let longer = values.push(value);
    assert(longer.drop_last() =~= values);
    assert(epoch_folds::<V, E, R>(reducer, longer.drop_last(), prev));
    assert(combined::<V, E, R>(reducer, prev, longer.last(), Ok::<V, E>(u)));
}

/// A key that received at least one value in an epoch holds exactly one
/// aggregator at the epoch's close, so exactly one `(key, aggregator)` is
/// emitted for it; a key that received none holds no aggregator and emits
/// nothing.
pub proof fn law_one_aggregate_per_epoch<V, E, R: Fn(V, V) -> Result<V, E>>(
    reducer: R,
    values: Seq<V>,
    agg: Option<V>,
)
    requires
        epoch_folds::<V, E, R>(reducer, values, agg),
    ensures
        values.len() > 0 <==> agg is Some,
{
}

/// One value for a key in a StatefulMap step.
///
/// Where the key has no state, `builder` makes one. Then `mapper` turns
/// `(state, value)` into `(new_state, emitted)`. The key keeps `new_state`;
/// where `new_state` is `None` (the empty sentinel) the key's state is
/// forgotten. Exactly one value is returned for emission. An error from
/// either callable is returned.
pub fn stateful_map<V, S, E, B, M>(builder: &B, mapper: &M, state: &mut Option<S>, value: V) -> (r: Result<V, E>) where
    B: Fn() -> Result<S, E>,
    M: Fn(S, V) -> Result<(Option<S>, V), E>,

    requires
        builder.requires(()),
        forall|s: S, v: V| mapper.requires((s, v)),
    ensures
        r matches Ok(out) ==> exists|s: S|
            #![trigger started(*builder, *old(state), s)]
            started(*builder, *old(state), s) && mapper.ensures(
                (s, value),
                Ok::<(Option<S>, V), E>((*final(state), out)),
            ),
        r is Err ==> *final(state) == None::<S>,
        r matches Err(e) ==> (*old(state) is None && builder.ensures((), Err::<S, E>(e))) || exists|
            s: S,
        |
            #![trigger started(*builder, *old(state), s)]
            started(*builder, *old(state), s) && mapper.ensures(
                (s, value),
                Err::<(Option<S>, V), E>(e),
            ),
{
    let prior = state.take();
    let ghost old_prior = prior;
    let current = match prior {
        Some(s) => s,
        None => match builder() {
            Ok(s) => s,
            Err(e) => {
                return Err(e);
            },
        },
    };
    assert(started(*builder, old_prior, current));
    match mapper(current, value) {
        Ok((next, out)) => {
            *state = next;
            Ok(out)
        },
        Err(e) => Err(e),
    }
}

/// A key whose state was forgotten (the mapper returned the empty
/// sentinel) works on its next value from a state that `builder` makes
/// afresh, as a key never seen before does.
pub proof fn law_forgotten_state_is_rebuilt<S, E, B: Fn() -> Result<S, E>>(
    builder: B,
    forgotten: Option<S>,
    s: S,
)
    requires
        forgotten is None,
        started(builder, forgotten, s),
    ensures
        builder.ensures((), Ok::<S, E>(s)),
{
}

/// The stream that a Map step makes of `items`: each item replaced by its
/// image under `f`, in order.
pub open spec fn mapped<A, B>(items: Seq<A>, f: spec_fn(A) -> B) -> Seq<B> {
    items.map_values(f)
}

/// The stream that a Filter step makes of `items`: the items on which `p`
/// holds, unchanged and in order.
pub open spec fn filtered<A>(items: Seq<A>, p: spec_fn(A) -> bool) -> Seq<A>
    decreases items.len(),
{
    if items.len() == 0 {
        Seq::empty()
    } else {
        let rest = filtered(items.drop_last(), p);
        if p(items.last()) {
            rest.push(items.last())
        } else {
            rest
        }
    }
}

/// Filtering by `p` after mapping by `f` gives the same stream, item for
/// item and in the same order, as filtering by `p` composed with `f` and
/// then mapping by `f`.
pub proof fn law_map_filter_commute<A, B>(items: Seq<A>, f: spec_fn(A) -> B, p: spec_fn(B) -> bool)
    ensures
        filtered(mapped(items, f), p) == mapped(filtered(items, |a: A| p(f(a))), f),
    decreases items.len(),
{
    let q = |a: A| p(f(a));
    if items.len() > 0 {
        let init = items.drop_last();
        law_map_filter_commute(init, f, p);
        assert(mapped(items, f).drop_last() =~= mapped(init, f));
        let rest = filtered(init, q);
        assert(mapped(rest.push(items.last()), f) =~= mapped(rest, f).push(f(items.last())));
    } else {
        assert(filtered(mapped(items, f), p) =~= mapped(filtered(items, q), f));
    }
}

} // verus!
