//! The declarative side: a dataflow descriptor (an input and a linear list
//! of steps) and the executor's registry of descriptors.
//!
//! Both are generic over how the user's callables (`C`) and the input
//! source (`I`) are represented.
use vstd::prelude::*;

verus! {

/// Where the items of a dataflow come from.
pub enum Input<I, C> {
    /// One global source of `(epoch, item)` pairs, read by worker 0 only;
    /// its items are then scattered over all workers.
    Singleton { worker_0s_input: I },
    /// Each worker calls the builder with `(worker_index, total_workers)`
    /// and reads the source it returns.
    Partitioned { per_worker_input_builder: C },
}

impl<I, C> Input<I, C> {
    /// Whether worker `worker_index` reads a source of this input: every
    /// worker does for a partitioned input, only worker 0 for a single one.
    pub fn has_pump(&self, worker_index: usize) -> (r: bool)
        ensures
            r == (self is Partitioned || worker_index == 0),
    {
        match self {
            Input::Singleton { .. } => worker_index == 0,
            Input::Partitioned { .. } => true,
        }
    }
}

/// One step of a linear pipeline, holding the callables it applies.
pub enum Step<C> {
    MapItem { mapper: C },
    FlatMap { mapper: C },
    Filter { predicate: C },
    Inspect { inspector: C },
    InspectEpoch { inspector: C },
    Reduce { reducer: C, is_complete: C },
    ReduceEpoch { reducer: C },
    ReduceEpochLocal { reducer: C },
    MapStateful { builder: C, mapper: C },
    Capture { captor: C },
}

/// A dataflow descriptor: an input and the ordered steps applied to it.
/// Steps are only ever appended.
pub struct Dataflow<I, C> {
    input: Input<I, C>,
    steps: Vec<Step<C>>,
}

impl<I, C> Dataflow<I, C> {
    /// The input of the dataflow.
    pub closed spec fn source(&self) -> Input<I, C> {
        self.input
    }

    /// The steps of the dataflow, in pipeline order.
    pub closed spec fn step_seq(&self) -> Seq<Step<C>> {
        self.steps@
    }

    /// A dataflow reading `input`, with no steps yet.
    pub fn new(input: Input<I, C>) -> (r: Self)
        ensures
            r.source() == input,
            r.step_seq() == Seq::<Step<C>>::empty(),
    {
        Dataflow { input, steps: Vec::new() }
    }

    /// Appends `step` at the end of the pipeline.
    pub fn push_step(&mut self, step: Step<C>)
        ensures
            final(self).source() == old(self).source(),
            final(self).step_seq() == old(self).step_seq().push(step),
    {
        self.steps.push(step);
    }

    /// One-to-one transformation of items by `mapper`.
    pub fn map(&mut self, mapper: C)
        ensures
            final(self).source() == old(self).source(),
            final(self).step_seq() == old(self).step_seq().push(Step::MapItem { mapper }),
    {
        self.push_step(Step::MapItem { mapper });
    }

    /// One-to-many transformation: each element of what `mapper` returns is
    /// emitted individually.
    pub fn flat_map(&mut self, mapper: C)
        ensures
            final(self).source() == old(self).source(),
            final(self).step_seq() == old(self).step_seq().push(Step::FlatMap { mapper }),
    {
        self.push_step(Step::FlatMap { mapper });
    }

    /// Keeps the items on which `predicate` holds.
    pub fn filter(&mut self, predicate: C)
        ensures
            final(self).source() == old(self).source(),
            final(self).step_seq() == old(self).step_seq().push(Step::Filter { predicate }),
    {
        self.push_step(Step::Filter { predicate });
    }

    /// Observes each item without changing it.
    pub fn inspect(&mut self, inspector: C)
        ensures
            final(self).source() == old(self).source(),
            final(self).step_seq() == old(self).step_seq().push(Step::Inspect { inspector }),
    {
        self.push_step(Step::Inspect { inspector });
    }

    /// Observes each item with its epoch without changing it.
    pub fn inspect_epoch(&mut self, inspector: C)
        ensures
            final(self).source() == old(self).source(),
            final(self).step_seq() == old(self).step_seq().push(Step::InspectEpoch { inspector }),
    {
        self.push_step(Step::InspectEpoch { inspector });
    }

    /// Folds the values of each key until `is_complete` says to emit.
    pub fn reduce(&mut self, reducer: C, is_complete: C)
        ensures
            final(self).source() == old(self).source(),
            final(self).step_seq() == old(self).step_seq().push(
                Step::Reduce { reducer, is_complete },
            ),
    {
        self.push_step(Step::Reduce { reducer, is_complete });
    }

    /// Folds the values of each key within each epoch, over all workers.
    pub fn reduce_epoch(&mut self, reducer: C)
        ensures
            final(self).source() == old(self).source(),
            final(self).step_seq() == old(self).step_seq().push(Step::ReduceEpoch { reducer }),
    {
        self.push_step(Step::ReduceEpoch { reducer });
    }

    /// Folds the values of each key within each epoch, on each worker alone.
    pub fn reduce_epoch_local(&mut self, reducer: C)
        ensures
            final(self).source() == old(self).source(),
            final(self).step_seq() == old(self).step_seq().push(
                Step::ReduceEpochLocal { reducer },
            ),
    {
        self.push_step(Step::ReduceEpochLocal { reducer });
    }

    /// Maps the values of each key through a per-key state.
    pub fn stateful_map(&mut self, builder: C, mapper: C)
        ensures
            final(self).source() == old(self).source(),
            final(self).step_seq() == old(self).step_seq().push(
                Step::MapStateful { builder, mapper },
            ),
    {
        self.push_step(Step::MapStateful { builder, mapper });
    }

    /// Hands every `(epoch, item)` pair, from all workers, to `captor`.
    pub fn capture(&mut self, captor: C)
        ensures
            final(self).source() == old(self).source(),
            final(self).step_seq() == old(self).step_seq().push(Step::Capture { captor }),
    {
        self.push_step(Step::Capture { captor });
    }

    /// The input of the dataflow.
    pub fn input(&self) -> (r: &Input<I, C>)
        ensures
            *r == self.source(),
    {
        &self.input
    }

    /// The steps of the dataflow, in pipeline order.
    pub fn steps(&self) -> (r: &Vec<Step<C>>)
        ensures
            r@ == self.step_seq(),
    {
        &self.steps
    }
}

/// The registry of dataflows that one run builds and executes.
pub struct Executor<D> {
    dataflows: Vec<D>,
}

impl<D> Executor<D> {
    /// The registered dataflows, in order of registration.
    pub closed spec fn registered(&self) -> Seq<D> {
        self.dataflows@
    }

    /// An executor with no dataflows.
    pub fn new() -> (r: Self)
        ensures
            r.registered() == Seq::<D>::empty(),
    {
        Executor { dataflows: Vec::new() }
    }

    /// Registers one more dataflow.
    pub fn dataflow(&mut self, dataflow: D)
        ensures
            final(self).registered() == old(self).registered().push(dataflow),
    {
        self.dataflows.push(dataflow);
    }

    /// The registered dataflows, in order of registration.
    pub fn dataflows(&self) -> (r: &Vec<D>)
        ensures
            r@ == self.registered(),
    {
        &self.dataflows
    }
}

} // verus!
