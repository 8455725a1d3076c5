//! Decisions of the per-worker poll loop: whether to go on, and which
//! pumps and probes stay active after a round.
use vstd::prelude::*;

verus! {

/// Where a worker's poll loop stands.
#[derive(Debug, Clone, Copy, PartialEq, Eq, Structural)]
pub enum WorkerPhase {
    /// Some pump still has input.
    Running,
    /// All input is in; some probe still sees data in flight.
    Draining,
    /// Nothing is left, or the run was interrupted.
    Stopped,
}

/// The phase of a worker with `pumps` active pumps and `probes` active
/// probes. An interrupt stops the loop whatever is left.
pub fn phase(pumps: usize, probes: usize, interrupted: bool) -> (r: WorkerPhase)
    ensures
        interrupted ==> r == WorkerPhase::Stopped,
        !interrupted && pumps > 0 ==> r == WorkerPhase::Running,
        !interrupted && pumps == 0 && probes > 0 ==> r == WorkerPhase::Draining,
        pumps == 0 && probes == 0 ==> r == WorkerPhase::Stopped,
{
    if interrupted {
        WorkerPhase::Stopped
    } else if pumps > 0 {
        WorkerPhase::Running
    } else if probes > 0 {
        WorkerPhase::Draining
    } else {
        WorkerPhase::Stopped
    }
}

/// Whether the poll loop runs one more round.
pub fn keep_polling(pumps: usize, probes: usize, interrupted: bool) -> (r: bool)
    ensures
        r == ((pumps > 0 || probes > 0) && !interrupted),
{
    match phase(pumps, probes, interrupted) {
        WorkerPhase::Stopped => false,
        _ => true,
    }
}

/// The elements of `items` whose flag in `keep` is set, in their order.
pub open spec fn kept<T>(items: Seq<T>, keep: Seq<bool>) -> Seq<T>
    decreases items.len(),
{
    if items.len() == 0 || keep.len() == 0 {
        Seq::empty()
    } else {
        let rest = kept(items.drop_last(), keep.drop_last());
        if keep.last() {
            rest.push(items.last())
        } else {
            rest
        }
    }
}

/// Keeps, in order, the elements of `items` whose flag in `keep` is set:
/// the pumps with input remaining, or the probes not yet done.
pub fn retain_flagged<T>(items: Vec<T>, keep: &Vec<bool>) -> (r: Vec<T>)
    requires
        items.len() == keep.len(),
    ensures
        r@ == kept(items@, keep@),
{
    let ghost all = items@;
    let mut rest = items;
    let mut out: Vec<T> = Vec::new();
    let mut i: usize = 0;
    while i < keep.len()
        invariant
            i <= keep.len(),
            keep.len() == all.len(),
            rest@ == all.subrange(i as int, all.len() as int),
            out@ == kept(all.subrange(0, i as int), keep@.subrange(0, i as int)),
        decreases keep.len() - i,
    {
        let item = rest.remove(0);
        proof {
            let next = all.subrange(0, i + 1);
            assert(next.drop_last() =~= all.subrange(0, i as int));
            assert(keep@.subrange(0, i + 1).drop_last() =~= keep@.subrange(0, i as int));
            assert(rest@ =~= all.subrange(i + 1, all.len() as int));
        }
        if keep[i] {
            out.push(item);
        }
        i = i + 1;
    }
    proof {
        assert(all.subrange(0, all.len() as int) =~= all);
        assert(keep@.subrange(0, all.len() as int) =~= keep@);
    }
    out
}

} // verus!
