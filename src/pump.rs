//! The input pump: the part of a worker that pulls `(epoch, item)` pairs
//! from an input source and advances the dataflow's logical time.
use vstd::prelude::*;

verus! {

/// What the caller does after one pull from the input source.
#[derive(Debug, Clone, Copy, PartialEq, Eq, Structural)]
pub enum PumpAction {
    /// Advance the input to `epoch` and send the pulled item at it.
    Send { epoch: u64 },
    /// The source is exhausted: nothing is sent, the pump is done.
    Exhausted,
}

/// An item arrived with an epoch below the one the input already
/// advanced to.
#[derive(Debug, Clone, Copy, PartialEq, Eq, Structural)]
pub struct EpochRegression {
    pub current: u64,
    pub requested: u64,
}

/// The cursor state of one input source: the epoch the input has been
/// advanced to, and whether the source has run dry.
pub struct Pump {
    now_at: u64,
    exhausted: bool,
}

impl Pump {
    /// The epoch the input currently stands at.
    pub closed spec fn epoch(&self) -> u64 {
        self.now_at
    }

    /// Whether the source has been found exhausted.
    pub closed spec fn is_exhausted(&self) -> bool {
        self.exhausted
    }

    /// A fresh pump: the input starts at epoch zero with input remaining.
    pub fn new() -> (r: Pump)
        ensures
            r.epoch() == 0,
            !r.is_exhausted(),
    {
        Pump { now_at: 0, exhausted: false }
    }

    /// Account for one pull from the source, whose result is `next`: the
    /// epoch of the pulled pair, or `None` if the source had no more.
    ///
    /// A pulled epoch below the current one is refused and leaves the pump
    /// unchanged. Exhaustion is permanent: once exhausted, the pump stays
    /// so and asks for nothing to be sent.
    pub fn pump(&mut self, next: Option<u64>) -> (r: Result<PumpAction, EpochRegression>)
        ensures
            old(self).is_exhausted() ==> r == Ok::<PumpAction, EpochRegression>(PumpAction::Exhausted)
                && final(self).epoch() == old(self).epoch() && final(self).is_exhausted(),
            !old(self).is_exhausted() ==> match next {
                None => r == Ok::<PumpAction, EpochRegression>(PumpAction::Exhausted)
                    && final(self).epoch() == old(self).epoch() && final(self).is_exhausted(),
                Some(e) => if e < old(self).epoch() {
                    r == Err::<PumpAction, EpochRegression>(
                        EpochRegression { current: old(self).epoch(), requested: e },
                    ) && final(self).epoch() == old(self).epoch() && !final(self).is_exhausted()
                } else {
                    r == Ok::<PumpAction, EpochRegression>(PumpAction::Send { epoch: e })
                        && final(self).epoch() == e && !final(self).is_exhausted()
                },
            },
    {
        if self.exhausted {
            return Ok(PumpAction::Exhausted);
        }
        match next {
            None => {
                self.exhausted = true;
                Ok(PumpAction::Exhausted)
            },
            Some(e) => {
                if e < self.now_at {
                    Err(EpochRegression { current: self.now_at, requested: e })
                } else {
                    self.now_at = e;
                    Ok(PumpAction::Send { epoch: e })
                }
            },
        }
    }

    /// Whether the source may still yield items.
    pub fn input_remains(&self) -> (r: bool)
        ensures
            r == !self.is_exhausted(),
    {
        !self.exhausted
    }
}

/// The epoch a fresh pump stands at after being fed `epochs` in order, as
/// `Pump::pump` moves it, or `None` if one of them was refused.
pub open spec fn pumped(epochs: Seq<u64>) -> Option<u64>
    decreases epochs.len(),
{
    if epochs.len() == 0 {
        Some(0)
    } else {
        match pumped(epochs.drop_last()) {
            None => None,
            Some(now) => if epochs.last() < now {
                None
            } else {
                Some(epochs.last())
            },
        }
    }
}

/// `epochs` never goes down.
pub open spec fn non_decreasing(epochs: Seq<u64>) -> bool {
    forall|i: int, j: int| 0 <= i < j < epochs.len() ==> epochs[i] <= epochs[j]
}

/// A fresh pump accepts a sequence of epochs, each sent at its own epoch,
/// exactly when the sequence never goes down; any regression is refused
/// rather than reordered.
pub proof fn law_pump_accepts_iff_non_decreasing(epochs: Seq<u64>)
    ensures
        pumped(epochs) is Some <==> non_decreasing(epochs),
        pumped(epochs) is Some && epochs.len() > 0 ==> pumped(epochs) == Some(epochs.last()),
    decreases epochs.len(),
{
    if epochs.len() > 0 {
        let init = epochs.drop_last();
        law_pump_accepts_iff_non_decreasing(init);
        if pumped(epochs) is Some {
            assert forall|i: int, j: int| 0 <= i < j < epochs.len() implies epochs[i] <= epochs[j] by {
                if j < epochs.len() - 1 {
                    assert(init[i] == epochs[i] && init[j] == epochs[j]);
                } else if init.len() > 0 {
                    assert(init[i] <= init[init.len() - 1] || i == init.len() - 1);
                }
            }
        }
        if non_decreasing(epochs) {
            assert forall|i: int, j: int| 0 <= i < j < init.len() implies init[i] <= init[j] by {
                assert(epochs[i] <= epochs[j]);
            }
            if init.len() > 0 {
                assert(epochs[init.len() - 1] <= epochs[epochs.len() - 1]);
            }
        }
    }
}

/// One more epoch `e` fed to a pump that stands at `now` after `epochs`
/// moves the model as `Pump::pump` moves a pump that is not exhausted:
/// refused below `now`, else the pump stands at `e`.
pub proof fn law_pumped_step(epochs: Seq<u64>, now: u64, e: u64)
    requires
        pumped(epochs) == Some(now),
    ensures
        pumped(epochs.push(e)) == (if e < now {
            None::<u64>
        } else {
            Some(e)
        }),
{
    assert(epochs.push(e).drop_last() =~= epochs);
}

} // verus!
