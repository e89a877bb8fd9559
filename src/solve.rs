use vstd::prelude::*;

verus! {

/// The heater groups whose stage counts divide the feedwater enthalpy rise.
#[derive(Debug, Clone, Copy, PartialEq, Eq)]
pub enum StageGroup {
    /// All regenerative stages together.
    Regenerative,
    /// The low-pressure feedwater heaters.
    LowPressure,
    /// The high-pressure feedwater heaters.
    HighPressure,
}

/// The stage blocks of one pass of the cycle solver, in evaluation order.
#[derive(Debug, Clone, Copy, PartialEq, Eq)]
pub enum Stage {
    PrimaryLoop,
    LiveSteam,
    Condenser,
    HighPressureTurbine,
    MoistureSeparatorReheater,
    LowPressureTurbine,
    FeedwaterAllocation,
    Deaerator,
    Pumps,
    LowPressureHeaters,
    HighPressureHeaters,
    Extraction,
    ReheaterTaps,
    FlowBalance,
}

/// Why a solve produced no result.
#[derive(Debug, Clone, Copy, PartialEq, Eq)]
pub enum SolveError {
    /// A stage count is zero or not a whole number.
    InvalidStageCount(StageGroup),
    /// A property lookup gave no finite value in the named stage.
    PropertyLookupFailed(Stage),
    /// The pass cap was reached before the tolerance was met.
    NotConverged { passes: u32 },
}

/// Stage counts that passed validation: all positive.
#[derive(Debug, Clone, Copy, PartialEq, Eq)]
pub struct StageCounts {
    /// Number of regenerative stages.
    pub z: u32,
    /// Number of low-pressure feedwater heaters.
    pub z_l: u32,
    /// Number of high-pressure feedwater heaters.
    pub z_h: u32,
}

/// A stage count is usable when it is a whole number above zero.
pub open spec fn usable_count(count: Option<u32>) -> bool {
    count is Some && count->0 > 0
}

/// Checks the stage counts before a solve. A count is `None` when the value
/// given for it is not a non-negative whole number. The regenerative count is
/// checked first, then the low-pressure one, then the high-pressure one.
pub fn validate_stage_counts(z: Option<u32>, z_l: Option<u32>, z_h: Option<u32>) -> (r: Result<
    StageCounts,
    SolveError,
>)
    ensures
        !usable_count(z) ==> r == Err::<StageCounts, SolveError>(
            SolveError::InvalidStageCount(StageGroup::Regenerative),
        ),
        usable_count(z) && !usable_count(z_l) ==> r == Err::<StageCounts, SolveError>(
            SolveError::InvalidStageCount(StageGroup::LowPressure),
        ),
        usable_count(z) && usable_count(z_l) && !usable_count(z_h) ==> r == Err::<
            StageCounts,
            SolveError,
        >(SolveError::InvalidStageCount(StageGroup::HighPressure)),
        usable_count(z) && usable_count(z_l) && usable_count(z_h) ==> r == Ok::<
            StageCounts,
            SolveError,
        >(StageCounts { z: z->0, z_l: z_l->0, z_h: z_h->0 }),
{
    let z = match z {
        Some(n) if n > 0 => n,
        _ => {
            return Err(SolveError::InvalidStageCount(StageGroup::Regenerative));
        },
    };
    let z_l = match z_l {
        Some(n) if n > 0 => n,
        _ => {
            return Err(SolveError::InvalidStageCount(StageGroup::LowPressure));
        },
    };
    let z_h = match z_h {
        Some(n) if n > 0 => n,
        _ => {
            return Err(SolveError::InvalidStageCount(StageGroup::HighPressure));
        },
    };
    Ok(StageCounts { z, z_l, z_h })
}

/// What the solver does after a pass.
#[derive(Debug, Clone, Copy, PartialEq, Eq)]
pub enum LoopStep {
    /// Tolerance not met and passes remain: run another pass.
    Continue,
    /// Tolerance met on the last pass.
    Converged,
    /// Tolerance not met and no pass remains.
    NotConverged,
}

/// Bounded control of the solver's fixed-point iteration. It keeps the trace
/// of the passes, one entry for each, and stops at a cap on their number.
pub struct SolveLoop<T> {
    trace: Vec<T>,
    cap: u32,
}

impl<T> SolveLoop<T> {
    /// Never more passes than the cap, except the one pass every loop makes.
    pub open spec fn wf(&self) -> bool {
        self.trace().len() <= self.cap() || self.trace().len() <= 1
    }

    /// The entries recorded so far, one per pass, oldest first.
    pub closed spec fn trace(&self) -> Seq<T> {
        self.trace@
    }

    /// The most passes that may run. A loop always runs at least one.
    pub closed spec fn cap(&self) -> nat {
        self.cap as nat
    }

    /// Whether another pass may be recorded.
    pub open spec fn may_record(&self) -> bool {
        self.trace().len() == 0 || self.trace().len() < self.cap()
    }

    /// The decision after a pass, given the number of passes so far.
    pub open spec fn step_after(&self, passes: nat, converged: bool) -> LoopStep {
        if converged {
            LoopStep::Converged
        } else if passes >= self.cap() {
            LoopStep::NotConverged
        } else {
            LoopStep::Continue
        }
    }

    /// A loop with an empty trace that allows at most `cap` passes.
    pub fn new(cap: u32) -> (r: Self)
        ensures
            r.wf(),
            r.trace() == Seq::<T>::empty(),
            r.cap() == cap as nat,
    {
        SolveLoop { trace: Vec::new(), cap }
    }

    /// Number of passes recorded so far.
    pub fn passes(&self) -> (r: usize)
        ensures
            r as nat == self.trace().len(),
    {
        self.trace.len()
    }

    /// Records the entry of one pass, then decides on what follows from
    /// whether that pass met the tolerance.
    pub fn record(&mut self, entry: T, converged: bool) -> (r: LoopStep)
        requires
            old(self).wf(),
            old(self).may_record(),
        ensures
            final(self).wf(),
            final(self).trace() == old(self).trace().push(entry),
            final(self).cap() == old(self).cap(),
            r == final(self).step_after(final(self).trace().len(), converged),
            r == LoopStep::Continue ==> final(self).may_record(),
            final(self).trace().len() >= old(self).cap() ==> r != LoopStep::Continue,
    {
        self.trace.push(entry);
        if converged {
            LoopStep::Converged
        } else if self.trace.len() >= self.cap as usize {
            LoopStep::NotConverged
        } else {
            LoopStep::Continue
        }
    }

    /// Ends the loop after its last step: the trace when the last pass
    /// converged, an error naming the number of passes otherwise.
    pub fn conclude(self, last: LoopStep) -> (r: Result<Vec<T>, SolveError>)
        requires
            self.wf(),
            last != LoopStep::Continue,
        ensures
            last == LoopStep::Converged ==> r is Ok && r->Ok_0@ == self.trace(),
            last == LoopStep::NotConverged ==> r == Err::<Vec<T>, SolveError>(
                SolveError::NotConverged { passes: self.trace().len() as u32 },
            ),
    {
        match last {
            LoopStep::Converged => Ok(self.trace),
            _ => {
                let passes = self.trace.len() as u32;
                Err(SolveError::NotConverged { passes })
            },
        }
    }
}

} // verus!
