use npp_heat_balance::solve::{
    validate_stage_counts, LoopStep, SolveError, SolveLoop, StageCounts, StageGroup,
};

#[test]
fn design_point_stage_counts_are_accepted() {
    assert_eq!(
        validate_stage_counts(Some(7), Some(4), Some(2)),
        Ok(StageCounts { z: 7, z_l: 4, z_h: 2 })
    );
}

#[test]
fn zero_low_pressure_stages_are_rejected() {
    assert_eq!(
        validate_stage_counts(Some(7), Some(0), Some(2)),
        Err(SolveError::InvalidStageCount(StageGroup::LowPressure))
    );
}

#[test]
fn zero_high_pressure_stages_are_rejected() {
    assert_eq!(
        validate_stage_counts(Some(7), Some(4), Some(0)),
        Err(SolveError::InvalidStageCount(StageGroup::HighPressure))
    );
}

#[test]
fn zero_regenerative_stages_are_rejected_first() {
    assert_eq!(
        validate_stage_counts(Some(0), Some(0), Some(0)),
        Err(SolveError::InvalidStageCount(StageGroup::Regenerative))
    );
}

#[test]
fn fractional_stage_count_is_rejected() {
    assert_eq!(
        validate_stage_counts(Some(7), None, Some(2)),
        Err(SolveError::InvalidStageCount(StageGroup::LowPressure))
    );
}

#[test]
fn loop_converges_and_keeps_the_trace() {
    let mut l: SolveLoop<u32> = SolveLoop::new(50);
    assert_eq!(l.record(10, false), LoopStep::Continue);
    assert_eq!(l.record(20, false), LoopStep::Continue);
    assert_eq!(l.record(30, true), LoopStep::Converged);
    assert_eq!(l.passes(), 3);
    assert_eq!(l.conclude(LoopStep::Converged), Ok(vec![10, 20, 30]));
}

#[test]
fn loop_stops_at_the_cap() {
    let mut l: SolveLoop<u32> = SolveLoop::new(3);
    assert_eq!(l.record(1, false), LoopStep::Continue);
    assert_eq!(l.record(2, false), LoopStep::Continue);
    assert_eq!(l.record(3, false), LoopStep::NotConverged);
    assert_eq!(
        l.conclude(LoopStep::NotConverged),
        Err(SolveError::NotConverged { passes: 3 })
    );
}

#[test]
fn convergence_on_the_last_allowed_pass_counts() {
    let mut l: SolveLoop<u32> = SolveLoop::new(2);
    assert_eq!(l.record(1, false), LoopStep::Continue);
    assert_eq!(l.record(2, true), LoopStep::Converged);
}

#[test]
fn zero_cap_still_runs_one_pass() {
    let mut l: SolveLoop<u32> = SolveLoop::new(0);
    assert_eq!(l.record(5, false), LoopStep::NotConverged);
    assert_eq!(
        l.conclude(LoopStep::NotConverged),
        Err(SolveError::NotConverged { passes: 1 })
    );
}
