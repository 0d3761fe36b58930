use lambert::LambertError;
use lambert::NewtonControl;
use lambert::StepCommand;
use lambert::StepOutcome;

#[test]
fn fresh_control_state() {
    let c = NewtonControl::new(7);
    assert_eq!(c.max_iter, 7);
    assert_eq!(c.iters_done, 0);
    assert_eq!(c.reset_last_frame, false);
    assert_eq!(c.halvings, 0);
    assert_eq!(c.finished, false);
}

#[test]
fn converges_at_current_iterate() {
    let mut c = NewtonControl::new(10);
    let cmd = c.advance(StepOutcome::ResidualSmall);
    assert_eq!(cmd, StepCommand::Converged);
    assert!(c.finished);
}

#[test]
fn non_finite_step_fails_at_once() {
    let mut c = NewtonControl::new(10);
    let cmd = c.advance(StepOutcome::StepNonFinite);
    assert_eq!(cmd, StepCommand::Failed(LambertError::NaNResult));
    assert!(c.finished);
}

#[test]
fn budget_exhaustion_reports_no_convergence() {
    let mut c = NewtonControl::new(3);
    assert_eq!(c.advance(StepOutcome::StepInBounds), StepCommand::Proceed);
    assert_eq!(c.advance(StepOutcome::StepInBounds), StepCommand::Proceed);
    assert_eq!(
        c.advance(StepOutcome::StepInBounds),
        StepCommand::Failed(LambertError::NoConvergence)
    );
    assert!(c.finished);
    assert_eq!(c.iters_done, 3);
}

#[test]
fn reset_distance_halves_only_on_consecutive_overshoot() {
    let mut c = NewtonControl::new(10);
    // First overshoot: clamp with the full reset distance.
    assert_eq!(
        c.advance(StepOutcome::StepAboveCap),
        StepCommand::ClampToCap { halve_first: false }
    );
    assert_eq!(c.halvings, 0);
    // Second overshoot in a row: halve before clamping.
    assert_eq!(
        c.advance(StepOutcome::StepAboveCap),
        StepCommand::ClampToCap { halve_first: true }
    );
    assert_eq!(c.halvings, 1);
    // An in-bounds step breaks the streak.
    assert_eq!(c.advance(StepOutcome::StepInBounds), StepCommand::Proceed);
    // The next overshoot clamps without halving again.
    assert_eq!(
        c.advance(StepOutcome::StepAboveCap),
        StepCommand::ClampToCap { halve_first: false }
    );
    assert_eq!(c.halvings, 1);
}

#[test]
fn above_cap_step_is_never_carried_on() {
    let mut c = NewtonControl::new(5);
    while !c.finished {
        let cmd = c.advance(StepOutcome::StepAboveCap);
        assert!(!matches!(cmd, StepCommand::Proceed));
        assert!(!matches!(cmd, StepCommand::Converged));
    }
    assert_eq!(c.iters_done, 5);
}

#[test]
fn same_outcomes_same_decisions() {
    let outcomes = vec![
        StepOutcome::StepAboveCap,
        StepOutcome::StepAboveCap,
        StepOutcome::StepInBounds,
        StepOutcome::StepAboveCap,
        StepOutcome::ResidualSmall,
    ];
    let mut first = NewtonControl::new(100);
    let mut second = NewtonControl::new(100);
    let mut first_commands: Vec<StepCommand> = Vec::new();
    let mut second_commands: Vec<StepCommand> = Vec::new();
    for o in &outcomes {
        first_commands.push(first.advance(*o));
    }
    for o in &outcomes {
        second_commands.push(second.advance(*o));
    }
    assert_eq!(first_commands, second_commands);
    assert_eq!(first, second);
}
