//! Decision logic of the bounded Newton-Raphson iteration used to solve for
//! the universal variable `z`.
//!
//! The solver enforces a physical ceiling on `z` — one full orbital period,
//! `MAX_Z = (2*pi)^2` — and recovers from overshooting that ceiling by pulling
//! the iterate back to the ceiling minus a reset distance. The reset distance
//! starts at 7.0 and is halved whenever two consecutive iterations both
//! overshoot; it never grows back during one solve.
//!
//! Evaluating the residual and taking the raw Newton step are floating-point
//! work and live with the driver. The driver reports what happened in each
//! iteration as a [`StepOutcome`]; [`NewtonControl::advance`] decides what to
//! do next and returns a [`StepCommand`]. The control tracks the reset
//! distance abstractly as the number of halvings applied so far, so the
//! distance the driver uses is `7.0 / 2^halvings`.

use vstd::prelude::*;

verus! {

/// Enumerates the possible ways in which the Lambert solver could fail.
#[derive(Clone, Copy, Debug, PartialEq, Eq, Structural)]
pub enum LambertError {
    /// The iteration budget was exhausted before the residual dropped below
    /// tolerance. Raise the iteration cap or loosen the tolerance.
    NoConvergence,
    /// A Newton step produced a non-finite iterate. This generally means the
    /// assumptions on the transfer geometry or the time of flight were
    /// violated.
    NaNResult,
}

/// What the driver observed during one Newton iteration: either the residual
/// at the current iterate was already within tolerance, or the raw Newton
/// step produced a new iterate that is non-finite, strictly above the ceiling
/// on `z`, or in bounds.
#[derive(Clone, Copy, Debug, PartialEq, Eq, Structural)]
pub enum StepOutcome {
    /// The residual magnitude at the current iterate is below the tolerance.
    ResidualSmall,
    /// The stepped iterate is not a finite number.
    StepNonFinite,
    /// The stepped iterate is finite but strictly above the ceiling on `z`.
    StepAboveCap,
    /// The stepped iterate is finite and does not exceed the ceiling.
    StepInBounds,
}

/// What the driver must do after reporting a [`StepOutcome`].
#[derive(Clone, Copy, Debug, PartialEq, Eq, Structural)]
pub enum StepCommand {
    /// Stop: the current iterate solves the equation to tolerance.
    Converged,
    /// Stop: the solve failed for the given reason.
    Failed(LambertError),
    /// Pull the iterate back to the ceiling minus the reset distance, then
    /// keep iterating. When `halve_first` is set, halve the reset distance
    /// before using it: the previous iteration also overshot.
    ClampToCap { halve_first: bool },
    /// Keep iterating from the stepped iterate.
    Proceed,
}

/// The state the bounded Newton iteration carries between iterations, apart
/// from the iterate itself: the iteration budget and how much of it is spent,
/// whether the previous iteration overshot the ceiling, how often the reset
/// distance has been halved, and whether a terminal decision has been made.
#[derive(Clone, Copy, Debug, PartialEq, Eq, Structural)]
pub struct NewtonControl {
    /// The hard cap on the number of iterations, fixed for one solve.
    pub max_iter: usize,
    /// How many iterations have run to completion.
    pub iters_done: usize,
    /// Whether the previous iteration overshot the ceiling on `z`.
    pub reset_last_frame: bool,
    /// How often the reset distance has been halved so far; the distance in
    /// use is the initial 7.0 divided by `2^halvings`.
    pub halvings: usize,
    /// Whether a terminal decision (converged or failed) has been made.
    pub finished: bool,
}

impl NewtonControl {
    /// The control never runs past its budget, never halves the reset
    /// distance more often than it has iterated, and is finished once the
    /// budget is spent.
    pub open spec fn wf(self) -> bool {
        &&& self.iters_done <= self.max_iter
        &&& self.halvings <= self.iters_done
        &&& (!self.finished ==> self.iters_done < self.max_iter)
    }

    /// The state after one more iteration with the given outcome.
    pub open spec fn next_state(self, o: StepOutcome) -> NewtonControl {
        match o {
            StepOutcome::ResidualSmall => (NewtonControl {
                max_iter: self.max_iter,
                iters_done: self.iters_done,
                reset_last_frame: self.reset_last_frame,
                halvings: self.halvings,
                finished: true,
            }),
            StepOutcome::StepNonFinite => (NewtonControl {
                max_iter: self.max_iter,
                iters_done: self.iters_done,
                reset_last_frame: self.reset_last_frame,
                halvings: self.halvings,
                finished: true,
            }),
            StepOutcome::StepAboveCap => (NewtonControl {
                max_iter: self.max_iter,
                iters_done: (self.iters_done + 1) as usize,
                reset_last_frame: true,
                halvings: if self.reset_last_frame {
                    (self.halvings + 1) as usize
                } else {
                    self.halvings
                },
                finished: self.iters_done + 1 == self.max_iter,
            }),
            StepOutcome::StepInBounds => (NewtonControl {
                max_iter: self.max_iter,
                iters_done: (self.iters_done + 1) as usize,
                reset_last_frame: false,
                halvings: self.halvings,
                finished: self.iters_done + 1 == self.max_iter,
            }),
        }
    }

    /// The command handed back to the driver for the given outcome.
    pub open spec fn next_command(self, o: StepOutcome) -> StepCommand {
        match o {
            StepOutcome::ResidualSmall => StepCommand::Converged,
            StepOutcome::StepNonFinite => StepCommand::Failed(LambertError::NaNResult),
            StepOutcome::StepAboveCap => if self.iters_done + 1 == self.max_iter {
                StepCommand::Failed(LambertError::NoConvergence)
            } else {
                (StepCommand::ClampToCap { halve_first: self.reset_last_frame })
            },
            StepOutcome::StepInBounds => if self.iters_done + 1 == self.max_iter {
                StepCommand::Failed(LambertError::NoConvergence)
            } else {
                StepCommand::Proceed
            },
        }
    }

    /// A fresh control for one solve: nothing spent of the budget, the
    /// previous iteration did not overshoot, the reset distance still at its
    /// initial value, no decision made.
    pub fn new(max_iter: usize) -> (s: NewtonControl)
        requires
            1 <= max_iter,
        ensures
            s == (NewtonControl {
                max_iter: max_iter,
                iters_done: 0,
                reset_last_frame: false,
                halvings: 0,
                finished: false,
            }),
            s.wf(),
    {
        NewtonControl {
            max_iter: max_iter,
            iters_done: 0,
            reset_last_frame: false,
            halvings: 0,
            finished: false,
        }
    }

    /// Record the outcome of one iteration and decide what the driver does
    /// next. The residual-within-tolerance outcome converges at the current
    /// iterate; a non-finite step fails at once; an above-cap step is clamped
    /// back under the ceiling (halving the reset distance if the previous
    /// iteration also overshot); an in-bounds step simply continues. Whenever
    /// an iteration completes without converging or failing and the budget is
    /// spent, the solve fails with `NoConvergence`.
    pub fn advance(&mut self, o: StepOutcome) -> (cmd: StepCommand)
        requires
            old(self).wf(),
            !old(self).finished,
        ensures
            *final(self) == old(self).next_state(o),
            cmd == old(self).next_command(o),
            final(self).wf(),
    {
        match o {
            StepOutcome::ResidualSmall => {
                self.finished = true;
                StepCommand::Converged
            },
            StepOutcome::StepNonFinite => {
                self.finished = true;
                StepCommand::Failed(LambertError::NaNResult)
            },
            StepOutcome::StepAboveCap => {
                let halve_first = self.reset_last_frame;
                if halve_first {
                    self.halvings = self.halvings + 1;
                }
                self.reset_last_frame = true;
                self.iters_done = self.iters_done + 1;
                if self.iters_done == self.max_iter {
                    self.finished = true;
                    StepCommand::Failed(LambertError::NoConvergence)
                } else {
                    StepCommand::ClampToCap { halve_first }
                }
            },
            StepOutcome::StepInBounds => {
                self.reset_last_frame = false;
                self.iters_done = self.iters_done + 1;
                if self.iters_done == self.max_iter {
                    self.finished = true;
                    StepCommand::Failed(LambertError::NoConvergence)
                } else {
                    StepCommand::Proceed
                }
            },
        }
    }
}

/// The state after the control has processed a sequence of outcomes, one
/// iteration each, stopping at the first terminal decision.
pub open spec fn run(s: NewtonControl, outcomes: Seq<StepOutcome>) -> NewtonControl
    decreases outcomes.len(),
{
    if outcomes.len() == 0 || s.finished {
        s
    } else {
        run(s.next_state(outcomes[0]), outcomes.subrange(1, outcomes.len() as int))
    }
}

/// One iteration keeps the control well formed.
proof fn lemma_next_state_wf(s: NewtonControl, o: StepOutcome)
    requires
        s.wf(),
        !s.finished,
    ensures
        s.next_state(o).wf(),
{
}

/// Bounded-z guarantee, at the decision level: the control tells the driver
/// to carry an unclamped iterate into the next iteration only when that
/// iterate is within the ceiling, declares convergence only at an iterate
/// whose residual was just found within tolerance, and orders a clamp for
/// every above-cap step that is allowed to continue. The residual is
/// therefore only ever evaluated at an iterate at or below the ceiling, and
/// in particular a converged iterate never lies above it.
pub proof fn lemma_no_iterate_above_cap(s: NewtonControl, o: StepOutcome)
    requires
        s.wf(),
        !s.finished,
    ensures
        s.next_command(o) == StepCommand::Proceed ==> o == StepOutcome::StepInBounds,
        s.next_command(o) == StepCommand::Converged ==> o == StepOutcome::ResidualSmall,
        o == StepOutcome::StepAboveCap && !s.next_state(o).finished ==> s.next_command(o)
            == (StepCommand::ClampToCap { halve_first: s.reset_last_frame }),
{
}

/// The reset distance only shrinks, never grows or resets, during one solve:
/// the halving count never decreases, and it grows — by exactly one — exactly
/// when an above-cap step follows another one.
pub proof fn lemma_reset_distance_only_shrinks(s: NewtonControl, o: StepOutcome)
    requires
        s.wf(),
        !s.finished,
    ensures
        s.next_state(o).halvings >= s.halvings,
        s.next_state(o).halvings <= s.halvings + 1,
        s.next_state(o).halvings == s.halvings + 1 <==> (o == StepOutcome::StepAboveCap
            && s.reset_last_frame),
{
}

/// Monotone iteration cap: from any live state, the control reaches a
/// terminal decision within its remaining iteration budget, whatever sequence
/// of outcomes the driver observes — the solver never loops indefinitely.
pub proof fn lemma_iteration_cap(s: NewtonControl, outcomes: Seq<StepOutcome>)
    requires
        s.wf(),
        outcomes.len() >= s.max_iter - s.iters_done,
    ensures
        run(s, outcomes).finished,
    decreases outcomes.len(),
{
    if outcomes.len() == 0 {
        assert(s.finished);
    } else if !s.finished {
        let s2 = s.next_state(outcomes[0]);
        lemma_next_state_wf(s, outcomes[0]);
        if s2.finished {
            assert(run(s2, outcomes.subrange(1, outcomes.len() as int)) == s2);
        } else {
            lemma_iteration_cap(s2, outcomes.subrange(1, outcomes.len() as int));
        }
    }
}

/// Idempotence of the decision logic: the control is a pure function of its
/// state and of the outcomes it observes, with no hidden global state, so two
/// solves that start equal and observe equal outcomes decide identically
/// throughout and end in identical states.
pub proof fn lemma_run_deterministic(
    s1: NewtonControl,
    s2: NewtonControl,
    outcomes1: Seq<StepOutcome>,
    outcomes2: Seq<StepOutcome>,
)
    requires
        s1 == s2,
        outcomes1 == outcomes2,
    ensures
        run(s1, outcomes1) == run(s2, outcomes2),
        forall|o: StepOutcome| s1.next_command(o) == s2.next_command(o),
{
}

} // verus!
