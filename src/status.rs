//! What a native status code says about how a solve ended.
use vstd::prelude::*;

verus! {

/// The trust region shrank to its final radius.
pub const SMALL_TR_RADIUS: i32 = 0;
/// The objective reached the target value.
pub const FTARGET_ACHIEVED: i32 = 1;
/// A trust-region subproblem could not be solved.
pub const TRSUBP_FAILED: i32 = 2;
/// The limit on function evaluations was reached.
pub const MAXFUN_REACHED: i32 = 3;
/// The limit on trust-region iterations was reached.
pub const MAXTR_REACHED: i32 = 20;
/// The iteration callback asked the solver to stop.
pub const CALLBACK_TERMINATE: i32 = 30;
/// The solver refused its input.
pub const INVALID_INPUT: i32 = 100;
/// The native interface received a null options record.
pub const NULL_OPTIONS: i32 = 110;
/// The native interface received a null problem record.
pub const NULL_PROBLEM: i32 = 111;
/// The native interface received no initial point.
pub const NULL_X0: i32 = 112;
/// The native interface received a null result record.
pub const NULL_RESULT: i32 = 113;
/// The native interface received no objective callback.
pub const NULL_FUNCTION: i32 = 114;

/// How a solve ended, by kind.
#[derive(Clone, Copy, Debug, PartialEq, Eq, Structural)]
pub enum Outcome {
    /// Normal termination: the final trust-region radius was reached.
    SmallRadius,
    /// Normal termination: the target objective value was reached.
    TargetReached,
    /// The iteration callback stopped the solve early.
    TerminatedByCallback,
    /// The limit on function evaluations was reached.
    MaxEvaluations,
    /// The limit on iterations was reached.
    MaxIterations,
    /// The solver or its native interface refused the input; holds the code.
    InvalidInput(i32),
    /// Any other ending; holds the code.
    Failure(i32),
}

/// The kind of ending that a native status code reports.
pub open spec fn outcome_of(code: i32) -> Outcome {
    if code == SMALL_TR_RADIUS {
        Outcome::SmallRadius
    } else if code == FTARGET_ACHIEVED {
        Outcome::TargetReached
    } else if code == CALLBACK_TERMINATE {
        Outcome::TerminatedByCallback
    } else if code == MAXFUN_REACHED {
        Outcome::MaxEvaluations
    } else if code == MAXTR_REACHED {
        Outcome::MaxIterations
    } else if code == INVALID_INPUT || (NULL_OPTIONS <= code && code <= NULL_FUNCTION) {
        Outcome::InvalidInput(code)
    } else {
        Outcome::Failure(code)
    }
}

/// Whether an ending counts as convergence.
pub open spec fn converged(o: Outcome) -> bool {
    o is SmallRadius || o is TargetReached
}

/// Classifies a native status code; no code is lost, since the two open
/// kinds carry it.
pub fn classify(code: i32) -> (r: Outcome)
    ensures
        r == outcome_of(code),
{
    if code == SMALL_TR_RADIUS {
        Outcome::SmallRadius
    } else if code == FTARGET_ACHIEVED {
        Outcome::TargetReached
    } else if code == CALLBACK_TERMINATE {
        Outcome::TerminatedByCallback
    } else if code == MAXFUN_REACHED {
        Outcome::MaxEvaluations
    } else if code == MAXTR_REACHED {
        Outcome::MaxIterations
    } else if code == INVALID_INPUT || (NULL_OPTIONS <= code && code <= NULL_FUNCTION) {
        Outcome::InvalidInput(code)
    } else {
        Outcome::Failure(code)
    }
}

impl Outcome {
    /// Whether the solve converged.
    pub fn is_converged(&self) -> (r: bool)
        ensures
            r == converged(*self),
    {
        match self {
            Outcome::SmallRadius | Outcome::TargetReached => true,
            _ => false,
        }
    }

    /// The native status code of this ending.
    pub fn code(&self) -> (r: i32)
        ensures
            r == code_of(*self),
    {
        match self {
            Outcome::SmallRadius => SMALL_TR_RADIUS,
            Outcome::TargetReached => FTARGET_ACHIEVED,
            Outcome::TerminatedByCallback => CALLBACK_TERMINATE,
            Outcome::MaxEvaluations => MAXFUN_REACHED,
            Outcome::MaxIterations => MAXTR_REACHED,
            Outcome::InvalidInput(c) => *c,
            Outcome::Failure(c) => *c,
        }
    }
}

/// A stop requested by the iteration callback is an early termination,
/// never a convergence.
pub proof fn lemma_callback_stop_is_not_convergence()
    ensures
        outcome_of(CALLBACK_TERMINATE) == Outcome::TerminatedByCallback,
        !converged(outcome_of(CALLBACK_TERMINATE)),
{
}

/// Every code is classified back to itself: the classification loses no
/// status code.
pub proof fn lemma_classify_keeps_code(code: i32)
    ensures
        code_of(outcome_of(code)) == code,
{
}

/// The native status code of an ending.
pub open spec fn code_of(o: Outcome) -> i32 {
    match o {
        Outcome::SmallRadius => SMALL_TR_RADIUS,
        Outcome::TargetReached => FTARGET_ACHIEVED,
        Outcome::TerminatedByCallback => CALLBACK_TERMINATE,
        Outcome::MaxEvaluations => MAXFUN_REACHED,
        Outcome::MaxIterations => MAXTR_REACHED,
        Outcome::InvalidInput(c) => c,
        Outcome::Failure(c) => c,
    }
}

} // verus!
