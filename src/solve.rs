//! The checks that a problem must pass before it is handed to the solver.
use vstd::prelude::*;
use crate::descriptor::{ObjectiveShape, Problem};

verus! {

/// The solver's algorithms.
#[derive(Clone, Copy, Debug, PartialEq, Eq, Structural)]
pub enum Algorithm {
    /// Nonlinear, linear and bound constraints; objective with constraints.
    Cobyla,
    /// Unconstrained.
    Uobyqa,
    /// Unconstrained.
    Newuoa,
    /// Bound constraints.
    Bobyqa,
    /// Linear and bound constraints.
    Lincoa,
}

/// A buffer of a problem descriptor.
#[derive(Clone, Copy, Debug, PartialEq, Eq, Structural)]
pub enum Buffer {
    /// The initial point.
    X0,
    /// The lower bounds.
    Xl,
    /// The upper bounds.
    Xu,
    /// The matrix of the linear inequalities.
    AIneq,
    /// The right-hand side of the linear inequalities.
    BIneq,
    /// The matrix of the linear equalities.
    AEq,
    /// The right-hand side of the linear equalities.
    BEq,
    /// The nonlinear constraint values at the initial point.
    NlConstr0,
}

/// Why a problem was refused before the solver was called.
#[derive(Clone, Copy, Debug, PartialEq, Eq, Structural)]
pub enum SolveError {
    /// The number of variables is zero or negative.
    NonPositiveVariables,
    /// A constraint count is negative.
    NegativeCount,
    /// The installed objective callback is absent or of the shape that the
    /// algorithm does not call, or nonlinear constraints are given to an
    /// algorithm that cannot handle them.
    ObjectiveMismatch,
    /// A buffer that the problem needs is absent.
    Missing(Buffer),
    /// A buffer's length disagrees with the counts of the problem.
    WrongLength(Buffer),
}

/// Whether the algorithm handles nonlinear constraints.
pub open spec fn supports_nonlinear(algorithm: Algorithm) -> bool {
    algorithm == Algorithm::Cobyla
}

/// The objective shape that the algorithm calls.
pub open spec fn expected_shape(algorithm: Algorithm) -> ObjectiveShape {
    if supports_nonlinear(algorithm) {
        ObjectiveShape::WithConstraints
    } else {
        ObjectiveShape::Plain
    }
}

/// The check of one buffer that should hold `len` values: absent is
/// refused only where it is `required`.
pub open spec fn buffer_check<T>(b: Option<Vec<T>>, which: Buffer, len: int, required: bool) -> Result<(), SolveError> {
    match b {
        Some(v) => if v@.len() == len {
            Ok(())
        } else {
            Err(SolveError::WrongLength(which))
        },
        None => if required {
            Err(SolveError::Missing(which))
        } else {
            Ok(())
        },
    }
}

/// The first failure of two checks.
pub open spec fn first_failure(a: Result<(), SolveError>, b: Result<(), SolveError>) -> Result<(), SolveError> {
    if a is Err {
        a
    } else {
        b
    }
}

/// The checks of all buffers of a problem whose counts are not negative,
/// in the order of the descriptor's fields.
pub open spec fn buffers_check<T>(p: Problem<T>) -> Result<(), SolveError> {
    let n = p.n as int;
    let mi = p.m_ineq as int;
    let me = p.m_eq as int;
    let mn = p.m_nlcon as int;
    first_failure(buffer_check(p.x0, Buffer::X0, n, true),
    first_failure(buffer_check(p.xl, Buffer::Xl, n, false),
    first_failure(buffer_check(p.xu, Buffer::Xu, n, false),
    first_failure(buffer_check(p.a_ineq, Buffer::AIneq, mi * n, mi > 0),
    first_failure(buffer_check(p.b_ineq, Buffer::BIneq, mi, mi > 0),
    first_failure(buffer_check(p.a_eq, Buffer::AEq, me * n, me > 0),
    first_failure(buffer_check(p.b_eq, Buffer::BEq, me, me > 0),
    buffer_check(p.nlconstr0, Buffer::NlConstr0, mn, mn > 0))))))))
}

/// Whether a problem may be handed to the solver with this algorithm, and
/// if not, the first reason why not.
pub open spec fn problem_check<T>(algorithm: Algorithm, p: Problem<T>) -> Result<(), SolveError> {
    if p.n <= 0 {
        Err(SolveError::NonPositiveVariables)
    } else if p.m_ineq < 0 || p.m_eq < 0 || p.m_nlcon < 0 {
        Err(SolveError::NegativeCount)
    } else if p.objective != Some(expected_shape(algorithm)) || (p.m_nlcon > 0
        && !supports_nonlinear(algorithm)) {
        Err(SolveError::ObjectiveMismatch)
    } else {
        buffers_check(p)
    }
}

fn check_buffer<T>(b: &Option<Vec<T>>, which: Buffer, len: u64, required: bool) -> (r: Result<(), SolveError>)
    ensures
        r == buffer_check(*b, which, len as int, required),
{
    match b {
        Some(v) => if v.len() as u64 == len {
            Ok(())
        } else {
            Err(SolveError::WrongLength(which))
        },
        None => if required {
            Err(SolveError::Missing(which))
        } else {
            Ok(())
        },
    }
}

/// Checks, before any native call, that the problem fits the algorithm:
/// a positive number of variables, no negative count, the objective
/// callback that the algorithm calls, and every buffer of the length that
/// the counts give.
pub fn check_problem<T>(algorithm: Algorithm, problem: &Problem<T>) -> (r: Result<(), SolveError>)
    ensures
        r == problem_check(algorithm, *problem),
{
    if problem.n <= 0 {
        return Err(SolveError::NonPositiveVariables);
    }
    if problem.m_ineq < 0 || problem.m_eq < 0 || problem.m_nlcon < 0 {
        return Err(SolveError::NegativeCount);
    }
    let nonlinear = match algorithm {
        Algorithm::Cobyla => true,
        _ => false,
    };
    let shape_ok = match problem.objective {
        Some(ObjectiveShape::WithConstraints) => nonlinear,
        Some(ObjectiveShape::Plain) => !nonlinear,
        None => false,
    };
    if !shape_ok || (problem.m_nlcon > 0 && !nonlinear) {
        return Err(SolveError::ObjectiveMismatch);
    }
    let n = problem.n as u64;
    let mi = problem.m_ineq as u64;
    let me = problem.m_eq as u64;
    let mn = problem.m_nlcon as u64;
    assert(mi * n <= 0x7fff_ffffu64 * 0x7fff_ffffu64) by (nonlinear_arith)
        requires mi <= 0x7fff_ffffu64, n <= 0x7fff_ffffu64;
    assert(me * n <= 0x7fff_ffffu64 * 0x7fff_ffffu64) by (nonlinear_arith)
        requires me <= 0x7fff_ffffu64, n <= 0x7fff_ffffu64;
    check_buffer(&problem.x0, Buffer::X0, n, true)?;
    check_buffer(&problem.xl, Buffer::Xl, n, false)?;
    check_buffer(&problem.xu, Buffer::Xu, n, false)?;
    check_buffer(&problem.a_ineq, Buffer::AIneq, mi * n, mi > 0)?;
    check_buffer(&problem.b_ineq, Buffer::BIneq, mi, mi > 0)?;
    check_buffer(&problem.a_eq, Buffer::AEq, me * n, me > 0)?;
    check_buffer(&problem.b_eq, Buffer::BEq, me, me > 0)?;
    check_buffer(&problem.nlconstr0, Buffer::NlConstr0, mn, mn > 0)
}

} // verus!
