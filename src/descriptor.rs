//! Problem and options descriptors, always produced fully defined.
use vstd::prelude::*;
use crate::solve::SolveError;

verus! {

/// Which of the two objective callback shapes a problem provides.
#[derive(Clone, Copy, Debug, PartialEq, Eq, Structural)]
pub enum ObjectiveShape {
    /// `f(x)`: the objective alone.
    Plain,
    /// `f(x)` together with the values of the nonlinear constraints `c(x) <= 0`.
    WithConstraints,
}

/// One optimisation problem.
///
/// Absent buffers are `None`; counts left at zero mean that the
/// corresponding constraint system is absent.
pub struct Problem<T> {
    /// Number of variables.
    pub n: i32,
    /// The objective callback that is installed, if any. Holding one shape
    /// makes it impossible to install both at once.
    pub objective: Option<ObjectiveShape>,
    /// Initial point, `n` values.
    pub x0: Option<Vec<T>>,
    /// Lower bounds on the variables, `n` values.
    pub xl: Option<Vec<T>>,
    /// Upper bounds on the variables, `n` values.
    pub xu: Option<Vec<T>>,
    /// Number of linear inequality constraints `a_ineq x <= b_ineq`.
    pub m_ineq: i32,
    /// Row-major matrix of the linear inequalities, `m_ineq * n` values.
    pub a_ineq: Option<Vec<T>>,
    /// Right-hand side of the linear inequalities, `m_ineq` values.
    pub b_ineq: Option<Vec<T>>,
    /// Number of linear equality constraints `a_eq x = b_eq`.
    pub m_eq: i32,
    /// Row-major matrix of the linear equalities, `m_eq * n` values.
    pub a_eq: Option<Vec<T>>,
    /// Right-hand side of the linear equalities, `m_eq` values.
    pub b_eq: Option<Vec<T>>,
    /// Number of nonlinear constraints.
    pub m_nlcon: i32,
    /// Objective value at the initial point, once evaluated.
    pub f0: Option<T>,
    /// Nonlinear constraint values at the initial point, `m_nlcon` values.
    pub nlconstr0: Option<Vec<T>>,
}

/// How much the solver prints while it runs.
#[derive(Clone, Copy, Debug, PartialEq, Eq, Structural)]
pub enum Verbosity {
    /// Nothing.
    Silent,
    /// A message on exit.
    Exit,
    /// A message at each change of the trust-region radius.
    Rho,
    /// A message at each function evaluation.
    Fevl,
}

/// The objective value at which the solver may stop.
#[derive(Debug, PartialEq, Eq)]
pub enum Target<T> {
    /// No target: negative infinity at the native boundary.
    NegInfinity,
    /// Stop once the objective is at or below this value.
    Value(T),
}

/// Tuning of one solve. A setting left at `None` lets the solver pick its
/// own default, which is distinct from any value that a caller supplies,
/// zero included.
pub struct Options<T> {
    /// Initial trust-region radius.
    pub rhobeg: Option<T>,
    /// Final trust-region radius.
    pub rhoend: Option<T>,
    /// Maximal number of function evaluations; zero lets the solver choose.
    pub maxfun: i32,
    /// What the solver prints.
    pub iprint: Verbosity,
    /// Target objective value.
    pub ftarget: Target<T>,
    /// Number of interpolation points; zero lets the solver choose.
    pub npt: i32,
    /// Tolerance on the constraint violation.
    pub ctol: Option<T>,
}

/// A problem of `n` variables as it stands before the caller sets anything.
pub open spec fn is_fresh_problem<T>(p: Problem<T>, n: i32) -> bool {
    &&& p.n == n
    &&& p.objective is None
    &&& p.x0 is None
    &&& p.xl is None
    &&& p.xu is None
    &&& p.m_ineq == 0
    &&& p.a_ineq is None
    &&& p.b_ineq is None
    &&& p.m_eq == 0
    &&& p.a_eq is None
    &&& p.b_eq is None
    &&& p.m_nlcon == 0
    &&& p.f0 is None
    &&& p.nlconstr0 is None
}

/// Options as they stand before the caller sets anything: every tuning value
/// unset, no target, nothing printed.
pub open spec fn is_fresh_options<T>(o: Options<T>) -> bool {
    &&& o.rhobeg is None
    &&& o.rhoend is None
    &&& o.maxfun == 0
    &&& o.iprint == Verbosity::Silent
    &&& o.ftarget is NegInfinity
    &&& o.npt == 0
    &&& o.ctol is None
}

/// A new problem of `number_of_variables` variables with every other field
/// at its default. A non-positive count is a programming error.
pub fn new_problem<T>(number_of_variables: i32) -> (problem: Problem<T>)
    requires
        number_of_variables > 0,
    ensures
        is_fresh_problem(problem, number_of_variables),
{
    Problem {
        n: number_of_variables,
        objective: None,
        x0: None,
        xl: None,
        xu: None,
        m_ineq: 0,
        a_ineq: None,
        b_ineq: None,
        m_eq: 0,
        a_eq: None,
        b_eq: None,
        m_nlcon: 0,
        f0: None,
        nlconstr0: None,
    }
}

/// A new problem as `new_problem` builds it, or, for a non-positive count,
/// an error at once, before anything else is done.
pub fn try_new_problem<T>(number_of_variables: i32) -> (r: Result<Problem<T>, SolveError>)
    ensures
        number_of_variables <= 0 ==> r == Err::<Problem<T>, SolveError>(SolveError::NonPositiveVariables),
        number_of_variables > 0 ==> (r matches Ok(p) && is_fresh_problem(p, number_of_variables)),
{
    if number_of_variables <= 0 {
        Err(SolveError::NonPositiveVariables)
    } else {
        Ok(new_problem(number_of_variables))
    }
}

/// New options with every setting left for the solver to choose.
pub fn new_options<T>() -> (options: Options<T>)
    ensures
        is_fresh_options(options),
{
    Options {
        rhobeg: None,
        rhoend: None,
        maxfun: 0,
        iprint: Verbosity::Silent,
        ftarget: Target::NegInfinity,
        npt: 0,
        ctol: None,
    }
}

} // verus!
