use prima_sys::descriptor::{ObjectiveShape, Problem};
use prima_sys::new_problem;
use prima_sys::solve::{check_problem, Algorithm, Buffer, SolveError};

fn unconstrained() -> Problem<f64> {
    let mut p: Problem<f64> = new_problem(2);
    p.objective = Some(ObjectiveShape::Plain);
    p.x0 = Some(vec![0.0, 0.0]);
    p
}

fn with_circle_constraint() -> Problem<f64> {
    let mut p: Problem<f64> = new_problem(2);
    p.objective = Some(ObjectiveShape::WithConstraints);
    p.x0 = Some(vec![0.0, 0.0]);
    p.m_nlcon = 1;
    p.f0 = Some(41.0);
    p.nlconstr0 = Some(vec![-9.0]);
    p
}

#[test]
fn unconstrained_problem_passes_for_each_unconstrained_algorithm() {
    let p = unconstrained();
    for a in [Algorithm::Uobyqa, Algorithm::Newuoa, Algorithm::Bobyqa, Algorithm::Lincoa] {
        assert_eq!(check_problem(a, &p), Ok(()));
    }
}

#[test]
fn constrained_problem_passes_for_cobyla() {
    assert_eq!(check_problem(Algorithm::Cobyla, &with_circle_constraint()), Ok(()));
}

#[test]
fn plain_objective_is_refused_by_cobyla() {
    assert_eq!(check_problem(Algorithm::Cobyla, &unconstrained()), Err(SolveError::ObjectiveMismatch));
}

#[test]
fn constrained_objective_is_refused_by_uobyqa() {
    let p = with_circle_constraint();
    assert_eq!(check_problem(Algorithm::Uobyqa, &p), Err(SolveError::ObjectiveMismatch));
}

#[test]
fn nonlinear_constraints_need_cobyla() {
    let mut p = unconstrained();
    p.m_nlcon = 1;
    p.nlconstr0 = Some(vec![-9.0]);
    assert_eq!(check_problem(Algorithm::Newuoa, &p), Err(SolveError::ObjectiveMismatch));
}

#[test]
fn absent_objective_is_refused() {
    let mut p = unconstrained();
    p.objective = None;
    assert_eq!(check_problem(Algorithm::Newuoa, &p), Err(SolveError::ObjectiveMismatch));
}

#[test]
fn non_positive_variables_are_refused_first() {
    let mut p = unconstrained();
    p.n = 0;
    p.objective = None;
    assert_eq!(check_problem(Algorithm::Bobyqa, &p), Err(SolveError::NonPositiveVariables));
    p.n = -3;
    assert_eq!(check_problem(Algorithm::Bobyqa, &p), Err(SolveError::NonPositiveVariables));
}

#[test]
fn negative_counts_are_refused() {
    let mut p = unconstrained();
    p.m_eq = -1;
    assert_eq!(check_problem(Algorithm::Lincoa, &p), Err(SolveError::NegativeCount));
}

#[test]
fn missing_initial_point_is_refused() {
    let mut p = unconstrained();
    p.x0 = None;
    assert_eq!(check_problem(Algorithm::Newuoa, &p), Err(SolveError::Missing(Buffer::X0)));
}

#[test]
fn initial_point_of_wrong_length_is_refused() {
    let mut p = unconstrained();
    p.x0 = Some(vec![0.0, 0.0, 0.0]);
    assert_eq!(check_problem(Algorithm::Newuoa, &p), Err(SolveError::WrongLength(Buffer::X0)));
}

#[test]
fn bounds_are_checked_when_present() {
    let mut p = unconstrained();
    p.xl = Some(vec![-1.0, -1.0]);
    p.xu = Some(vec![10.0]);
    assert_eq!(check_problem(Algorithm::Bobyqa, &p), Err(SolveError::WrongLength(Buffer::Xu)));
    p.xu = Some(vec![10.0, 10.0]);
    assert_eq!(check_problem(Algorithm::Bobyqa, &p), Ok(()));
}

#[test]
fn linear_inequalities_are_sized_by_rows_and_variables() {
    let mut p = unconstrained();
    p.m_ineq = 3;
    assert_eq!(check_problem(Algorithm::Lincoa, &p), Err(SolveError::Missing(Buffer::AIneq)));
    p.a_ineq = Some(vec![1.0; 5]);
    assert_eq!(check_problem(Algorithm::Lincoa, &p), Err(SolveError::WrongLength(Buffer::AIneq)));
    p.a_ineq = Some(vec![1.0; 6]);
    assert_eq!(check_problem(Algorithm::Lincoa, &p), Err(SolveError::Missing(Buffer::BIneq)));
    p.b_ineq = Some(vec![1.0; 2]);
    assert_eq!(check_problem(Algorithm::Lincoa, &p), Err(SolveError::WrongLength(Buffer::BIneq)));
    p.b_ineq = Some(vec![1.0; 3]);
    assert_eq!(check_problem(Algorithm::Lincoa, &p), Ok(()));
}

#[test]
fn linear_equalities_are_sized_by_rows_and_variables() {
    let mut p = unconstrained();
    p.m_eq = 1;
    p.a_eq = Some(vec![1.0, 1.0]);
    assert_eq!(check_problem(Algorithm::Lincoa, &p), Err(SolveError::Missing(Buffer::BEq)));
    p.b_eq = Some(vec![1.0, 1.0]);
    assert_eq!(check_problem(Algorithm::Lincoa, &p), Err(SolveError::WrongLength(Buffer::BEq)));
    p.b_eq = Some(vec![1.0]);
    assert_eq!(check_problem(Algorithm::Lincoa, &p), Ok(()));
    p.a_eq = Some(vec![1.0]);
    assert_eq!(check_problem(Algorithm::Lincoa, &p), Err(SolveError::WrongLength(Buffer::AEq)));
}

#[test]
fn initial_constraint_values_must_match_their_count() {
    let mut p = with_circle_constraint();
    p.nlconstr0 = None;
    assert_eq!(check_problem(Algorithm::Cobyla, &p), Err(SolveError::Missing(Buffer::NlConstr0)));
    p.nlconstr0 = Some(vec![-9.0, 1.0]);
    assert_eq!(check_problem(Algorithm::Cobyla, &p), Err(SolveError::WrongLength(Buffer::NlConstr0)));
}

#[test]
fn empty_present_buffer_of_zero_count_is_accepted() {
    let mut p = unconstrained();
    p.a_ineq = Some(vec![]);
    p.b_ineq = Some(vec![]);
    assert_eq!(check_problem(Algorithm::Lincoa, &p), Ok(()));
    p.b_ineq = Some(vec![1.0]);
    assert_eq!(check_problem(Algorithm::Lincoa, &p), Err(SolveError::WrongLength(Buffer::BIneq)));
}
