use prima_sys::descriptor::{ObjectiveShape, Options, Problem, Target, Verbosity};
use prima_sys::solve::SolveError;
use prima_sys::{new_options, new_problem, try_new_problem};

fn assert_fresh(problem: &Problem<f64>, n: i32) {
    assert_eq!(problem.n, n);
    assert_eq!(problem.objective, None);
    assert!(problem.x0.is_none());
    assert!(problem.xl.is_none());
    assert!(problem.xu.is_none());
    assert_eq!(problem.m_ineq, 0);
    assert!(problem.a_ineq.is_none());
    assert!(problem.b_ineq.is_none());
    assert_eq!(problem.m_eq, 0);
    assert!(problem.a_eq.is_none());
    assert!(problem.b_eq.is_none());
    assert_eq!(problem.m_nlcon, 0);
    assert!(problem.f0.is_none());
    assert!(problem.nlconstr0.is_none());
}

#[test]
fn new_problem_contains_expected_number_of_variables() {
    let number_of_variables: i32 = 2;
    let problem: Problem<f64> = new_problem(number_of_variables);
    assert_eq!(number_of_variables, problem.n);
}

#[test]
fn fresh_problem_has_only_defaults() {
    for n in [1, 2, 3, 17, 1000, i32::MAX] {
        let problem: Problem<f64> = new_problem(n);
        assert_fresh(&problem, n);
    }
}

#[test]
fn fresh_options_leave_every_setting_unset() {
    let options: Options<f64> = new_options();
    assert!(options.rhobeg.is_none());
    assert!(options.rhoend.is_none());
    assert!(options.ctol.is_none());
    assert_eq!(options.ftarget, Target::NegInfinity);
    assert_ne!(options.ftarget, Target::Value(0.0));
    assert_ne!(options.rhobeg, Some(0.0));
    assert_eq!(options.maxfun, 0);
    assert_eq!(options.npt, 0);
    assert_eq!(options.iprint, Verbosity::Silent);
}

#[test]
fn non_positive_variable_count_is_refused() {
    for n in [0, -1, -2, i32::MIN] {
        let r: Result<Problem<f64>, SolveError> = try_new_problem(n);
        assert!(matches!(r, Err(SolveError::NonPositiveVariables)));
    }
}

#[test]
fn positive_variable_count_builds_fresh_problem() {
    let r: Result<Problem<f64>, SolveError> = try_new_problem(5);
    match r {
        Ok(p) => assert_fresh(&p, 5),
        Err(_) => panic!("a positive count must build a problem"),
    }
}

#[test]
fn objective_shapes_are_distinct() {
    let mut problem: Problem<f64> = new_problem(2);
    problem.objective = Some(ObjectiveShape::Plain);
    assert_ne!(problem.objective, Some(ObjectiveShape::WithConstraints));
}
