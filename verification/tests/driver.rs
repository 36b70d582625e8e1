use concolic::driver::explore;
use concolic::solver::ScriptedSolver;
use concolic::target::TestMe;
use concolic::worklist::Input;

fn input(values: &[i64]) -> Input {
    Input::new(values.to_vec())
}

fn script(answers: &[Option<&[i64]>]) -> ScriptedSolver {
    ScriptedSolver::new(
        answers
            .iter()
            .map(|a| a.map(|values| input(values)))
            .collect(),
    )
}

#[test]
fn zero_iterations_leave_only_the_seed_answer_pending() {
    let mut solver = script(&[Some(&[10, 20])]);
    let outcome = explore(&TestMe, &mut solver, &input(&[2, 4]), 0);
    assert_eq!(outcome.iterations, 0);
    assert_eq!(outcome.worklist.tried.len(), 0);
    assert_eq!(outcome.worklist.pending.len(), 1);
    assert_eq!(outcome.worklist.pending[0].values, vec![10, 20]);
    assert!(outcome.failures.is_empty());
}

#[test]
fn an_unsatisfiable_seed_query_exhausts_the_worklist() {
    let mut solver = script(&[None]);
    let outcome = explore(&TestMe, &mut solver, &input(&[2, 4]), 5);
    assert!(outcome.exhausted);
    assert_eq!(outcome.iterations, 0);
    assert_eq!(outcome.worklist.pending.len(), 0);
    assert!(outcome.failures.is_empty());
}

#[test]
fn a_failing_worklist_input_is_reported_and_marked_tried() {
    let mut solver = script(&[Some(&[10, 20])]);
    let outcome = explore(&TestMe, &mut solver, &input(&[2, 4]), 5);
    assert_eq!(outcome.failures.len(), 1);
    assert_eq!(outcome.failures[0].values, vec![10, 20]);
    assert_eq!(outcome.worklist.tried[0].values, vec![10, 20]);
    assert!(outcome.exhausted);
    assert_eq!(outcome.iterations, 1);
}

#[test]
fn a_failing_seed_is_reported_without_being_tried() {
    let mut solver = script(&[None]);
    let outcome = explore(&TestMe, &mut solver, &input(&[10, 20]), 0);
    assert_eq!(outcome.failures.len(), 1);
    assert_eq!(outcome.failures[0].values, vec![10, 20]);
    assert_eq!(outcome.worklist.tried.len(), 0);
}

#[test]
fn an_answer_of_the_wrong_arity_is_not_offered() {
    let mut solver = script(&[Some(&[10])]);
    let outcome = explore(&TestMe, &mut solver, &input(&[2, 4]), 5);
    assert!(outcome.exhausted);
    assert_eq!(outcome.worklist.pending.len(), 0);
}

#[test]
fn an_answer_out_of_the_target_bounds_is_not_offered() {
    let mut solver = script(&[Some(&[i64::MAX, 0])]);
    let outcome = explore(&TestMe, &mut solver, &input(&[2, 4]), 5);
    assert!(outcome.exhausted);
    assert_eq!(outcome.worklist.pending.len(), 0);
}

#[test]
fn an_already_tried_answer_is_not_offered_again() {
    // The seed query answers (10, 20); the first iteration tries it and the
    // solver then answers (10, 20) again for both of its queries.
    let mut solver = script(&[Some(&[10, 20]), Some(&[10, 20]), Some(&[10, 20])]);
    let outcome = explore(&TestMe, &mut solver, &input(&[2, 4]), 5);
    assert_eq!(outcome.iterations, 1);
    assert!(outcome.exhausted);
    assert_eq!(outcome.failures.len(), 1);
}

#[test]
fn exploration_is_deterministic_for_a_deterministic_solver() {
    let answers: &[Option<&[i64]>] = &[
        Some(&[10, 20]),
        Some(&[0, 0]),
        Some(&[1, 2]),
        Some(&[3, 6]),
        None,
        Some(&[2, 4]),
    ];
    let mut first_solver = script(answers);
    let mut second_solver = script(answers);
    let first = explore(&TestMe, &mut first_solver, &input(&[2, 4]), 10);
    let second = explore(&TestMe, &mut second_solver, &input(&[2, 4]), 10);
    assert_eq!(first.iterations, second.iterations);
    assert_eq!(first.exhausted, second.exhausted);
    let first_failures: Vec<Vec<i64>> = first.failures.iter().map(|i| i.values.clone()).collect();
    let second_failures: Vec<Vec<i64>> = second.failures.iter().map(|i| i.values.clone()).collect();
    assert_eq!(first_failures, second_failures);
    let first_tried: Vec<Vec<i64>> = first.worklist.tried.iter().map(|i| i.values.clone()).collect();
    let second_tried: Vec<Vec<i64>> =
        second.worklist.tried.iter().map(|i| i.values.clone()).collect();
    assert_eq!(first_tried, second_tried);
}
