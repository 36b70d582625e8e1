use concolic::expr::IntExpr;
use concolic::target::TargetRoutine;
use concolic::target::TestMe;
use concolic::target::TEST_ME_BOUND;
use concolic::worklist::Input;

fn input(values: &[i64]) -> Input {
    Input::new(values.to_vec())
}

#[test]
fn registers_one_variable_per_input_position() {
    let exec = TestMe.run(&input(&[2, 2]));
    assert_eq!(exec.vars.len(), 2);
    assert_eq!(exec.vars[0].sym, IntExpr::Var(0));
    assert_eq!(exec.vars[0].concrete, 2);
    assert_eq!(exec.vars[1].sym, IntExpr::Var(1));
    assert_eq!(exec.vars[1].concrete, 2);
}

#[test]
fn false_outer_branch_records_one_negated_predicate() {
    let exec = TestMe.run(&input(&[2, 2]));
    assert_eq!(exec.trace.len(), 1);
    assert!(exec.trace[0].concrete);
    assert!(!exec.failed);
}

#[test]
fn true_outer_false_inner_records_two_predicates() {
    let exec = TestMe.run(&input(&[2, 4]));
    assert_eq!(exec.trace.len(), 2);
    assert!(exec.trace[0].concrete);
    assert!(exec.trace[1].concrete);
    assert!(!exec.failed);
}

#[test]
fn both_branches_true_is_the_discovered_failure() {
    let exec = TestMe.run(&input(&[10, 20]));
    assert_eq!(exec.trace.len(), 2);
    assert!(exec.failed);
}

#[test]
fn every_recorded_predicate_is_true_as_recorded() {
    for values in [[2, 2], [2, 4], [10, 20], [0, 0], [-5, -10]] {
        let exec = TestMe.run(&input(&values));
        assert!(!exec.trace.is_empty());
        for p in &exec.trace {
            assert!(p.concrete);
        }
    }
}

#[test]
fn accepts_checks_arity_and_bounds() {
    assert!(TestMe.accepts(&input(&[0, 0])));
    assert!(TestMe.accepts(&input(&[TEST_ME_BOUND, -TEST_ME_BOUND])));
    assert!(!TestMe.accepts(&input(&[0])));
    assert!(!TestMe.accepts(&input(&[0, 0, 0])));
    assert!(!TestMe.accepts(&input(&[TEST_ME_BOUND + 1, 0])));
    assert!(!TestMe.accepts(&input(&[0, i64::MIN])));
}
