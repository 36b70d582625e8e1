use concolic::algebra::ConcolicInt;
use concolic::expr::BoolExpr;
use concolic::expr::IntExpr;
use concolic::formula::complement;
use concolic::formula::generate_constraint;

fn var_eq_lit(index: usize, value: i64, concrete: i64) -> concolic::algebra::ConcolicBool {
    ConcolicInt::variable(index, concrete).eq(&ConcolicInt::literal(value))
}

#[test]
fn single_predicate_is_taken_as_is() {
    let p = var_eq_lit(0, 5, 5);
    let expected = p.sym.duplicate();
    let trace = vec![p];
    let formula = generate_constraint(&trace);
    assert_eq!(formula, expected);
}

#[test]
fn two_predicates_keep_the_first_and_flip_the_last() {
    let p = var_eq_lit(0, 5, 5);
    let q = var_eq_lit(1, 6, 6);
    let psym = p.sym.duplicate();
    let qsym = q.sym.duplicate();
    let trace = vec![p, q];
    let formula = generate_constraint(&trace);
    assert_eq!(
        formula,
        BoolExpr::And(Box::new(psym), Box::new(BoolExpr::Not(Box::new(qsym))))
    );
}

#[test]
fn three_predicates_conjoin_the_prefix_in_order() {
    let p = var_eq_lit(0, 1, 1);
    let q = var_eq_lit(0, 2, 1);
    let r = var_eq_lit(1, 3, 3);
    let psym = p.sym.duplicate();
    let qsym = q.sym.duplicate();
    let rsym = r.sym.duplicate();
    let trace = vec![p, q, r];
    let formula = generate_constraint(&trace);
    assert_eq!(
        formula,
        BoolExpr::And(
            Box::new(BoolExpr::And(Box::new(psym), Box::new(qsym))),
            Box::new(BoolExpr::Not(Box::new(rsym)))
        )
    );
}

#[test]
fn complement_negates_the_whole_formula() {
    let p = var_eq_lit(0, 5, 5);
    let trace = vec![p];
    let formula = generate_constraint(&trace);
    let expected = BoolExpr::Not(Box::new(formula.duplicate()));
    assert_eq!(complement(&formula), expected);
}

#[test]
fn formula_structure_of_a_concrete_shape() {
    let x = ConcolicInt::variable(0, 2);
    let y = ConcolicInt::variable(1, 4);
    let outer = ConcolicInt::literal(2).mul(&x).eq(&y);
    let inner = y.eq(&x.add(&ConcolicInt::literal(10))).not();
    let trace = vec![outer, inner];
    let formula = generate_constraint(&trace);
    let expected = BoolExpr::And(
        Box::new(BoolExpr::Eq(
            Box::new(IntExpr::Mul(Box::new(IntExpr::Lit(2)), Box::new(IntExpr::Var(0)))),
            Box::new(IntExpr::Var(1)),
        )),
        Box::new(BoolExpr::Not(Box::new(BoolExpr::Not(Box::new(BoolExpr::Eq(
            Box::new(IntExpr::Var(1)),
            Box::new(IntExpr::Add(Box::new(IntExpr::Var(0)), Box::new(IntExpr::Lit(10)))),
        )))))),
    );
    assert_eq!(formula, expected);
}
