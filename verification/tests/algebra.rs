use concolic::algebra::ConcolicBool;
use concolic::algebra::ConcolicInt;
use concolic::expr::BoolExpr;
use concolic::expr::IntExpr;

#[test]
fn literal_carries_value_and_expression() {
    let v = ConcolicInt::literal(7);
    assert_eq!(v.concrete, 7);
    assert_eq!(v.sym, IntExpr::Lit(7));
}

#[test]
fn variable_carries_index_and_value() {
    let v = ConcolicInt::variable(1, -3);
    assert_eq!(v.concrete, -3);
    assert_eq!(v.sym, IntExpr::Var(1));
}

#[test]
fn add_tracks_both_parts() {
    let a = ConcolicInt::variable(0, 4);
    let b = ConcolicInt::literal(10);
    let s = a.add(&b);
    assert_eq!(s.concrete, 14);
    assert_eq!(
        s.sym,
        IntExpr::Add(Box::new(IntExpr::Var(0)), Box::new(IntExpr::Lit(10)))
    );
}

#[test]
fn mul_tracks_both_parts() {
    let two = ConcolicInt::literal(2);
    let x = ConcolicInt::variable(0, 6);
    let p = two.mul(&x);
    assert_eq!(p.concrete, 12);
    assert_eq!(
        p.sym,
        IntExpr::Mul(Box::new(IntExpr::Lit(2)), Box::new(IntExpr::Var(0)))
    );
}

#[test]
fn eq_compares_concretely_and_symbolically() {
    let x = ConcolicInt::variable(0, 5);
    let five = ConcolicInt::literal(5);
    let same = x.eq(&five);
    assert!(same.concrete);
    assert_eq!(
        same.sym,
        BoolExpr::Eq(Box::new(IntExpr::Var(0)), Box::new(IntExpr::Lit(5)))
    );
    let six = ConcolicInt::literal(6);
    assert!(!x.eq(&six).concrete);
}

#[test]
fn not_negates_both_parts() {
    let x = ConcolicInt::variable(0, 5);
    let p = x.eq(&ConcolicInt::literal(6));
    let n = p.not();
    assert!(n.concrete);
    assert_eq!(
        n.sym,
        BoolExpr::Not(Box::new(BoolExpr::Eq(
            Box::new(IntExpr::Var(0)),
            Box::new(IntExpr::Lit(6))
        )))
    );
}

#[test]
fn and_conjoins_self_with_others() {
    let x = ConcolicInt::variable(0, 1);
    let p = x.eq(&ConcolicInt::literal(1));
    let q = x.eq(&ConcolicInt::literal(2)).not();
    let r = x.eq(&ConcolicInt::literal(3)).not();
    let qsym = q.sym.duplicate();
    let rsym = r.sym.duplicate();
    let c = p.and(&[q, r]);
    assert!(c.concrete);
    assert_eq!(
        c.sym,
        BoolExpr::And(
            Box::new(BoolExpr::And(
                Box::new(BoolExpr::Eq(
                    Box::new(IntExpr::Var(0)),
                    Box::new(IntExpr::Lit(1))
                )),
                Box::new(qsym)
            )),
            Box::new(rsym)
        )
    );
}

#[test]
fn and_with_a_false_conjunct_is_false() {
    let x = ConcolicInt::variable(0, 1);
    let p = x.eq(&ConcolicInt::literal(1));
    let q = x.eq(&ConcolicInt::literal(2));
    let c = p.and(&[q]);
    assert!(!c.concrete);
}

#[test]
fn and_with_no_others_is_itself() {
    let x = ConcolicInt::variable(0, 1);
    let p = x.eq(&ConcolicInt::literal(1));
    let c = p.and(&[]);
    assert!(c.concrete);
    assert_eq!(
        c.sym,
        BoolExpr::Eq(Box::new(IntExpr::Var(0)), Box::new(IntExpr::Lit(1)))
    );
}

#[test]
fn duplicate_is_structurally_equal() {
    let e = BoolExpr::Not(Box::new(BoolExpr::Eq(
        Box::new(IntExpr::Add(Box::new(IntExpr::Var(0)), Box::new(IntExpr::Lit(1)))),
        Box::new(IntExpr::Var(1)),
    )));
    assert_eq!(e.duplicate(), e);
}
