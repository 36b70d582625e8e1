//! Symbolic integer and boolean expressions, with their mathematical
//! evaluation semantics.
//!
//! An expression is evaluated against an environment: the sequence of
//! (mathematical) integer values of the free variables, indexed by variable
//! number.

use vstd::prelude::*;

verus! {

/// A symbolic integer expression.
#[derive(Debug, PartialEq, Eq)]
pub enum IntExpr {
    /// A literal integer constant.
    Lit(i64),
    /// A free variable, identified by its position in the input tuple.
    Var(usize),
    /// The sum of two expressions.
    Add(Box<IntExpr>, Box<IntExpr>),
    /// The product of two expressions.
    Mul(Box<IntExpr>, Box<IntExpr>),
}

/// A symbolic boolean expression.
#[derive(Debug, PartialEq, Eq)]
pub enum BoolExpr {
    /// Equality of two integer expressions.
    Eq(Box<IntExpr>, Box<IntExpr>),
    /// Logical negation.
    Not(Box<BoolExpr>),
    /// Logical conjunction.
    And(Box<BoolExpr>, Box<BoolExpr>),
}

/// The integer denoted by `e` when variable `i` has value `env[i]`.
/// A variable outside the environment denotes 0.
pub open spec fn eval_int(e: IntExpr, env: Seq<int>) -> int
    decreases e,
{
    match e {
        IntExpr::Lit(v) => v as int,
        IntExpr::Var(i) => if i < env.len() { env[i as int] } else { 0 },
        IntExpr::Add(a, b) => eval_int(*a, env) + eval_int(*b, env),
        IntExpr::Mul(a, b) => eval_int(*a, env) * eval_int(*b, env),
    }
}

/// The truth value denoted by `e` under the environment `env`.
pub open spec fn eval_bool(e: BoolExpr, env: Seq<int>) -> bool
    decreases e,
{
    match e {
        BoolExpr::Eq(a, b) => eval_int(*a, env) == eval_int(*b, env),
        BoolExpr::Not(b) => !eval_bool(*b, env),
        BoolExpr::And(a, b) => eval_bool(*a, env) && eval_bool(*b, env),
    }
}

impl IntExpr {
    /// A structurally identical copy of the expression.
    pub fn duplicate(&self) -> (r: IntExpr)
        ensures
            r == *self,
        decreases *self,
    {
        match self {
            IntExpr::Lit(v) => IntExpr::Lit(*v),
            IntExpr::Var(i) => IntExpr::Var(*i),
            IntExpr::Add(a, b) => IntExpr::Add(Box::new(a.duplicate()), Box::new(b.duplicate())),
            IntExpr::Mul(a, b) => IntExpr::Mul(Box::new(a.duplicate()), Box::new(b.duplicate())),
        }
    }
}

impl BoolExpr {
    /// A structurally identical copy of the expression.
    pub fn duplicate(&self) -> (r: BoolExpr)
        ensures
            r == *self,
        decreases *self,
    {
        match self {
            BoolExpr::Eq(a, b) => BoolExpr::Eq(Box::new(a.duplicate()), Box::new(b.duplicate())),
            BoolExpr::Not(b) => BoolExpr::Not(Box::new(b.duplicate())),
            BoolExpr::And(a, b) => BoolExpr::And(Box::new(a.duplicate()), Box::new(b.duplicate())),
        }
    }
}

/// The left-nested conjunction of a non-empty sequence of predicates:
/// `And(And(..And(p0, p1).., p_{n-2}), p_{n-1})`.
pub open spec fn conj_of(preds: Seq<BoolExpr>) -> BoolExpr
    recommends
        preds.len() > 0,
    decreases preds.len(),
{
    if preds.len() <= 1 {
        preds[0]
    } else {
        BoolExpr::And(Box::new(conj_of(preds.drop_last())), Box::new(preds.last()))
    }
}

/// A left-nested conjunction holds exactly when every conjunct holds.
pub proof fn lemma_conj_of_eval(preds: Seq<BoolExpr>, env: Seq<int>)
    requires
        preds.len() > 0,
    ensures
        eval_bool(conj_of(preds), env) == (forall|i: int|
            0 <= i < preds.len() ==> #[trigger] eval_bool(preds[i], env)),
    decreases preds.len(),
{
    if preds.len() == 1 {
        assert(eval_bool(conj_of(preds), env) == eval_bool(preds[0], env));
    } else {
        lemma_conj_of_eval(preds.drop_last(), env);
        if eval_bool(conj_of(preds), env) {
            assert forall|i: int| 0 <= i < preds.len() implies #[trigger] eval_bool(
                preds[i],
                env,
            ) by {
                if i < preds.len() - 1 {
                    assert(eval_bool(preds.drop_last()[i], env));
                } else {
                    assert(eval_bool(preds.last(), env));
                }
            }
        } else {
            if !eval_bool(preds.last(), env) {
                assert(!eval_bool(preds[preds.len() - 1], env));
            } else {
                let j = choose|j: int|
                    0 <= j < preds.len() - 1 && !eval_bool(preds.drop_last()[j], env);
                assert(!eval_bool(preds[j], env));
            }
        }
    }
}

} // verus!
