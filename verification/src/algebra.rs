//! The dual-valued symbolic algebra: values that pair a concrete result with
//! the symbolic expression that denotes it.
//!
//! Every operation computes both components together, so that the concrete
//! part is always the evaluation of the symbolic part under the environment
//! that supplied the free variables' values.

use vstd::prelude::*;

use crate::expr::BoolExpr;
use crate::expr::IntExpr;
use crate::expr::conj_of;
use crate::expr::eval_bool;
use crate::expr::eval_int;

verus! {

/// An integer tracked both concretely and symbolically.
pub struct ConcolicInt {
    /// The value computed by ordinary evaluation.
    pub concrete: i64,
    /// The symbolic expression standing for the same value.
    pub sym: IntExpr,
}

/// A boolean tracked both concretely and symbolically.
pub struct ConcolicBool {
    /// The value computed by ordinary evaluation.
    pub concrete: bool,
    /// The symbolic expression standing for the same value.
    pub sym: BoolExpr,
}

impl ConcolicInt {
    /// The concrete and symbolic parts denote the same value under `env`.
    pub open spec fn consistent(self, env: Seq<int>) -> bool {
        eval_int(self.sym, env) == self.concrete as int
    }

    /// An integer built from a literal.
    pub fn literal(value: i64) -> (r: ConcolicInt)
        ensures
            r.concrete == value,
            r.sym == IntExpr::Lit(value),
            forall|env: Seq<int>| #[trigger] r.consistent(env),
    {
        ConcolicInt { concrete: value, sym: IntExpr::Lit(value) }
    }

    /// A free variable at position `index` of the input, with the concrete
    /// value that the current input assigns to it.
    pub fn variable(index: usize, value: i64) -> (r: ConcolicInt)
        ensures
            r.concrete == value,
            r.sym == IntExpr::Var(index),
            forall|env: Seq<int>|
                index < env.len() && env[index as int] == value ==> #[trigger] r.consistent(env),
    {
        ConcolicInt { concrete: value, sym: IntExpr::Var(index) }
    }

    /// The sum of two values, concretely and symbolically.
    pub fn add(&self, other: &ConcolicInt) -> (r: ConcolicInt)
        requires
            i64::MIN <= self.concrete + other.concrete <= i64::MAX,
        ensures
            r.concrete == self.concrete + other.concrete,
            (r.sym matches IntExpr::Add(a, b) && *a == self.sym && *b == other.sym),
            forall|env: Seq<int>|
                self.consistent(env) && other.consistent(env) ==> #[trigger] r.consistent(env),
    {
        ConcolicInt {
            concrete: self.concrete + other.concrete,
            sym: IntExpr::Add(Box::new(self.sym.duplicate()), Box::new(other.sym.duplicate())),
        }
    }

    /// The product of two values, concretely and symbolically.
    pub fn mul(&self, other: &ConcolicInt) -> (r: ConcolicInt)
        requires
            i64::MIN <= self.concrete * other.concrete <= i64::MAX,
        ensures
            r.concrete == self.concrete * other.concrete,
            (r.sym matches IntExpr::Mul(a, b) && *a == self.sym && *b == other.sym),
            forall|env: Seq<int>|
                self.consistent(env) && other.consistent(env) ==> #[trigger] r.consistent(env),
    {
        ConcolicInt {
            concrete: self.concrete * other.concrete,
            sym: IntExpr::Mul(Box::new(self.sym.duplicate()), Box::new(other.sym.duplicate())),
        }
    }

    /// The equality comparison of two integers, as a boolean value.
    pub fn eq(&self, other: &ConcolicInt) -> (r: ConcolicBool)
        ensures
            r.concrete == (self.concrete == other.concrete),
            (r.sym matches BoolExpr::Eq(a, b) && *a == self.sym && *b == other.sym),
            forall|env: Seq<int>|
                self.consistent(env) && other.consistent(env) ==> #[trigger] r.consistent(env),
    {
        ConcolicBool {
            concrete: self.concrete == other.concrete,
            sym: BoolExpr::Eq(Box::new(self.sym.duplicate()), Box::new(other.sym.duplicate())),
        }
    }
}

impl ConcolicBool {
    /// The concrete and symbolic parts denote the same value under `env`.
    pub open spec fn consistent(self, env: Seq<int>) -> bool {
        eval_bool(self.sym, env) == self.concrete
    }

    /// The logical negation of the value.
    pub fn not(&self) -> (r: ConcolicBool)
        ensures
            r.concrete == !self.concrete,
            (r.sym matches BoolExpr::Not(b) && *b == self.sym),
            forall|env: Seq<int>| self.consistent(env) ==> #[trigger] r.consistent(env),
    {
        ConcolicBool { concrete: !self.concrete, sym: BoolExpr::Not(Box::new(self.sym.duplicate())) }
    }

    /// The sequence of the operands' symbolic parts: this value's own
    /// expression followed by the expressions of `others`.
    pub open spec fn conjunct_syms(self, others: Seq<ConcolicBool>) -> Seq<BoolExpr> {
        seq![self.sym] + others.map_values(|b: ConcolicBool| b.sym)
    }

    /// The conjunction of this value with every value of `others`, as a
    /// left-nested chain of binary conjunctions.
    pub fn and(&self, others: &[ConcolicBool]) -> (r: ConcolicBool)
        ensures
            r.concrete == (self.concrete && (forall|i: int|
                0 <= i < others@.len() ==> #[trigger] others@[i].concrete)),
            r.sym == conj_of(self.conjunct_syms(others@)),
            forall|env: Seq<int>|
                #![trigger r.consistent(env)]
                (self.consistent(env) && (forall|i: int|
                    0 <= i < others@.len() ==> #[trigger] others@[i].consistent(env)))
                    ==> r.consistent(env),
    {
        let ghost all = self.conjunct_syms(others@);
        let mut acc = ConcolicBool { concrete: self.concrete, sym: self.sym.duplicate() };
        let mut k: usize = 0;
        proof {
            assert(all.take(1) =~= seq![self.sym]);
        }
        while k < others.len()
            invariant
                0 <= k <= others@.len(),
                all == self.conjunct_syms(others@),
                acc.concrete == (self.concrete && (forall|i: int|
                    0 <= i < k ==> #[trigger] others@[i].concrete)),
                acc.sym == conj_of(all.take(k + 1)),
            decreases others@.len() - k,
        {
            let next = ConcolicBool {
                concrete: acc.concrete && others[k].concrete,
                sym: BoolExpr::And(Box::new(acc.sym), Box::new(others[k].sym.duplicate())),
            };
            proof {
                let t = all.take(k + 2);
                assert(t.drop_last() =~= all.take(k + 1));
                assert(t.last() == others@[k as int].sym);
                assert(next.sym == conj_of(t));
            }
            acc = next;
            k = k + 1;
        }
        proof {
            assert(all.take(others@.len() as int + 1) =~= all);
            assert forall|env: Seq<int>|
                (self.consistent(env) && (forall|i: int|
                    0 <= i < others@.len() ==> #[trigger] others@[i].consistent(env)))
                    implies #[trigger] acc.consistent(env) by {
                crate::expr::lemma_conj_of_eval(all, env);
                assert forall|i: int| 0 <= i < all.len() implies #[trigger] eval_bool(
                    all[i],
                    env,
                ) == if i == 0 {
                    self.concrete
                } else {
                    others@[i - 1].concrete
                } by {
                    if i > 0 {
                        assert(others@[i - 1].consistent(env));
                        assert(all[i] == others@[i - 1].sym);
                    }
                }
                if acc.concrete {
                    assert(forall|i: int| 0 <= i < all.len() ==> #[trigger] eval_bool(
                        all[i],
                        env,
                    ));
                } else {
                    if !self.concrete {
                        assert(!eval_bool(all[0], env));
                    } else {
                        let j = choose|j: int| 0 <= j < others@.len() && !(#[trigger] others@[j].concrete);
                        assert(!eval_bool(all[j + 1], env));
                    }
                }
            }
        }
        acc
    }
}

} // verus!
