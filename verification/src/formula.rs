//! The target formula builder: from a recorded path trace to the two
//! solver-ready formulas.
//!
//! For a trace of predicates `p_0 .. p_{L-1}` the target formula says "follow
//! the recorded path up to the last decision, then take the opposite of the
//! last decision": for `L == 1` it is `p_0` itself, for `L > 1` it is
//! `p_0 /\ .. /\ p_{L-2} /\ !p_{L-1}`. The complement formula is the negation
//! of the whole target formula, not a per-branch flip.

use vstd::prelude::*;

use crate::algebra::ConcolicBool;
use crate::expr::BoolExpr;
use crate::expr::conj_of;
use crate::expr::eval_bool;
use crate::expr::lemma_conj_of_eval;

verus! {

/// The target formula of a non-empty sequence of recorded predicates.
pub open spec fn spec_target_formula(preds: Seq<BoolExpr>) -> BoolExpr
    recommends
        preds.len() > 0,
{
    if preds.len() == 1 {
        preds[0]
    } else {
        BoolExpr::And(
            Box::new(conj_of(preds.drop_last())),
            Box::new(BoolExpr::Not(Box::new(preds.last()))),
        )
    }
}

/// The symbolic parts of a recorded trace, in order.
pub open spec fn trace_syms(trace: Seq<ConcolicBool>) -> Seq<BoolExpr> {
    trace.map_values(|b: ConcolicBool| b.sym)
}

/// Builds the target formula of a non-empty path constraint trace.
pub fn generate_constraint(trace: &Vec<ConcolicBool>) -> (r: BoolExpr)
    requires
        trace@.len() > 0,
    ensures
        r == spec_target_formula(trace_syms(trace@)),
{
    let ghost syms = trace_syms(trace@);
    let n = trace.len();
    if n == 1 {
        trace[0].sym.duplicate()
    } else {
        let mut acc = trace[0].sym.duplicate();
        let mut k: usize = 1;
        proof {
            assert(syms.drop_last().take(1) =~= seq![syms[0]]);
        }
        while k < n - 1
            invariant
                1 <= k <= n - 1,
                n == trace@.len(),
                1 < n,
                syms == trace_syms(trace@),
                acc == conj_of(syms.drop_last().take(k as int)),
            decreases n - k,
        {
            let next = BoolExpr::And(Box::new(acc), Box::new(trace[k].sym.duplicate()));
            proof {
                let t = syms.drop_last().take(k + 1);
                assert(t.drop_last() =~= syms.drop_last().take(k as int));
                assert(t.last() == syms[k as int]);
                assert(next == conj_of(t));
            }
            acc = next;
            k = k + 1;
        }
        proof {
            assert(syms.drop_last().take(n - 1) =~= syms.drop_last());
        }
        let last_neg = BoolExpr::Not(Box::new(trace[n - 1].sym.duplicate()));
        BoolExpr::And(Box::new(acc), Box::new(last_neg))
    }
}

/// Builds the complement formula: the negation of the whole target formula.
pub fn complement(formula: &BoolExpr) -> (r: BoolExpr)
    ensures
        r == BoolExpr::Not(Box::new(*formula)),
{
    BoolExpr::Not(Box::new(formula.duplicate()))
}

/// For a single-predicate trace, the target formula holds exactly where that
/// predicate holds: it is satisfied by every input that takes the recorded
/// branch, and by no input that takes the opposite branch.
pub proof fn lemma_target_single(preds: Seq<BoolExpr>, env: Seq<int>)
    requires
        preds.len() == 1,
    ensures
        eval_bool(spec_target_formula(preds), env) == eval_bool(preds[0], env),
{
}

/// A single-entry trace's target formula is satisfied by the very input that
/// produced the trace: the recorded predicate was true when it was recorded.
pub proof fn lemma_target_single_sat_by_producer(trace: Seq<ConcolicBool>, env: Seq<int>)
    requires
        trace.len() == 1,
        trace[0].concrete,
        trace[0].consistent(env),
    ensures
        eval_bool(spec_target_formula(trace_syms(trace)), env),
{
    assert(trace_syms(trace)[0] == trace[0].sym);
}

/// For a longer trace, the target formula entails every predicate of the
/// prefix and the negation of the last predicate; so no input whose first
/// `L - 1` branch decisions differ from the recorded trace can satisfy it.
pub proof fn lemma_target_follows_prefix(preds: Seq<BoolExpr>, env: Seq<int>)
    requires
        preds.len() > 1,
        eval_bool(spec_target_formula(preds), env),
    ensures
        forall|i: int| 0 <= i < preds.len() - 1 ==> #[trigger] eval_bool(preds[i], env),
        !eval_bool(preds.last(), env),
{
    lemma_conj_of_eval(preds.drop_last(), env);
    lemma_complement_eval(preds.last(), env);
    assert forall|i: int| 0 <= i < preds.len() - 1 implies #[trigger] eval_bool(preds[i], env) by {
        assert(eval_bool(preds.drop_last()[i], env));
    }
}

/// The contrapositive form: an input that diverges from the recorded trace at
/// some decision before the last one falsifies the target formula.
pub proof fn lemma_target_unsat_on_divergent_prefix(preds: Seq<BoolExpr>, env: Seq<int>, i: int)
    requires
        preds.len() > 1,
        0 <= i < preds.len() - 1,
        !eval_bool(preds[i], env),
    ensures
        !eval_bool(spec_target_formula(preds), env),
{
    if eval_bool(spec_target_formula(preds), env) {
        lemma_target_follows_prefix(preds, env);
    }
}

/// The complement formula holds exactly where the target formula fails.
pub proof fn lemma_complement_eval(formula: BoolExpr, env: Seq<int>)
    ensures
        eval_bool(BoolExpr::Not(Box::new(formula)), env) == !eval_bool(formula, env),
{
}

} // verus!
