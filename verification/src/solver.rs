//! The solver adapter: the boundary to the Z3 constraint solver, and a
//! deterministic scripted replacement for tests.
//!
//! Every satisfiability query runs under a scoped assertion discipline: a new
//! assertion scope is pushed, the candidate formula is asserted, the check
//! runs, and the scope is popped again, so permanent solver state is
//! unaffected. The library makes no assumption about which model the solver
//! picks: whatever assignment comes back is only ever used as a candidate
//! input, checked by verified code.

use vstd::prelude::*;

use crate::expr::BoolExpr;
use crate::expr::IntExpr;
use crate::worklist::Input;

verus! {

/// The three possible outcomes of a satisfiability check.
pub enum SolveStatus {
    /// The query is satisfiable.
    Sat,
    /// The query is unsatisfiable.
    Unsat,
    /// The solver could not decide; treated like an unsatisfiable query.
    Unknown,
}

#[verifier::external_type_specification]
#[verifier::external_body]
pub struct ExSolver(z3::Solver);

#[verifier::external_type_specification]
#[verifier::external_body]
pub struct ExModel(z3::Model);

#[verifier::external_type_specification]
#[verifier::external_body]
pub struct ExInt(z3::ast::Int);

#[verifier::external_type_specification]
#[verifier::external_body]
pub struct ExBool(z3::ast::Bool);

/// Relies on z3::Solver::new: a fresh solver with an empty assertion stack.
#[verifier::external_body]
fn z3_new_solver() -> z3::Solver {
    z3::Solver::new()
}

/// Relies on z3::Solver::push: opens one new assertion scope.
#[verifier::external_body]
fn z3_push(solver: &z3::Solver) {
    solver.push()
}

/// Relies on z3::Solver::pop: closes the most recent assertion scope,
/// discarding the assertions made inside it.
#[verifier::external_body]
fn z3_pop(solver: &z3::Solver) {
    solver.pop(1)
}

/// Relies on z3::Solver::assert: adds a formula to the current scope.
#[verifier::external_body]
fn z3_assert(solver: &z3::Solver, formula: &z3::ast::Bool) {
    solver.assert(formula)
}

/// Relies on z3::Solver::check: decides the asserted formulas, one arm per
/// variant of z3::SatResult.
#[verifier::external_body]
fn z3_check(solver: &z3::Solver) -> SolveStatus {
    match solver.check() {
        z3::SatResult::Sat => SolveStatus::Sat,
        z3::SatResult::Unsat => SolveStatus::Unsat,
        z3::SatResult::Unknown => SolveStatus::Unknown,
    }
}

/// Relies on z3::Solver::get_model: the model of the last successful check,
/// if one is available.
#[verifier::external_body]
fn z3_get_model(solver: &z3::Solver) -> Option<z3::Model> {
    solver.get_model()
}

/// Relies on z3::ast::Int::from_i64: the Z3 term for an integer literal.
#[verifier::external_body]
fn z3_int_literal(value: i64) -> z3::ast::Int {
    z3::ast::Int::from_i64(value)
}

/// Relies on z3::ast::Int::new_const: the Z3 term for the free integer
/// variable at the given input position; the same position always names the
/// same variable.
#[verifier::external_body]
fn z3_int_variable(index: usize) -> z3::ast::Int {
    z3::ast::Int::new_const(format!("x{}", index))
}

/// Relies on z3::ast::Int::add: the Z3 term for the sum of two terms.
#[verifier::external_body]
fn z3_add(a: &z3::ast::Int, b: &z3::ast::Int) -> z3::ast::Int {
    z3::ast::Int::add(&[a.clone(), b.clone()])
}

/// Relies on z3::ast::Int::mul: the Z3 term for the product of two terms.
#[verifier::external_body]
fn z3_mul(a: &z3::ast::Int, b: &z3::ast::Int) -> z3::ast::Int {
    z3::ast::Int::mul(&[a.clone(), b.clone()])
}

/// Relies on z3::ast::Int::eq: the Z3 term for equality of two integer
/// terms; both operands have the integer sort, so the call cannot fail.
#[verifier::external_body]
fn z3_eq(a: &z3::ast::Int, b: &z3::ast::Int) -> z3::ast::Bool {
    a.eq(b.clone())
}

/// Relies on z3::ast::Bool::not: the Z3 term for a negation.
#[verifier::external_body]
fn z3_not(a: &z3::ast::Bool) -> z3::ast::Bool {
    a.not()
}

/// Relies on z3::ast::Bool::and: the Z3 term for a binary conjunction.
#[verifier::external_body]
fn z3_and(a: &z3::ast::Bool, b: &z3::ast::Bool) -> z3::ast::Bool {
    z3::ast::Bool::and(&[a.clone(), b.clone()])
}

/// Relies on z3::Model::eval with model completion: the model's value for a
/// term, as a term.
#[verifier::external_body]
fn z3_model_eval(model: &z3::Model, term: &z3::ast::Int) -> Option<z3::ast::Int> {
    model.eval(term, true)
}

/// Relies on z3::ast::Int::as_i64: the numeral value of a term, if it is a
/// numeral that fits an i64.
#[verifier::external_body]
fn z3_int_value(term: &z3::ast::Int) -> Option<i64> {
    term.as_i64()
}

/// Translates a symbolic integer expression into the corresponding Z3 term,
/// one constructor at a time.
fn int_to_z3(e: &IntExpr) -> z3::ast::Int
    decreases *e,
{
    match e {
        IntExpr::Lit(v) => z3_int_literal(*v),
        IntExpr::Var(i) => z3_int_variable(*i),
        IntExpr::Add(a, b) => z3_add(&int_to_z3(&**a), &int_to_z3(&**b)),
        IntExpr::Mul(a, b) => z3_mul(&int_to_z3(&**a), &int_to_z3(&**b)),
    }
}

/// Translates a symbolic boolean expression into the corresponding Z3 term,
/// one constructor at a time.
fn bool_to_z3(e: &BoolExpr) -> z3::ast::Bool
    decreases *e,
{
    match e {
        BoolExpr::Eq(a, b) => z3_eq(&int_to_z3(&**a), &int_to_z3(&**b)),
        BoolExpr::Not(b) => z3_not(&bool_to_z3(&**b)),
        BoolExpr::And(a, b) => z3_and(&bool_to_z3(&**a), &bool_to_z3(&**b)),
    }
}

/// Reads the model's value for each free variable below `arity`, in
/// declaration order. Yields no input if any value cannot be extracted as an
/// i64.
fn extract_assignment(model: &z3::Model, arity: usize) -> (r: Option<Input>)
    ensures
        (r matches Option::Some(inp) ==> inp@.len() == arity as int),
{
    let mut values: Vec<i64> = Vec::new();
    let mut i: usize = 0;
    while i < arity
        invariant
            0 <= i <= arity,
            values@.len() == i as int,
        decreases arity - i,
    {
        let var = z3_int_variable(i);
        let value = match z3_model_eval(model, &var) {
            Option::Some(term) => z3_int_value(&term),
            Option::None => Option::None,
        };
        match value {
            Option::Some(v) => values.push(v),
            Option::None => {
                return Option::None;
            },
        }
        i = i + 1;
    }
    Option::Some(Input::new(values))
}

/// A constraint solver the driver can query for a satisfying assignment.
pub trait SolverPort {
    /// Searches for an assignment of the free variables below `arity` that
    /// satisfies `formula`. `None` stands for an unsatisfiable or undecided
    /// query; `Some` carries one concrete value per variable, in declaration
    /// order.
    fn solve(&mut self, formula: &BoolExpr, arity: usize) -> (r: Option<Input>)
        ensures
            (r matches Option::Some(inp) ==> inp@.len() == arity as int),
    ;
}

/// The Z3-backed solver adapter.
pub struct Z3Solver {
    solver: z3::Solver,
}

impl Z3Solver {
    /// A fresh Z3 solver with an empty assertion stack.
    pub fn new() -> Z3Solver {
        Z3Solver { solver: z3_new_solver() }
    }
}

impl SolverPort for Z3Solver {
    fn solve(&mut self, formula: &BoolExpr, arity: usize) -> (r: Option<Input>)
        ensures
            (r matches Option::Some(inp) ==> inp@.len() == arity as int),
    {
        z3_push(&self.solver);
        let f = bool_to_z3(formula);
        z3_assert(&self.solver, &f);
        let status = z3_check(&self.solver);
        let result = match status {
            SolveStatus::Sat => match z3_get_model(&self.solver) {
                Option::Some(model) => extract_assignment(&model, arity),
                Option::None => Option::None,
            },
            SolveStatus::Unsat => Option::None,
            SolveStatus::Unknown => Option::None,
        };
        z3_pop(&self.solver);
        result
    }
}

/// A deterministic solver for tests: it replays a fixed script of answers,
/// one per query, in order, and answers `None` once the script is exhausted.
pub struct ScriptedSolver {
    /// The scripted answers, in query order.
    pub answers: Vec<Option<Input>>,
    /// How many queries have been answered so far.
    pub served: usize,
}

impl ScriptedSolver {
    /// A solver that will replay the given answers.
    pub fn new(answers: Vec<Option<Input>>) -> (r: ScriptedSolver)
        ensures
            r.answers == answers,
            r.served == 0,
    {
        ScriptedSolver { answers, served: 0 }
    }
}

impl SolverPort for ScriptedSolver {
    fn solve(&mut self, formula: &BoolExpr, arity: usize) -> (r: Option<Input>)
        ensures
            (r matches Option::Some(inp) ==> inp@.len() == arity as int),
    {
        if self.served < self.answers.len() {
            let idx = self.served;
            self.served = idx + 1;
            match &self.answers[idx] {
                Option::Some(inp) => {
                    if inp.values.len() == arity {
                        Option::Some(inp.duplicate())
                    } else {
                        Option::None
                    }
                },
                Option::None => Option::None,
            }
        } else {
            Option::None
        }
    }
}

} // verus!
