//! The instrumented target routine: the external collaborator that the
//! exploration driver re-executes, together with the contract it must honor
//! and the one fixed example routine this crate ships.
//!
//! A routine takes a concrete input, evaluates itself with the dual-valued
//! algebra, and returns fresh owned results: the path constraint trace, the
//! symbolic variable set, and whether a reachable failure was discovered.

use vstd::prelude::*;

use crate::algebra::ConcolicBool;
use crate::algebra::ConcolicInt;
use crate::expr::IntExpr;
use crate::worklist::Input;

verus! {

/// The environment that an input denotes: its values as mathematical
/// integers, in declaration order.
pub open spec fn env_of(input: Seq<i64>) -> Seq<int> {
    input.map_values(|v: i64| v as int)
}

/// The symbolic variable set registers exactly one free variable per input
/// position, in declaration order, carrying the input's concrete value.
pub open spec fn vars_correspond(vars: Seq<ConcolicInt>, input: Seq<i64>) -> bool {
    &&& vars.len() == input.len()
    &&& (forall|i: int|
        0 <= i < input.len() ==> (#[trigger] vars[i]).sym == IntExpr::Var(i as usize))
    &&& (forall|i: int| 0 <= i < input.len() ==> (#[trigger] vars[i]).concrete == input[i])
}

/// A well-formed trace of one execution: non-empty, and every recorded
/// predicate was true as recorded (the predicate itself on a taken true
/// branch, its negation on a taken false branch) and is consistent with the
/// input that produced it.
pub open spec fn trace_wf(trace: Seq<ConcolicBool>, input: Seq<i64>) -> bool {
    &&& trace.len() > 0
    &&& (forall|i: int| 0 <= i < trace.len() ==> (#[trigger] trace[i]).concrete)
    &&& (forall|i: int| 0 <= i < trace.len() ==> (#[trigger] trace[i]).consistent(env_of(input)))
}

/// Everything one execution of a target routine produces.
pub struct Execution {
    /// One predicate per branch decision taken, in execution order.
    pub trace: Vec<ConcolicBool>,
    /// One free variable per input position, in declaration order.
    pub vars: Vec<ConcolicInt>,
    /// Whether the routine reached a failure on this input.
    pub failed: bool,
}

/// An instrumented routine that the driver can explore.
///
/// `run` must populate the trace and the variable set per the instrumentation
/// contract, and report a discovered failure as a value instead of aborting.
pub trait TargetRoutine {
    /// The fixed number of input values the routine takes.
    spec fn arity(&self) -> nat;

    /// The inputs the routine can be executed on; beyond the arity this may
    /// bound the values so that the routine's own arithmetic cannot overflow.
    spec fn input_ok(&self, input: Seq<i64>) -> bool;

    /// On which inputs the routine reaches a failure.
    spec fn spec_failed(&self, input: Seq<i64>) -> bool;

    /// Decides whether `input` can be handed to `run`.
    fn accepts(&self, input: &Input) -> (r: bool)
        ensures
            r == (input@.len() == self.arity() && self.input_ok(input@)),
    ;

    /// Executes the routine on `input`, recording one predicate per branch
    /// decision taken and one free variable per input position.
    fn run(&self, input: &Input) -> (e: Execution)
        requires
            input@.len() == self.arity(),
            self.input_ok(input@),
        ensures
            vars_correspond(e.vars@, input@),
            trace_wf(e.trace@, input@),
            e.failed == self.spec_failed(input@),
    ;
}

/// The fixed two-argument example routine:
/// ```text
/// if 2 * x == y {
///     if y == x + 10 {
///         failure
///     }
/// }
/// ```
pub struct TestMe;

/// The largest magnitude of an input value that `TestMe` accepts; keeps
/// `2 * x` and `x + 10` within `i64`.
pub const TEST_ME_BOUND: i64 = 0x1000000000000000;

impl TestMe {
    /// The predicate of the outer branch, over mathematical integers.
    pub open spec fn outer_taken(input: Seq<i64>) -> bool {
        2 * input[0] == input[1]
    }

    /// The predicate of the inner branch, over mathematical integers.
    pub open spec fn inner_taken(input: Seq<i64>) -> bool {
        input[1] == input[0] + 10
    }
}

impl TargetRoutine for TestMe {
    open spec fn arity(&self) -> nat {
        2
    }

    open spec fn input_ok(&self, input: Seq<i64>) -> bool {
        forall|i: int| 0 <= i < input.len() ==> -TEST_ME_BOUND <= #[trigger] input[i]
            <= TEST_ME_BOUND
    }

    open spec fn spec_failed(&self, input: Seq<i64>) -> bool {
        Self::outer_taken(input) && Self::inner_taken(input)
    }

    fn accepts(&self, input: &Input) -> (r: bool)
        ensures
            r == (input@.len() == self.arity() && self.input_ok(input@)),
    {
        if input.values.len() != 2 {
            return false;
        }
        let x = input.values[0];
        let y = input.values[1];
        let ok = -TEST_ME_BOUND <= x && x <= TEST_ME_BOUND && -TEST_ME_BOUND <= y && y
            <= TEST_ME_BOUND;
        proof {
            if ok {
                assert forall|i: int| 0 <= i < input@.len() implies -TEST_ME_BOUND
                    <= #[trigger] input@[i] <= TEST_ME_BOUND by {
                    assert(i == 0 || i == 1);
                }
            } else {
                assert(!(input@[0int] == x && input@[1int] == y) || !self.input_ok(input@));
            }
        }
        ok
    }

    fn run(&self, input: &Input) -> (e: Execution)
        ensures
            vars_correspond(e.vars@, input@),
            trace_wf(e.trace@, input@),
            e.failed == self.spec_failed(input@),
    {
        let ghost env = env_of(input@);
        let x = input.values[0];
        let y = input.values[1];
        let conc_x = ConcolicInt::variable(0, x);
        let conc_y = ConcolicInt::variable(1, y);
        proof {
            assert(env[0int] == x as int);
            assert(env[1int] == y as int);
            assert(conc_x.consistent(env));
            assert(conc_y.consistent(env));
        }
        let mut trace: Vec<ConcolicBool> = Vec::new();
        let mut failed = false;

        let outer = ConcolicInt::literal(2).mul(&conc_x).eq(&conc_y);
        proof {
            assert(outer.consistent(env));
        }
        if outer.concrete {
            trace.push(outer);
            let inner = conc_y.eq(&conc_x.add(&ConcolicInt::literal(10)));
            proof {
                assert(inner.consistent(env));
            }
            if inner.concrete {
                trace.push(inner);
                failed = true;
            } else {
                trace.push(inner.not());
            }
        } else {
            trace.push(outer.not());
        }

        let mut vars: Vec<ConcolicInt> = Vec::new();
        vars.push(conc_x);
        vars.push(conc_y);
        proof {
            assert(vars_correspond(vars@, input@));
            assert forall|i: int| 0 <= i < trace@.len() implies (#[trigger] trace@[i]).concrete
                && trace@[i].consistent(env) by {}
        }
        Execution { trace, vars, failed }
    }
}

} // verus!
