//! The exploration driver: seed once, then iterate up to a fixed bound,
//! re-executing the target routine on worklist inputs, deriving the target
//! and complement formulas of each recorded path, and feeding the solver's
//! assignments back into the worklist.

use vstd::prelude::*;

use crate::formula::complement;
use crate::formula::generate_constraint;
use crate::solver::SolverPort;
use crate::target::TargetRoutine;
use crate::worklist::Input;
use crate::worklist::Worklist;
use crate::worklist::holds_value;
use crate::worklist::inputs_view;
use crate::worklist::spec_offer;

verus! {

/// Every pending input can be handed to the target routine.
pub open spec fn all_runnable<T: TargetRoutine>(pending: Seq<Seq<i64>>, target: T) -> bool {
    forall|i: int|
        0 <= i < pending.len() ==> ((#[trigger] pending[i]).len() == target.arity()
            && target.input_ok(pending[i]))
}

/// The value of a solver answer, if one came back.
pub open spec fn answer_view(a: Option<Input>) -> Option<Seq<i64>> {
    match a {
        Option::Some(c) => Option::Some(c@),
        Option::None => Option::None,
    }
}

/// The driver's worklist-and-failures state, as plain values.
#[verifier::ext_equal]
pub struct DriverModel {
    /// The pending inputs, most recently offered last.
    pub pending: Seq<Seq<i64>>,
    /// The tried inputs, in execution order.
    pub tried: Seq<Seq<i64>>,
    /// The reported failing inputs, in discovery order.
    pub failures: Seq<Seq<i64>>,
}

/// What offering one solver answer does to the pending set: an answer of the
/// target's arity whose values the target accepts is offered, anything else
/// changes nothing.
pub open spec fn spec_offer_checked<T: TargetRoutine>(
    target: T,
    pending: Seq<Seq<i64>>,
    tried: Seq<Seq<i64>>,
    answer: Option<Seq<i64>>,
) -> Seq<Seq<i64>> {
    match answer {
        Option::Some(c) => if c.len() == target.arity() && target.input_ok(c) {
            spec_offer(pending, tried, c)
        } else {
            pending
        },
        Option::None => pending,
    }
}

/// The driver's state after the seed phase: the seed's failure reported if it
/// failed, nothing tried, and the seed query's answer the sole candidate.
pub open spec fn spec_seed_state<T: TargetRoutine>(
    target: T,
    seed: Seq<i64>,
    seed_answer: Option<Seq<i64>>,
) -> DriverModel {
    DriverModel {
        pending: spec_offer_checked(
            target,
            Seq::<Seq<i64>>::empty(),
            Seq::<Seq<i64>>::empty(),
            seed_answer,
        ),
        tried: Seq::<Seq<i64>>::empty(),
        failures: if target.spec_failed(seed) {
            seq![seed]
        } else {
            Seq::<Seq<i64>>::empty()
        },
    }
}

/// What one executed iteration does to the driver's state, as a function of
/// the two solver answers of that iteration: the most recent pending input is
/// tried (and reported if it fails), and each answer is offered in turn.
pub open spec fn spec_step<T: TargetRoutine>(
    target: T,
    s: DriverModel,
    first_answer: Option<Seq<i64>>,
    second_answer: Option<Seq<i64>>,
) -> DriverModel
    recommends
        s.pending.len() > 0,
{
    let input = s.pending.last();
    let pending = s.pending.drop_last();
    let tried = s.tried.push(input);
    let failures = if target.spec_failed(input) {
        s.failures.push(input)
    } else {
        s.failures
    };
    let pending_after_first = spec_offer_checked(target, pending, tried, first_answer);
    DriverModel {
        pending: spec_offer_checked(target, pending_after_first, tried, second_answer),
        tried: tried,
        failures: failures,
    }
}

/// The driver's state after replaying a whole run: the seed state, then one
/// step per executed iteration, each consuming that iteration's two answers.
pub open spec fn spec_replay<T: TargetRoutine>(
    target: T,
    start: DriverModel,
    answers: Seq<(Option<Seq<i64>>, Option<Seq<i64>>)>,
) -> DriverModel
    decreases answers.len(),
{
    if answers.len() == 0 {
        start
    } else {
        spec_step(
            target,
            spec_replay(target, start, answers.drop_last()),
            answers.last().0,
            answers.last().1,
        )
    }
}

/// Determinism of exploration: the final pending, tried and failure sets are
/// a function of the target routine, the seed, and the answers the solver
/// gave; two runs in which a deterministic solver gave the same answers reach
/// the same state.
pub proof fn lemma_exploration_deterministic<T: TargetRoutine>(
    target: T,
    seed: Seq<i64>,
    seed_answer: Option<Seq<i64>>,
    answers: Seq<(Option<Seq<i64>>, Option<Seq<i64>>)>,
    first: DriverModel,
    second: DriverModel,
)
    requires
        first == spec_replay(target, spec_seed_state(target, seed, seed_answer), answers),
        second == spec_replay(target, spec_seed_state(target, seed, seed_answer), answers),
    ensures
        first == second,
{
}

/// What one exploration run reports back.
pub struct Outcome {
    /// The inputs on which the target routine reached a failure, in the
    /// order they were discovered.
    pub failures: Vec<Input>,
    /// The final worklist: what was tried, and what was still pending when
    /// the run ended.
    pub worklist: Worklist,
    /// How many worklist inputs were executed during the iterate phase.
    pub iterations: usize,
    /// Whether the run ended because the worklist emptied before the
    /// iteration bound was reached.
    pub exhausted: bool,
    /// The answer the solver gave to the seed query.
    pub seed_answer: Ghost<Option<Seq<i64>>>,
    /// The two answers the solver gave in each executed iteration, in order.
    pub answers: Ghost<Seq<(Option<Seq<i64>>, Option<Seq<i64>>)>>,
}

/// Offers a solver assignment to the worklist, provided the target routine
/// can actually be executed on it; an absent or unacceptable candidate
/// changes nothing.
fn offer_checked<T: TargetRoutine>(wl: &mut Worklist, candidate: Option<Input>, target: &T)
    ensures
        final(wl).tried_view() == old(wl).tried_view(),
        (match candidate {
            Option::Some(c) => final(wl).pending_view() == (if c@.len() == target.arity()
                && target.input_ok(c@) {
                spec_offer(old(wl).pending_view(), old(wl).tried_view(), c@)
            } else {
                old(wl).pending_view()
            }),
            Option::None => final(wl).pending_view() == old(wl).pending_view(),
        }),
        old(wl).wf() ==> final(wl).wf(),
        (all_runnable(old(wl).pending_view(), *target)) ==> all_runnable(
            final(wl).pending_view(),
            *target,
        ),
{
    match candidate {
        Option::Some(c) => {
            if target.accepts(&c) {
                let ghost old_pending = wl.pending_view();
                let ghost old_tried = wl.tried_view();
                let ghost cv = c@;
                wl.offer(c);
                proof {
                    if all_runnable(old_pending, *target) {
                        let now = wl.pending_view();
                        assert forall|i: int| 0 <= i < now.len() implies ((#[trigger] now[i]).len()
                            == target.arity() && target.input_ok(now[i])) by {
                            if i < old_pending.len() {
                                assert(old_pending[i].len() == target.arity()
                                    && target.input_ok(old_pending[i]));
                            } else {
                                assert(now[i] == cv);
                            }
                        }
                    }
                }
            }
        },
        Option::None => {},
    }
}

/// Explores the target routine: runs it once on the seed, then repeatedly on
/// worklist inputs, up to `bound` further executions, collecting every input
/// on which the routine reaches a failure.
///
/// The reported failures are exactly the executed inputs on which the
/// routine's failure predicate holds: every reported input really fails, and
/// every executed input that fails is reported. The run ends early, marked
/// exhausted, when no pending input remains.
pub fn explore<T: TargetRoutine, S: SolverPort>(
    target: &T,
    solver: &mut S,
    seed: &Input,
    bound: usize,
) -> (o: Outcome)
    requires
        seed@.len() == target.arity(),
        target.input_ok(seed@),
    ensures
        o.worklist.wf(),
        all_runnable(o.worklist.pending_view(), *target),
        o.iterations <= bound,
        o.worklist.tried_view().len() == o.iterations as int,
        forall|i: int|
            0 <= i < o.failures@.len() ==> target.spec_failed((#[trigger] o.failures@[i])@),
        forall|j: int|
            0 <= j < o.worklist.tried_view().len() ==> (target.spec_failed(
                #[trigger] o.worklist.tried_view()[j],
            ) ==> holds_value(inputs_view(o.failures@), o.worklist.tried_view()[j])),
        target.spec_failed(seed@) ==> holds_value(inputs_view(o.failures@), seed@),
        forall|i: int|
            0 <= i < o.failures@.len() ==> ((#[trigger] o.failures@[i])@ == seed@ || holds_value(
                o.worklist.tried_view(),
                o.failures@[i]@,
            )),
        o.exhausted ==> o.worklist.pending_view().len() == 0,
        o.exhausted == (o.iterations < bound),
        bound == 0 ==> (o.worklist.tried_view() == Seq::<Seq<i64>>::empty()
            && o.worklist.pending_view().len() <= 1 && o.iterations == 0),
        o.answers@.len() == o.iterations as int,
        o.worklist.pending_view() == spec_replay(
            *target,
            spec_seed_state(*target, seed@, o.seed_answer@),
            o.answers@,
        ).pending,
        o.worklist.tried_view() == spec_replay(
            *target,
            spec_seed_state(*target, seed@, o.seed_answer@),
            o.answers@,
        ).tried,
        inputs_view(o.failures@) == spec_replay(
            *target,
            spec_seed_state(*target, seed@, o.seed_answer@),
            o.answers@,
        ).failures,
{
    let arity = seed.values.len();
    let mut failures: Vec<Input> = Vec::new();
    let mut wl = Worklist::new();

    // Seed: one execution of the target, one query for an input that flips
    // the last decision of the seed's path, offered as the sole pending item.
    let seed_exec = target.run(seed);
    if seed_exec.failed {
        failures.push(seed.duplicate());
        proof {
            assert(inputs_view(failures@)[0int] == seed@);
        }
    }
    let seed_formula = generate_constraint(&seed_exec.trace);
    let seed_candidate = solver.solve(&seed_formula, arity);
    let ghost seed_answer = answer_view(seed_candidate);
    offer_checked(&mut wl, seed_candidate, target);
    let ghost start = spec_seed_state(*target, seed@, seed_answer);
    let ghost mut answer_log: Seq<(Option<Seq<i64>>, Option<Seq<i64>>)> = Seq::empty();
    proof {
        assert(inputs_view(failures@) =~= start.failures);
        assert(wl.tried_view() =~= start.tried);
    }

    // Iterate: pop, execute, mark tried, derive both formulas, query the
    // solver on each, and offer what comes back.
    let mut executed: usize = 0;
    let mut exhausted = false;
    let mut k: usize = 0;
    while k < bound && !exhausted
        invariant
            wl.wf(),
            all_runnable(wl.pending_view(), *target),
            seed@.len() == target.arity(),
            arity as int == target.arity(),
            0 <= executed <= k <= bound,
            wl.tried_view().len() == executed as int,
            forall|i: int|
                0 <= i < failures@.len() ==> target.spec_failed((#[trigger] failures@[i])@),
            forall|j: int|
                0 <= j < wl.tried_view().len() ==> (target.spec_failed(
                    #[trigger] wl.tried_view()[j],
                ) ==> holds_value(inputs_view(failures@), wl.tried_view()[j])),
            target.spec_failed(seed@) ==> holds_value(inputs_view(failures@), seed@),
            forall|i: int|
                0 <= i < failures@.len() ==> ((#[trigger] failures@[i])@ == seed@ || holds_value(
                    wl.tried_view(),
                    failures@[i]@,
                )),
            exhausted ==> wl.pending_view().len() == 0,
            exhausted ==> executed < bound,
            !exhausted ==> executed == k,
            bound == 0 ==> (wl.pending_view().len() <= 1 && wl.tried_view() == Seq::<
                Seq<i64>,
            >::empty()),
            start == spec_seed_state(*target, seed@, seed_answer),
            answer_log.len() == executed as int,
            wl.pending_view() == spec_replay(*target, start, answer_log).pending,
            wl.tried_view() == spec_replay(*target, start, answer_log).tried,
            inputs_view(failures@) == spec_replay(*target, start, answer_log).failures,
        decreases bound - k,
    {
        let ghost pre_pending = wl.pending_view();
        let popped = wl.next();
        match popped {
            Option::None => {
                exhausted = true;
            },
            Option::Some(input) => {
                proof {
                    assert(input@ == pre_pending.last());
                    assert(pre_pending[pre_pending.len() - 1].len() == target.arity()
                        && target.input_ok(pre_pending[pre_pending.len() - 1]));
                }
                let exec = target.run(&input);
                let ghost old_failures = inputs_view(failures@);
                let ghost old_tried = wl.tried_view();
                if exec.failed {
                    failures.push(input.duplicate());
                    proof {
                        assert(inputs_view(failures@) =~= old_failures.push(input@));
                        assert forall|x: Seq<i64>| holds_value(old_failures, x) implies holds_value(
                            inputs_view(failures@),
                            x,
                        ) by {
                            let i = choose|i: int|
                                0 <= i < old_failures.len() && old_failures[i] == x;
                            assert(inputs_view(failures@)[i] == x);
                        }
                        assert(inputs_view(failures@)[old_failures.len() as int] == input@);
                    }
                }
                wl.mark_tried(input.duplicate());
                proof {
                    assert(wl.tried_view() =~= old_tried.push(input@));
                    assert forall|x: Seq<i64>| holds_value(old_tried, x) implies holds_value(
                        wl.tried_view(),
                        x,
                    ) by {
                        let i = choose|i: int| 0 <= i < old_tried.len() && old_tried[i] == x;
                        assert(wl.tried_view()[i] == x);
                    }
                    assert(wl.tried_view()[old_tried.len() as int] == input@);
                }
                let target_formula = generate_constraint(&exec.trace);
                let complement_formula = complement(&target_formula);
                let ghost prev = spec_replay(*target, start, answer_log);
                let first_candidate = solver.solve(&target_formula, arity);
                let ghost first_answer = answer_view(first_candidate);
                offer_checked(&mut wl, first_candidate, target);
                let second_candidate = solver.solve(&complement_formula, arity);
                let ghost second_answer = answer_view(second_candidate);
                offer_checked(&mut wl, second_candidate, target);
                proof {
                    let stepped = spec_step(*target, prev, first_answer, second_answer);
                    assert(wl.pending_view() == stepped.pending);
                    assert(wl.tried_view() == stepped.tried);
                    assert(inputs_view(failures@) =~= stepped.failures);
                    let new_log = answer_log.push((first_answer, second_answer));
                    assert(new_log.drop_last() =~= answer_log);
                    assert(spec_replay(*target, start, new_log) == stepped);
                    answer_log = new_log;
                }
                executed = executed + 1;
            },
        }
        k = k + 1;
    }

    Outcome {
        failures,
        worklist: wl,
        iterations: executed,
        exhausted,
        seed_answer: Ghost(seed_answer),
        answers: Ghost(answer_log),
    }
}

} // verus!
