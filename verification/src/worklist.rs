//! The worklist manager: pending and already-tried concrete inputs, with
//! deduplication by value equality and a last-in-first-out supply of the next
//! input to try.

use vstd::prelude::*;

verus! {

/// A concrete input: one value per declared symbolic variable, in declaration
/// order. Two inputs are equal exactly when all positional values are equal.
pub struct Input {
    /// The concrete values, indexed by variable position.
    pub values: Vec<i64>,
}

impl View for Input {
    type V = Seq<i64>;

    open spec fn view(&self) -> Seq<i64> {
        self.values@
    }
}

impl Input {
    /// An input holding the given values.
    pub fn new(values: Vec<i64>) -> (r: Input)
        ensures
            r@ == values@,
    {
        Input { values }
    }

    /// A copy of the input, equal to it by value.
    pub fn duplicate(&self) -> (r: Input)
        ensures
            r@ == self@,
    {
        let mut values: Vec<i64> = Vec::new();
        let mut i: usize = 0;
        while i < self.values.len()
            invariant
                0 <= i <= self@.len(),
                values@ == self@.take(i as int),
            decreases self@.len() - i,
        {
            values.push(self.values[i]);
            proof {
                assert(self@.take(i + 1) =~= self@.take(i as int).push(self@[i as int]));
            }
            i = i + 1;
        }
        proof {
            assert(self@.take(self@.len() as int) =~= self@);
        }
        Input { values }
    }

    /// Whether this input holds exactly the same values as `other`.
    pub fn same_values(&self, other: &Input) -> (r: bool)
        ensures
            r == (self@ == other@),
    {
        if self.values.len() != other.values.len() {
            proof {
                assert(self@ != other@);
            }
            return false;
        }
        let mut i: usize = 0;
        while i < self.values.len()
            invariant
                0 <= i <= self@.len(),
                self@.len() == other@.len(),
                forall|j: int| 0 <= j < i ==> self@[j] == other@[j],
            decreases self@.len() - i,
        {
            if self.values[i] != other.values[i] {
                proof {
                    assert(self@[i as int] != other@[i as int]);
                }
                return false;
            }
            i = i + 1;
        }
        proof {
            assert(self@ =~= other@);
        }
        true
    }
}

/// The values of a sequence of inputs, in order.
pub open spec fn inputs_view(s: Seq<Input>) -> Seq<Seq<i64>> {
    s.map_values(|i: Input| i@)
}

/// Whether the sequence of input values `s` holds the value tuple `x`.
pub open spec fn holds_value(s: Seq<Seq<i64>>, x: Seq<i64>) -> bool {
    exists|i: int| 0 <= i < s.len() && s[i] == x
}

/// What `offer` does to the pending set, as a function of the two sets and
/// the candidate: a non-empty candidate present in neither set is appended;
/// anything else leaves the pending set unchanged.
pub open spec fn spec_offer(pending: Seq<Seq<i64>>, tried: Seq<Seq<i64>>, c: Seq<i64>) -> Seq<
    Seq<i64>,
> {
    if c.len() > 0 && !holds_value(pending, c) && !holds_value(tried, c) {
        pending.push(c)
    } else {
        pending
    }
}

/// What `next` returns: the most recently added pending input, if any.
pub open spec fn spec_next_result(pending: Seq<Seq<i64>>) -> Option<Seq<i64>> {
    if pending.len() == 0 {
        Option::None
    } else {
        Option::Some(pending.last())
    }
}

/// What `next` leaves pending.
pub open spec fn spec_next_rest(pending: Seq<Seq<i64>>) -> Seq<Seq<i64>> {
    if pending.len() == 0 {
        pending
    } else {
        pending.drop_last()
    }
}

/// The two sets of inputs of one exploration: candidates not yet tried, and
/// inputs already executed as the driving input of some iteration.
pub struct Worklist {
    /// Candidates not yet tried, in insertion order; the next input to try is
    /// the last one.
    pub pending: Vec<Input>,
    /// Inputs already tried.
    pub tried: Vec<Input>,
}

impl Worklist {
    /// The pending inputs, by value.
    pub open spec fn pending_view(self) -> Seq<Seq<i64>> {
        inputs_view(self.pending@)
    }

    /// The tried inputs, by value.
    pub open spec fn tried_view(self) -> Seq<Seq<i64>> {
        inputs_view(self.tried@)
    }

    /// The worklist invariant: an input already tried is not pending, and no
    /// input is pending twice.
    pub open spec fn wf(self) -> bool {
        &&& (forall|x: Seq<i64>| holds_value(self.tried_view(), x) ==> !holds_value(
            self.pending_view(),
            x,
        ))
        &&& (forall|i: int, j: int|
            0 <= i < j < self.pending_view().len() ==> self.pending_view()[i]
                != self.pending_view()[j])
    }

    /// An empty worklist.
    pub fn new() -> (r: Worklist)
        ensures
            r.pending_view() == Seq::<Seq<i64>>::empty(),
            r.tried_view() == Seq::<Seq<i64>>::empty(),
            r.wf(),
    {
        let r = Worklist { pending: Vec::new(), tried: Vec::new() };
        proof {
            assert(r.pending_view() =~= Seq::<Seq<i64>>::empty());
            assert(r.tried_view() =~= Seq::<Seq<i64>>::empty());
        }
        r
    }

    /// Whether `list` holds an input with the same values as `x`.
    fn list_contains(list: &Vec<Input>, x: &Input) -> (r: bool)
        ensures
            r == holds_value(list@.map_values(|i: Input| i@), x@),
    {
        let ghost view = list@.map_values(|i: Input| i@);
        let mut i: usize = 0;
        while i < list.len()
            invariant
                0 <= i <= list@.len(),
                view == list@.map_values(|i: Input| i@),
                forall|j: int| 0 <= j < i ==> view[j] != x@,
            decreases list@.len() - i,
        {
            if list[i].same_values(x) {
                proof {
                    assert(view[i as int] == x@);
                }
                return true;
            }
            i = i + 1;
        }
        false
    }

    /// Inserts a candidate into the pending set, unless it is empty or is
    /// already pending or already tried; then it is a no-op.
    pub fn offer(&mut self, candidate: Input)
        ensures
            final(self).pending_view() == spec_offer(
                old(self).pending_view(),
                old(self).tried_view(),
                candidate@,
            ),
            final(self).tried_view() == old(self).tried_view(),
            old(self).wf() ==> final(self).wf(),
    {
        if candidate.values.len() == 0 {
            return ;
        }
        if Self::list_contains(&self.pending, &candidate) {
            return ;
        }
        if Self::list_contains(&self.tried, &candidate) {
            return ;
        }
        let ghost old_pending = self.pending_view();
        self.pending.push(candidate);
        proof {
            assert(self.pending_view() =~= old_pending.push(candidate@));
            if old(self).wf() {
                assert forall|x: Seq<i64>| holds_value(self.tried_view(), x) implies !holds_value(
                    self.pending_view(),
                    x,
                ) by {
                    if holds_value(self.pending_view(), x) {
                        let i = choose|i: int|
                            0 <= i < self.pending_view().len() && self.pending_view()[i] == x;
                        if i < old_pending.len() {
                            assert(holds_value(old_pending, x));
                        }
                    }
                }
                assert forall|i: int, j: int|
                    0 <= i < j < self.pending_view().len() implies self.pending_view()[i]
                    != self.pending_view()[j] by {
                    if j == self.pending_view().len() - 1 {
                        assert(!holds_value(old_pending, candidate@));
                        assert(old_pending[i] != candidate@);
                    }
                }
            }
        }
    }

    /// Removes and returns the most recently inserted pending input, or
    /// reports an empty worklist with `None`, leaving everything unchanged.
    pub fn next(&mut self) -> (r: Option<Input>)
        ensures
            final(self).tried_view() == old(self).tried_view(),
            final(self).pending_view() == spec_next_rest(old(self).pending_view()),
            (match r {
                Option::Some(inp) => spec_next_result(old(self).pending_view())
                    == Option::Some(inp@),
                Option::None => spec_next_result(old(self).pending_view())
                    == Option::<Seq<i64>>::None,
            }),
            old(self).wf() ==> final(self).wf(),
            (old(self).wf() && r is Some) ==> !holds_value(final(self).pending_view(), r.unwrap()@),
    {
        let ghost old_pending = self.pending_view();
        let r = self.pending.pop();
        proof {
            if old_pending.len() > 0 {
                assert(self.pending_view() =~= old_pending.drop_last());
                if old(self).wf() {
                    assert forall|x: Seq<i64>| holds_value(self.tried_view(), x)
                        implies !holds_value(self.pending_view(), x) by {
                        if holds_value(self.pending_view(), x) {
                            let i = choose|i: int|
                                0 <= i < self.pending_view().len() && self.pending_view()[i] == x;
                            assert(holds_value(old_pending, x));
                        }
                    }
                    if r is Some {
                        let last = old_pending.len() - 1;
                        assert forall|i: int|
                            0 <= i < self.pending_view().len() implies self.pending_view()[i]
                            != old_pending[last] by {
                            assert(old_pending[i] != old_pending[last]);
                        }
                    }
                }
            } else {
                assert(self.pending_view() =~= old_pending);
            }
        }
        r
    }

    /// Records an input as tried. The input must no longer be pending, so
    /// that the invariant that a tried input is never pending is kept.
    pub fn mark_tried(&mut self, input: Input)
        requires
            !holds_value(old(self).pending_view(), input@),
        ensures
            final(self).pending_view() == old(self).pending_view(),
            final(self).tried_view() == old(self).tried_view().push(input@),
            old(self).wf() ==> final(self).wf(),
    {
        let ghost old_tried = self.tried_view();
        self.tried.push(input);
        proof {
            assert(self.tried_view() =~= old_tried.push(input@));
            if old(self).wf() {
                assert forall|x: Seq<i64>| holds_value(self.tried_view(), x) implies !holds_value(
                    self.pending_view(),
                    x,
                ) by {
                    let i = choose|i: int|
                        0 <= i < self.tried_view().len() && self.tried_view()[i] == x;
                    if i < old_tried.len() {
                        assert(holds_value(old_tried, x));
                    }
                }
            }
        }
    }
}

/// Offering the same candidate twice changes nothing the second time: once
/// the candidate is pending (or was already pending or tried, or is empty),
/// a repeated offer is a no-op.
pub proof fn lemma_offer_idempotent(pending: Seq<Seq<i64>>, tried: Seq<Seq<i64>>, c: Seq<i64>)
    ensures
        spec_offer(spec_offer(pending, tried, c), tried, c) == spec_offer(pending, tried, c),
{
    let once = spec_offer(pending, tried, c);
    if c.len() > 0 && !holds_value(pending, c) && !holds_value(tried, c) {
        assert(once[pending.len() as int] == c);
        assert(holds_value(once, c));
    }
}

/// Once an input has been tried, the worklist never hands it out again: under
/// the worklist invariant it is not pending, `next` cannot return it, a later
/// `offer` of the same value is a no-op, and both `offer` and `next` keep it
/// out of the pending set.
pub proof fn lemma_tried_never_returned(
    pending: Seq<Seq<i64>>,
    tried: Seq<Seq<i64>>,
    x: Seq<i64>,
    c: Seq<i64>,
)
    requires
        forall|y: Seq<i64>| holds_value(tried, y) ==> !holds_value(pending, y),
        holds_value(tried, x),
    ensures
        !holds_value(pending, x),
        spec_next_result(pending) != Option::Some(x),
        spec_offer(pending, tried, x) == pending,
        !holds_value(spec_offer(pending, tried, c), x),
        !holds_value(spec_next_rest(pending), x),
{
    assert(!holds_value(pending, x));
    if pending.len() > 0 {
        assert(pending[pending.len() - 1] != x);
        assert forall|i: int| 0 <= i < pending.drop_last().len() implies pending.drop_last()[i]
            != x by {
            assert(pending[i] != x);
        }
    }
    let offered = spec_offer(pending, tried, c);
    if c.len() > 0 && !holds_value(pending, c) && !holds_value(tried, c) {
        assert forall|i: int| 0 <= i < offered.len() implies offered[i] != x by {
            if i < pending.len() {
                assert(pending[i] != x);
            }
        }
    }
}

} // verus!
