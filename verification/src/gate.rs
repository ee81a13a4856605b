//! The emission gate: a per-instrument watermark that lets each period be
//! finalized at most once and never out of order.

use vstd::prelude::*;

verus! {

/// Outcome of one attempt on a gate whose watermark is `last`: whether the
/// attempt for `period_id` wins, and the watermark afterwards.
pub open spec fn gate_step(last: int, period_id: int) -> (bool, int) {
    if last >= period_id {
        (false, last)
    } else {
        (true, period_id)
    }
}

/// The watermark after the attempts `attempts`, made one after another on a
/// gate that starts at `last`.
pub open spec fn gate_after(last: int, attempts: Seq<int>) -> int
    decreases attempts.len(),
{
    if attempts.len() == 0 {
        last
    } else {
        gate_step(gate_after(last, attempts.drop_last()), attempts.last()).1
    }
}

/// The period ids that win among `attempts`, in the order in which they were
/// tried.
pub open spec fn gate_emitted(last: int, attempts: Seq<int>) -> Seq<int>
    decreases attempts.len(),
{
    if attempts.len() == 0 {
        Seq::empty()
    } else {
        let before = gate_emitted(last, attempts.drop_last());
        if gate_step(gate_after(last, attempts.drop_last()), attempts.last()).0 {
            before.push(attempts.last())
        } else {
            before
        }
    }
}

/// Watermark of the last period that was let through.
#[derive(Debug, Clone, Copy, PartialEq, Eq, Structural)]
pub struct EmissionGate {
    pub last_emitted_period: i64,
}

impl EmissionGate {
    /// The last period that was let through.
    pub open spec fn last(&self) -> int {
        self.last_emitted_period as int
    }

    /// A gate that has let nothing through; its watermark is period 0.
    pub fn new() -> (g: Self)
        ensures
            g.last() == 0,
    {
        EmissionGate { last_emitted_period: 0 }
    }

    /// The last period that was let through.
    pub fn last_emitted(&self) -> (p: i64)
        ensures
            p == self.last(),
    {
        self.last_emitted_period
    }

    /// Asks to finalize `period_id`. Returns `false` and changes nothing when
    /// that period or a later one was already let through; otherwise records
    /// `period_id` and returns `true`.
    pub fn try_emit(&mut self, period_id: i64) -> (won: bool)
        ensures
            won == gate_step(old(self).last(), period_id as int).0,
            final(self).last() == gate_step(old(self).last(), period_id as int).1,
            !won ==> *final(self) == *old(self),
    {
        if self.last_emitted_period >= period_id {
            false
        } else {
            self.last_emitted_period = period_id;
            true
        }
    }
}

/// Each element of `s` is smaller than the one after it.
pub open spec fn strictly_increasing(s: Seq<int>) -> bool {
    forall|i: int, j: int| 0 <= i < j < s.len() ==> s[i] < s[j]
}

/// Each element of `s` lies above `low` and at or below `high`.
pub open spec fn all_within(s: Seq<int>, low: int, high: int) -> bool {
    forall|i: int| 0 <= i < s.len() ==> low < #[trigger] s[i] && s[i] <= high
}

/// Whatever is attempted, the watermark never moves back, every winning
/// period lies above the starting watermark and at or below the final one,
/// and the winning periods are strictly increasing.
pub proof fn lemma_gate_monotonic(last: int, attempts: Seq<int>)
    ensures
        last <= gate_after(last, attempts),
        all_within(gate_emitted(last, attempts), last, gate_after(last, attempts)),
        strictly_increasing(gate_emitted(last, attempts)),
    decreases attempts.len(),
{
    if attempts.len() > 0 {
        let prefix = attempts.drop_last();
        lemma_gate_monotonic(last, prefix);
        let before = gate_emitted(last, prefix);
        let mid = gate_after(last, prefix);
        let now = gate_emitted(last, attempts);
        assert(all_within(before, last, mid));
        assert(strictly_increasing(before));
        if gate_step(mid, attempts.last()).0 {
            assert(now == before.push(attempts.last()));
            assert forall|i: int, j: int| 0 <= i < j < now.len() implies now[i] < now[j] by {
                if j < before.len() {
                    assert(now[i] == before[i] && now[j] == before[j]);
                } else {
                    assert(now[i] == before[i]);
                }
            }
        }
    }
}

/// No two emissions share a period: a period id occurs at most once among
/// the winners of any run of attempts.
pub proof fn lemma_gate_no_duplicates(last: int, attempts: Seq<int>, i: int, j: int)
    requires
        0 <= i < gate_emitted(last, attempts).len(),
        0 <= j < gate_emitted(last, attempts).len(),
        gate_emitted(last, attempts)[i] == gate_emitted(last, attempts)[j],
    ensures
        i == j,
{
    lemma_gate_monotonic(last, attempts);
}

/// Two attempts for the same period, in either order and with any attempts
/// for earlier periods in between, succeed exactly once when the period lies
/// above the watermark, and never when it does not: the second attempt always
/// loses.
pub proof fn lemma_gate_idempotent(last: int, period_id: int, between: Seq<int>)
    requires
        forall|i: int| 0 <= i < between.len() ==> #[trigger] between[i] <= period_id,
    ensures
        ({
            let first = gate_step(last, period_id);
            let middle = gate_after(first.1, between);
            let second = gate_step(middle, period_id);
            &&& first.0 == (last < period_id)
            &&& !second.0
            &&& second.1 == first.1
        }),
{
    let first = gate_step(last, period_id);
    lemma_gate_between(first.1, period_id, between);
}

/// Attempts for periods at or below `bound` leave a watermark that is at or
/// above `bound` where it is.
pub proof fn lemma_gate_between(last: int, bound: int, between: Seq<int>)
    requires
        bound <= last,
        forall|i: int| 0 <= i < between.len() ==> #[trigger] between[i] <= bound,
    ensures
        gate_after(last, between) == last,
    decreases between.len(),
{
    if between.len() > 0 {
        assert forall|i: int| 0 <= i < between.drop_last().len() implies #[trigger] between.drop_last()[i]
            <= bound by {
            assert(between.drop_last()[i] == between[i]);
        }
        lemma_gate_between(last, bound, between.drop_last());
        assert(between.last() == between[between.len() - 1]);
    }
}

/// What one step of a node did to its emission gate: the watermark before
/// and after, and the period that the step emitted, if it emitted one.
pub struct GateStep {
    pub before: int,
    pub after: int,
    pub emitted: Option<int>,
}

/// The step obeys the emission gate: it emits only a period above the
/// watermark and leaves the watermark at that period, or emits nothing and
/// leaves the watermark where it was.
pub open spec fn lawful(step: GateStep) -> bool {
    match step.emitted {
        Some(p) => step.before < p && step.after == p,
        None => step.after == step.before,
    }
}

/// Every step is lawful and starts from the watermark that the one before
/// it left.
pub open spec fn chained(steps: Seq<GateStep>) -> bool {
    &&& forall|i: int| 0 <= i < steps.len() ==> lawful(#[trigger] steps[i])
    &&& forall|i: int| 0 <= i < steps.len() - 1 ==> (#[trigger] steps[i]).after == steps[i + 1].before
}

/// The periods that the steps emitted, in order.
pub open spec fn emitted_periods(steps: Seq<GateStep>) -> Seq<int>
    decreases steps.len(),
{
    if steps.len() == 0 {
        Seq::empty()
    } else {
        match steps.last().emitted {
            Some(p) => emitted_periods(steps.drop_last()).push(p),
            None => emitted_periods(steps.drop_last()),
        }
    }
}

/// Whatever steps a node makes on one instrument, one after another, the
/// periods it emits are strictly increasing: no period is emitted twice and
/// none after a later one.
pub proof fn lemma_emissions_increase(steps: Seq<GateStep>)
    requires
        chained(steps),
    ensures
        strictly_increasing(emitted_periods(steps)),
        steps.len() > 0 ==> all_within(
            emitted_periods(steps),
            steps[0].before,
            steps.last().after,
        ),
        steps.len() > 0 ==> steps[0].before <= steps.last().after,
    decreases steps.len(),
{
    if steps.len() > 0 {
        let head = steps.drop_last();
        assert(chained(head)) by {
            assert forall|i: int| 0 <= i < head.len() implies lawful(#[trigger] head[i]) by {
                assert(head[i] == steps[i]);
            }
            assert forall|i: int| 0 <= i < head.len() - 1 implies (#[trigger] head[i]).after
                == head[i + 1].before by {
                assert(head[i] == steps[i] && head[i + 1] == steps[i + 1]);
            }
        }
        lemma_emissions_increase(head);
        let before = emitted_periods(head);
        let now = emitted_periods(steps);
        let last = steps.last();
        assert(lawful(last)) by {
            assert(last == steps[steps.len() - 1]);
        }
        if head.len() > 0 {
            assert(head.last() == steps[steps.len() - 2]);
            assert(steps[steps.len() - 2].after == steps[steps.len() - 2 + 1].before);
            assert(head[0] == steps[0]);
        } else {
            assert(before =~= Seq::<int>::empty());
        }
        match last.emitted {
            Some(p) => {
                assert(now == before.push(p));
                assert forall|i: int, j: int| 0 <= i < j < now.len() implies now[i] < now[j] by {
                    if j < before.len() {
                        assert(now[i] == before[i] && now[j] == before[j]);
                    } else {
                        assert(now[i] == before[i]);
                    }
                }
                assert forall|i: int| 0 <= i < now.len() implies steps[0].before
                    < #[trigger] now[i] && now[i] <= steps.last().after by {
                    if i < before.len() {
                        assert(now[i] == before[i]);
                    }
                }
            },
            None => {
                assert forall|i: int| 0 <= i < now.len() implies steps[0].before
                    < #[trigger] now[i] && now[i] <= steps.last().after by {
                    assert(now[i] == before[i]);
                }
            },
        }
    }
}

} // verus!
