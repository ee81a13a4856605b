//! Period arithmetic: the length of a bucket read from its textual form, and
//! the manager that maps clock readings to period indices.

use vstd::prelude::*;
use crate::gate::EmissionGate;
use crate::text::{chars_of, i64_of, parse_i64};

verus! {

/// Milliseconds in one unit of a bucket duration, by the unit's letter.
pub open spec fn unit_millis(unit: char) -> Option<int> {
    if unit == 's' {
        Some(1000)
    } else if unit == 'm' {
        Some(60_000)
    } else if unit == 'h' {
        Some(3_600_000)
    } else if unit == 'd' || unit == 'D' {
        Some(86_400_000)
    } else {
        None
    }
}

/// The length in milliseconds that a bucket duration denotes: a decimal
/// integer followed by one unit letter. `None` when the text has another
/// shape or the length does not fit in 64 bits.
pub open spec fn duration_millis(freq: Seq<char>) -> Option<int> {
    if freq.len() < 2 {
        None
    } else {
        match (i64_of(freq.drop_last()), unit_millis(freq.last())) {
            (Some(n), Some(f)) => if i64::MIN <= n * f && n * f <= i64::MAX {
                Some(n * f)
            } else {
                None
            },
            _ => None,
        }
    }
}

/// Floor of `t / d` for a positive `d`.
pub open spec fn period_of(t: int, d: int) -> int {
    t / d
}

/// Reads a bucket duration such as `"1s"`, `"5m"`, `"1h"` or `"1d"`.
pub fn parse_duration(freq: &str) -> (r: Option<i64>)
    ensures
        match r {
            Some(ms) => duration_millis(freq@) == Some(ms as int),
            None => duration_millis(freq@) is None,
        },
{
    let mut chars = chars_of(freq);
    let len = chars.len();
    if len < 2 {
        return None;
    }
    let unit = chars[len - 1];
    chars.truncate(len - 1);
    assert(chars@ =~= freq@.drop_last());
    let num = match parse_i64(&chars) {
        Some(n) => n,
        None => { return None; },
    };
    let factor: i64 = if unit == 's' {
        1000
    } else if unit == 'm' {
        60_000
    } else if unit == 'h' {
        3_600_000
    } else if unit == 'd' || unit == 'D' {
        86_400_000
    } else {
        return None;
    };
    num.checked_mul(factor)
}

/// Floor division of a timestamp by a positive bucket length.
pub fn floor_div(t: i64, d: i64) -> (q: i64)
    requires
        d > 0,
    ensures
        q == period_of(t as int, d as int),
{
    if t >= 0 {
        t / d
    } else {
        let m: i64 = -1 - t;
        let k: i64 = m / d;
        proof {
            lemma_floor_of_negative(t as int, d as int);
        }
        -1 - k
    }
}

/// Milliseconds of an exchange time given in microseconds, rounded down.
pub open spec fn millis_of(exchange_time: int) -> int {
    exchange_time / 1000
}

/// Milliseconds of an exchange time given in microseconds, rounded down.
pub fn to_millis(exchange_time: i64) -> (ms: i64)
    ensures
        ms == millis_of(exchange_time as int),
{
    floor_div(exchange_time, 1000)
}

/// The larger of `a` and `b`.
pub open spec fn max_of(a: int, b: int) -> int {
    if a >= b {
        a
    } else {
        b
    }
}

/// The smaller of `a` and `b`.
pub open spec fn min_of(a: int, b: int) -> int {
    if a <= b {
        a
    } else {
        b
    }
}

/// For a negative `t`, the floor of `t / d` mirrors the quotient of `-1 - t`.
pub proof fn lemma_floor_of_negative(t: int, d: int)
    requires
        t < 0,
        d > 0,
    ensures
        t / d == -1 - (-1 - t) / d,
{
    let m = -1 - t;
    let k = m / d;
    let r = m % d;
    assert(m == d * k + r && 0 <= r < d) by {
        vstd::arithmetic::div_mod::lemma_fundamental_div_mod(m, d);
        vstd::arithmetic::div_mod::lemma_mod_bound(m, d);
    }
    let q = -1 - k;
    let s = d - 1 - r;
    assert(t == d * q + s) by (nonlinear_arith)
        requires
            m == -1 - t,
            m == d * k + r,
            q == -1 - k,
            s == d - 1 - r,
    ;
    assert(0 <= s < d);
    vstd::arithmetic::div_mod::lemma_fundamental_div_mod_converse(t, d, q, s);
}

/// Maps clock readings to period indices and tracks the period that is
/// currently open.
#[derive(Debug, Clone, Copy, PartialEq, Eq, Structural)]
pub struct IntervalManager {
    /// Length of one period in milliseconds.
    pub duration_ms: i64,
    /// Index of the period that is currently open.
    pub current_index: i64,
}

impl IntervalManager {
    /// Length of one period in milliseconds.
    pub open spec fn duration(&self) -> int {
        self.duration_ms as int
    }

    /// Index of the period that is currently open.
    pub open spec fn index(&self) -> int {
        self.current_index as int
    }

    /// First millisecond of the open period.
    pub open spec fn window_start(&self) -> int {
        self.index() * self.duration()
    }

    /// First millisecond after the open period.
    pub open spec fn window_end(&self) -> int {
        self.window_start() + self.duration()
    }

    /// The period length is positive and both ends of the open window are
    /// representable.
    pub open spec fn wf(&self) -> bool {
        &&& self.duration() > 0
        &&& i64::MIN <= self.window_start()
        &&& self.window_end() <= i64::MAX
    }

    /// The window after the open one is representable too.
    pub open spec fn has_next(&self) -> bool {
        self.window_end() + self.duration() <= i64::MAX
    }

    /// Whether a manager for periods of `duration` milliseconds can start at
    /// the clock reading `now`.
    pub open spec fn fits(duration: int, now: int) -> bool {
        &&& duration > 0
        &&& i64::MIN <= period_of(now, duration) * duration
        &&& period_of(now, duration) * duration + duration <= i64::MAX
    }

    /// A manager for the bucket duration `freq` whose open period is the
    /// one that holds the clock reading `current_time`.
    pub fn new(freq: &str, current_time: i64) -> (r: Option<Self>)
        ensures
            match r {
                Some(m) => {
                    &&& m.wf()
                    &&& duration_millis(freq@) == Some(m.duration())
                    &&& m.index() == period_of(current_time as int, m.duration())
                },
                None => duration_millis(freq@) is None || !Self::fits(
                    duration_millis(freq@).unwrap(),
                    current_time as int,
                ),
            },
    {
        let duration_ms = match parse_duration(freq) {
            Some(d) => d,
            None => { return None; },
        };
        Self::with_duration(duration_ms, current_time)
    }

    /// A manager for periods of `duration_ms` milliseconds whose open period
    /// holds `current_time`.
    pub fn with_duration(duration_ms: i64, current_time: i64) -> (r: Option<Self>)
        ensures
            match r {
                Some(m) => {
                    &&& m.wf()
                    &&& m.duration() == duration_ms
                    &&& m.index() == period_of(current_time as int, duration_ms as int)
                },
                None => !Self::fits(duration_ms as int, current_time as int),
            },
    {
        if duration_ms <= 0 {
            return None;
        }
        let current_index = floor_div(current_time, duration_ms);
        let start = match current_index.checked_mul(duration_ms) {
            Some(s) => s,
            None => { return None; },
        };
        if start > i64::MAX - duration_ms {
            return None;
        }
        Some(IntervalManager { duration_ms, current_index })
    }

    /// The period length in milliseconds.
    pub fn get_duration(&self) -> (d: i64)
        ensures
            d == self.duration(),
    {
        self.duration_ms
    }

    /// Start and end of the open period: `[start, end)` in milliseconds.
    pub fn get_current_interval(&self) -> (r: (i64, i64))
        requires
            self.wf(),
        ensures
            r.0 == self.window_start(),
            r.1 == self.window_end(),
    {
        let start = self.current_index * self.duration_ms;
        let end = start + self.duration_ms;
        (start, end)
    }

    /// Whether a further call of `advance` is possible.
    pub fn can_advance(&self) -> (r: bool)
        requires
            self.wf(),
        ensures
            r == self.has_next(),
    {
        let (_, end) = self.get_current_interval();
        end <= i64::MAX - self.duration_ms
    }

    /// Opens the next period.
    pub fn advance(&mut self)
        requires
            old(self).wf(),
            old(self).has_next(),
        ensures
            final(self).wf(),
            final(self).index() == old(self).index() + 1,
            final(self).duration() == old(self).duration(),
    {
        proof {
            let i = self.index();
            let d = self.duration();
            lemma_next_window(i, d);
            assert(i + 1 <= (i + 1) * d || i + 1 < 0) by (nonlinear_arith)
                requires
                    d >= 1,
            ;
        }
        self.current_index += 1;
    }

    /// Whether `timestamp` lies at or past the end of the open period.
    pub fn should_advance(&self, timestamp: i64) -> (r: bool)
        requires
            self.wf(),
        ensures
            r == (timestamp >= self.window_end()),
    {
        let (_, current_end) = self.get_current_interval();
        timestamp >= current_end
    }

    /// Index of the open period.
    pub fn get_current_period(&self) -> (p: i64)
        ensures
            p == self.index(),
    {
        self.current_index
    }

    /// Index of the period that holds `timestamp`, whatever period is open.
    pub fn get_period_id(&self, timestamp: i64) -> (p: i64)
        requires
            self.wf(),
        ensures
            p == period_of(timestamp as int, self.duration()),
    {
        floor_div(timestamp, self.duration_ms)
    }
}

/// The period bookkeeping of one instrument in one node: the open period and
/// the emission gate through which each period is finalized.
#[derive(Debug, Clone, Copy, PartialEq, Eq, Structural)]
pub struct PeriodTracker {
    pub manager: IntervalManager,
    pub gate: EmissionGate,
}

impl PeriodTracker {
    pub open spec fn wf(&self) -> bool {
        self.manager.wf()
    }

    /// The clock reading `t` lies at or past the end of the open period.
    pub open spec fn due(&self, t: int) -> bool {
        t >= self.manager.window_end()
    }

    /// At `t` the open period is over and has not been finalized yet.
    pub open spec fn closes(&self, t: int) -> bool {
        self.due(t) && self.gate.last() < self.manager.index()
    }

    /// The index of the open period after a period was closed or skipped.
    pub open spec fn next_index(&self) -> int {
        if self.manager.has_next() {
            self.manager.index() + 1
        } else {
            self.manager.index()
        }
    }

    /// The tracker after the open period was finalized: the emission gate
    /// stands at that period and the next period is open.
    pub open spec fn closed(self) -> Self {
        PeriodTracker {
            manager: IntervalManager {
                current_index: self.next_index() as i64,
                ..self.manager
            },
            gate: EmissionGate { last_emitted_period: self.manager.current_index },
        }
    }

    /// The tracker after the open period was left without being finalized.
    pub open spec fn skipped(self) -> Self {
        PeriodTracker {
            manager: IntervalManager {
                current_index: self.next_index() as i64,
                ..self.manager
            },
            ..self
        }
    }

    /// The tracker after the check at `t`: closed if the open period is
    /// over and not finalized yet, unchanged otherwise.
    pub open spec fn checked(self, t: int) -> Self {
        if self.closes(t) {
            self.closed()
        } else {
            self
        }
    }

    /// A tracker for the bucket duration `freq`, opened at the clock
    /// reading `current_time`, with a gate that has let nothing through.
    pub fn new(freq: &str, current_time: i64) -> (r: Option<Self>)
        ensures
            match r {
                Some(t) => {
                    &&& t.wf()
                    &&& duration_millis(freq@) == Some(t.manager.duration())
                    &&& t.manager.index() == period_of(current_time as int, t.manager.duration())
                    &&& t.gate.last() == 0
                },
                None => duration_millis(freq@) is None || !IntervalManager::fits(
                    duration_millis(freq@).unwrap(),
                    current_time as int,
                ),
            },
    {
        match IntervalManager::new(freq, current_time) {
            Some(manager) => Some(PeriodTracker { manager, gate: EmissionGate::new() }),
            None => None,
        }
    }

    /// Finalizes the open period if `t` lies past its end and the emission gate lets it
    /// through: returns its index and opens the next period. Otherwise
    /// nothing changes.
    pub fn close_period(&mut self, t: i64) -> (r: Option<i64>)
        requires
            old(self).wf(),
        ensures
            final(self).wf(),
            *final(self) == old(self).checked(t as int),
            final(self).manager.duration() == old(self).manager.duration(),
            old(self).closes(t as int) ==> final(self).manager.index() == old(self).next_index(),
            r == if old(self).closes(t as int) {
                Some(old(self).manager.current_index)
            } else {
                None
            },
    {
        if !self.manager.should_advance(t) {
            return None;
        }
        let period_id = self.manager.get_current_period();
        if !self.gate.try_emit(period_id) {
            return None;
        }
        if self.manager.can_advance() {
            self.manager.advance();
        }
        Some(period_id)
    }

    /// Opens the next period without finalizing the open one, if `t` lies
    /// past its end. Returns whether the open period changed.
    pub fn skip_period(&mut self, t: i64) -> (moved: bool)
        requires
            old(self).wf(),
        ensures
            final(self).wf(),
            moved == (old(self).due(t as int) && old(self).manager.has_next()),
            final(self).manager.duration() == old(self).manager.duration(),
            old(self).due(t as int) ==> final(self).manager.index() == old(self).next_index(),
            *final(self) == if old(self).due(t as int) {
                old(self).skipped()
            } else {
                *old(self)
            },
    {
        if self.manager.should_advance(t) && self.manager.can_advance() {
            self.manager.advance();
            true
        } else {
            false
        }
    }
}

/// The window after the one with index `i` starts where that one ends.
pub proof fn lemma_next_window(i: int, d: int)
    ensures
        (i + 1) * d == i * d + d,
        (i + 1) * d + d == i * d + d + d,
{
    assert((i + 1) * d == i * d + d) by (nonlinear_arith);
}

/// A clock reading lies at or past the end of the open period exactly when
/// its own period comes after the open one, and inside the open window
/// exactly when its own period is the open one.
pub proof fn lemma_boundary_is_period_change(manager: IntervalManager, t: int)
    requires
        manager.wf(),
    ensures
        t >= manager.window_end() <==> period_of(t, manager.duration()) > manager.index(),
        manager.window_start() <= t < manager.window_end() <==> period_of(t, manager.duration())
            == manager.index(),
{
    let d = manager.duration();
    let i = manager.index();
    let p = period_of(t, d);
    vstd::arithmetic::div_mod::lemma_fundamental_div_mod(t, d);
    vstd::arithmetic::div_mod::lemma_mod_bound(t, d);
    assert(t == d * p + t % d);
    assert(0 <= t % d < d);
    if p > i {
        assert(d * p >= d * (i + 1)) by (nonlinear_arith)
            requires
                p >= i + 1,
                d > 0,
        ;
        assert(d * (i + 1) == i * d + d) by (nonlinear_arith);
    }
    if p < i {
        assert(d * p + d <= d * i) by (nonlinear_arith)
            requires
                p + 1 <= i,
                d > 0,
        ;
        assert(d * i == i * d) by (nonlinear_arith);
    }
    if p == i {
        assert(d * p == i * d) by (nonlinear_arith)
            requires
                p == i,
        ;
    }
}

} // verus!
