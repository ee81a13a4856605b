//! Historical replay: a virtual clock that runs from a chosen start time at
//! a chosen speed, and the replay parameters of a subscription.

use vstd::prelude::*;
use vstd::string::StringExecFns;
use crate::amount::{amount_text, push_amount};
use crate::text::{int_text, push_i64};
use crate::types::AMOUNT_SCALE;
use crate::utils::period_of;

verus! {

/// `x` limited to the range of a 64-bit signed integer.
pub open spec fn clamped(x: int) -> int {
    if x < i64::MIN {
        i64::MIN as int
    } else if x > i64::MAX {
        i64::MAX as int
    } else {
        x
    }
}

/// Virtual milliseconds that pass in `elapsed` real milliseconds at the
/// speed `speed`, a fixed-point multiplier, rounded down.
pub open spec fn scaled_elapsed(elapsed: int, speed: int) -> int {
    (elapsed * speed) / (AMOUNT_SCALE as int)
}

/// The virtual time of a replay that started at `start_time` when the real
/// clock showed `base_time`, now that the real clock shows `wall_time`.
pub open spec fn virtual_time(start_time: int, speed: int, base_time: int, wall_time: int) -> int {
    clamped(start_time + clamped(scaled_elapsed(wall_time - base_time, speed)))
}

/// `x` limited to the range of a 64-bit signed integer.
pub fn clamp(x: i128) -> (r: i64)
    ensures
        r == clamped(x as int),
{
    if x < i64::MIN as i128 {
        i64::MIN
    } else if x > i64::MAX as i128 {
        i64::MAX
    } else {
        x as i64
    }
}

/// Floor of `x / d` for a positive `d`.
pub fn floor_div_wide(x: i128, d: i128) -> (q: i128)
    requires
        d > 0,
    ensures
        q == x as int / d as int,
{
    if x >= 0 {
        x / d
    } else {
        let m: i128 = -1 - x;
        let k: i128 = m / d;
        proof {
            crate::utils::lemma_floor_of_negative(x as int, d as int);
        }
        -1 - k
    }
}

/// The clock of a replay. Its reading is the virtual time at the last call
/// of `update_time`.
pub struct MasterClock {
    start_time: i64,
    /// Fixed-point multiplier: `AMOUNT_SCALE` stands for real time.
    speed_multiplier: i64,
    base_time: i64,
    current_time: i64,
}

impl MasterClock {
    /// Virtual time at which the replay starts.
    pub closed spec fn start(&self) -> int {
        self.start_time as int
    }

    /// Speed of the replay, a fixed-point multiplier.
    pub closed spec fn speed(&self) -> int {
        self.speed_multiplier as int
    }

    /// Reading of the real clock when the replay started.
    pub closed spec fn base(&self) -> int {
        self.base_time as int
    }

    /// The current reading of the virtual clock.
    pub closed spec fn reading(&self) -> int {
        self.current_time as int
    }

    /// The reading that the clock takes when the real clock shows
    /// `wall_time`.
    pub open spec fn reading_at(&self, wall_time: int) -> int {
        virtual_time(self.start(), self.speed(), self.base(), wall_time)
    }

    /// A clock that starts at `start_time` and runs at `speed_multiplier`,
    /// created when the real clock shows `wall_time`.
    pub fn new(start_time: i64, speed_multiplier: i64, wall_time: i64) -> (c: Self)
        ensures
            c.start() == start_time,
            c.speed() == speed_multiplier,
            c.base() == wall_time,
            c.reading() == start_time,
    {
        MasterClock { start_time, speed_multiplier, base_time: wall_time, current_time: start_time }
    }

    /// The reading of the virtual clock.
    pub fn get_current_time(&self) -> (t: i64)
        ensures
            t == self.reading(),
    {
        self.current_time
    }

    /// Refreshes the reading, now that the real clock shows `wall_time`.
    pub fn update_time(&mut self, wall_time: i64)
        ensures
            final(self).start() == old(self).start(),
            final(self).speed() == old(self).speed(),
            final(self).base() == old(self).base(),
            final(self).reading() == old(self).reading_at(wall_time as int),
    {
        let elapsed: i128 = wall_time as i128 - self.base_time as i128;
        assert(-0x1_0000_0000_0000_0000 < elapsed < 0x1_0000_0000_0000_0000);
        let speed: i128 = self.speed_multiplier as i128;
        assert(-0x8000_0000_0000_0000_0000_0000_0000_0000 < elapsed * speed
            < 0x8000_0000_0000_0000_0000_0000_0000_0000) by (nonlinear_arith)
            requires
                -0x1_0000_0000_0000_0000 < elapsed < 0x1_0000_0000_0000_0000,
                -0x8000_0000_0000_0000 <= speed < 0x8000_0000_0000_0000,
        ;
        let product: i128 = elapsed * speed;
        let simulated: i64 = clamp(floor_div_wide(product, AMOUNT_SCALE as i128));
        self.current_time = clamp(self.start_time as i128 + simulated as i128);
    }
}

/// The replay parameters that accompany a subscription.
#[derive(Debug, Clone, Copy, PartialEq, Eq, Structural)]
pub struct ReplayConfig {
    /// Milliseconds.
    pub start_time: i64,
    /// Milliseconds.
    pub end_time: i64,
    /// Fixed-point multiplier: `AMOUNT_SCALE` stands for real time.
    pub speed_multiplier: i64,
    /// Seconds.
    pub replay_window: i64,
    pub x_cur_time: i64,
}

impl ReplayConfig {
    pub fn new(
        start_time: i64,
        end_time: i64,
        speed_multiplier: i64,
        replay_window: i64,
        x_cur_time: i64,
    ) -> (r: Self)
        ensures
            r == (ReplayConfig {
                start_time,
                end_time,
                speed_multiplier,
                replay_window,
                x_cur_time,
            }),
    {
        ReplayConfig { start_time, end_time, speed_multiplier, replay_window, x_cur_time }
    }

    /// The replay parameters as a JSON object, its members in the order of
    /// their names.
    pub open spec fn params_text(self) -> Seq<char> {
        "{\"end_time\":"@ + int_text(self.end_time as int) + ",\"replay_window\":"@ + int_text(
            self.replay_window as int,
        ) + ",\"speed_multiplier\":"@ + amount_text(self.speed_multiplier as int)
            + ",\"start_time\":"@ + int_text(self.start_time as int) + ",\"x-cur-time\":"@
            + int_text(self.x_cur_time as int) + "}"@
    }

    /// The replay parameters as a JSON object.
    pub fn to_subscription_params(&self) -> (params: String)
        ensures
            params@ == self.params_text(),
    {
        let mut out = String::from_str("{\"end_time\":");
        push_i64(&mut out, self.end_time);
        out.append(",\"replay_window\":");
        push_i64(&mut out, self.replay_window);
        out.append(",\"speed_multiplier\":");
        push_amount(&mut out, self.speed_multiplier);
        out.append(",\"start_time\":");
        push_i64(&mut out, self.start_time);
        out.append(",\"x-cur-time\":");
        push_i64(&mut out, self.x_cur_time);
        out.append("}");
        out
    }
}

/// Two replays with the same start time and speed that see the real clock
/// advance by the same amounts read the same virtual times, and so cross the
/// same period boundaries, wherever on the real clock each of them began.
pub proof fn lemma_replay_deterministic(
    a: MasterClock,
    b: MasterClock,
    wall_a: Seq<int>,
    wall_b: Seq<int>,
    duration: int,
)
    requires
        a.start() == b.start(),
        a.speed() == b.speed(),
        wall_a.len() == wall_b.len(),
        forall|i: int|
            0 <= i < wall_a.len() ==> #[trigger] wall_a[i] - a.base() == wall_b[i] - b.base(),
    ensures
        forall|i: int|
            0 <= i < wall_a.len() ==> a.reading_at(#[trigger] wall_a[i]) == b.reading_at(
                wall_b[i],
            ),
        forall|i: int|
            0 <= i < wall_a.len() ==> period_of(a.reading_at(#[trigger] wall_a[i]), duration)
                == period_of(b.reading_at(wall_b[i]), duration),
{
    assert forall|i: int| 0 <= i < wall_a.len() implies a.reading_at(#[trigger] wall_a[i])
        == b.reading_at(wall_b[i]) by {
        assert(wall_a[i] - a.base() == wall_b[i] - b.base());
    }
}

} // verus!
