//! Phases, configured durations and the arithmetic on time spans.
use vstd::prelude::*;

verus! {

/// Seconds in one configured time unit (the system-wide scale factor).
pub const TIME_SCALE: u64 = 20;

/// Milliseconds in one second.
pub const MILLIS_PER_SECOND: u64 = 1000;

/// The largest number of time units a configured duration may have.
pub const MAX_UNITS: u64 = 1_000_000_000;

/// Converts configured time units to seconds.
pub fn min2sec(min: u64) -> (r: u64)
    requires
        min <= u64::MAX / TIME_SCALE,
    ensures
        r == min * TIME_SCALE,
{
    min * TIME_SCALE
}

/// Whole seconds in `lhs - rhs`, both in milliseconds, rounded toward zero.
pub open spec fn whole_seconds_between(lhs: int, rhs: int) -> int {
    if lhs >= rhs {
        (lhs - rhs) / (MILLIS_PER_SECOND as int)
    } else {
        -((rhs - lhs) / (MILLIS_PER_SECOND as int))
    }
}

/// The signed difference `lhs - rhs` of two spans given in milliseconds, in
/// whole seconds rounded toward zero.
pub fn dura_sub(lhs: u64, rhs: u64) -> (r: i64)
    ensures
        r == whole_seconds_between(lhs as int, rhs as int),
{
    if lhs >= rhs {
        ((lhs - rhs) / MILLIS_PER_SECOND) as i64
    } else {
        -(((rhs - lhs) / MILLIS_PER_SECOND) as i64)
    }
}

/// What the user is currently meant to be doing.
#[derive(Clone, Copy, Debug, PartialEq, Eq, Structural)]
pub enum Phase {
    Busy,
    ShortBreak,
    LongBreak,
}

/// The break that follows the Busy phase at `position` within a set of four.
pub open spec fn break_after(position: int) -> Phase {
    if position == 3 {
        Phase::LongBreak
    } else {
        Phase::ShortBreak
    }
}

/// Executable form of `break_after`.
pub fn break_after_position(position: u8) -> (r: Phase)
    ensures
        r == break_after(position as int),
{
    if position == 3 {
        Phase::LongBreak
    } else {
        Phase::ShortBreak
    }
}

/// A published snapshot of the scheduler's state.
#[derive(Clone, Copy, Debug, PartialEq, Eq, Structural)]
pub struct CycleInfo {
    pub current_phase: Phase,
    /// The phase that follows once acknowledgment is received.
    pub next_phase: Phase,
    /// True while the scheduler waits for the user to confirm `next_phase`.
    pub needs_acknowledgment: bool,
    /// Milliseconds on the daemon's monotonic clock at which `current_phase` began.
    pub phase_started_at: u64,
}

/// The configured durations, in time units (see `TIME_SCALE`).
#[derive(Clone, Copy, Debug, PartialEq, Eq, Structural)]
pub struct Config {
    pub busy: u64,
    pub short_break: u64,
    pub long_break: u64,
    /// The interval between two announcements of one pending transition.
    pub remind: u64,
}

impl Config {
    /// Every duration is small enough for its milliseconds to fit in a `u64`.
    pub open spec fn wf(&self) -> bool {
        &&& self.busy <= MAX_UNITS
        &&& self.short_break <= MAX_UNITS
        &&& self.long_break <= MAX_UNITS
        &&& self.remind <= MAX_UNITS
    }

    /// Builds a configuration; `None` when a duration exceeds `MAX_UNITS`.
    pub fn new(busy: u64, short_break: u64, long_break: u64, remind: u64) -> (r: Option<Config>)
        ensures
            r is Some <==> (busy <= MAX_UNITS && short_break <= MAX_UNITS && long_break
                <= MAX_UNITS && remind <= MAX_UNITS),
            r matches Some(c) ==> c.wf() && c == (Config { busy, short_break, long_break, remind }),
    {
        if busy <= MAX_UNITS && short_break <= MAX_UNITS && long_break <= MAX_UNITS && remind
            <= MAX_UNITS {
            Some(Config { busy, short_break, long_break, remind })
        } else {
            None
        }
    }

    /// The configured duration of `phase`, in time units.
    pub open spec fn units_of(&self, phase: Phase) -> int {
        match phase {
            Phase::Busy => self.busy as int,
            Phase::ShortBreak => self.short_break as int,
            Phase::LongBreak => self.long_break as int,
        }
    }

    /// The configured duration of `phase`, in milliseconds.
    pub open spec fn spec_phase_millis(&self, phase: Phase) -> int {
        self.units_of(phase) * TIME_SCALE * MILLIS_PER_SECOND
    }

    /// The announcement interval, in milliseconds.
    pub open spec fn spec_remind_millis(&self) -> int {
        self.remind * TIME_SCALE * MILLIS_PER_SECOND
    }

    pub fn phase_millis(&self, phase: Phase) -> (r: u64)
        requires
            self.wf(),
        ensures
            r == self.spec_phase_millis(phase),
    {
        let units = match phase {
            Phase::Busy => self.busy,
            Phase::ShortBreak => self.short_break,
            Phase::LongBreak => self.long_break,
        };
        min2sec(units) * MILLIS_PER_SECOND
    }

    pub fn remind_millis(&self) -> (r: u64)
        requires
            self.wf(),
        ensures
            r == self.spec_remind_millis(),
    {
        min2sec(self.remind) * MILLIS_PER_SECOND
    }
}

impl Default for Config {
    /// One time unit for every duration.
    fn default() -> (r: Config)
        ensures
            r == (Config { busy: 1, short_break: 1, long_break: 1, remind: 1 }),
            r.wf(),
    {
        Config { busy: 1, short_break: 1, long_break: 1, remind: 1 }
    }
}

/// Milliseconds from `start` to `now`; zero when `now` is earlier.
pub open spec fn elapsed_since(start: int, now: int) -> int {
    if now >= start {
        now - start
    } else {
        0
    }
}

/// Seconds left until the current phase's configured duration elapses,
/// negative once it is overdue.
pub open spec fn spec_remaining_seconds(info: CycleInfo, config: Config, now: int) -> int {
    whole_seconds_between(
        config.spec_phase_millis(info.current_phase),
        elapsed_since(info.phase_started_at as int, now),
    )
}

/// Seconds left in the phase that `info` describes, at `now` (milliseconds).
pub fn remaining_seconds(info: &CycleInfo, config: &Config, now: u64) -> (r: i64)
    requires
        config.wf(),
    ensures
        r == spec_remaining_seconds(*info, *config, now as int),
{
    let due = config.phase_millis(info.current_phase);
    let elapsed = if now >= info.phase_started_at {
        now - info.phase_started_at
    } else {
        0
    };
    dura_sub(due, elapsed)
}

/// Right when a phase starts, the seconds left are its configured duration.
pub proof fn lemma_remaining_at_start(info: CycleInfo, config: Config)
    requires
        config.wf(),
    ensures
        spec_remaining_seconds(info, config, info.phase_started_at as int) == config.units_of(
            info.current_phase,
        ) * TIME_SCALE,
{
}

/// As time passes the seconds left never grow; once a whole second past the
/// configured duration they are negative.
pub proof fn lemma_remaining_decreases(info: CycleInfo, config: Config, now1: int, now2: int)
    requires
        config.wf(),
        now1 <= now2,
    ensures
        spec_remaining_seconds(info, config, now2) <= spec_remaining_seconds(info, config, now1),
        elapsed_since(info.phase_started_at as int, now2) >= config.spec_phase_millis(
            info.current_phase,
        ) + MILLIS_PER_SECOND ==> spec_remaining_seconds(info, config, now2) < 0,
{
    let d = config.spec_phase_millis(info.current_phase);
    let e1 = elapsed_since(info.phase_started_at as int, now1);
    let e2 = elapsed_since(info.phase_started_at as int, now2);
    assert(e1 <= e2);
    if e2 <= d {
        vstd::arithmetic::div_mod::lemma_div_is_ordered(d - e2, d - e1, 1000);
    } else if e1 <= d {
        assert((d - e1) / 1000 >= 0) by {
            vstd::arithmetic::div_mod::lemma_div_pos_is_pos(d - e1, 1000);
        }
        assert((e2 - d) / 1000 >= 0) by {
            vstd::arithmetic::div_mod::lemma_div_pos_is_pos(e2 - d, 1000);
        }
    } else {
        vstd::arithmetic::div_mod::lemma_div_is_ordered(e1 - d, e2 - d, 1000);
    }
    if e2 >= d + 1000 {
        vstd::arithmetic::div_mod::lemma_div_is_ordered(1000, e2 - d, 1000);
    }
}

} // verus!
