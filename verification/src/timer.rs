//! The state of a timer that measures the time spent between tagged points.
//!
//! A timer is either stopped or running since some instant. Each `tick`
//! starts a stopped timer or stops a running one, adding the elapsed time to
//! the total. The `assert_tick_*` pair supports re-entrant measurement on one
//! thread: a start on a running timer only counts a nesting level, and the
//! matching stop only uncounts it, so that the outermost pair measures.
use vstd::prelude::*;

use crate::time::{elapsed, Duration, Instant, MAX_NANOS};

verus! {

/// What a timer holds: when it started (if it runs), the total measured so
/// far in nanoseconds, and its nesting depth.
pub struct TimerModel {
    pub last_start: Option<nat>,
    pub total: nat,
    pub depth: nat,
}

/// Timer state to measure the duration between tagged points.
pub struct TimerState {
    pub last_start: Option<Instant>,
    pub duration: Duration,
    /// Nesting depth of starts on a running timer (single thread only).
    pub depth: usize,
}

impl View for TimerState {
    type V = TimerModel;

    open spec fn view(&self) -> TimerModel {
        TimerModel {
            last_start: match self.last_start {
                Some(i) => Some(i@),
                None => None,
            },
            total: self.duration@,
            depth: self.depth as nat,
        }
    }
}

/// A tick: stop a running timer and add the elapsed time, or start a
/// stopped one.
pub open spec fn tick_spec(s: TimerModel, now: nat) -> TimerModel {
    match s.last_start {
        Some(start) => TimerModel { last_start: None, total: s.total + elapsed(start, now), depth: s.depth },
        None => TimerModel { last_start: Some(now), total: s.total, depth: s.depth },
    }
}

/// A start that nests: it ticks a stopped timer and deepens a running one.
pub open spec fn start_spec(s: TimerModel, now: nat) -> TimerModel {
    if s.last_start is None {
        tick_spec(s, now)
    } else {
        TimerModel { last_start: s.last_start, total: s.total, depth: s.depth + 1 }
    }
}

/// A stop of a running timer: it leaves one nesting level, or ticks the
/// timer where none is left.
pub open spec fn stop_spec(s: TimerModel, now: nat) -> TimerModel {
    if s.depth > 0 {
        TimerModel { last_start: s.last_start, total: s.total, depth: (s.depth - 1) as nat }
    } else {
        tick_spec(s, now)
    }
}

/// The timer with `d` nanoseconds added to its total.
pub open spec fn add_spec(s: TimerModel, d: nat) -> TimerModel {
    TimerModel { last_start: s.last_start, total: s.total + d, depth: s.depth }
}

/// The total after a tick at `now` stays within the range of a `Duration`.
pub open spec fn tick_fits(s: TimerModel, now: nat) -> bool {
    tick_spec(s, now).total <= MAX_NANOS
}

/// A stopped timer has no nesting level.
pub open spec fn balanced(s: TimerModel) -> bool {
    s.last_start is None ==> s.depth == 0
}

/// Starts at each of `times`, in order.
pub open spec fn start_all(s: TimerModel, times: Seq<nat>) -> TimerModel
    decreases times.len(),
{
    if times.len() == 0 {
        s
    } else {
        start_all(start_spec(s, times[0]), times.drop_first())
    }
}

/// Stops at each of `times`, in order.
pub open spec fn stop_all(s: TimerModel, times: Seq<nat>) -> TimerModel
    decreases times.len(),
{
    if times.len() == 0 {
        s
    } else {
        stop_all(stop_spec(s, times[0]), times.drop_first())
    }
}

impl TimerState {
    /// A timer that is stopped on instantiation, with nothing measured.
    pub fn new() -> (t: TimerState)
        ensures
            t@ == (TimerModel { last_start: None, total: 0, depth: 0 }),
    {
        TimerState { last_start: None, duration: Duration::zero(), depth: 0 }
    }

    /// A stopped timer that has measured `duration` already.
    pub fn from_dur(duration: Duration) -> (t: TimerState)
        ensures
            t@ == (TimerModel { last_start: None, total: duration@, depth: 0 }),
    {
        TimerState { last_start: None, duration, depth: 0 }
    }

    /// Whether the timer runs.
    pub fn is_running(&self) -> (b: bool)
        ensures
            b == (self@.last_start is Some),
    {
        self.last_start.is_some()
    }

    /// Tick: stop the timer if it runs, adding the time elapsed since its
    /// start, or start it if it does not run.
    pub fn tick(&mut self, now: Instant)
        requires
            tick_fits(old(self)@, now@),
        ensures
            final(self)@ == tick_spec(old(self)@, now@),
    {
        match self.last_start.take() {
            Some(start) => {
                let spent = now.duration_since(&start);
                self.duration = self.duration.add(&spent);
            },
            None => {
                self.last_start = Some(now);
            },
        }
    }

    /// Tick that nests: start a stopped timer, or only count one more
    /// nesting level on a running one.
    pub fn assert_tick_start(&mut self, now: Instant)
        requires
            old(self)@.last_start is Some ==> old(self).depth < usize::MAX,
        ensures
            final(self)@ == start_spec(old(self)@, now@),
    {
        proof {
            use_type_invariant(&self.duration);
        }
        if self.last_start.is_none() {
            self.tick(now);
        } else {
            self.depth = self.depth + 1;
        }
    }

    /// Tick that nests, on a running timer: leave one nesting level, or stop
    /// the timer where none is left.
    pub fn assert_tick_stop(&mut self, now: Instant)
        requires
            old(self)@.last_start is Some,
            old(self).depth == 0 ==> tick_fits(old(self)@, now@),
        ensures
            final(self)@ == stop_spec(old(self)@, now@),
    {
        if self.depth > 0 {
            self.depth = self.depth - 1;
        } else {
            self.tick(now);
        }
    }

    /// Add `dur` to the measured total.
    pub fn add(&mut self, dur: &Duration)
        requires
            old(self)@.total + dur@ <= MAX_NANOS,
        ensures
            final(self)@ == add_spec(old(self)@, dur@),
    {
        self.duration = self.duration.add(dur);
    }
}

/// Starting a stopped timer at `t1` and stopping it at `t2` adds the time
/// from `t1` to `t2` to the total and leaves the timer stopped.
pub proof fn law_start_stop_measures_interval(s: TimerModel, t1: nat, t2: nat)
    requires
        s.last_start is None,
        s.depth == 0,
    ensures
        stop_spec(start_spec(s, t1), t2) == (TimerModel {
            last_start: None,
            total: s.total + elapsed(t1, t2),
            depth: 0,
        }),
{
}

/// Two ticks on a stopped timer add the time between them and stop it again.
pub proof fn law_two_ticks_measure_interval(s: TimerModel, t1: nat, t2: nat)
    requires
        s.last_start is None,
    ensures
        tick_spec(tick_spec(s, t1), t2) == (TimerModel {
            last_start: None,
            total: s.total + elapsed(t1, t2),
            depth: s.depth,
        }),
{
}

/// On a running timer a nested start followed by a stop changes nothing.
pub proof fn law_nested_start_stop_is_neutral(s: TimerModel, t1: nat, t2: nat)
    requires
        s.last_start is Some,
    ensures
        stop_spec(start_spec(s, t1), t2) == s,
{
}

/// No operation lowers the measured total.
pub proof fn law_total_never_decreases(s: TimerModel, now: nat, d: nat)
    ensures
        tick_spec(s, now).total >= s.total,
        start_spec(s, now).total >= s.total,
        stop_spec(s, now).total >= s.total,
        add_spec(s, d).total >= s.total,
{
}

/// A stopped timer has no nesting level after any nesting start or stop on
/// a timer that had none, and after `add`.
pub proof fn law_balance_is_kept(s: TimerModel, now: nat, d: nat)
    requires
        balanced(s),
    ensures
        balanced(start_spec(s, now)),
        s.last_start is Some ==> balanced(stop_spec(s, now)),
        balanced(add_spec(s, d)),
{
}

/// Nested starts on a running timer only deepen it, one level each.
pub proof fn law_starts_on_running_deepen(s: TimerModel, times: Seq<nat>)
    requires
        s.last_start is Some,
    ensures
        start_all(s, times) == (TimerModel {
            last_start: s.last_start,
            total: s.total,
            depth: s.depth + times.len(),
        }),
    decreases times.len(),
{
    if times.len() > 0 {
        law_starts_on_running_deepen(start_spec(s, times[0]), times.drop_first());
    }
}

/// Stops on a running timer that is nested at least as deep as their number
/// only undo nesting levels.
pub proof fn law_stops_on_nested_unwind(s: TimerModel, times: Seq<nat>)
    requires
        s.last_start is Some,
        s.depth >= times.len(),
    ensures
        stop_all(s, times) == (TimerModel {
            last_start: s.last_start,
            total: s.total,
            depth: (s.depth - times.len()) as nat,
        }),
    decreases times.len(),
{
    if times.len() > 0 {
        law_stops_on_nested_unwind(stop_spec(s, times[0]), times.drop_first());
    }
}

/// On a stopped timer, `n` nesting starts followed by `n` nesting stops
/// measure the time from the first start to the last stop, and leave the
/// timer stopped with no nesting level.
pub proof fn law_nested_pairs_measure_outer_interval(
    s: TimerModel,
    starts: Seq<nat>,
    stops: Seq<nat>,
)
    requires
        s.last_start is None,
        s.depth == 0,
        starts.len() >= 1,
        stops.len() == starts.len(),
    ensures
        stop_all(start_all(s, starts), stops) == (TimerModel {
            last_start: None,
            total: s.total + elapsed(starts[0], stops.last()),
            depth: 0,
        }),
{
    let first = start_spec(s, starts[0]);
    law_starts_on_running_deepen(first, starts.drop_first());
    let deep = start_all(first, starts.drop_first());
    assert(start_all(s, starts) == deep);
    let k = (stops.len() - 1) as int;
    let unwound = stop_all(deep, stops.take(k));
    law_stops_on_nested_unwind(deep, stops.take(k));
    lemma_stop_all_split(deep, stops, k);
    assert(stops.skip(k) =~= seq![stops.last()]);
    assert(stop_all(unwound, stops.skip(k)) == stop_spec(unwound, stops.last())) by {
        assert(stops.skip(k).drop_first() =~= Seq::<nat>::empty());
        reveal_with_fuel(stop_all, 2);
    }
}

/// Stopping at `times` is stopping at its first `k` entries, then at the rest.
proof fn lemma_stop_all_split(s: TimerModel, times: Seq<nat>, k: int)
    requires
        0 <= k <= times.len(),
    ensures
        stop_all(s, times) == stop_all(stop_all(s, times.take(k)), times.skip(k)),
    decreases k,
{
    if k == 0 {
        assert(times.take(0) =~= Seq::<nat>::empty());
        assert(times.skip(0) =~= times);
    } else {
        lemma_stop_all_split(stop_spec(s, times[0]), times.drop_first(), k - 1);
        assert(times.take(k).drop_first() =~= times.drop_first().take(k - 1));
        assert(times.drop_first().skip(k - 1) =~= times.skip(k));
    }
}

} // verus!
