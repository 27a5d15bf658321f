//! The countdown over one interval, and what holds of it over time.

use crate::clock::Clock;
use crate::duration::micro_seconds_to_seconds;
use crate::duration::truncated_quotient;
use crate::duration::MICROS_PER_SECOND;
use vstd::prelude::*;

verus! {

/// What a countdown is. Points in time are microseconds on one monotonic
/// clock: the countdown's own where it reads the time itself, the caller's
/// where it is told the time.
pub struct TimerView {
    /// Whether time is being counted.
    pub running: bool,
    /// Whether the countdown has reached zero since the last reset.
    pub finished: bool,
    /// When `remaining` was last worked out.
    pub last_updated_at: int,
    /// Microseconds left as of `last_updated_at`.
    pub remaining: int,
    /// Microseconds of the whole interval.
    pub length: int,
}

impl TimerView {
    /// A countdown of `length` microseconds that has not been started.
    pub open spec fn fresh(length: int) -> TimerView {
        TimerView { running: false, finished: false, last_updated_at: 0, remaining: length, length }
    }

    /// The countdown once it is started or resumed at `now`: time counts
    /// from `now` on.
    pub open spec fn started_at(self, now: int) -> TimerView {
        TimerView { running: true, last_updated_at: now, ..self }
    }

    /// The countdown once it is paused.
    pub open spec fn paused(self) -> TimerView {
        TimerView { running: false, ..self }
    }

    /// The countdown once it is reset: fresh, with the same length.
    pub open spec fn reset(self) -> TimerView {
        TimerView::fresh(self.length)
    }

    /// The time that a running countdown has to give up when it is read at
    /// `now`: the time since it was last updated, and none if `now` is not
    /// after that.
    pub open spec fn elapsed_at(self, now: int) -> int {
        if now >= self.last_updated_at {
            now - self.last_updated_at
        } else {
            0
        }
    }

    /// The countdown once it is read at `now`. A paused countdown does not
    /// change. A running one loses the time since it was last updated and is
    /// updated as of `now`; if nothing is left, it stops at zero and is
    /// finished.
    pub open spec fn read_at(self, now: int) -> TimerView {
        if !self.running {
            self
        } else if self.remaining - self.elapsed_at(now) <= 0 {
            TimerView {
                running: false,
                finished: true,
                last_updated_at: now,
                remaining: 0,
                length: self.length,
            }
        } else {
            TimerView {
                last_updated_at: now,
                remaining: self.remaining - self.elapsed_at(now),
                ..self
            }
        }
    }

    /// Whole seconds left.
    pub open spec fn seconds_remaining(self) -> int {
        truncated_quotient(self.remaining, MICROS_PER_SECOND as int)
    }

    /// Whole seconds of the interval.
    pub open spec fn seconds_length(self) -> int {
        truncated_quotient(self.length, MICROS_PER_SECOND as int)
    }

    /// Whole seconds gone: the length less what is left, both in seconds.
    pub open spec fn seconds_elapsed(self) -> int {
        self.seconds_length() - self.seconds_remaining()
    }

    /// What holds of every countdown that was made with a length of zero or
    /// more: what is left lies between zero and the length, and nothing is
    /// left of a finished one.
    pub open spec fn wf(self) -> bool {
        &&& 0 <= self.remaining <= self.length
        &&& self.finished ==> self.remaining == 0
    }
}

/// A countdown over one interval. It keeps what was left when it was last
/// updated and the time of that update; what is left now is worked out when
/// it is asked for, never in the background.
#[derive(Debug)]
pub struct Timer {
    running: bool,
    finished: bool,
    /// The clock that the countdown reads when it is not told the time.
    clock: Clock,
    /// Microseconds on `clock` at the last update.
    last_updated_time: u128,
    /// Microseconds left as of `last_updated_time`.
    last_recorded_time_remaining: i128,
    /// Microseconds of the whole interval.
    timer_length: i128,
}

impl View for Timer {
    type V = TimerView;

    closed spec fn view(&self) -> TimerView {
        TimerView {
            running: self.running,
            finished: self.finished,
            last_updated_at: self.last_updated_time as int,
            remaining: self.last_recorded_time_remaining as int,
            length: self.timer_length as int,
        }
    }
}

impl Timer {
    /// A countdown of `length` microseconds, not yet started, with a clock
    /// that counts from now. With a length of zero or less the countdown is
    /// finished at its first reading while it runs.
    pub fn new(length: i128) -> (timer: Timer)
        ensures
            timer@ == TimerView::fresh(length as int),
    {
        Timer {
            running: false,
            finished: false,
            last_recorded_time_remaining: length,
            timer_length: length,
            clock: Clock::new(),
            last_updated_time: 0,
        }
    }

    /// Puts the countdown back to its full length, stopped and unfinished.
    pub fn reset(&mut self)
        ensures
            final(self)@ == old(self)@.reset(),
    {
        *self = Timer::new(self.timer_length);
    }

    /// The length of the interval in whole seconds.
    pub fn get_length(&self) -> (seconds: i128)
        ensures
            seconds == self@.seconds_length(),
    {
        micro_seconds_to_seconds(self.timer_length)
    }

    /// Starts or resumes counting from now, by the countdown's clock. On a
    /// running countdown this only moves the time from which it counts.
    pub fn start(&mut self)
        ensures
            exists|now: nat| final(self)@ == old(self)@.started_at(now as int),
    {
        let now = self.clock.micros();
        self.start_at(now);
    }

    /// Starts or resumes counting from `now_micros`.
    pub fn start_at(&mut self, now_micros: u128)
        ensures
            final(self)@ == old(self)@.started_at(now_micros as int),
    {
        self.running = true;
        self.last_updated_time = now_micros;
    }

    /// Stops counting. What is left stays as it was last worked out.
    pub fn pause(&mut self)
        ensures
            final(self)@ == old(self)@.paused(),
    {
        self.running = false;
    }

    /// Whether the countdown has reached zero since the last reset.
    pub fn is_finished(&self) -> (finished: bool)
        ensures
            finished == self@.finished,
    {
        self.finished
    }

    /// Whether time is being counted.
    pub fn is_running(&self) -> (running: bool)
        ensures
            running == self@.running,
    {
        self.running
    }

    /// Reads the countdown as of now, by its clock, and returns the whole
    /// seconds left and the whole seconds gone.
    pub fn get_state(&mut self) -> (state: (i128, i128))
        ensures
            exists|now: nat| final(self)@ == old(self)@.read_at(now as int),
            state.0 == final(self)@.seconds_remaining(),
            state.1 == final(self)@.seconds_elapsed(),
    {
        let time_remaining = self.get_time_remaining();
        let time_elapsed = micro_seconds_to_seconds(self.timer_length) - time_remaining;
        (time_remaining, time_elapsed)
    }

    /// Reads the countdown as of `now_micros` and returns the whole seconds
    /// left and the whole seconds gone.
    pub fn get_state_at(&mut self, now_micros: u128) -> (state: (i128, i128))
        ensures
            final(self)@ == old(self)@.read_at(now_micros as int),
            state.0 == final(self)@.seconds_remaining(),
            state.1 == final(self)@.seconds_elapsed(),
    {
        let time_remaining = self.get_time_remaining_at(now_micros);
        let time_elapsed = micro_seconds_to_seconds(self.timer_length) - time_remaining;
        (time_remaining, time_elapsed)
    }

    /// Reads the countdown as of now, by its clock, and returns the whole
    /// seconds left.
    pub fn get_time_remaining(&mut self) -> (seconds: i128)
        ensures
            exists|now: nat| final(self)@ == old(self)@.read_at(now as int),
            seconds == final(self)@.seconds_remaining(),
    {
        let now = self.clock.micros();
        let seconds = self.get_time_remaining_at(now);
        seconds
    }

    /// Reads the countdown as of `now_micros` and returns the whole seconds
    /// left. A running countdown loses the time since its last update and
    /// takes `now_micros` as the time of this one, so that no time is
    /// counted twice; when nothing is left it stops at zero and is finished.
    /// A paused countdown is left as it is.
    pub fn get_time_remaining_at(&mut self, now_micros: u128) -> (seconds: i128)
        ensures
            final(self)@ == old(self)@.read_at(now_micros as int),
            seconds == final(self)@.seconds_remaining(),
    {
        if self.running {
            let elapsed_since_last_updated = if now_micros >= self.last_updated_time {
                now_micros - self.last_updated_time
            } else {
                0
            };
            self.last_updated_time = now_micros;

            // The comparison comes before the subtraction, so that a time far
            // beyond the end of the interval cannot overflow.
            if self.last_recorded_time_remaining <= 0 || elapsed_since_last_updated
                >= self.last_recorded_time_remaining as u128 {
                self.pause();
                self.finished = true;
                self.last_recorded_time_remaining = 0;
            } else {
                self.last_recorded_time_remaining = self.last_recorded_time_remaining
                    - elapsed_since_last_updated as i128;
            }
        }
        micro_seconds_to_seconds(self.last_recorded_time_remaining)
    }
}

/// A countdown made with a length of zero or more is well formed, and every
/// operation keeps it so, at whatever times it is started and read.
pub proof fn lemma_operations_keep_wf(timer: TimerView, length: int, now: int)
    requires
        timer.wf(),
        0 <= length,
    ensures
        TimerView::fresh(length).wf(),
        timer.started_at(now).wf(),
        timer.paused().wf(),
        timer.reset().wf(),
        timer.read_at(now).wf(),
{
}

/// A countdown that was only just made, with any length, reads as its whole
/// length with nothing gone, and is neither running nor finished, whenever
/// it is read.
pub proof fn lemma_fresh_reads_full(length: int, now: int)
    ensures
        TimerView::fresh(length).read_at(now) == TimerView::fresh(length),
        TimerView::fresh(length).remaining == length,
        TimerView::fresh(length).seconds_remaining() == TimerView::fresh(length).seconds_length(),
        TimerView::fresh(length).seconds_elapsed() == 0,
        !TimerView::fresh(length).finished,
        !TimerView::fresh(length).running,
{
}

/// A running countdown that is read before its time is up has lost exactly
/// the time since its last update: what is left is smaller by it, what is
/// gone is larger by it, and the countdown runs on unfinished, updated as of
/// the reading.
pub proof fn lemma_running_loses_elapsed(timer: TimerView, elapsed: int)
    requires
        timer.wf(),
        timer.running,
        0 <= elapsed < timer.remaining,
    ensures
        timer.read_at(timer.last_updated_at + elapsed).remaining == timer.remaining - elapsed,
        timer.read_at(timer.last_updated_at + elapsed).length - timer.read_at(
            timer.last_updated_at + elapsed,
        ).remaining == (timer.length - timer.remaining) + elapsed,
        timer.read_at(timer.last_updated_at + elapsed).last_updated_at == timer.last_updated_at
            + elapsed,
        timer.read_at(timer.last_updated_at + elapsed).running,
        !timer.read_at(timer.last_updated_at + elapsed).finished,
{
}

/// A countdown of length `length` that is started at `start` and read
/// `elapsed` microseconds later, before its time is up, has `length -
/// elapsed` left and `elapsed` gone, and is not finished.
pub proof fn lemma_started_counts_down(length: int, start: int, elapsed: int)
    requires
        0 <= elapsed < length,
    ensures
        TimerView::fresh(length).started_at(start).read_at(start + elapsed).remaining == length
            - elapsed,
        TimerView::fresh(length).started_at(start).read_at(start + elapsed).length
            - TimerView::fresh(length).started_at(start).read_at(start + elapsed).remaining
            == elapsed,
        !TimerView::fresh(length).started_at(start).read_at(start + elapsed).finished,
        TimerView::fresh(length).started_at(start).read_at(start + elapsed).running,
{
}

/// In whole seconds: a countdown of `length_seconds` seconds that is started
/// and read `elapsed_seconds` seconds later, before its time is up, shows
/// `length_seconds - elapsed_seconds` left and `elapsed_seconds` gone.
pub proof fn lemma_started_counts_down_in_seconds(
    length_seconds: int,
    start: int,
    elapsed_seconds: int,
)
    requires
        0 <= elapsed_seconds < length_seconds,
    ensures
        TimerView::fresh(MICROS_PER_SECOND * length_seconds).started_at(start).read_at(
            start + MICROS_PER_SECOND * elapsed_seconds,
        ).seconds_remaining() == length_seconds - elapsed_seconds,
        TimerView::fresh(MICROS_PER_SECOND * length_seconds).started_at(start).read_at(
            start + MICROS_PER_SECOND * elapsed_seconds,
        ).seconds_elapsed() == elapsed_seconds,
{
}

/// A running countdown that is read when its time is up, or later, has
/// nothing left, is finished and no longer runs.
pub proof fn lemma_running_finishes(timer: TimerView, elapsed: int)
    requires
        timer.running,
        0 <= elapsed,
        elapsed >= timer.remaining,
    ensures
        timer.read_at(timer.last_updated_at + elapsed).remaining == 0,
        timer.read_at(timer.last_updated_at + elapsed).seconds_remaining() == 0,
        timer.read_at(timer.last_updated_at + elapsed).finished,
        !timer.read_at(timer.last_updated_at + elapsed).running,
{
}

/// Once nothing is left, nothing is left at any later reading, whether the
/// countdown is paused or started again in between: only a reset brings the
/// time back. A finished countdown stays finished likewise.
pub proof fn lemma_zero_stays_zero(timer: TimerView, start: int, now: int)
    requires
        timer.remaining == 0,
    ensures
        timer.read_at(now).remaining == 0,
        timer.paused().read_at(now).remaining == 0,
        timer.started_at(start).read_at(now).remaining == 0,
        timer.finished ==> timer.read_at(now).finished && timer.paused().read_at(now).finished
            && timer.started_at(start).read_at(now).finished,
{
}

/// A paused countdown reads the same however often and whenever it is read,
/// until it is started again.
pub proof fn lemma_paused_does_not_decay(timer: TimerView, first: int, second: int)
    ensures
        timer.paused().read_at(first) == timer.paused(),
        timer.paused().read_at(first).read_at(second) == timer.paused(),
        timer.paused().read_at(first).remaining == timer.remaining,
{
}

/// The time during which a countdown is paused is not counted: paused,
/// started again at `resumed` and read `elapsed` microseconds after that,
/// before its time is up, it has lost `elapsed` and no more, however long
/// the pause was.
pub proof fn lemma_pause_is_not_counted(timer: TimerView, resumed: int, elapsed: int)
    requires
        0 <= elapsed < timer.remaining,
    ensures
        timer.paused().started_at(resumed).read_at(resumed + elapsed).remaining == timer.remaining
            - elapsed,
{
}

/// No time is counted twice: a reading in between changes nothing about what
/// a later reading finds left, nor about whether the countdown then runs or
/// is finished, and reading twice at the same time is reading once.
pub proof fn lemma_readings_add_up(timer: TimerView, first: int, second: int)
    requires
        timer.last_updated_at <= first <= second,
    ensures
        timer.read_at(first).read_at(second).remaining == timer.read_at(second).remaining,
        timer.read_at(first).read_at(second).running == timer.read_at(second).running,
        timer.read_at(first).read_at(second).finished == timer.read_at(second).finished,
        timer.read_at(first).read_at(first) == timer.read_at(first),
{
}

/// A reset brings back the whole length and clears the finished mark,
/// whatever the countdown was before.
pub proof fn lemma_reset_restores(timer: TimerView)
    ensures
        timer.reset() == TimerView::fresh(timer.length),
        timer.reset().remaining == timer.length,
        !timer.reset().finished,
        !timer.reset().running,
{
}

} // verus!
