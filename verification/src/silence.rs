//! The hysteresis between the pitch estimates and the display.
//!
//! A pause between two plucked notes must not blank the display. So the
//! first estimate that reports no pitch only starts a timer, the display
//! keeps its last reading while the timer runs, and it is cleared by the
//! first such estimate that finds the timer at or beyond the hang duration.
//! Any estimate above zero disarms the timer at once.

use crate::sample::PitchSample;
use vstd::prelude::*;

verus! {

/// Milliseconds per second: timestamps are in milliseconds, the hang
/// duration is configured in seconds.
pub const MILLIS_PER_SECOND: u64 = 1000;

/// The hang duration used when none is configured, in seconds.
pub const DEFAULT_HANG_SECONDS: u64 = 3;

/// What the worker sends to the owner of the display.
#[derive(Debug)]
pub enum AudioAction {
    /// A captured buffer, one bit pattern per frame. It is not displayed.
    RawAudio(Vec<u32>),
    /// A pitch estimate.
    Pitch(PitchSample),
}

/// Where the tracker stands.
#[derive(Clone, Copy, Debug, PartialEq, Eq, Structural)]
pub enum Phase {
    /// The last estimate carried a pitch.
    Signaled,
    /// No pitch since the given time, in milliseconds; the display holds.
    Hanging(u64),
    /// The display was cleared and no pitch has been seen since.
    Silent,
}

/// What the display has to do with an estimate.
#[derive(Clone, Copy, Debug, PartialEq, Eq, Structural)]
pub enum Gate {
    /// Map the estimate to a note and show it.
    Show,
    /// Leave the display as it is.
    Hold,
    /// Replace note, frequency and cents by the placeholder.
    Clear,
}

/// One estimate together with the time at which it was handled, in
/// milliseconds of a clock that does not run backwards.
#[derive(Clone, Copy, Debug, PartialEq, Eq, Structural)]
pub struct Observation {
    /// The estimate.
    pub sample: PitchSample,
    /// When it was handled.
    pub now: u64,
}

/// The silence hysteresis.
#[derive(Clone, Copy, Debug, PartialEq, Eq, Structural)]
pub struct SilenceTracker {
    /// Where the tracker stands.
    pub phase: Phase,
    /// How long the display holds its reading without a pitch, in seconds.
    pub hang_seconds: u64,
}

/// The milliseconds from `since` to `now`; none if `now` is the earlier.
pub open spec fn elapsed(since: u64, now: u64) -> int {
    if now >= since {
        now - since
    } else {
        0
    }
}

/// Whether the time from `since` to `now` reaches the hang duration.
pub open spec fn hang_over(since: u64, now: u64, hang_seconds: u64) -> bool {
    elapsed(since, now) >= hang_seconds * MILLIS_PER_SECOND
}

impl SilenceTracker {
    /// The start of the hang timer, if it is running.
    pub open spec fn hang_start(self) -> Option<u64> {
        match self.phase {
            Phase::Hanging(since) => Some(since),
            _ => None,
        }
    }

    /// The tracker after it handled `sample` at `now`.
    pub open spec fn step(self, sample: PitchSample, now: u64) -> SilenceTracker {
        if !sample.silent() {
            SilenceTracker { phase: Phase::Signaled, ..self }
        } else {
            match self.phase {
                Phase::Hanging(since) => if hang_over(since, now, self.hang_seconds) {
                    SilenceTracker { phase: Phase::Silent, ..self }
                } else {
                    self
                },
                _ => SilenceTracker { phase: Phase::Hanging(now), ..self },
            }
        }
    }

    /// What the display has to do with `sample`, handled at `now`.
    pub open spec fn gate(self, sample: PitchSample, now: u64) -> Gate {
        if !sample.silent() {
            Gate::Show
        } else {
            match self.phase {
                Phase::Hanging(since) => if hang_over(since, now, self.hang_seconds) {
                    Gate::Clear
                } else {
                    Gate::Hold
                },
                _ => Gate::Hold,
            }
        }
    }

    /// The tracker after it handled the first `n` of the observations.
    pub open spec fn run(self, observations: Seq<Observation>, n: nat) -> SilenceTracker
        decreases n,
    {
        if n == 0 {
            self
        } else {
            self.run(observations, (n - 1) as nat).step(
                observations[n - 1].sample,
                observations[n - 1].now,
            )
        }
    }

    /// A tracker for a display that shows the placeholder.
    pub fn new(hang_seconds: u64) -> (tracker: SilenceTracker)
        ensures
            tracker == (SilenceTracker { phase: Phase::Silent, hang_seconds }),
    {
        SilenceTracker { phase: Phase::Silent, hang_seconds }
    }

    /// The start of the hang timer, if it is running.
    pub fn hang_time(&self) -> (start: Option<u64>)
        ensures
            start == self.hang_start(),
    {
        match self.phase {
            Phase::Hanging(since) => Some(since),
            _ => None,
        }
    }

    /// Handles one estimate at the time `now`, in milliseconds.
    ///
    /// An estimate above zero, and one that is not a number, is to be
    /// shown, and the hang timer is disarmed. An estimate of zero or below
    /// starts the timer if it is not running, and holds the display. If the
    /// timer is running, the display is held until the time since its start
    /// reaches the hang duration; the estimate that finds it so clears the
    /// display and disarms the timer.
    pub fn update_frequency(&mut self, frequency: PitchSample, now: u64) -> (gate: Gate)
        ensures
            *final(self) == old(self).step(frequency, now),
            gate == old(self).gate(frequency, now),
            gate == Gate::Show <==> !frequency.silent(),
            gate == Gate::Clear <==> frequency.silent() && old(self).hang_start().is_some()
                && hang_over(old(self).hang_start().unwrap(), now, old(self).hang_seconds),
            !frequency.silent() ==> final(self).hang_start().is_none(),
            gate == Gate::Clear ==> final(self).hang_start().is_none(),
            frequency.silent() && old(self).hang_start().is_none() ==> gate == Gate::Hold && final(self).hang_start() == Some(now),
    {
        if !frequency.is_silent() {
            self.phase = Phase::Signaled;
            return Gate::Show;
        }
        match self.phase {
            Phase::Hanging(since) => {
                if reached(since, now, self.hang_seconds) {
                    self.phase = Phase::Silent;
                    Gate::Clear
                } else {
                    Gate::Hold
                }
            },
            _ => {
                self.phase = Phase::Hanging(now);
                Gate::Hold
            },
        }
    }

    /// Handles one message of the worker. A raw buffer changes nothing and
    /// holds the display; an estimate is handled as by `update_frequency`.
    pub fn process_action(&mut self, action: &AudioAction, now: u64) -> (gate: Gate)
        ensures
            match *action {
                AudioAction::RawAudio(_) => gate == Gate::Hold && *final(self) == *old(self),
                AudioAction::Pitch(frequency) => gate == old(self).gate(frequency, now) && *final(self) == old(self).step(frequency, now),
            },
    {
        match action {
            AudioAction::RawAudio(_) => Gate::Hold,
            AudioAction::Pitch(frequency) => self.update_frequency(*frequency, now),
        }
    }
}

/// Tells whether the time from `since` to `now` reaches the hang duration.
pub fn reached(since: u64, now: u64, hang_seconds: u64) -> (over: bool)
    ensures
        over == hang_over(since, now, hang_seconds),
{
    if now < since {
        hang_seconds == 0
    } else {
        let waited: u64 = now - since;
        let whole: u64 = waited / MILLIS_PER_SECOND;
        assert(waited >= hang_seconds * 1000 <==> whole >= hang_seconds) by (nonlinear_arith)
            requires
                whole == waited / 1000,
        ;
        whole >= hang_seconds
    }
}

/// Whether every observation from index `from` up to, and not including,
/// index `to` reports no pitch.
pub open spec fn all_silent(observations: Seq<Observation>, from: int, to: int) -> bool {
    forall|k: int| from <= k < to ==> (#[trigger] observations[k]).sample.silent()
}

/// While the timer runs, it was started by one of the observations handled
/// so far, and every observation since then reported no pitch.
pub proof fn lemma_timer_origin(start: SilenceTracker, observations: Seq<Observation>, n: nat)
    requires
        start.hang_start().is_none(),
        n <= observations.len(),
    ensures
        start.run(observations, n).hang_seconds == start.hang_seconds,
        start.run(observations, n).hang_start().is_some() ==> exists|j: int|
            0 <= j < n && (#[trigger] observations[j]).now == start.run(
                observations,
                n,
            ).hang_start().unwrap() && all_silent(observations, j, n as int),
    decreases n,
{
    if n > 0 {
        lemma_timer_origin(start, observations, (n - 1) as nat);
        let before = start.run(observations, (n - 1) as nat);
        let after = start.run(observations, n);
        let last = observations[n - 1];
        if after.hang_start().is_some() {
            if before.hang_start().is_some() {
                let j = choose|j: int|
                    0 <= j < n - 1 && (#[trigger] observations[j]).now
                        == before.hang_start().unwrap() && all_silent(observations, j, n - 1);
                assert(last.sample.silent());
                assert(all_silent(observations, j, n as int));
            } else {
                assert(observations[n - 1].now == after.hang_start().unwrap());
                assert(all_silent(observations, n - 1, n as int));
            }
        }
    }
}

/// The display is cleared only after sustained silence.
///
/// If, from a tracker whose timer is not running, the observation at index
/// `i` clears the display, then an earlier observation `j` started the
/// timer, every observation from `j` to `i` reported no pitch, and the time
/// from `j` to `i` reaches the hang duration. A single observation without
/// a pitch therefore never clears the display.
pub proof fn lemma_clear_needs_sustained_silence(
    start: SilenceTracker,
    observations: Seq<Observation>,
    i: int,
)
    requires
        start.hang_start().is_none(),
        0 <= i < observations.len(),
        start.run(observations, i as nat).gate(observations[i].sample, observations[i].now)
            == Gate::Clear,
    ensures
        exists|j: int|
            0 <= j < i && all_silent(observations, j, i + 1) && hang_over(
                (#[trigger] observations[j]).now,
                observations[i].now,
                start.hang_seconds,
            ),
{
    lemma_timer_origin(start, observations, i as nat);
    let before = start.run(observations, i as nat);
    let j = choose|j: int|
        0 <= j < i && (#[trigger] observations[j]).now == before.hang_start().unwrap()
            && all_silent(observations, j, i);
    assert(all_silent(observations, j, i + 1));
}

/// An observation that carries a pitch disarms the timer, whatever came
/// before, so that a following silence has to last the whole hang duration
/// anew: the next observation without a pitch only restarts the timer.
pub proof fn lemma_pitch_resets_timer(
    tracker: SilenceTracker,
    pitch: Observation,
    pause: Observation,
)
    requires
        !pitch.sample.silent(),
        pause.sample.silent(),
    ensures
        tracker.gate(pitch.sample, pitch.now) == Gate::Show,
        tracker.step(pitch.sample, pitch.now).hang_start().is_none(),
        tracker.step(pitch.sample, pitch.now).gate(pause.sample, pause.now) == Gate::Hold,
        tracker.step(pitch.sample, pitch.now).step(pause.sample, pause.now).hang_start() == Some(
            pause.now,
        ),
{
}

} // verus!
