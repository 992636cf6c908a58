//! The screenshot schedule: configurable bounds of the random wait between
//! captures, and the decisions of the sampling loop.

use rand::Rng;
use vstd::prelude::*;
use vstd::string::*;
use crate::text::{decimal, push_decimal};

verus! {

/// Relies on `rand::Rng::gen_range` over an inclusive range with the thread's
/// generator: a value between the two bounds, both included. `low <= high`, as
/// the call panics on an empty range.
#[verifier::external_body]
fn random_between(low: u64, high: u64) -> (r: u64)
    requires
        low <= high,
    ensures
        low <= r <= high,
{
    rand::thread_rng().gen_range(low..=high)
}

/// Why new interval bounds were refused.
#[derive(Clone, Copy, Debug, PartialEq, Eq, Structural)]
pub enum IntervalError {
    /// The minimum is not below the maximum.
    MinNotBelowMax,
    /// A bound lies outside 1 to 120 minutes.
    OutOfRange,
}

/// Bounds, in seconds, of the random wait between two screenshots.
#[derive(Clone, Copy, Debug, PartialEq, Eq, Structural)]
pub struct ScreenshotIntervals {
    pub min_secs: u64,
    pub max_secs: u64,
}

pub open spec fn interval_check(min_minutes: u64, max_minutes: u64) -> Result<(), IntervalError> {
    if min_minutes >= max_minutes {
        Err(IntervalError::MinNotBelowMax)
    } else if min_minutes < 1 || max_minutes > 120 {
        Err(IntervalError::OutOfRange)
    } else {
        Ok(())
    }
}

/// `{"min": <minutes>, "max": <minutes>}`
pub open spec fn intervals_json_of(min_minutes: nat, max_minutes: nat) -> Seq<char> {
    "{\"min\": "@ + decimal(min_minutes) + ", \"max\": "@ + decimal(max_minutes) + "}"@
}

impl ScreenshotIntervals {
    pub open spec fn wf(&self) -> bool {
        self.min_secs <= self.max_secs
    }

    /// Five to thirty minutes.
    pub fn new() -> (r: ScreenshotIntervals)
        ensures
            r.min_secs == 300,
            r.max_secs == 1800,
            r.wf(),
    {
        ScreenshotIntervals { min_secs: 300, max_secs: 1800 }
    }

    /// Sets the bounds from minutes: the minimum must be below the maximum and
    /// both within 1 to 120 minutes; a refusal changes nothing.
    pub fn set_minutes(&mut self, min_minutes: u64, max_minutes: u64) -> (r: Result<(), IntervalError>)
        ensures
            r == interval_check(min_minutes, max_minutes),
            r is Ok ==> final(self).min_secs == min_minutes * 60 && final(self).max_secs
                == max_minutes * 60,
            r is Err ==> *final(self) == *old(self),
            old(self).wf() ==> final(self).wf(),
    {
        if min_minutes >= max_minutes {
            return Err(IntervalError::MinNotBelowMax);
        }
        if min_minutes < 1 || max_minutes > 120 {
            return Err(IntervalError::OutOfRange);
        }
        self.min_secs = min_minutes * 60;
        self.max_secs = max_minutes * 60;
        Ok(())
    }

    /// The bounds in whole minutes, as reported.
    pub fn minutes(&self) -> (r: (u64, u64))
        ensures
            r == (self.min_secs / 60, self.max_secs / 60),
    {
        (self.min_secs / 60, self.max_secs / 60)
    }

    /// The bounds in whole minutes as a JSON object.
    pub fn to_json(&self) -> (r: String)
        ensures
            r@ == intervals_json_of((self.min_secs / 60) as nat, (self.max_secs / 60) as nat),
    {
        let mut s = String::from_str("{\"min\": ");
        push_decimal(&mut s, self.min_secs / 60);
        s.append(", \"max\": ");
        push_decimal(&mut s, self.max_secs / 60);
        s.append("}");
        s
    }

    /// A random wait, in seconds, within the bounds, both included.
    pub fn draw_wait_secs(&self) -> (r: u64)
        requires
            self.wf(),
        ensures
            self.min_secs <= r <= self.max_secs,
    {
        random_between(self.min_secs, self.max_secs)
    }
}

/// Where the sampling loop stands.
#[derive(Clone, Copy, Debug, PartialEq, Eq, Structural)]
pub enum SamplerPhase {
    /// A capture is due.
    CaptureDue,
    /// Waiting; this many one-second ticks remain before the next capture.
    Waiting(u64),
}

/// What the sampling loop does next.
#[derive(Clone, Copy, Debug, PartialEq, Eq, Structural)]
pub enum SamplerAction {
    /// The session is over: leave the loop.
    Finish,
    /// Paused: sleep a short tick (100 ms) and ask again.
    PauseTick,
    /// Capture, redact and store a frame now.
    Capture,
    /// Sleep one second and ask again.
    Tick,
}

/// The length of the tick while paused, in milliseconds.
pub const PAUSE_TICK_MS: u64 = 100;

/// The decision of the sampling loop from its phase and the session's flags,
/// with `drawn` the wait drawn after a capture.
pub open spec fn sampler_next(phase: SamplerPhase, active: bool, paused: bool, drawn: u64) -> (
    SamplerPhase,
    SamplerAction,
) {
    if !active {
        (phase, SamplerAction::Finish)
    } else if paused {
        (phase, SamplerAction::PauseTick)
    } else {
        match phase {
            SamplerPhase::Waiting(n) => if n > 0 {
                (SamplerPhase::Waiting((n - 1) as u64), SamplerAction::Tick)
            } else {
                (SamplerPhase::Waiting(drawn), SamplerAction::Capture)
            },
            SamplerPhase::CaptureDue => (SamplerPhase::Waiting(drawn), SamplerAction::Capture),
        }
    }
}

/// The sampling loop's state: its phase and the wait bounds it draws from.
#[derive(Clone, Copy, Debug, PartialEq, Eq, Structural)]
pub struct Sampler {
    pub phase: SamplerPhase,
    pub intervals: ScreenshotIntervals,
}

impl Sampler {
    /// A sampler that captures first and then waits.
    pub fn new(intervals: ScreenshotIntervals) -> (r: Sampler)
        ensures
            r.phase == SamplerPhase::CaptureDue,
            r.intervals == intervals,
    {
        Sampler { phase: SamplerPhase::CaptureDue, intervals }
    }

    /// One decision. The loop ends as soon as the session is no longer active;
    /// while paused it only ticks briefly and keeps its countdown; otherwise it
    /// counts the wait down a second at a time and captures when it runs out,
    /// then draws a fresh wait within the bounds.
    pub fn step(&mut self, session_active: bool, paused: bool) -> (r: SamplerAction)
        requires
            old(self).intervals.wf(),
        ensures
            final(self).intervals == old(self).intervals,
            exists|drawn: u64|
                old(self).intervals.min_secs <= drawn <= old(self).intervals.max_secs && (
                final(self).phase,
                r,
            ) == sampler_next(old(self).phase, session_active, paused, drawn),
    {
        if !session_active {
            proof {
                let w = self.intervals.min_secs;
                assert(sampler_next(self.phase, session_active, paused, w) == (
                    self.phase,
                    SamplerAction::Finish,
                ));
            }
            return SamplerAction::Finish;
        }
        if paused {
            proof {
                let w = self.intervals.min_secs;
                assert(sampler_next(self.phase, session_active, paused, w) == (
                    self.phase,
                    SamplerAction::PauseTick,
                ));
            }
            return SamplerAction::PauseTick;
        }
        match self.phase {
            SamplerPhase::Waiting(n) => {
                if n > 0 {
                    self.phase = SamplerPhase::Waiting(n - 1);
                    proof {
                        let w = self.intervals.min_secs;
                        assert(sampler_next(old(self).phase, session_active, paused, w) == (
                            self.phase,
                            SamplerAction::Tick,
                        ));
                    }
                    return SamplerAction::Tick;
                }
            },
            SamplerPhase::CaptureDue => {},
        }
        let drawn = self.intervals.draw_wait_secs();
        self.phase = SamplerPhase::Waiting(drawn);
        proof {
            assert(sampler_next(old(self).phase, session_active, paused, drawn) == (
                self.phase,
                SamplerAction::Capture,
            ));
        }
        SamplerAction::Capture
    }
}

/// The sampler leaves its loop whenever the session is inactive, never
/// captures while paused, and every wait it schedules lies within the bounds.
pub proof fn lemma_sampler_respects_flags(
    phase: SamplerPhase,
    active: bool,
    paused: bool,
    drawn: u64,
    intervals: ScreenshotIntervals,
)
    requires
        intervals.min_secs <= drawn <= intervals.max_secs,
    ensures
        !active ==> sampler_next(phase, active, paused, drawn).1 == SamplerAction::Finish,
        paused ==> sampler_next(phase, active, paused, drawn).1 != SamplerAction::Capture,
        paused ==> sampler_next(phase, active, paused, drawn).0 == phase,
        sampler_next(phase, active, paused, drawn).1 == SamplerAction::Capture
            ==> sampler_next(phase, active, paused, drawn).0 == SamplerPhase::Waiting(drawn),
{
}

} // verus!
