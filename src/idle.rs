//! Idle/active classification of the user and the write policy for activity
//! samples.

use vstd::prelude::*;
use vstd::string::*;
use crate::text::{decimal, push_decimal};

verus! {

/// Below this many seconds since the last input the user counts as active.
pub const IDLE_AFTER_SECS: u64 = 30;

/// From this many seconds since the last input the user is deeply idle.
pub const DEEP_IDLE_AFTER_SECS: u64 = 300;

/// While deeply idle, a long-idle record is written at most this often.
pub const LONG_IDLE_RECORD_EVERY_SECS: u64 = 1800;

/// How often the monitor polls.
pub const POLL_EVERY_SECS: u64 = 5;

/// Presence of the user.
#[derive(Clone, Copy, Debug, PartialEq, Eq, Structural)]
pub enum ActivityState {
    Active,
    Idle,
}

/// Presence of the user, with idle split by depth.
#[derive(Clone, Copy, Debug, PartialEq, Eq, Structural)]
pub enum IdleLevel {
    /// Less than 30 seconds since the last input.
    Active,
    /// From 30 seconds on.
    Idle,
    /// From 300 seconds on.
    DeepIdle,
}

pub open spec fn level_of(elapsed_secs: u64) -> IdleLevel {
    if elapsed_secs >= DEEP_IDLE_AFTER_SECS {
        IdleLevel::DeepIdle
    } else if elapsed_secs >= IDLE_AFTER_SECS {
        IdleLevel::Idle
    } else {
        IdleLevel::Active
    }
}

pub open spec fn state_of_level(level: IdleLevel) -> ActivityState {
    match level {
        IdleLevel::Active => ActivityState::Active,
        _ => ActivityState::Idle,
    }
}

/// Classifies the time since the last input.
pub fn classify_idle(elapsed_secs: u64) -> (r: IdleLevel)
    ensures
        r == level_of(elapsed_secs),
{
    if elapsed_secs >= DEEP_IDLE_AFTER_SECS {
        IdleLevel::DeepIdle
    } else if elapsed_secs >= IDLE_AFTER_SECS {
        IdleLevel::Idle
    } else {
        IdleLevel::Active
    }
}

/// Active or idle, without the depth.
pub fn activity_state(level: IdleLevel) -> (r: ActivityState)
    ensures
        r == state_of_level(level),
{
    match level {
        IdleLevel::Active => ActivityState::Active,
        _ => ActivityState::Idle,
    }
}

/// Seconds from `last_ms` to `now_ms` (milliseconds on one clock), or none when
/// the clock reads earlier than the last activity.
pub fn elapsed_secs(now_ms: u64, last_ms: u64) -> (r: Option<u64>)
    ensures
        now_ms < last_ms ==> r is None,
        now_ms >= last_ms ==> r == Some(((now_ms - last_ms) / 1000) as u64),
{
    if now_ms < last_ms {
        None
    } else {
        Some((now_ms - last_ms) / 1000)
    }
}

/// Milliseconds between two readings of a 32-bit tick counter that wraps
/// around, the later reading being `current`.
pub open spec fn ticks_between(current: u32, last: u32) -> nat {
    if current >= last {
        (current - last) as nat
    } else {
        (current + 0x1_0000_0000 - last) as nat
    }
}

/// Whole seconds of system idle time from the current tick count and the tick
/// of the last input, across a wrap of the counter.
pub fn system_idle_secs(current_tick: u32, last_input_tick: u32) -> (r: u32)
    ensures
        r as nat == ticks_between(current_tick, last_input_tick) / 1000,
{
    let ms: u32 = if current_tick >= last_input_tick {
        current_tick - last_input_tick
    } else {
        (0xffff_ffffu32 - last_input_tick) + current_tick + 1
    };
    ms / 1000
}

/// Which figure a status report names.
#[derive(Clone, Copy, Debug, PartialEq, Eq, Structural)]
pub enum IdleSource {
    /// Time since the last activity seen by the application.
    Application,
    /// Time since the last input seen by the operating system.
    System,
}

pub open spec fn status_word(level: IdleLevel) -> Seq<char> {
    match level {
        IdleLevel::Active => "active"@,
        _ => "idle"@,
    }
}

pub open spec fn source_key(source: IdleSource) -> Seq<char> {
    match source {
        IdleSource::Application => "lastActivitySeconds"@,
        IdleSource::System => "idleTimeSeconds"@,
    }
}

/// `{"status": "<active|idle>", "<key>": <seconds>}`
pub open spec fn status_json(source: IdleSource, seconds: u64) -> Seq<char> {
    "{\"status\": \""@ + status_word(level_of(seconds)) + "\", \""@ + source_key(source) + "\": "@
        + decimal(seconds as nat) + "}"@
}

/// The status report for `seconds` of inactivity.
pub fn idle_status_json(source: IdleSource, seconds: u64) -> (r: String)
    ensures
        r@ == status_json(source, seconds),
{
    let mut s = String::from_str("{\"status\": \"");
    match classify_idle(seconds) {
        IdleLevel::Active => s.append("active"),
        _ => s.append("idle"),
    }
    s.append("\", \"");
    match source {
        IdleSource::Application => s.append("lastActivitySeconds"),
        IdleSource::System => s.append("idleTimeSeconds"),
    }
    s.append("\": ");
    push_decimal(&mut s, seconds);
    s.append("}");
    s
}

/// The kind of an activity record, as stored.
#[derive(Clone, Copy, Debug, PartialEq, Eq, Structural)]
pub enum ActivityKind {
    /// Monitoring began.
    IdleStart,
    /// Monitoring ended.
    IdleStop,
    /// A poll found the user idle.
    Idle,
    /// The periodic record of a long idle stretch.
    IdleLong,
    /// A poll found the user active.
    Active,
}

/// One activity sample to persist: its kind and the seconds it reports.
#[derive(Clone, Copy, Debug, PartialEq, Eq, Structural)]
pub struct ActivityRecord {
    pub kind: ActivityKind,
    pub duration_secs: u64,
}

/// What the user is told after a poll.
#[derive(Clone, Copy, Debug, PartialEq, Eq, Structural)]
pub enum IdleNotice {
    /// Idle for this many whole minutes (deep idle).
    IdleMinutes(u64),
    /// Idle for this many seconds.
    IdleSeconds(u64),
    /// Active; the last activity was this many seconds ago.
    Active(u64),
}

/// The outcome of one poll.
#[derive(Clone, Debug)]
pub struct PollReport {
    pub level: IdleLevel,
    pub notice: IdleNotice,
    pub records: Vec<ActivityRecord>,
}

/// The idle monitor's own state: when (in seconds on a monotonic clock) the
/// last long-idle record was written, or monitoring began.
#[derive(Clone, Copy, Debug, PartialEq, Eq, Structural)]
pub struct IdleMonitor {
    pub last_long_record_secs: u64,
}

pub open spec fn long_record_due(m: IdleMonitor, now_secs: u64) -> bool {
    now_secs >= m.last_long_record_secs && now_secs - m.last_long_record_secs
        >= LONG_IDLE_RECORD_EVERY_SECS
}

/// The records a poll writes: a long-idle record when deeply idle and one is
/// due, then always the plain idle or active sample.
pub open spec fn poll_records(m: IdleMonitor, now_secs: u64, elapsed_secs: u64) -> Seq<ActivityRecord> {
    let sample = ActivityRecord {
        kind: if level_of(elapsed_secs) == IdleLevel::Active {
            ActivityKind::Active
        } else {
            ActivityKind::Idle
        },
        duration_secs: elapsed_secs,
    };
    if level_of(elapsed_secs) == IdleLevel::DeepIdle && long_record_due(m, now_secs) {
        seq![ActivityRecord { kind: ActivityKind::IdleLong, duration_secs: elapsed_secs }, sample]
    } else {
        seq![sample]
    }
}

pub open spec fn notice_of(elapsed_secs: u64) -> IdleNotice {
    match level_of(elapsed_secs) {
        IdleLevel::DeepIdle => IdleNotice::IdleMinutes(elapsed_secs / 60),
        IdleLevel::Idle => IdleNotice::IdleSeconds(elapsed_secs),
        IdleLevel::Active => IdleNotice::Active(elapsed_secs),
    }
}

impl IdleMonitor {
    /// Starts monitoring at `now_secs`; returns the monitor and the record that
    /// marks the start.
    pub fn start(now_secs: u64) -> (r: (IdleMonitor, ActivityRecord))
        ensures
            r.0.last_long_record_secs == now_secs,
            r.1 == (ActivityRecord { kind: ActivityKind::IdleStart, duration_secs: 0 }),
    {
        (
            IdleMonitor { last_long_record_secs: now_secs },
            ActivityRecord { kind: ActivityKind::IdleStart, duration_secs: 0 },
        )
    }

    /// The record that marks the end of monitoring.
    pub fn stop_record(&self) -> (r: ActivityRecord)
        ensures
            r == (ActivityRecord { kind: ActivityKind::IdleStop, duration_secs: 0 }),
    {
        ActivityRecord { kind: ActivityKind::IdleStop, duration_secs: 0 }
    }

    /// One poll at `now_secs`, `elapsed_secs` after the last activity: the
    /// classification, the notice, and the records to persist. The long-idle
    /// clock restarts when a long-idle record is written.
    pub fn poll(&mut self, now_secs: u64, elapsed_secs: u64) -> (r: PollReport)
        ensures
            r.level == level_of(elapsed_secs),
            r.notice == notice_of(elapsed_secs),
            r.records@ == poll_records(*old(self), now_secs, elapsed_secs),
            final(self).last_long_record_secs == if level_of(elapsed_secs) == IdleLevel::DeepIdle
                && long_record_due(*old(self), now_secs) {
                now_secs
            } else {
                old(self).last_long_record_secs
            },
    {
        let level = classify_idle(elapsed_secs);
        let mut records: Vec<ActivityRecord> = Vec::new();
        let notice = match level {
            IdleLevel::DeepIdle => {
                if now_secs >= self.last_long_record_secs && now_secs - self.last_long_record_secs
                    >= LONG_IDLE_RECORD_EVERY_SECS {
                    records.push(
                        ActivityRecord { kind: ActivityKind::IdleLong, duration_secs: elapsed_secs },
                    );
                    self.last_long_record_secs = now_secs;
                }
                records.push(ActivityRecord { kind: ActivityKind::Idle, duration_secs: elapsed_secs });
                IdleNotice::IdleMinutes(elapsed_secs / 60)
            },
            IdleLevel::Idle => {
                records.push(ActivityRecord { kind: ActivityKind::Idle, duration_secs: elapsed_secs });
                IdleNotice::IdleSeconds(elapsed_secs)
            },
            IdleLevel::Active => {
                records.push(
                    ActivityRecord { kind: ActivityKind::Active, duration_secs: elapsed_secs },
                );
                IdleNotice::Active(elapsed_secs)
            },
        };
        proof {
            assert(records@ =~= poll_records(*old(self), now_secs, elapsed_secs));
        }
        PollReport { level, notice, records }
    }
}

/// Every poll writes exactly one plain sample naming the state it found, so
/// each change between active and idle is recorded; a long-idle record is added
/// only when deeply idle, and then at most once per long-idle period.
pub proof fn lemma_every_poll_records_its_state(m: IdleMonitor, now_secs: u64, elapsed_secs: u64)
    ensures
        ({
            let recs = poll_records(m, now_secs, elapsed_secs);
            &&& recs.last().duration_secs == elapsed_secs
            &&& (recs.last().kind == ActivityKind::Active) == (state_of_level(level_of(elapsed_secs))
                == ActivityState::Active)
            &&& (recs.last().kind == ActivityKind::Idle) == (state_of_level(level_of(elapsed_secs))
                == ActivityState::Idle)
            &&& recs.len() == 2 ==> level_of(elapsed_secs) == IdleLevel::DeepIdle
                && recs[0].kind == ActivityKind::IdleLong && now_secs
                - m.last_long_record_secs >= LONG_IDLE_RECORD_EVERY_SECS
        }),
{
}

/// The thresholds: under 30 seconds is active, from 30 on idle, from 300 on
/// deeply idle.
pub proof fn lemma_thresholds(elapsed_secs: u64)
    ensures
        elapsed_secs < 30 <==> state_of_level(level_of(elapsed_secs)) == ActivityState::Active,
        elapsed_secs >= 300 <==> level_of(elapsed_secs) == IdleLevel::DeepIdle,
{
}

} // verus!
