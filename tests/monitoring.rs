use remote_work::{
    activity_kind_name, activity_state, classify_idle, elapsed_secs, idle_status_json,
    is_user_id_set_sync, process_status_message, system_idle_secs, write_outcome, write_step,
    ActivityKind, ActivityRecord, ActivityState, ExcludedWindows, IdleLevel, IdleMonitor,
    IdleNotice, IdleSource, IntervalError, KeywordChange, PersistOutcome, Sampler,
    SamplerAction, SamplerPhase, ScreenshotIntervals, ScreenshotTasks, TaskError, UserError,
    UserSession, WriteStep,
};

#[test]
fn idle_thresholds() {
    assert_eq!(classify_idle(29), IdleLevel::Active);
    assert_eq!(classify_idle(30), IdleLevel::Idle);
    assert_eq!(classify_idle(31), IdleLevel::Idle);
    assert_eq!(classify_idle(299), IdleLevel::Idle);
    assert_eq!(classify_idle(300), IdleLevel::DeepIdle);
    assert_eq!(classify_idle(301), IdleLevel::DeepIdle);
    assert_eq!(activity_state(classify_idle(31)), ActivityState::Idle);
    assert_eq!(activity_state(classify_idle(29)), ActivityState::Active);
    assert_eq!(activity_state(classify_idle(301)), ActivityState::Idle);
}

#[test]
fn idle_at_31_seconds_is_idle() {
    let (mut m, start) = IdleMonitor::start(1000);
    assert_eq!(start, ActivityRecord { kind: ActivityKind::IdleStart, duration_secs: 0 });
    let r = m.poll(1031, 31);
    assert_eq!(r.level, IdleLevel::Idle);
    assert_eq!(r.notice, IdleNotice::IdleSeconds(31));
    assert_eq!(r.records, vec![ActivityRecord { kind: ActivityKind::Idle, duration_secs: 31 }]);
}

#[test]
fn active_at_29_seconds() {
    let (mut m, _) = IdleMonitor::start(0);
    let r = m.poll(29, 29);
    assert_eq!(r.level, IdleLevel::Active);
    assert_eq!(r.notice, IdleNotice::Active(29));
    assert_eq!(r.records, vec![ActivityRecord { kind: ActivityKind::Active, duration_secs: 29 }]);
}

#[test]
fn deep_idle_at_301_seconds_writes_long_record_when_due() {
    let (mut m, _) = IdleMonitor::start(0);
    let r = m.poll(1800, 301);
    assert_eq!(r.level, IdleLevel::DeepIdle);
    assert_eq!(r.notice, IdleNotice::IdleMinutes(5));
    assert_eq!(
        r.records,
        vec![
            ActivityRecord { kind: ActivityKind::IdleLong, duration_secs: 301 },
            ActivityRecord { kind: ActivityKind::Idle, duration_secs: 301 },
        ]
    );
    assert_eq!(m.last_long_record_secs, 1800);
    let again = m.poll(1805, 306);
    assert_eq!(again.records, vec![ActivityRecord { kind: ActivityKind::Idle, duration_secs: 306 }]);
    let later = m.poll(3600, 2101);
    assert_eq!(later.records.len(), 2);
    assert_eq!(m.stop_record(), ActivityRecord { kind: ActivityKind::IdleStop, duration_secs: 0 });
}

#[test]
fn deep_idle_before_long_period_writes_plain_sample() {
    let (mut m, _) = IdleMonitor::start(0);
    let r = m.poll(301, 301);
    assert_eq!(r.records, vec![ActivityRecord { kind: ActivityKind::Idle, duration_secs: 301 }]);
    assert_eq!(m.last_long_record_secs, 0);
}

#[test]
fn elapsed_time() {
    assert_eq!(elapsed_secs(10_500, 500), Some(10));
    assert_eq!(elapsed_secs(500, 10_500), None);
    assert_eq!(system_idle_secs(5_000, 1_000), 4);
    assert_eq!(system_idle_secs(1_000, u32::MAX - 1_999), 3);
}

#[test]
fn idle_status_reports() {
    assert_eq!(
        idle_status_json(IdleSource::Application, 45),
        r#"{"status": "idle", "lastActivitySeconds": 45}"#
    );
    assert_eq!(
        idle_status_json(IdleSource::System, 0),
        r#"{"status": "active", "idleTimeSeconds": 0}"#
    );
}

#[test]
fn intervals_default_and_validation() {
    let mut i = ScreenshotIntervals::new();
    assert_eq!((i.min_secs, i.max_secs), (300, 1800));
    assert_eq!(i.minutes(), (5, 30));
    assert_eq!(i.to_json(), r#"{"min": 5, "max": 30}"#);
    assert_eq!(i.set_minutes(10, 10), Err(IntervalError::MinNotBelowMax));
    assert_eq!(i.set_minutes(20, 10), Err(IntervalError::MinNotBelowMax));
    assert_eq!(i.set_minutes(0, 10), Err(IntervalError::OutOfRange));
    assert_eq!(i.set_minutes(1, 121), Err(IntervalError::OutOfRange));
    assert_eq!((i.min_secs, i.max_secs), (300, 1800));
    assert_eq!(i.set_minutes(1, 120), Ok(()));
    assert_eq!((i.min_secs, i.max_secs), (60, 7200));
}

#[test]
fn ten_thousand_draws_stay_within_bounds() {
    let i = ScreenshotIntervals::new();
    for _ in 0..10_000 {
        let w = i.draw_wait_secs();
        assert!((300..=1800).contains(&w));
    }
}

#[test]
fn sampler_captures_then_waits() {
    let mut s = Sampler::new(ScreenshotIntervals { min_secs: 2, max_secs: 2 });
    assert_eq!(s.step(true, false), SamplerAction::Capture);
    assert_eq!(s.phase, SamplerPhase::Waiting(2));
    assert_eq!(s.step(true, true), SamplerAction::PauseTick);
    assert_eq!(s.phase, SamplerPhase::Waiting(2));
    assert_eq!(s.step(true, false), SamplerAction::Tick);
    assert_eq!(s.step(true, false), SamplerAction::Tick);
    assert_eq!(s.step(true, false), SamplerAction::Capture);
    assert_eq!(s.step(false, false), SamplerAction::Finish);
    assert_eq!(s.step(false, true), SamplerAction::Finish);
}

#[test]
fn unavailable_store_skips_without_error() {
    let step = write_step(false);
    assert_eq!(step, WriteStep::Skip);
    assert_eq!(write_outcome(step, false), PersistOutcome::Skipped);
    assert_eq!(write_outcome(step, true), PersistOutcome::Skipped);
    let step = write_step(true);
    assert_eq!(step, WriteStep::AttemptOnce);
    assert_eq!(write_outcome(step, true), PersistOutcome::Saved);
    assert_eq!(write_outcome(step, false), PersistOutcome::Failed);
}

#[test]
fn activity_names() {
    assert_eq!(activity_kind_name(ActivityKind::IdleLong), "idle_30min");
    assert_eq!(activity_kind_name(ActivityKind::IdleStart), "idle_start");
    assert_eq!(activity_kind_name(ActivityKind::Active), "active");
}

#[test]
fn user_identity() {
    let mut u = UserSession::new();
    assert!(!is_user_id_set_sync(&u));
    assert_eq!(u.get_user_id(), Err(UserError::NotSet));
    assert_eq!(u.effective_user_id(), "unknown");
    assert_eq!(u.set_user_id("E42".to_string(), false), Err(UserError::InvalidUserId));
    assert!(!u.is_user_id_set());
    assert_eq!(u.set_user_id("E42".to_string(), true), Ok(()));
    assert!(is_user_id_set_sync(&u));
    assert_eq!(u.get_user_id(), Ok("E42".to_string()));
    assert_eq!(u.effective_user_id(), "E42");
}

#[test]
fn excluded_keywords() {
    let mut e = ExcludedWindows::new();
    assert_eq!(
        e.keywords(),
        vec!["password", "key", "secret", "private", "personal", "settings", "options"]
    );
    assert_eq!(e.add("Banking"), KeywordChange::Changed);
    assert_eq!(e.add("BANKING"), KeywordChange::Unchanged);
    assert_eq!(e.keywords().last().unwrap(), "banking");
    assert_eq!(e.remove("Secret"), KeywordChange::Changed);
    assert_eq!(e.remove("secret"), KeywordChange::Unchanged);
    assert!(!e.keywords().contains(&"secret".to_string()));
    assert_eq!(e.add_admin(), KeywordChange::Changed);
    assert_eq!(e.add_admin(), KeywordChange::Unchanged);
    assert_eq!(e.keywords().len(), 8);
    let empty = ExcludedWindows::empty();
    assert!(empty.keywords().is_empty());
}

#[test]
fn screenshot_only_sessions() {
    let mut t = ScreenshotTasks::new();
    assert!(!t.any_running());
    assert_eq!(t.start("a".to_string()), Ok(()));
    assert!(t.should_continue(&"a".to_string()));
    assert_eq!(t.start("b".to_string()), Err(TaskError::AlreadyRunning));
    t.request_stop_all();
    assert!(!t.should_continue(&"a".to_string()));
    assert!(t.any_running());
    assert_eq!(t.start("b".to_string()), Err(TaskError::AlreadyRunning));
    t.mark_stopped("a".to_string());
    t.prune();
    assert!(!t.any_running());
    assert_eq!(t.start("b".to_string()), Ok(()));
    assert!(t.should_continue(&"b".to_string()));
    assert!(!t.should_continue(&"zzz".to_string()));
}

#[test]
fn status_line() {
    assert_eq!(
        process_status_message(true, false, true),
        "Recording: Active, Screenshotting: Inactive, Idle Detection: Active"
    );
}
