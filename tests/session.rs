use remote_work::{
    build_manifest, finalize_outcome, plan_finalize, segment_path, stop_report, ControlError,
    FinalizeError, FinalizePlan, SessionController, SessionState, SpawnError, StopPlan, StopReport,
};

fn started(base: &str) -> SessionController {
    let mut c = SessionController::new();
    let pending = c.prepare_start(base.to_string()).unwrap();
    c.start(pending, Ok(())).unwrap();
    c
}

#[test]
fn new_controller_is_idle() {
    let c = SessionController::new();
    assert_eq!(c.state(), SessionState::Idle);
    assert!(!c.is_session_active());
    assert!(!c.is_paused());
    assert!(c.session_id().is_none());
}

#[test]
fn prepare_start_names_first_segment() {
    let c = SessionController::new();
    let p = c.prepare_start("/data/recordings".to_string()).unwrap();
    assert_eq!(p.session_id.len(), 36);
    assert_eq!(p.session_id.chars().filter(|ch| *ch == '-').count(), 4);
    assert_eq!(
        p.first_segment,
        format!("/data/recordings/recording_{}_seg_0.mkv", p.session_id)
    );
}

#[test]
fn session_ids_differ() {
    let c = SessionController::new();
    let a = c.prepare_start("/d".to_string()).unwrap();
    let b = c.prepare_start("/d".to_string()).unwrap();
    assert_ne!(a.session_id, b.session_id);
}

#[test]
fn start_records_first_segment() {
    let c = started("/d");
    assert_eq!(c.state(), SessionState::Recording);
    let id = c.session_id().unwrap();
    assert_eq!(c.segments(), vec![format!("/d/recording_{}_seg_0.mkv", id)]);
}

#[test]
fn second_start_is_already_running_and_keeps_session() {
    let mut c = started("/d");
    let id = c.session_id().unwrap();
    let segs = c.segments();
    assert_eq!(c.prepare_start("/other".to_string()).err(), Some(ControlError::AlreadyRunning));
    let other = SessionController::new().prepare_start("/other".to_string()).unwrap();
    assert_eq!(c.start(other, Ok(())), Err(ControlError::AlreadyRunning));
    assert_eq!(c.session_id().unwrap(), id);
    assert_eq!(c.segments(), segs);
    assert_eq!(c.state(), SessionState::Recording);
}

#[test]
fn failed_first_launch_leaves_idle() {
    let mut c = SessionController::new();
    let p = c.prepare_start("/d".to_string()).unwrap();
    assert_eq!(c.start(p, Err(SpawnError::EncoderUnavailable)), Err(ControlError::EncoderUnavailable));
    assert_eq!(c.state(), SessionState::Idle);
    let p = c.prepare_start("/d".to_string()).unwrap();
    assert_eq!(c.start(p, Err(SpawnError::SpawnFailed)), Err(ControlError::SpawnFailed));
    assert_eq!(c.state(), SessionState::Idle);
}

#[test]
fn pause_without_session_is_not_running() {
    let mut c = SessionController::new();
    assert_eq!(c.pause(), Err(ControlError::NotRunning));
    assert_eq!(c.state(), SessionState::Idle);
}

#[test]
fn resume_without_paused_session_is_not_paused() {
    let mut c = SessionController::new();
    assert_eq!(c.resume(Ok(())), Err(ControlError::NotPaused));
    let mut r = started("/d");
    assert_eq!(r.resume(Ok(())), Err(ControlError::NotPaused));
    assert_eq!(r.segments().len(), 1);
}

#[test]
fn pause_twice_is_not_running() {
    let mut c = started("/d");
    assert_eq!(c.pause(), Ok(()));
    assert_eq!(c.state(), SessionState::Paused);
    assert!(c.is_paused());
    assert!(c.is_session_active());
    assert_eq!(c.pause(), Err(ControlError::NotRunning));
}

#[test]
fn pause_resume_adds_next_ordinal() {
    let mut c = started("/d");
    let id = c.session_id().unwrap();
    c.pause().unwrap();
    let next = c.next_segment_path().unwrap();
    assert_eq!(next, format!("/d/recording_{}_seg_1.mkv", id));
    c.resume(Ok(())).unwrap();
    assert_eq!(c.state(), SessionState::Recording);
    assert!(!c.is_paused());
    c.pause().unwrap();
    c.resume(Ok(())).unwrap();
    assert_eq!(
        c.segments(),
        vec![
            format!("/d/recording_{}_seg_0.mkv", id),
            format!("/d/recording_{}_seg_1.mkv", id),
            format!("/d/recording_{}_seg_2.mkv", id),
        ]
    );
}

#[test]
fn failed_resume_stays_paused() {
    let mut c = started("/d");
    c.pause().unwrap();
    assert_eq!(c.resume(Err(SpawnError::SpawnFailed)), Err(ControlError::SpawnFailed));
    assert_eq!(c.state(), SessionState::Paused);
    assert_eq!(c.segments().len(), 1);
}

#[test]
fn stop_without_session_is_nothing_to_stop() {
    let mut c = SessionController::new();
    assert!(matches!(c.stop(), StopPlan::NothingToStop));
    assert!(matches!(stop_report(None), StopReport::NothingToStop));
}

#[test]
fn stop_single_segment_renames() {
    let mut c = started("/d");
    let id = c.session_id().unwrap();
    match c.stop() {
        StopPlan::Finalize { end_capture, session_id, plan } => {
            assert!(end_capture);
            assert_eq!(session_id, id);
            match plan {
                FinalizePlan::Rename { from, to } => {
                    assert_eq!(from, format!("/d/recording_{}_seg_0.mkv", id));
                    assert_eq!(to, format!("/d/recording_{}.mkv", id));
                }
                _ => panic!("expected a rename"),
            }
        }
        StopPlan::NothingToStop => panic!("expected a plan"),
    }
    assert_eq!(c.state(), SessionState::Idle);
}

#[test]
fn stop_after_resume_concatenates_in_order() {
    let mut c = started("/d");
    let id = c.session_id().unwrap();
    c.pause().unwrap();
    c.resume(Ok(())).unwrap();
    c.pause().unwrap();
    match c.stop() {
        StopPlan::Finalize { end_capture, plan, .. } => {
            assert!(!end_capture);
            match plan {
                FinalizePlan::Concatenate { manifest_path, manifest, output, segments } => {
                    assert_eq!(manifest_path, "/d/temp_concat_list.txt");
                    assert_eq!(output, format!("/d/recording_{}.mkv", id));
                    assert_eq!(segments.len(), 2);
                    assert_eq!(
                        manifest,
                        format!(
                            "file '/d/recording_{0}_seg_0.mkv'\nfile '/d/recording_{0}_seg_1.mkv'\n",
                            id
                        )
                    );
                }
                _ => panic!("expected a concatenation"),
            }
        }
        StopPlan::NothingToStop => panic!("expected a plan"),
    }
    assert_eq!(c.state(), SessionState::Idle);
    assert!(c.session_id().is_none());
}

#[test]
fn restart_after_stop() {
    let mut c = started("/d");
    c.stop();
    let p = c.prepare_start("/d".to_string()).unwrap();
    assert_eq!(c.start(p, Ok(())), Ok(()));
    assert_eq!(c.state(), SessionState::Recording);
}

#[test]
fn finalize_nothing_for_no_segments() {
    assert!(matches!(plan_finalize("/d", "s", &vec![]), FinalizePlan::NothingToDo));
}

#[test]
fn finalize_single_segment_never_concatenates() {
    let segs = vec!["/d/recording_s_seg_0.mkv".to_string()];
    match plan_finalize("/d", "s", &segs) {
        FinalizePlan::Rename { from, to } => {
            assert_eq!(from, "/d/recording_s_seg_0.mkv");
            assert_eq!(to, "/d/recording_s.mkv");
        }
        _ => panic!("one segment must be renamed"),
    }
}

#[test]
fn manifest_follows_list_order_not_names() {
    let segs = vec!["seg_0".to_string(), "seg_2".to_string(), "seg_1".to_string()];
    match plan_finalize("/d", "s", &segs) {
        FinalizePlan::Concatenate { manifest, segments, .. } => {
            assert_eq!(manifest, "file 'seg_0'\nfile 'seg_2'\nfile 'seg_1'\n");
            assert_eq!(segments, segs);
        }
        _ => panic!("several segments are concatenated"),
    }
}

#[test]
fn manifest_escapes_quotes() {
    let segs = vec!["/a/it's.mkv".to_string()];
    assert_eq!(build_manifest(&segs), "file '/a/it'\\''s.mkv'\n");
    assert_eq!(build_manifest(&vec![]), "");
}

#[test]
fn concatenation_failure_keeps_segments() {
    let segs = vec!["a".to_string(), "b".to_string()];
    let plan = plan_finalize("/d", "s", &segs);
    match finalize_outcome(plan, false, "bad input".to_string()) {
        Err(FinalizeError::ConcatenationFailed { stderr }) => assert_eq!(stderr, "bad input"),
        _ => panic!("expected a concatenation failure"),
    }
    let plan = plan_finalize("/d", "s", &segs);
    let done = finalize_outcome(plan, true, String::new()).unwrap();
    assert_eq!(done.artifact, Some("/d/recording_s.mkv".to_string()));
    assert_eq!(done.remove, segs);
}

#[test]
fn rename_outcomes() {
    let segs = vec!["a".to_string()];
    let done = finalize_outcome(plan_finalize("/d", "s", &segs), true, String::new()).unwrap();
    assert_eq!(done.artifact, Some("/d/recording_s.mkv".to_string()));
    assert!(done.remove.is_empty());
    match finalize_outcome(plan_finalize("/d", "s", &segs), false, "denied".to_string()) {
        Err(FinalizeError::RenameFailed { message }) => assert_eq!(message, "denied"),
        _ => panic!("expected a rename failure"),
    }
    let none = finalize_outcome(FinalizePlan::NothingToDo, true, String::new()).unwrap();
    assert!(none.artifact.is_none());
}

#[test]
fn stop_report_turns_failure_into_warning() {
    let r = stop_report(Some(Err(FinalizeError::ConcatenationFailed { stderr: "x".to_string() })));
    assert!(matches!(r, StopReport::FinishedWithWarning { .. }));
    let segs = vec!["a".to_string()];
    let done = finalize_outcome(plan_finalize("/d", "s", &segs), true, String::new());
    match stop_report(Some(done)) {
        StopReport::Finished { artifact } => assert_eq!(artifact, Some("/d/recording_s.mkv".to_string())),
        _ => panic!("expected a finished report"),
    }
}

#[test]
fn segment_paths_embed_session_and_ordinal() {
    assert_eq!(segment_path("/base", "abc", 12), "/base/recording_abc_seg_12.mkv");
}
