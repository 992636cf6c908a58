//! The recording session state machine: start, pause, resume and stop of a
//! segmented screen recording, with at most one session at a time.
//!
//! The controller decides; the caller performs. Before `start` and `resume` the
//! caller launches the capture process for the path the controller names and
//! hands back whether that worked. After `pause` and `stop` it ends the capture
//! process, and after `stop` it carries out the returned finalisation plan.

use vstd::prelude::*;
use vstd::string::*;
use crate::naming::{segment_path, segment_path_of};
use crate::segments::{plan_finalize, plan_matches, FinalizeError, FinalizePlan, Finalized};
use crate::supervisor::SpawnError;
use crate::text::views;

verus! {

/// `s` has the shape of a hyphenated lower-case UUID: 36 characters, hyphens
/// at positions 8, 13, 18 and 23, hexadecimal digits elsewhere.
pub open spec fn is_session_token(s: Seq<char>) -> bool {
    &&& s.len() == 36
    &&& forall|i: int|
        0 <= i < 36 ==> if i == 8 || i == 13 || i == 18 || i == 23 {
            s[i] == '-'
        } else {
            ('0' <= #[trigger] s[i] <= '9') || ('a' <= s[i] <= 'f')
        }
}

/// Relies on `uuid::Uuid::new_v4` and its `Display`: a fresh random identifier,
/// written in the hyphenated lower-case form.
#[verifier::external_body]
fn new_session_id() -> (r: String)
    ensures
        is_session_token(r@),
{
    uuid::Uuid::new_v4().to_string()
}

/// Where the controller stands.
#[derive(Clone, Copy, Debug, PartialEq, Eq, Structural)]
pub enum SessionState {
    /// No session.
    Idle,
    /// A session whose capture process runs.
    Recording,
    /// A session with no capture process.
    Paused,
}

/// Why a command was refused.
#[derive(Clone, Copy, Debug, PartialEq, Eq, Structural)]
pub enum ControlError {
    /// `start` while a session exists.
    AlreadyRunning,
    /// `pause` with no running capture.
    NotRunning,
    /// `resume` with no paused session.
    NotPaused,
    /// No encoder could be found or fetched.
    EncoderUnavailable,
    /// The capture process could not be created.
    SpawnFailed,
}

pub open spec fn spawn_error(e: SpawnError) -> ControlError {
    match e {
        SpawnError::EncoderUnavailable => ControlError::EncoderUnavailable,
        SpawnError::SpawnFailed => ControlError::SpawnFailed,
    }
}

fn map_spawn_error(e: SpawnError) -> (r: ControlError)
    ensures
        r == spawn_error(e),
{
    match e {
        SpawnError::EncoderUnavailable => ControlError::EncoderUnavailable,
        SpawnError::SpawnFailed => ControlError::SpawnFailed,
    }
}

/// One recording session: its identifier, directory and segments in ordinal order.
pub struct RecordingSession {
    session_id: String,
    base_dir: String,
    segments: Vec<String>,
    paused: bool,
}

/// The abstract content of a session.
pub struct SessionRecord {
    pub session_id: Seq<char>,
    pub base_dir: Seq<char>,
    pub segments: Seq<Seq<char>>,
    pub paused: bool,
}

/// The abstract state of the controller.
pub struct ControllerView {
    pub session: Option<SessionRecord>,
    pub capturing: bool,
}

/// The controller with no session.
pub open spec fn idle_view() -> ControllerView {
    ControllerView { session: None, capturing: false }
}

pub open spec fn state_of(v: ControllerView) -> SessionState {
    if v.session is None {
        SessionState::Idle
    } else if v.capturing {
        SessionState::Recording
    } else {
        SessionState::Paused
    }
}

/// Segment `k` of a session sits at the path of ordinal `k`: ordinals start at
/// zero and leave no gap.
pub open spec fn segments_numbered(r: SessionRecord) -> bool {
    forall|k: int|
        0 <= k < r.segments.len() ==> #[trigger] r.segments[k] == segment_path_of(
            r.base_dir,
            r.session_id,
            k as nat,
        )
}

/// The invariant of the controller: a capture runs only inside a session, a
/// session is paused exactly when no capture runs, it has at least one segment,
/// and its segments are numbered without gaps.
pub open spec fn view_wf(v: ControllerView) -> bool {
    match v.session {
        None => !v.capturing,
        Some(r) => {
            &&& r.segments.len() >= 1
            &&& r.paused == !v.capturing
            &&& segments_numbered(r)
        },
    }
}

/// The state after a `start` of session `id` under `base`, given whether the
/// first capture process was obtained.
pub open spec fn start_view(v: ControllerView, id: Seq<char>, base: Seq<char>, spawned: bool) -> ControllerView {
    if v.session is Some || !spawned {
        v
    } else {
        ControllerView {
            session: Some(
                SessionRecord {
                    session_id: id,
                    base_dir: base,
                    segments: seq![segment_path_of(base, id, 0)],
                    paused: false,
                },
            ),
            capturing: true,
        }
    }
}

pub open spec fn start_result(v: ControllerView, spawn: Result<(), SpawnError>) -> Result<(), ControlError> {
    if v.session is Some {
        Err(ControlError::AlreadyRunning)
    } else {
        match spawn {
            Ok(_) => Ok(()),
            Err(e) => Err(spawn_error(e)),
        }
    }
}

pub open spec fn pause_view(v: ControllerView) -> ControllerView {
    if !v.capturing {
        v
    } else {
        let r = v.session->Some_0;
        ControllerView { session: Some(SessionRecord { paused: true, ..r }), capturing: false }
    }
}

pub open spec fn pause_result(v: ControllerView) -> Result<(), ControlError> {
    if !v.capturing {
        Err(ControlError::NotRunning)
    } else {
        Ok(())
    }
}

/// The path of the segment a `resume` would start.
pub open spec fn next_segment_of(r: SessionRecord) -> Seq<char> {
    segment_path_of(r.base_dir, r.session_id, r.segments.len())
}

pub open spec fn resume_view(v: ControllerView, spawned: bool) -> ControllerView {
    if v.capturing || v.session is None || !spawned {
        v
    } else {
        let r = v.session->Some_0;
        ControllerView {
            session: Some(
                SessionRecord { segments: r.segments.push(next_segment_of(r)), paused: false, ..r },
            ),
            capturing: true,
        }
    }
}

pub open spec fn resume_result(v: ControllerView, spawn: Result<(), SpawnError>) -> Result<(), ControlError> {
    if v.capturing || v.session is None {
        Err(ControlError::NotPaused)
    } else {
        match spawn {
            Ok(_) => Ok(()),
            Err(e) => Err(spawn_error(e)),
        }
    }
}

/// A session about to be started: its fresh identifier, its directory and the
/// path its first segment is to be captured into.
pub struct PendingStart {
    pub session_id: String,
    pub base_dir: String,
    pub first_segment: String,
}

/// What the caller must do after `stop`.
pub enum StopPlan {
    /// There was no session: nothing to stop.
    NothingToStop,
    /// End the capture process if `end_capture`, then carry out `plan`.
    Finalize { end_capture: bool, session_id: String, plan: FinalizePlan },
}

/// The session state machine.
pub struct SessionController {
    session: Option<RecordingSession>,
    capturing: bool,
}

impl View for SessionController {
    type V = ControllerView;

    closed spec fn view(&self) -> ControllerView {
        ControllerView {
            session: match self.session {
                None => None,
                Some(s) => Some(
                    SessionRecord {
                        session_id: s.session_id@,
                        base_dir: s.base_dir@,
                        segments: views(s.segments@),
                        paused: s.paused,
                    },
                ),
            },
            capturing: self.capturing,
        }
    }
}

impl SessionController {
    pub open spec fn wf(&self) -> bool {
        view_wf(self@)
    }

    /// A controller with no session.
    pub fn new() -> (r: SessionController)
        ensures
            r@ == idle_view(),
            r.wf(),
    {
        SessionController { session: None, capturing: false }
    }

    /// The current state.
    pub fn state(&self) -> (r: SessionState)
        ensures
            r == state_of(self@),
    {
        match &self.session {
            None => SessionState::Idle,
            Some(_) => if self.capturing {
                SessionState::Recording
            } else {
                SessionState::Paused
            },
        }
    }

    /// Whether a session exists, recording or paused: the flag the screenshot
    /// sampler polls to know when to end.
    pub fn is_session_active(&self) -> (r: bool)
        ensures
            r == (self@.session is Some),
    {
        self.session.is_some()
    }

    /// Whether a capture process runs.
    pub fn is_capturing(&self) -> (r: bool)
        ensures
            r == self@.capturing,
    {
        self.capturing
    }

    /// Whether the session is paused: the flag the screenshot sampler honours.
    pub fn is_paused(&self) -> (r: bool)
        ensures
            r == (self@.session matches Some(s) && s.paused),
    {
        match &self.session {
            None => false,
            Some(s) => s.paused,
        }
    }

    /// The identifier of the current session.
    pub fn session_id(&self) -> (r: Option<String>)
        ensures
            match self@.session {
                None => r is None,
                Some(s) => r matches Some(id) && id@ == s.session_id,
            },
    {
        match &self.session {
            None => None,
            Some(s) => Some(s.session_id.clone()),
        }
    }

    /// The segments recorded so far, in ordinal order.
    pub fn segments(&self) -> (r: Vec<String>)
        ensures
            match self@.session {
                None => r@.len() == 0,
                Some(s) => views(r@) == s.segments,
            },
    {
        match &self.session {
            None => Vec::new(),
            Some(s) => {
                let c = s.segments.clone();
                proof {
                    assert(views(c@) =~= views(s.segments@));
                }
                c
            },
        }
    }

    /// Checks that a session may start and names it: a fresh identifier and the
    /// path of its first segment under `base_dir`. Changes nothing.
    pub fn prepare_start(&self, base_dir: String) -> (r: Result<PendingStart, ControlError>)
        ensures
            self@.session is Some ==> r == Err::<PendingStart, ControlError>(
                ControlError::AlreadyRunning,
            ),
            self@.session is None ==> (r matches Ok(p) && is_session_token(p.session_id@)
                && p.base_dir@ == base_dir@ && p.first_segment@ == segment_path_of(
                base_dir@,
                p.session_id@,
                0,
            )),
    {
        if self.session.is_some() {
            return Err(ControlError::AlreadyRunning);
        }
        let session_id = new_session_id();
        let first_segment = segment_path(base_dir.as_str(), session_id.as_str(), 0);
        Ok(PendingStart { session_id, base_dir, first_segment })
    }

    /// Starts the session `pending`, given the outcome of launching its first
    /// capture. Refused with `AlreadyRunning` while a session exists; a failed
    /// launch is reported and changes nothing.
    pub fn start(&mut self, pending: PendingStart, spawn: Result<(), SpawnError>) -> (r: Result<
        (),
        ControlError,
    >)
        requires
            old(self).wf(),
        ensures
            final(self).wf(),
            r == start_result(old(self)@, spawn),
            final(self)@ == start_view(
                old(self)@,
                pending.session_id@,
                pending.base_dir@,
                spawn is Ok,
            ),
    {
        if self.session.is_some() {
            return Err(ControlError::AlreadyRunning);
        }
        match spawn {
            Err(e) => Err(map_spawn_error(e)),
            Ok(_) => {
                let first = segment_path(
                    pending.base_dir.as_str(),
                    pending.session_id.as_str(),
                    0,
                );
                let segments = vec![first];
                self.session = Some(
                    RecordingSession {
                        session_id: pending.session_id,
                        base_dir: pending.base_dir,
                        segments,
                        paused: false,
                    },
                );
                self.capturing = true;
                proof {
                    let v = self@;
                    let r = v.session->Some_0;
                    assert(r.segments =~= seq![segment_path_of(r.base_dir, r.session_id, 0)]);
                }
                Ok(())
            },
        }
    }

    /// Pauses a running capture: refused with `NotRunning` when none runs.
    /// The caller then ends the capture process; the segment stays in the list.
    pub fn pause(&mut self) -> (r: Result<(), ControlError>)
        requires
            old(self).wf(),
        ensures
            final(self).wf(),
            r == pause_result(old(self)@),
            final(self)@ == pause_view(old(self)@),
    {
        if !self.capturing {
            return Err(ControlError::NotRunning);
        }
        match &mut self.session {
            None => {
                proof {
                    assert(false);
                }
            },
            Some(s) => {
                s.paused = true;
            },
        }
        self.capturing = false;
        proof {
            let a = self@.session->Some_0;
            let b = pause_view(old(self)@).session->Some_0;
            assert(a.segments =~= b.segments);
        }
        Ok(())
    }

    /// The path a `resume` would capture into, when a session exists.
    pub fn next_segment_path(&self) -> (r: Option<String>)
        requires
            self.wf(),
        ensures
            match self@.session {
                None => r is None,
                Some(s) => r matches Some(p) && p@ == next_segment_of(s),
            },
    {
        match &self.session {
            None => None,
            Some(s) => Some(
                segment_path(s.base_dir.as_str(), s.session_id.as_str(), s.segments.len() as u64),
            ),
        }
    }

    /// Resumes a paused session, given the outcome of launching the capture of
    /// its next segment (at `next_segment_path`). Refused with `NotPaused` while
    /// a capture runs or when there is no session; a failed launch is reported
    /// and leaves the session paused.
    pub fn resume(&mut self, spawn: Result<(), SpawnError>) -> (r: Result<(), ControlError>)
        requires
            old(self).wf(),
        ensures
            final(self).wf(),
            r == resume_result(old(self)@, spawn),
            final(self)@ == resume_view(old(self)@, spawn is Ok),
    {
        if self.capturing || self.session.is_none() {
            return Err(ControlError::NotPaused);
        }
        match spawn {
            Err(e) => Err(map_spawn_error(e)),
            Ok(_) => {
                match &mut self.session {
                    None => {
                        proof {
                            assert(false);
                        }
                    },
                    Some(s) => {
                        let next = segment_path(
                            s.base_dir.as_str(),
                            s.session_id.as_str(),
                            s.segments.len() as u64,
                        );
                        s.segments.push(next);
                        s.paused = false;
                    },
                }
                self.capturing = true;
                proof {
                    let a = self@.session->Some_0;
                    let b = resume_view(old(self)@, true).session->Some_0;
                    assert(a.segments =~= b.segments);
                }
                Ok(())
            },
        }
    }

    /// Stops the session: always returns the controller to `Idle`. With no
    /// session there is nothing to stop; otherwise the plan says whether a
    /// capture process is to be ended and how the segments become the artifact.
    pub fn stop(&mut self) -> (r: StopPlan)
        requires
            old(self).wf(),
        ensures
            final(self)@ == idle_view(),
            final(self).wf(),
            match old(self)@.session {
                None => r is NothingToStop,
                Some(s) => r matches StopPlan::Finalize { end_capture, session_id, plan }
                    && end_capture == old(self)@.capturing && session_id@ == s.session_id
                    && plan_matches(plan, s.base_dir, s.session_id, s.segments),
            },
    {
        let end_capture = self.capturing;
        let taken = self.session.take();
        self.capturing = false;
        match taken {
            None => StopPlan::NothingToStop,
            Some(s) => {
                let plan = plan_finalize(s.base_dir.as_str(), s.session_id.as_str(), &s.segments);
                StopPlan::Finalize { end_capture, session_id: s.session_id, plan }
            },
        }
    }
}

/// What a stop reports once its plan has been carried out. The controller is
/// idle in every case: a failed finalisation is a warning, not an error.
#[derive(Clone, Debug)]
pub enum StopReport {
    /// There was no session.
    NothingToStop,
    /// The session ended; the artifact, if any segment was recorded.
    Finished { artifact: Option<String> },
    /// The session ended but its segments could not be finalised; they stay on
    /// disk.
    FinishedWithWarning { warning: FinalizeError },
}

/// The report of a stop, from the outcome of its finalisation (none when there
/// was nothing to stop).
pub fn stop_report(outcome: Option<Result<Finalized, FinalizeError>>) -> (r: StopReport)
    ensures
        match outcome {
            None => r is NothingToStop,
            Some(Ok(f)) => r == (StopReport::Finished { artifact: f.artifact }),
            Some(Err(e)) => r == (StopReport::FinishedWithWarning { warning: e }),
        },
{
    match outcome {
        None => StopReport::NothingToStop,
        Some(Ok(f)) => StopReport::Finished { artifact: f.artifact },
        Some(Err(e)) => StopReport::FinishedWithWarning { warning: e },
    }
}

/// One command given to the controller, with the outcome of the capture launch
/// where the command makes one.
pub enum SessionCommand {
    Start { session_id: Seq<char>, base_dir: Seq<char>, spawned: bool },
    Pause,
    Resume { spawned: bool },
}

pub open spec fn apply_command(v: ControllerView, c: SessionCommand) -> ControllerView {
    match c {
        SessionCommand::Start { session_id, base_dir, spawned } => start_view(
            v,
            session_id,
            base_dir,
            spawned,
        ),
        SessionCommand::Pause => pause_view(v),
        SessionCommand::Resume { spawned } => resume_view(v, spawned),
    }
}

/// The state after `cmds`, applied in order to `v`.
pub open spec fn run_commands(v: ControllerView, cmds: Seq<SessionCommand>) -> ControllerView
    decreases cmds.len(),
{
    if cmds.len() == 0 {
        v
    } else {
        apply_command(run_commands(v, cmds.drop_last()), cmds.last())
    }
}

/// The segment paths a finalisation plan hands over, in the order it uses them.
pub open spec fn plan_inputs(plan: FinalizePlan) -> Seq<Seq<char>> {
    match plan {
        FinalizePlan::NothingToDo => Seq::empty(),
        FinalizePlan::Rename { from, .. } => seq![from@],
        FinalizePlan::Concatenate { segments, .. } => views(segments@),
    }
}

/// The summed span of the files `paths`, each measured by `span`.
pub open spec fn total_span(paths: Seq<Seq<char>>, span: spec_fn(Seq<char>) -> nat) -> nat
    decreases paths.len(),
{
    if paths.len() == 0 {
        0
    } else {
        total_span(paths.drop_last(), span) + span(paths.last())
    }
}

/// Every command keeps the controller's invariant.
pub proof fn lemma_command_keeps_wf(v: ControllerView, c: SessionCommand)
    requires
        view_wf(v),
    ensures
        view_wf(apply_command(v, c)),
{
    match c {
        SessionCommand::Start { session_id, base_dir, spawned } => {
            let w = start_view(v, session_id, base_dir, spawned);
            if w != v {
                let r = w.session->Some_0;
                assert(segments_numbered(r));
            }
        },
        SessionCommand::Pause => {
            if v.capturing {
                let r = pause_view(v).session->Some_0;
                assert(segments_numbered(r));
            }
        },
        SessionCommand::Resume { spawned } => {
            if !(v.capturing || v.session is None || !spawned) {
                let r0 = v.session->Some_0;
                let r = resume_view(v, spawned).session->Some_0;
                assert forall|k: int| 0 <= k < r.segments.len() implies #[trigger] r.segments[k]
                    == segment_path_of(r.base_dir, r.session_id, k as nat) by {
                    if k < r0.segments.len() {
                        assert(r.segments[k] == r0.segments[k]);
                    }
                }
            }
        },
    }
}

/// Any sequence of commands from the idle controller keeps its invariant.
pub proof fn lemma_commands_keep_wf(cmds: Seq<SessionCommand>)
    ensures
        view_wf(run_commands(idle_view(), cmds)),
    decreases cmds.len(),
{
    if cmds.len() > 0 {
        lemma_commands_keep_wf(cmds.drop_last());
        lemma_command_keeps_wf(run_commands(idle_view(), cmds.drop_last()), cmds.last());
    }
}

/// Whatever starts, pauses and resumes came before, the plan a stop produces
/// hands over every recorded segment exactly once, in ordinal order from zero
/// without gaps; so the span of the joined artifact is the sum of the spans of
/// the segments, for any measure of span.
pub proof fn lemma_artifact_spans_all_segments(
    cmds: Seq<SessionCommand>,
    plan: FinalizePlan,
    span: spec_fn(Seq<char>) -> nat,
)
    requires
        run_commands(idle_view(), cmds).session is Some,
        plan_matches(
            plan,
            run_commands(idle_view(), cmds).session->Some_0.base_dir,
            run_commands(idle_view(), cmds).session->Some_0.session_id,
            run_commands(idle_view(), cmds).session->Some_0.segments,
        ),
    ensures
        ({
            let r = run_commands(idle_view(), cmds).session->Some_0;
            &&& plan_inputs(plan) == r.segments
            &&& forall|k: int|
                0 <= k < plan_inputs(plan).len() ==> #[trigger] plan_inputs(plan)[k]
                    == segment_path_of(r.base_dir, r.session_id, k as nat)
            &&& total_span(plan_inputs(plan), span) == total_span(r.segments, span)
        }),
{
    lemma_commands_keep_wf(cmds);
    let r = run_commands(idle_view(), cmds).session->Some_0;
    if plan is Rename {
        assert(plan_inputs(plan) =~= r.segments);
    }
}

/// A second start with no stop in between is refused with `AlreadyRunning` and
/// leaves the first session exactly as it was.
pub proof fn lemma_second_start_refused(
    v: ControllerView,
    first_id: Seq<char>,
    first_base: Seq<char>,
    second_id: Seq<char>,
    second_base: Seq<char>,
    second_spawn: Result<(), SpawnError>,
)
    requires
        view_wf(v),
        v.session is None,
    ensures
        ({
            let after_first = start_view(v, first_id, first_base, true);
            &&& start_result(after_first, second_spawn) == Err::<(), ControlError>(
                ControlError::AlreadyRunning,
            )
            &&& start_view(after_first, second_id, second_base, second_spawn is Ok) == after_first
        }),
{
}

/// Pausing with no running capture is refused with `NotRunning`; resuming with
/// no paused session is refused with `NotPaused`. Neither changes the state.
pub proof fn lemma_refusals(v: ControllerView, spawn: Result<(), SpawnError>)
    requires
        view_wf(v),
    ensures
        !v.capturing ==> pause_result(v) == Err::<(), ControlError>(ControlError::NotRunning)
            && pause_view(v) == v,
        state_of(v) != SessionState::Paused ==> resume_result(v, spawn) == Err::<(), ControlError>(
            ControlError::NotPaused,
        ) && resume_view(v, spawn is Ok) == v,
{
}

} // verus!
