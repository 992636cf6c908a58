//! Session and capture logic of a workstation monitoring agent: the recording
//! session state machine, segment bookkeeping and concatenation planning,
//! screenshot redaction, idle classification and the screenshot schedule.

pub mod controller;
pub mod exclusions;
pub mod idle;
pub mod naming;
pub mod network;
pub mod redaction;
pub mod sampler;
pub mod segments;
pub mod storage;
pub mod supervisor;
pub mod tasks;
pub mod text;
pub mod user;

pub use text::{contains_seq, decimal, push_decimal, render_decimal, text_contains};
pub use naming::{
    data_directory, data_subdirectory, final_file_name, final_path, manifest_path,
    segment_file_name, segment_path, still_file_name, CaptureKind, DataDirEnv, Platform,
};
pub use supervisor::{
    capture_args, choose_encoder_source, concat_args, find_executable_entry, text_equal,
    CaptureInput, EncoderSource, RetryAction, RetryPolicy, SpawnError,
};
pub use segments::{
    build_manifest, finalize_outcome, plan_finalize, push_escaped, FinalizeError, FinalizePlan,
    Finalized,
};
pub use controller::{
    stop_report, ControlError, PendingStart, SessionController, SessionState, StopPlan, StopReport,
};
pub use redaction::{
    black_out, redact, redaction_region, title_is_excluded, Frame, PixelRegion, Rgba, WindowInfo,
    WindowRect,
};
pub use idle::{
    DEEP_IDLE_AFTER_SECS, IDLE_AFTER_SECS, LONG_IDLE_RECORD_EVERY_SECS, POLL_EVERY_SECS,
    activity_state, classify_idle, elapsed_secs, idle_status_json, system_idle_secs,
    ActivityKind, ActivityRecord, ActivityState, IdleLevel, IdleMonitor, IdleNotice, IdleSource,
    PollReport,
};
pub use sampler::{
    IntervalError, Sampler, SamplerAction, SamplerPhase, ScreenshotIntervals, PAUSE_TICK_MS,
};
pub use exclusions::{ExcludedWindows, KeywordChange};
pub use tasks::{process_status_message, ScreenshotTasks, TaskError, TaskStatus};
pub use storage::{
    activity_kind_name, segment_record, write_outcome, write_step, DatabaseConfig,
    PersistOutcome, SegmentRecord, WriteStep,
};
pub use user::{is_user_id_set_sync, UserError, UserSession};
pub use network::{is_loopback_interface, total_traffic, InterfaceTraffic, NetworkCounters};
