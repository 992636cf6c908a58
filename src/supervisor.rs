//! Decisions around the external video encoder: where its binary comes from,
//! the arguments it is started with, and how a failed download is retried.

use vstd::prelude::*;
use vstd::string::*;
use crate::text::{lower_of, to_lower, views};

verus! {

/// Why a capture process could not be obtained.
#[derive(Clone, Copy, Debug, PartialEq, Eq, Structural)]
pub enum SpawnError {
    /// No usable encoder binary was found, and fetching one failed.
    EncoderUnavailable,
    /// The encoder binary exists but the process could not be created.
    SpawnFailed,
}

/// Where the encoder binary is taken from.
#[derive(Clone, Copy, Debug, PartialEq, Eq, Structural)]
pub enum EncoderSource {
    /// A binary next to the host executable.
    Bundled,
    /// A binary installed on the system and found on the search path.
    System,
    /// Neither exists: fetch one from the release archive.
    Download,
}

/// The resolution order: bundled first, then the system's, then a download.
pub open spec fn encoder_source_spec(bundled_exists: bool, system_available: bool) -> EncoderSource {
    if bundled_exists {
        EncoderSource::Bundled
    } else if system_available {
        EncoderSource::System
    } else {
        EncoderSource::Download
    }
}

/// Picks where the encoder binary comes from.
pub fn choose_encoder_source(bundled_exists: bool, system_available: bool) -> (r: EncoderSource)
    ensures
        r == encoder_source_spec(bundled_exists, system_available),
{
    if bundled_exists {
        EncoderSource::Bundled
    } else if system_available {
        EncoderSource::System
    } else {
        EncoderSource::Download
    }
}

/// The screen-grabbing input of the encoder, which depends on the platform.
#[derive(Clone, Debug)]
pub enum CaptureInput {
    /// Windows desktop duplication (`gdigrab`, input `desktop`).
    Gdi,
    /// An X11 display such as `:0.0` (`x11grab`).
    X11 { display: String },
    /// macOS screen capture (`avfoundation`, input `default`).
    AvFoundation,
}

pub open spec fn input_format(input: CaptureInput) -> Seq<char> {
    match input {
        CaptureInput::Gdi => "gdigrab"@,
        CaptureInput::X11 { .. } => "x11grab"@,
        CaptureInput::AvFoundation => "avfoundation"@,
    }
}

pub open spec fn input_name(input: CaptureInput) -> Seq<char> {
    match input {
        CaptureInput::Gdi => "desktop"@,
        CaptureInput::X11 { display } => display@,
        CaptureInput::AvFoundation => "default"@,
    }
}

/// The codec parameters every segment is encoded with, so that segments can be
/// joined by stream copy.
pub open spec fn codec_params() -> Seq<Seq<char>> {
    seq![
        "-vcodec"@,
        "libx264"@,
        "-crf"@,
        "28"@,
        "-preset"@,
        "ultrafast"@,
        "-pix_fmt"@,
        "yuv420p"@,
        "-y"@,
    ]
}

/// The full argument list of a capture process writing to `output`.
pub open spec fn capture_args_spec(input: CaptureInput, output: Seq<char>) -> Seq<Seq<char>> {
    seq!["-f"@, input_format(input), "-i"@, input_name(input)] + codec_params() + seq![output]
}

/// The full argument list of a stream-copy concatenation of the segments listed
/// in `manifest` into `output`.
pub open spec fn concat_args_spec(manifest: Seq<char>, output: Seq<char>) -> Seq<Seq<char>> {
    seq!["-f"@, "concat"@, "-safe"@, "0"@, "-i"@, manifest, "-c"@, "copy"@, "-y"@, output]
}

/// Arguments of a capture process writing one segment to `output`.
pub fn capture_args(input: &CaptureInput, output: &str) -> (r: Vec<String>)
    ensures
        views(r@) == capture_args_spec(*input, output@),
{
    let (format, name) = match input {
        CaptureInput::Gdi => (String::from_str("gdigrab"), String::from_str("desktop")),
        CaptureInput::X11 { display } => (String::from_str("x11grab"), display.clone()),
        CaptureInput::AvFoundation => (
            String::from_str("avfoundation"),
            String::from_str("default"),
        ),
    };
    let r = vec![
        String::from_str("-f"),
        format,
        String::from_str("-i"),
        name,
        String::from_str("-vcodec"),
        String::from_str("libx264"),
        String::from_str("-crf"),
        String::from_str("28"),
        String::from_str("-preset"),
        String::from_str("ultrafast"),
        String::from_str("-pix_fmt"),
        String::from_str("yuv420p"),
        String::from_str("-y"),
        String::from_str(output),
    ];
    assert(views(r@) =~= capture_args_spec(*input, output@));
    r
}

/// Arguments of the concatenation run.
pub fn concat_args(manifest: &str, output: &str) -> (r: Vec<String>)
    ensures
        views(r@) == concat_args_spec(manifest@, output@),
{
    let r = vec![
        String::from_str("-f"),
        String::from_str("concat"),
        String::from_str("-safe"),
        String::from_str("0"),
        String::from_str("-i"),
        String::from_str(manifest),
        String::from_str("-c"),
        String::from_str("copy"),
        String::from_str("-y"),
        String::from_str(output),
    ];
    assert(views(r@) =~= concat_args_spec(manifest@, output@));
    r
}

/// Every segment is encoded with the same codec parameters, whatever its output
/// path, so consecutive segments can be joined without re-encoding.
pub proof fn lemma_segments_share_codec(input: CaptureInput, a: Seq<char>, b: Seq<char>)
    ensures
        capture_args_spec(input, a).subrange(4, 13) == codec_params(),
        capture_args_spec(input, a).subrange(0, 13) == capture_args_spec(input, b).subrange(0, 13),
{
    assert(capture_args_spec(input, a).subrange(4, 13) =~= codec_params());
    assert(capture_args_spec(input, a).subrange(0, 13) =~= capture_args_spec(input, b).subrange(
        0,
        13,
    ));
}

/// A fixed-delay retry policy for a fallible operation.
#[derive(Clone, Copy, Debug, PartialEq, Eq, Structural)]
pub struct RetryPolicy {
    pub max_attempts: u32,
    pub delay_secs: u64,
}

/// What to do after an attempt.
#[derive(Clone, Copy, Debug, PartialEq, Eq, Structural)]
pub enum RetryAction {
    /// The attempt succeeded.
    Done,
    /// Wait this many seconds, then make the next attempt.
    RetryAfter(u64),
    /// The attempts are used up: report the last error.
    GiveUp,
}

pub open spec fn retry_spec(policy: RetryPolicy, attempt: u32, succeeded: bool) -> RetryAction {
    if succeeded {
        RetryAction::Done
    } else if attempt < policy.max_attempts {
        RetryAction::RetryAfter(policy.delay_secs)
    } else {
        RetryAction::GiveUp
    }
}

impl RetryPolicy {
    /// The policy for fetching the encoder: three attempts, two seconds apart.
    pub fn encoder_download() -> (r: RetryPolicy)
        ensures
            r.max_attempts == 3,
            r.delay_secs == 2,
    {
        RetryPolicy { max_attempts: 3, delay_secs: 2 }
    }

    /// Decides what follows attempt number `attempt` (counted from 1).
    pub fn after_attempt(&self, attempt: u32, succeeded: bool) -> (r: RetryAction)
        ensures
            r == retry_spec(*self, attempt, succeeded),
    {
        if succeeded {
            RetryAction::Done
        } else if attempt < self.max_attempts {
            RetryAction::RetryAfter(self.delay_secs)
        } else {
            RetryAction::GiveUp
        }
    }
}

/// Attempts from 1 up to `policy.max_attempts` are made, and no more: an attempt
/// before the last is followed by a retry when it fails, the last by giving up.
pub proof fn lemma_retry_bounded(policy: RetryPolicy, attempt: u32)
    requires
        1 <= attempt <= policy.max_attempts,
    ensures
        attempt < policy.max_attempts ==> retry_spec(policy, attempt, false)
            == RetryAction::RetryAfter(policy.delay_secs),
        attempt == policy.max_attempts ==> retry_spec(policy, attempt, false)
            == RetryAction::GiveUp,
        retry_spec(policy, attempt, true) == RetryAction::Done,
{
}

/// `s` ends with `suffix`.
pub open spec fn ends_with(s: Seq<char>, suffix: Seq<char>) -> bool {
    suffix.len() <= s.len() && s.subrange(s.len() - suffix.len(), s.len() as int) == suffix
}

/// Index of the first archive entry that holds the encoder executable: the first
/// whose lower-cased name ends with `exe_name`.
pub fn find_executable_entry(names: &Vec<String>, exe_name: &str) -> (r: Option<usize>)
    ensures
        r matches Some(i) ==> i < names@.len() && ends_with(lower_of(names@[i as int]@), exe_name@)
            && forall|j: int| 0 <= j < i ==> !ends_with(lower_of(#[trigger] names@[j]@), exe_name@),
        r is None ==> forall|j: int|
            0 <= j < names@.len() ==> !ends_with(lower_of(#[trigger] names@[j]@), exe_name@),
{
    let n = exe_name.unicode_len();
    let mut i: usize = 0;
    while i < names.len()
        invariant
            i <= names@.len(),
            n == exe_name@.len(),
            forall|j: int| 0 <= j < i ==> !ends_with(lower_of(#[trigger] names@[j]@), exe_name@),
        decreases names@.len() - i,
    {
        let lowered = to_lower(names[i].as_str());
        let len = lowered.as_str().unicode_len();
        if n <= len {
            let tail = lowered.as_str().substring_char(len - n, len);
            let same = text_equal(tail, exe_name);
            if same {
                return Some(i);
            }
        }
        i = i + 1;
    }
    None
}

/// Character-wise equality of two strings.
pub fn text_equal(a: &str, b: &str) -> (r: bool)
    ensures
        r == (a@ == b@),
{
    let n = a.unicode_len();
    if n != b.unicode_len() {
        return false;
    }
    let mut j: usize = 0;
    while j < n
        invariant
            n == a@.len(),
            n == b@.len(),
            j <= n,
            forall|k: int| 0 <= k < j ==> a@[k] == b@[k],
        decreases n - j,
    {
        if a.get_char(j) != b.get_char(j) {
            return false;
        }
        j = j + 1;
    }
    assert(a@ =~= b@);
    true
}

} // verus!
