//! Names and paths of the files that a recording session produces.

use vstd::prelude::*;
use vstd::string::*;
use crate::text::{decimal, push_decimal};

verus! {

/// The path that `std::path::Path::join` forms from a directory and a file name.
pub uninterp spec fn joined_path(dir: Seq<char>, name: Seq<char>) -> Seq<char>;

/// Relies on `Path::join` (and a lossless conversion back to a string): the result
/// depends on the two arguments alone.
#[verifier::external_body]
pub(crate) fn join_path(dir: &str, name: &str) -> (r: String)
    ensures
        r@ == joined_path(dir@, name@),
{
    std::path::Path::new(dir).join(name).to_string_lossy().to_string()
}

/// `recording_{session}_seg_{ordinal}.mkv`
pub open spec fn segment_name(session_id: Seq<char>, ordinal: nat) -> Seq<char> {
    "recording_"@ + session_id + "_seg_"@ + decimal(ordinal) + ".mkv"@
}

/// `recording_{session}.mkv`
pub open spec fn final_name(session_id: Seq<char>) -> Seq<char> {
    "recording_"@ + session_id + ".mkv"@
}

/// Where segment `ordinal` of a session is written.
pub open spec fn segment_path_of(base_dir: Seq<char>, session_id: Seq<char>, ordinal: nat) -> Seq<
    char,
> {
    joined_path(base_dir, segment_name(session_id, ordinal))
}

/// Where the final artifact of a session is written.
pub open spec fn final_path_of(base_dir: Seq<char>, session_id: Seq<char>) -> Seq<char> {
    joined_path(base_dir, final_name(session_id))
}

/// The name of the list file handed to the encoder's concatenation mode.
pub open spec fn manifest_name() -> Seq<char> {
    "temp_concat_list.txt"@
}

/// File name of segment `ordinal` of a session.
pub fn segment_file_name(session_id: &str, ordinal: u64) -> (r: String)
    ensures
        r@ == segment_name(session_id@, ordinal as nat),
{
    let mut s = String::from_str("recording_");
    s.append(session_id);
    s.append("_seg_");
    push_decimal(&mut s, ordinal);
    s.append(".mkv");
    s
}

/// File name of the final artifact of a session.
pub fn final_file_name(session_id: &str) -> (r: String)
    ensures
        r@ == final_name(session_id@),
{
    let mut s = String::from_str("recording_");
    s.append(session_id);
    s.append(".mkv");
    s
}

/// Path of segment `ordinal` of a session under `base_dir`.
pub fn segment_path(base_dir: &str, session_id: &str, ordinal: u64) -> (r: String)
    ensures
        r@ == segment_path_of(base_dir@, session_id@, ordinal as nat),
{
    let name = segment_file_name(session_id, ordinal);
    join_path(base_dir, name.as_str())
}

/// Path of the final artifact of a session under `base_dir`.
pub fn final_path(base_dir: &str, session_id: &str) -> (r: String)
    ensures
        r@ == final_path_of(base_dir@, session_id@),
{
    let name = final_file_name(session_id);
    join_path(base_dir, name.as_str())
}

/// Path of the concatenation list file under `base_dir`.
pub fn manifest_path(base_dir: &str) -> (r: String)
    ensures
        r@ == joined_path(base_dir@, manifest_name()),
{
    join_path(base_dir, "temp_concat_list.txt")
}

/// Which of the two capture tasks took a still image.
#[derive(Clone, Copy, Debug, PartialEq, Eq, Structural)]
pub enum CaptureKind {
    /// A still taken alongside a screen recording.
    Snapshot,
    /// A still taken in screenshot-only mode.
    Screenshot,
}

pub open spec fn capture_prefix(kind: CaptureKind) -> Seq<char> {
    match kind {
        CaptureKind::Snapshot => "snapshot"@,
        CaptureKind::Screenshot => "screenshot"@,
    }
}

/// `{snapshot|screenshot}_{session}_{elapsed_ms}.png`
pub open spec fn still_name(kind: CaptureKind, session_id: Seq<char>, elapsed_ms: nat) -> Seq<char> {
    capture_prefix(kind) + "_"@ + session_id + "_"@ + decimal(elapsed_ms) + ".png"@
}

/// File name of a still image taken `elapsed_ms` milliseconds into a session.
pub fn still_file_name(kind: CaptureKind, session_id: &str, elapsed_ms: u64) -> (r: String)
    ensures
        r@ == still_name(kind, session_id@, elapsed_ms as nat),
{
    let mut s = match kind {
        CaptureKind::Snapshot => String::from_str("snapshot"),
        CaptureKind::Screenshot => String::from_str("screenshot"),
    };
    s.append("_");
    s.append(session_id);
    s.append("_");
    push_decimal(&mut s, elapsed_ms);
    s.append(".png");
    s
}

/// The operating system family, which decides where data lives by default.
#[derive(Clone, Copy, Debug, PartialEq, Eq, Structural)]
pub enum Platform {
    Windows,
    MacOs,
    /// Linux and other Unix-like systems.
    Unix,
}

/// The environment values the data directory depends on.
#[derive(Clone, Debug)]
pub struct DataDirEnv {
    /// An explicit override of the data directory.
    pub custom: Option<String>,
    pub appdata: Option<String>,
    pub home: Option<String>,
    pub xdg_data_home: Option<String>,
}

/// Where the agent keeps its data: the override if given; otherwise the
/// platform's usual application-data place, with a fixed fallback when the
/// variables it needs are unset.
pub open spec fn data_dir_of(platform: Platform, env: DataDirEnv) -> Seq<char> {
    match env.custom {
        Some(c) => c@,
        None => match platform {
            Platform::Windows => match env.appdata {
                Some(a) => joined_path(a@, "remote-work"@),
                None => "C:\\Users\\Public\\remote-work-data"@,
            },
            Platform::MacOs => match env.home {
                Some(h) => joined_path(h@, "Library/Application Support/remote-work"@),
                None => "/Users/Shared/remote-work-data"@,
            },
            Platform::Unix => match env.xdg_data_home {
                Some(x) => joined_path(x@, "remote-work"@),
                None => match env.home {
                    Some(h) => joined_path(h@, ".local/share/remote-work"@),
                    None => "/tmp/remote-work-data"@,
                },
            },
        },
    }
}

/// Computes `data_dir_of`.
pub fn data_directory(platform: Platform, env: &DataDirEnv) -> (r: String)
    ensures
        r@ == data_dir_of(platform, *env),
{
    match &env.custom {
        Some(c) => c.clone(),
        None => match platform {
            Platform::Windows => match &env.appdata {
                Some(a) => join_path(a.as_str(), "remote-work"),
                None => String::from_str("C:\\Users\\Public\\remote-work-data"),
            },
            Platform::MacOs => match &env.home {
                Some(h) => join_path(h.as_str(), "Library/Application Support/remote-work"),
                None => String::from_str("/Users/Shared/remote-work-data"),
            },
            Platform::Unix => match &env.xdg_data_home {
                Some(x) => join_path(x.as_str(), "remote-work"),
                None => match &env.home {
                    Some(h) => join_path(h.as_str(), ".local/share/remote-work"),
                    None => String::from_str("/tmp/remote-work-data"),
                },
            },
        },
    }
}

/// A subdirectory of the data directory (`recordings`, `screenshots`).
pub fn data_subdirectory(data_dir: &str, name: &str) -> (r: String)
    ensures
        r@ == joined_path(data_dir@, name@),
{
    join_path(data_dir, name)
}

} // verus!
