//! The ordered segment list of one recording and the plan that turns it into
//! the final artifact.

use vstd::prelude::*;
use vstd::string::*;
use crate::text::push_char;
use crate::naming::{final_path, final_path_of, joined_path, manifest_name, manifest_path};
use crate::text::views;

verus! {

/// How one character of a path is written inside a single-quoted entry of the
/// concatenation list: a quote closes the string, adds an escaped quote and
/// reopens it.
pub open spec fn escape_char(c: char) -> Seq<char> {
    if c == '\'' {
        seq!['\'', '\\', '\'', '\'']
    } else {
        seq![c]
    }
}

/// A path with every quote escaped for a single-quoted list entry.
pub open spec fn escape_quotes(s: Seq<char>) -> Seq<char>
    decreases s.len(),
{
    if s.len() == 0 {
        Seq::empty()
    } else {
        escape_quotes(s.drop_last()) + escape_char(s.last())
    }
}

/// One entry of the concatenation list: `file '<escaped path>'` and a newline.
pub open spec fn manifest_line(path: Seq<char>) -> Seq<char> {
    "file '"@ + escape_quotes(path) + "'\n"@
}

/// The concatenation list: one entry per segment, in list order.
pub open spec fn manifest_of(paths: Seq<Seq<char>>) -> Seq<char>
    decreases paths.len(),
{
    if paths.len() == 0 {
        Seq::empty()
    } else {
        manifest_of(paths.drop_last()) + manifest_line(paths.last())
    }
}

/// Appends `path` with its quotes escaped.
pub fn push_escaped(out: &mut String, path: &str)
    ensures
        final(out)@ == old(out)@ + escape_quotes(path@),
{
    let n = path.unicode_len();
    let ghost start = out@;
    let mut i: usize = 0;
    while i < n
        invariant
            n == path@.len(),
            i <= n,
            out@ == start + escape_quotes(path@.subrange(0, i as int)),
        decreases n - i,
    {
        let c = path.get_char(i);
        proof {
            let pre = path@.subrange(0, i as int);
            let next = path@.subrange(0, i + 1);
            assert(next.drop_last() =~= pre);
            assert(next.last() == c);
        }
        if c == '\'' {
            push_char(out, '\'');
            push_char(out, '\\');
            push_char(out, '\'');
            push_char(out, '\'');
        } else {
            push_char(out, c);
        }
        i = i + 1;
        proof {
            assert(out@ =~= start + escape_quotes(path@.subrange(0, i as int)));
        }
    }
    assert(path@.subrange(0, n as int) =~= path@);
}

/// Builds the concatenation list for `paths`, one entry per path in the order
/// given: the order of the list, never an order found on disk.
pub fn build_manifest(paths: &Vec<String>) -> (r: String)
    ensures
        r@ == manifest_of(views(paths@)),
{
    let mut out = String::new();
    let mut i: usize = 0;
    while i < paths.len()
        invariant
            i <= paths@.len(),
            out@ == manifest_of(views(paths@.subrange(0, i as int))),
        decreases paths@.len() - i,
    {
        let ghost before = out@;
        out.append("file '");
        push_escaped(&mut out, paths[i].as_str());
        out.append("'\n");
        proof {
            let next = views(paths@.subrange(0, i + 1));
            assert(next.drop_last() =~= views(paths@.subrange(0, i as int)));
            assert(next.last() == paths@[i as int]@);
            assert(out@ =~= before + manifest_line(paths@[i as int]@));
        }
        i = i + 1;
    }
    assert(paths@.subrange(0, i as int) =~= paths@);
    out
}

/// The list of a longer sequence of segments starts with the list of its prefix.
pub proof fn lemma_manifest_append(a: Seq<Seq<char>>, b: Seq<Seq<char>>)
    ensures
        manifest_of(a + b) == manifest_of(a) + manifest_of(b),
    decreases b.len(),
{
    if b.len() == 0 {
        assert(a + b =~= a);
        assert(manifest_of(a) + manifest_of(b) =~= manifest_of(a));
    } else {
        assert((a + b).drop_last() =~= a + b.drop_last());
        assert((a + b).last() == b.last());
        lemma_manifest_append(a, b.drop_last());
        assert(manifest_of(a + b) =~= manifest_of(a) + manifest_of(b));
    }
}

/// The entry of segment `i` stands after the entries of the segments before it
/// and before those after it: the list follows the order of `paths`, whatever the
/// names.
pub proof fn lemma_manifest_order(paths: Seq<Seq<char>>, i: int)
    requires
        0 <= i < paths.len(),
    ensures
        manifest_of(paths) == manifest_of(paths.take(i)) + manifest_line(paths[i]) + manifest_of(
            paths.skip(i + 1),
        ),
{
    let one = seq![paths[i]];
    assert(paths =~= paths.take(i) + one + paths.skip(i + 1));
    lemma_manifest_append(paths.take(i) + one, paths.skip(i + 1));
    lemma_manifest_append(paths.take(i), one);
    assert(one.drop_last() =~= Seq::<Seq<char>>::empty());
    assert(manifest_of(one.drop_last()) =~= Seq::<char>::empty());
    assert(one.last() == paths[i]);
    assert(manifest_of(one) =~= manifest_line(paths[i]));
}

/// How the segments of a stopped session become the final artifact.
#[derive(Clone, Debug)]
pub enum FinalizePlan {
    /// No segment was recorded.
    NothingToDo,
    /// A single segment: rename it, no encoder run.
    Rename { from: String, to: String },
    /// Several segments: write `manifest` to `manifest_path`, run the encoder's
    /// stream-copy concatenation into `output`, then remove the segments.
    Concatenate { manifest_path: String, manifest: String, output: String, segments: Vec<String> },
}

/// The plan for the segments `segs` of session `session_id` under `base_dir`.
pub open spec fn plan_matches(
    plan: FinalizePlan,
    base_dir: Seq<char>,
    session_id: Seq<char>,
    segs: Seq<Seq<char>>,
) -> bool {
    match plan {
        FinalizePlan::NothingToDo => segs.len() == 0,
        FinalizePlan::Rename { from, to } => segs.len() == 1 && from@ == segs[0] && to@
            == final_path_of(base_dir, session_id),
        FinalizePlan::Concatenate { manifest_path, manifest, output, segments } => segs.len() >= 2
            && manifest_path@ == joined_path(base_dir, manifest_name()) && manifest@ == manifest_of(
            segs,
        ) && output@ == final_path_of(base_dir, session_id) && views(segments@) == segs,
    }
}

/// Plans the finalisation of `segments`: nothing for none, a rename for one,
/// a concatenation in list order for more.
pub fn plan_finalize(base_dir: &str, session_id: &str, segments: &Vec<String>) -> (r: FinalizePlan)
    ensures
        plan_matches(r, base_dir@, session_id@, views(segments@)),
{
    if segments.len() == 0 {
        FinalizePlan::NothingToDo
    } else if segments.len() == 1 {
        FinalizePlan::Rename { from: segments[0].clone(), to: final_path(base_dir, session_id) }
    } else {
        let manifest = build_manifest(segments);
        let copy = segments.clone();
        proof {
            assert(views(copy@) =~= views(segments@));
        }
        FinalizePlan::Concatenate {
            manifest_path: manifest_path(base_dir),
            manifest,
            output: final_path(base_dir, session_id),
            segments: copy,
        }
    }
}

/// With exactly one segment the plan is a rename: the concatenation run is
/// reserved for two segments or more.
pub proof fn lemma_single_segment_renames(
    plan: FinalizePlan,
    base_dir: Seq<char>,
    session_id: Seq<char>,
    segs: Seq<Seq<char>>,
)
    requires
        plan_matches(plan, base_dir, session_id, segs),
    ensures
        segs.len() == 1 <==> plan is Rename,
        plan is Concatenate <==> segs.len() >= 2,
{
}

/// Why finalisation failed.
#[derive(Clone, Debug)]
pub enum FinalizeError {
    /// The single segment could not be renamed.
    RenameFailed { message: String },
    /// The concatenation run exited unsuccessfully; its error output is kept.
    ConcatenationFailed { stderr: String },
}

/// A finished finalisation: the artifact's path and the files that may now be
/// removed.
#[derive(Clone, Debug)]
pub struct Finalized {
    pub artifact: Option<String>,
    pub remove: Vec<String>,
}

/// The result of carrying out `plan`, given whether its file operation or its
/// encoder run succeeded and the error text it produced. Segments are released
/// for removal only after a successful concatenation; a failure keeps them all.
pub fn finalize_outcome(plan: FinalizePlan, succeeded: bool, error_text: String) -> (r: Result<
    Finalized,
    FinalizeError,
>)
    ensures
        match plan {
            FinalizePlan::NothingToDo => r matches Ok(f) && f.artifact is None && f.remove@.len()
                == 0,
            FinalizePlan::Rename { from, to } => if succeeded {
                r matches Ok(f) && f.artifact == Some(to) && f.remove@.len() == 0
            } else {
                r matches Err(FinalizeError::RenameFailed { message }) && message@ == error_text@
            },
            FinalizePlan::Concatenate { output, segments, .. } => if succeeded {
                r matches Ok(f) && f.artifact == Some(output) && f.remove@ == segments@
            } else {
                r matches Err(FinalizeError::ConcatenationFailed { stderr }) && stderr@
                    == error_text@
            },
        },
{
    match plan {
        FinalizePlan::NothingToDo => Ok(Finalized { artifact: None, remove: Vec::new() }),
        FinalizePlan::Rename { from: _, to } => {
            if succeeded {
                Ok(Finalized { artifact: Some(to), remove: Vec::new() })
            } else {
                Err(FinalizeError::RenameFailed { message: error_text })
            }
        },
        FinalizePlan::Concatenate { manifest_path: _, manifest: _, output, segments } => {
            if succeeded {
                Ok(Finalized { artifact: Some(output), remove: segments })
            } else {
                Err(FinalizeError::ConcatenationFailed { stderr: error_text })
            }
        },
    }
}

} // verus!
