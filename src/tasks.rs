//! Screenshot-only sessions and the aggregate status of the agent's tasks.

use vstd::prelude::*;
use vstd::string::*;

verus! {

/// The life cycle of a screenshot-only session.
#[derive(Clone, Copy, Debug, PartialEq, Eq, Structural)]
pub enum TaskStatus {
    /// Capturing.
    Active,
    /// Asked to stop; it ends at its next check.
    Stopping,
    /// Ended.
    Stopped,
}

/// Why a screenshot-only session could not start.
#[derive(Clone, Copy, Debug, PartialEq, Eq, Structural)]
pub enum TaskError {
    /// Another session is active or still stopping.
    AlreadyRunning,
}

pub open spec fn is_live(s: TaskStatus) -> bool {
    s == TaskStatus::Active || s == TaskStatus::Stopping
}

/// The entries that are not yet stopped, in order.
pub open spec fn unstopped(entries: Seq<(Seq<char>, TaskStatus)>) -> Seq<(Seq<char>, TaskStatus)>
    decreases entries.len(),
{
    if entries.len() == 0 {
        entries
    } else if entries.last().1 == TaskStatus::Stopped {
        unstopped(entries.drop_last())
    } else {
        unstopped(entries.drop_last()).push(entries.last())
    }
}

/// Every entry asked to stop: active ones become stopping.
pub open spec fn all_stopping(entries: Seq<(Seq<char>, TaskStatus)>) -> Seq<(Seq<char>, TaskStatus)> {
    entries.map_values(
        |e: (Seq<char>, TaskStatus)|
            if e.1 == TaskStatus::Active {
                (e.0, TaskStatus::Stopping)
            } else {
                e
            },
    )
}

/// The screenshot-only sessions known to the agent, by session identifier.
pub struct ScreenshotTasks {
    entries: Vec<(String, TaskStatus)>,
}

pub open spec fn entry_view(e: (String, TaskStatus)) -> (Seq<char>, TaskStatus) {
    (e.0@, e.1)
}

impl View for ScreenshotTasks {
    type V = Seq<(Seq<char>, TaskStatus)>;

    closed spec fn view(&self) -> Seq<(Seq<char>, TaskStatus)> {
        self.entries@.map_values(|e: (String, TaskStatus)| entry_view(e))
    }
}

/// Some entry is active or stopping.
pub open spec fn any_live(entries: Seq<(Seq<char>, TaskStatus)>) -> bool {
    exists|i: int| 0 <= i < entries.len() && is_live(#[trigger] entries[i].1)
}

/// The status recorded for `id`, if any.
pub open spec fn status_of(entries: Seq<(Seq<char>, TaskStatus)>, id: Seq<char>) -> Option<TaskStatus>
    decreases entries.len(),
{
    if entries.len() == 0 {
        None
    } else if entries.last().0 == id {
        Some(entries.last().1)
    } else {
        status_of(entries.drop_last(), id)
    }
}

impl ScreenshotTasks {
    /// No sessions.
    pub fn new() -> (r: ScreenshotTasks)
        ensures
            r@ == Seq::<(Seq<char>, TaskStatus)>::empty(),
    {
        let r = ScreenshotTasks { entries: Vec::new() };
        proof {
            assert(r@ =~= Seq::<(Seq<char>, TaskStatus)>::empty());
        }
        r
    }

    /// Whether some session is active or stopping.
    pub fn any_running(&self) -> (r: bool)
        ensures
            r == any_live(self@),
    {
        let mut i: usize = 0;
        while i < self.entries.len()
            invariant
                i <= self.entries@.len(),
                self@.len() == self.entries@.len(),
                forall|k: int| 0 <= k < i ==> !is_live(#[trigger] self@[k].1),
            decreases self.entries@.len() - i,
        {
            let s = self.entries[i].1;
            proof {
                assert(self@[i as int].1 == s);
            }
            if s == TaskStatus::Active || s == TaskStatus::Stopping {
                return true;
            }
            i = i + 1;
        }
        false
    }

    /// Drops the stopped sessions, keeping the order of the others.
    pub fn prune(&mut self)
        ensures
            final(self)@ == unstopped(old(self)@),
    {
        let ghost before = self@;
        let mut kept: Vec<(String, TaskStatus)> = Vec::new();
        let mut i: usize = 0;
        while i < self.entries.len()
            invariant
                i <= self.entries@.len(),
                self@ == before,
                before.len() == self.entries@.len(),
                kept@.map_values(|e: (String, TaskStatus)| entry_view(e)) == unstopped(
                    before.subrange(0, i as int),
                ),
            decreases self.entries@.len() - i,
        {
            let ghost kv = kept@;
            let e = &self.entries[i];
            proof {
                let next = before.subrange(0, i + 1);
                assert(next.drop_last() =~= before.subrange(0, i as int));
                assert(next.last() == before[i as int]);
                assert(before[i as int] == entry_view(self.entries@[i as int]));
            }
            if e.1 != TaskStatus::Stopped {
                kept.push((e.0.clone(), e.1));
                proof {
                    assert(kept@.map_values(|e: (String, TaskStatus)| entry_view(e)) =~= kv.map_values(
                        |e: (String, TaskStatus)| entry_view(e),
                    ).push(before[i as int]));
                }
            }
            i = i + 1;
        }
        proof {
            assert(before.subrange(0, i as int) =~= before);
        }
        self.entries = kept;
    }

    /// Starts session `id` unless another is live: stopped sessions are first
    /// dropped; then a live one refuses the start, else `id` is added as active.
    pub fn start(&mut self, id: String) -> (r: Result<(), TaskError>)
        ensures
            any_live(old(self)@) ==> r == Err::<(), TaskError>(TaskError::AlreadyRunning)
                && final(self)@ == unstopped(old(self)@),
            !any_live(old(self)@) ==> r is Ok && final(self)@ == unstopped(old(self)@).push(
                (id@, TaskStatus::Active),
            ),
    {
        let ghost before = self@;
        self.prune();
        proof {
            lemma_unstopped_live(before);
        }
        if self.any_running() {
            return Err(TaskError::AlreadyRunning);
        }
        let ghost pruned = self@;
        self.entries.push((id, TaskStatus::Active));
        proof {
            assert(self@ =~= pruned.push((id@, TaskStatus::Active)));
        }
        Ok(())
    }

    /// Whether session `id` should keep capturing: it is recorded as active.
    pub fn should_continue(&self, id: &String) -> (r: bool)
        ensures
            r == (status_of(self@, id@) == Some(TaskStatus::Active)),
    {
        let mut i: usize = self.entries.len();
        proof {
            assert(self@.subrange(0, i as int) =~= self@);
        }
        while i > 0
            invariant
                i <= self.entries@.len(),
                self@.len() == self.entries@.len(),
                status_of(self@, id@) == status_of(self@.subrange(0, i as int), id@),
            decreases i,
        {
            let ghost prefix = self@.subrange(0, i as int);
            proof {
                assert(prefix.drop_last() =~= self@.subrange(0, i - 1));
                assert(prefix.last() == entry_view(self.entries@[i - 1]));
            }
            if self.entries[i - 1].0.eq(id) {
                return self.entries[i - 1].1 == TaskStatus::Active;
            }
            i = i - 1;
        }
        proof {
            assert(self@.subrange(0, 0) =~= Seq::<(Seq<char>, TaskStatus)>::empty());
        }
        false
    }

    /// Asks every active session to stop.
    pub fn request_stop_all(&mut self)
        ensures
            final(self)@ == all_stopping(old(self)@),
    {
        let ghost before = self@;
        let mut i: usize = 0;
        while i < self.entries.len()
            invariant
                i <= self.entries@.len(),
                before.len() == self.entries@.len(),
                forall|k: int|
                    0 <= k < i ==> #[trigger] self@[k] == all_stopping(before)[k],
                forall|k: int| i <= k < before.len() ==> #[trigger] self@[k] == before[k],
            decreases self.entries@.len() - i,
        {
            let ghost prev = self@;
            proof {
                assert(prev[i as int] == before[i as int]);
                assert(prev[i as int] == entry_view(self.entries@[i as int]));
            }
            if self.entries[i].1 == TaskStatus::Active {
                let id = self.entries[i].0.clone();
                self.entries.set(i, (id, TaskStatus::Stopping));
            }
            proof {
                assert forall|k: int| 0 <= k < self@.len() && k != i implies #[trigger] self@[k]
                    == prev[k] by {
                    assert(self@[k] == entry_view(self.entries@[k]));
                }
                assert(self@[i as int] == entry_view(self.entries@[i as int]));
                assert(self@[i as int] == all_stopping(before)[i as int]);
            }
            i = i + 1;
        }
        proof {
            assert(self@ =~= all_stopping(before));
        }
    }

    /// Records that session `id` has ended: its entries become stopped, or a
    /// stopped entry is added when it has none.
    pub fn mark_stopped(&mut self, id: String)
        ensures
            (exists|k: int| 0 <= k < old(self)@.len() && #[trigger] old(self)@[k].0 == id@)
                ==> final(self)@ == stopped_as(old(self)@, id@),
            !(exists|k: int| 0 <= k < old(self)@.len() && #[trigger] old(self)@[k].0 == id@)
                ==> final(self)@ == old(self)@.push((id@, TaskStatus::Stopped)),
            status_of(final(self)@, id@) == Some(TaskStatus::Stopped),
    {
        let ghost before = self@;
        let mut found = false;
        let mut i: usize = 0;
        while i < self.entries.len()
            invariant
                i <= self.entries@.len(),
                before.len() == self.entries@.len(),
                forall|k: int| 0 <= k < i ==> #[trigger] self@[k] == stopped_as(before, id@)[k],
                forall|k: int| i <= k < before.len() ==> #[trigger] self@[k] == before[k],
                found == exists|k: int| 0 <= k < i && #[trigger] before[k].0 == id@,
            decreases self.entries@.len() - i,
        {
            let ghost prev = self@;
            proof {
                assert(prev[i as int] == before[i as int]);
                assert(prev[i as int] == entry_view(self.entries@[i as int]));
            }
            if self.entries[i].0.eq(&id) {
                let key = self.entries[i].0.clone();
                self.entries.set(i, (key, TaskStatus::Stopped));
                found = true;
            }
            proof {
                assert forall|k: int| 0 <= k < self@.len() && k != i implies #[trigger] self@[k]
                    == prev[k] by {
                    assert(self@[k] == entry_view(self.entries@[k]));
                }
                assert(self@[i as int] == entry_view(self.entries@[i as int]));
                assert(self@[i as int] == stopped_as(before, id@)[i as int]);
                if found {
                    if before[i as int].0 != id@ {
                        let k0 = choose|k: int| 0 <= k < i && #[trigger] before[k].0 == id@;
                        assert(0 <= k0 < i + 1 && before[k0].0 == id@);
                    } else {
                        assert(0 <= i < i + 1 && before[i as int].0 == id@);
                    }
                }
            }
            i = i + 1;
        }
        if !found {
            let ghost unchanged = self@;
            proof {
                assert forall|k: int| 0 <= k < before.len() implies #[trigger] unchanged[k]
                    == before[k] by {
                    if before[k].0 == id@ {
                        assert(0 <= k < i && before[k].0 == id@);
                    }
                }
                assert(unchanged =~= before);
            }
            self.entries.push((id, TaskStatus::Stopped));
            proof {
                assert(self@ =~= before.push((id@, TaskStatus::Stopped)));
                assert(self@.drop_last() =~= before);
            }
        } else {
            proof {
                assert(self@ =~= stopped_as(before, id@));
                lemma_stopped_as_status(before, id@);
            }
        }
    }
}

/// Every entry of `id` marked stopped.
pub open spec fn stopped_as(entries: Seq<(Seq<char>, TaskStatus)>, id: Seq<char>) -> Seq<(Seq<char>, TaskStatus)> {
    entries.map_values(
        |e: (Seq<char>, TaskStatus)|
            if e.0 == id {
                (e.0, TaskStatus::Stopped)
            } else {
                e
            },
    )
}

proof fn lemma_stopped_as_status(entries: Seq<(Seq<char>, TaskStatus)>, id: Seq<char>)
    requires
        exists|k: int| 0 <= k < entries.len() && #[trigger] entries[k].0 == id,
    ensures
        status_of(stopped_as(entries, id), id) == Some(TaskStatus::Stopped),
    decreases entries.len(),
{
    let m = stopped_as(entries, id);
    let rest = entries.drop_last();
    assert(m.drop_last() =~= stopped_as(rest, id));
    if entries.last().0 != id {
        let k = choose|k: int| 0 <= k < entries.len() && #[trigger] entries[k].0 == id;
        assert(k < entries.len() - 1);
        assert(rest[k] == entries[k]);
        lemma_stopped_as_status(rest, id);
    }
}

/// Dropping stopped entries keeps exactly the live ones.
proof fn lemma_unstopped_live(entries: Seq<(Seq<char>, TaskStatus)>)
    ensures
        any_live(unstopped(entries)) == any_live(entries),
        forall|i: int| 0 <= i < unstopped(entries).len() ==> is_live(#[trigger] unstopped(entries)[i].1),
    decreases entries.len(),
{
    if entries.len() > 0 {
        let rest = entries.drop_last();
        lemma_unstopped_live(rest);
        if any_live(entries) {
            let i = choose|i: int| 0 <= i < entries.len() && is_live(#[trigger] entries[i].1);
            if i < entries.len() - 1 {
                assert(rest[i] == entries[i]);
                assert(any_live(rest));
            }
        }
        if any_live(rest) {
            let i = choose|i: int| 0 <= i < rest.len() && is_live(#[trigger] rest[i].1);
            assert(entries[i] == rest[i]);
        }
        if entries.last().1 != TaskStatus::Stopped {
            assert(unstopped(entries).last() == entries.last());
            assert(entries[entries.len() - 1] == entries.last());
        }
    }
}

/// `Recording: <Active|Inactive>, Screenshotting: <..>, Idle Detection: <..>`
pub open spec fn status_message_of(recording: bool, screenshotting: bool, idle: bool) -> Seq<char> {
    "Recording: "@ + active_word(recording) + ", Screenshotting: "@ + active_word(screenshotting)
        + ", Idle Detection: "@ + active_word(idle)
}

pub open spec fn active_word(on: bool) -> Seq<char> {
    if on {
        "Active"@
    } else {
        "Inactive"@
    }
}

fn append_active_word(s: &mut String, on: bool)
    ensures
        final(s)@ == old(s)@ + active_word(on),
{
    if on {
        s.append("Active");
    } else {
        s.append("Inactive");
    }
}

/// The status line of the agent's three activities.
pub fn process_status_message(recording: bool, screenshotting: bool, idle_detection: bool) -> (r:
    String)
    ensures
        r@ == status_message_of(recording, screenshotting, idle_detection),
{
    let mut s = String::from_str("Recording: ");
    append_active_word(&mut s, recording);
    s.append(", Screenshotting: ");
    append_active_word(&mut s, screenshotting);
    s.append(", Idle Detection: ");
    append_active_word(&mut s, idle_detection);
    proof {
        assert(s@ =~= status_message_of(recording, screenshotting, idle_detection));
    }
    s
}

} // verus!
