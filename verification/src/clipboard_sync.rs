//! Bidirectional clipboard sync, the same on host and controller: the local
//! clipboard is polled and genuine local changes are reported to the peer,
//! while updates from the peer are written into the local clipboard. Both
//! go through one "last seen" baseline, so a remote update written locally
//! is not polled back out and re-sent (an echo loop).
//!
//! The polling thread and its timer live with the caller; each round of it
//! is one call of [`ClipboardSync::poll`].

use vstd::prelude::*;
use crate::text::{str_eq, texts};
use crate::paths::opt_view;

verus! {

/// Access to a text clipboard: the operating system's, or a stand-in.
pub trait ClipboardBackend {
    /// The clipboard's current text.
    fn get_text(&mut self) -> Result<String, String>;

    /// Replaces the clipboard's text.
    fn set_text(&mut self, text: &str) -> Result<(), String>;
}

/// A clipboard backend together with the history of the texts handed to its
/// `set_text` through this value, in order (whether or not the backend
/// managed to store them).
pub struct RecordedClipboard<B: ClipboardBackend> {
    pub backend: B,
    handed: Ghost<Seq<Seq<char>>>,
}

impl<B: ClipboardBackend> RecordedClipboard<B> {
    /// The texts handed to the backend's `set_text` so far, in order.
    pub closed spec fn handed(&self) -> Seq<Seq<char>> {
        self.handed@
    }

    /// The backend itself.
    pub closed spec fn inner(&self) -> B {
        self.backend
    }

    /// `backend`, with nothing handed to it yet.
    pub fn new(backend: B) -> (r: RecordedClipboard<B>)
        ensures
            r.inner() == backend,
            r.handed() == Seq::<Seq<char>>::empty(),
    {
        RecordedClipboard { backend, handed: Ghost(Seq::empty()) }
    }

    /// Hands `text` to the backend's `set_text`.
    pub fn set_text(&mut self, text: &str) -> (r: Result<(), String>)
        ensures
            final(self).handed() == old(self).handed().push(text@),
    {
        let r = self.backend.set_text(text);
        self.handed = Ghost(self.handed@.push(text@));
        r
    }

    /// Reads the backend's text; nothing is handed to it.
    pub fn get_text(&mut self) -> (r: Result<String, String>)
        ensures
            final(self).handed() == old(self).handed(),
    {
        self.backend.get_text()
    }
}

/// The echo-avoidance state of one clipboard sync.
pub struct ClipboardSync {
    last_seen: String,
}

impl View for ClipboardSync {
    type V = Seq<char>;

    /// The last clipboard text seen or written.
    closed spec fn view(&self) -> Seq<char> {
        self.last_seen@
    }
}

/// What a poll that read `text` reports, given the last text seen.
pub open spec fn local_report(last_seen: Seq<char>, text: Seq<char>) -> Option<Seq<char>> {
    if text != last_seen {
        Some(text)
    } else {
        None
    }
}

/// The baseline after the remote updates `updates`, applied in order.
pub open spec fn after_updates(last_seen: Seq<char>, updates: Seq<String>) -> Seq<char> {
    if updates.len() == 0 {
        last_seen
    } else {
        updates.last()@
    }
}

/// The text a read gave, if it succeeded.
pub open spec fn read_view(read: Result<String, String>) -> Option<Seq<char>> {
    match read {
        Ok(t) => Some(t@),
        Err(_) => None,
    }
}

/// What a polling round reports when, after its remote updates, the
/// baseline is `last` and the clipboard read gave `read` (`None`: the read
/// failed): a text that differs from the baseline, nothing otherwise.
pub open spec fn round_report(last: Seq<char>, read: Option<Seq<char>>) -> Option<Seq<char>> {
    match read {
        Some(t) => local_report(last, t),
        None => None,
    }
}

/// The baseline after a polling round's read: the text read, or the same
/// baseline when the read failed.
pub open spec fn round_baseline(last: Seq<char>, read: Option<Seq<char>>) -> Seq<char> {
    match read {
        Some(t) => t,
        None => last,
    }
}

/// The last text of a batch of remote updates, or `last` when it is empty.
pub open spec fn last_applied(last: Seq<char>, updates: Seq<Seq<char>>) -> Seq<char> {
    if updates.len() == 0 {
        last
    } else {
        updates.last()
    }
}

/// The baseline after running `rounds` from baseline `last`. Each round is
/// the batch of remote updates written first, then what the clipboard read
/// gave (`None`: the read failed).
pub open spec fn baseline_after(last: Seq<char>, rounds: Seq<(Seq<Seq<char>>, Option<Seq<char>>)>) -> Seq<char>
    decreases rounds.len(),
{
    if rounds.len() == 0 {
        last
    } else {
        let r = rounds.last();
        round_baseline(last_applied(baseline_after(last, rounds.drop_last()), r.0), r.1)
    }
}

/// What round `k` of `rounds` reports, run from baseline `last`.
pub open spec fn report_at(last: Seq<char>, rounds: Seq<(Seq<Seq<char>>, Option<Seq<char>>)>, k: int) -> Option<Seq<char>> {
    round_report(last_applied(baseline_after(last, rounds.take(k)), rounds[k].0), rounds[k].1)
}

proof fn lemma_baseline_step(last: Seq<char>, rounds: Seq<(Seq<Seq<char>>, Option<Seq<char>>)>, k: int)
    requires
        0 <= k < rounds.len(),
    ensures
        baseline_after(last, rounds.take(k + 1)) == round_baseline(
            last_applied(baseline_after(last, rounds.take(k)), rounds[k].0),
            rounds[k].1,
        ),
{
    assert(rounds.take(k + 1).drop_last() =~= rounds.take(k));
    assert(rounds.take(k + 1).last() == rounds[k]);
}

/// A poll reports only a text the clipboard read just gave, and only when
/// it differs from the last text reported or written from the remote side
/// (a failed read reports nothing).
pub proof fn lemma_report_is_fresh_read(last: Seq<char>, rounds: Seq<(Seq<Seq<char>>, Option<Seq<char>>)>, k: int)
    requires
        0 <= k < rounds.len(),
        report_at(last, rounds, k) is Some,
    ensures
        rounds[k].1 == report_at(last, rounds, k),
        report_at(last, rounds, k)->Some_0 != last_applied(baseline_after(last, rounds.take(k)), rounds[k].0),
{
}

/// After round `i` reports a text, the baseline stays that text through the
/// following rounds that bring no remote update and report nothing.
proof fn lemma_baseline_holds(last: Seq<char>, rounds: Seq<(Seq<Seq<char>>, Option<Seq<char>>)>, i: int, k: int)
    requires
        0 <= i < k <= rounds.len(),
        report_at(last, rounds, i) is Some,
        forall|m: int| i < m < k ==> (#[trigger] rounds[m]).0.len() == 0,
        forall|m: int| i < m < k ==> #[trigger] report_at(last, rounds, m) is None,
    ensures
        baseline_after(last, rounds.take(k)) == report_at(last, rounds, i)->Some_0,
    decreases k - i,
{
    if k == i + 1 {
        lemma_baseline_step(last, rounds, i);
    } else {
        lemma_baseline_holds(last, rounds, i, k - 1);
        lemma_baseline_step(last, rounds, k - 1);
        assert(rounds[k - 1].0.len() == 0);
        assert(report_at(last, rounds, k - 1) is None);
    }
}

/// Between remote updates no text is reported twice in a row: after a
/// report, polls that bring no remote update report nothing until the
/// clipboard holds another text.
pub proof fn lemma_no_repeated_report(last: Seq<char>, rounds: Seq<(Seq<Seq<char>>, Option<Seq<char>>)>, i: int, j: int)
    requires
        0 <= i < j < rounds.len(),
        report_at(last, rounds, i) is Some,
        report_at(last, rounds, j) is Some,
        forall|k: int| i < k <= j ==> (#[trigger] rounds[k]).0.len() == 0,
        forall|k: int| i < k < j ==> #[trigger] report_at(last, rounds, k) is None,
    ensures
        report_at(last, rounds, i) != report_at(last, rounds, j),
{
    lemma_baseline_holds(last, rounds, i, j);
    assert(rounds[j].0.len() == 0);
}

impl ClipboardSync {
    /// A sync that has seen nothing yet: the baseline is the empty text.
    pub fn start() -> (r: ClipboardSync)
        ensures
            r@ == Seq::<char>::empty(),
    {
        ClipboardSync { last_seen: String::new() }
    }

    /// Records an update from the remote peer: it becomes the baseline, and
    /// the text to write into the local clipboard is handed back.
    pub fn apply_remote_update(&mut self, text: String) -> (w: String)
        ensures
            w@ == text@,
            final(self)@ == text@,
    {
        let w = text.clone();
        self.last_seen = text;
        w
    }

    /// Takes the text a poll read from the local clipboard: a change from the
    /// baseline is reported (and becomes the baseline), the same text is not.
    pub fn observe_local(&mut self, text: String) -> (r: Option<String>)
        ensures
            match r {
                Some(t) => local_report(old(self)@, text@) == Some(t@),
                None => local_report(old(self)@, text@) is None,
            },
            final(self)@ == text@,
    {
        let same = str_eq(text.as_str(), self.last_seen.as_str());
        if same {
            None
        } else {
            let r = text.clone();
            self.last_seen = text;
            Some(r)
        }
    }

    /// Takes a batch of remote updates: the last becomes the baseline, and
    /// the texts to write into the local clipboard come back, in order.
    pub fn take_remote_updates(&mut self, updates: Vec<String>) -> (w: Vec<String>)
        ensures
            w@ == updates@,
            final(self)@ == after_updates(old(self)@, updates@),
    {
        let n = updates.len();
        if n > 0 {
            self.last_seen = updates[n - 1].clone();
        }
        updates
    }

    /// Takes what the poll's read of the local clipboard gave: a text that
    /// differs from the baseline is reported and becomes the baseline; the
    /// same text, or a failed read, reports nothing.
    pub fn observe_read(&mut self, read: Result<String, String>) -> (r: Option<String>)
        ensures
            opt_view(r) == round_report(old(self)@, read_view(read)),
            final(self)@ == round_baseline(old(self)@, read_view(read)),
    {
        match read {
            Ok(text) => self.observe_local(text),
            Err(_) => None,
        }
    }

    /// One polling round: writes the pending remote updates into `backend`
    /// in order, then reads it and returns the text to report to the peer, if
    /// it changed. A failed write still moves the baseline; a failed read
    /// reports nothing and leaves it.
    pub fn poll<B: ClipboardBackend>(&mut self, backend: &mut RecordedClipboard<B>, updates: Vec<String>) -> (r: Option<String>)
        ensures
            final(backend).handed() == old(backend).handed() + texts(updates@),
            exists|read: Option<Seq<char>>| {
                &&& opt_view(r) == #[trigger] round_report(after_updates(old(self)@, updates@), read)
                &&& final(self)@ == round_baseline(after_updates(old(self)@, updates@), read)
            },
            r is Some ==> r->Some_0@ != after_updates(old(self)@, updates@),
            r is Some ==> final(self)@ == r->Some_0@,
            r is None ==> final(self)@ == after_updates(old(self)@, updates@),
    {
        let writes = self.take_remote_updates(updates);
        let n = writes.len();
        let mut i: usize = 0;
        while i < n
            invariant
                n == writes@.len(),
                writes@ == updates@,
                i <= n,
                backend.handed() == old(backend).handed() + texts(writes@.take(i as int)),
            decreases n - i,
        {
            let _ = backend.set_text(writes[i].as_str());
            i = i + 1;
            assert(texts(writes@.take(i as int)) =~= texts(writes@.take(i - 1)).push(writes@[i - 1]@));
        }
        assert(writes@.take(n as int) =~= writes@);
        let read = backend.get_text();
        let r = self.observe_read(read);
        proof {
            let rv = read_view(read);
            assert(opt_view(r) == round_report(after_updates(old(self)@, updates@), rv));
        }
        r
    }
}

/// Remote updates reach the clipboard in the order they came: after a poll
/// the backend was handed each update in turn, so the last update is the
/// last text handed to it, and it wins.
pub proof fn lemma_updates_handed_in_order(before: Seq<Seq<char>>, updates: Seq<String>)
    requires
        updates.len() > 0,
    ensures
        forall|i: int| 0 <= i < updates.len() ==> #[trigger] (before + texts(updates))[before.len() + i] == updates[i]@,
        (before + texts(updates)).last() == updates.last()@,
{
}

/// A remote update is not echoed back: once written locally, polling the
/// same text reports nothing.
pub proof fn lemma_remote_update_not_echoed(text: Seq<char>)
    ensures
        local_report(text, text) is None,
{
}

/// A local change is reported once: the first poll that sees a new text
/// reports it, and a second poll of the same text reports nothing.
pub proof fn lemma_local_change_reported_once(last_seen: Seq<char>, text: Seq<char>)
    requires
        text != last_seen,
    ensures
        local_report(last_seen, text) == Some(text),
        local_report(local_report(last_seen, text)->Some_0, text) is None,
{
}

} // verus!
