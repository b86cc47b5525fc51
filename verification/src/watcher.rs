//! The write signal of an edit session: whether a write to the scratch
//! document was seen while the editor ran.
//!
//! The thread that receives the notifications owns a `WriteSignal` and feeds
//! it what it polls; the session reads the signal once that thread has ended.

use vstd::prelude::*;

verus! {

/// What a filesystem notification reports.
#[derive(Debug, Copy, Clone, PartialEq, Eq, Structural)]
pub enum ChangeKind {
    /// The content of the file was written.
    Write,
    /// Anything else: metadata, rename, removal, access.
    Other,
}

/// What a notification says about a file, as far as notifiers tell things
/// apart.
#[derive(Debug, Copy, Clone, PartialEq, Eq, Structural)]
pub enum Notice {
    /// Something happened, and the notifier does not say what.
    Any,
    /// The file was opened, read or run, or closed after such use.
    Access,
    /// The file was closed after it had been open for writing.
    CloseAfterWrite,
    /// The file was created.
    Create,
    /// The file was changed, and the notifier does not say how.
    Modify,
    /// The content of the file was changed.
    ModifyData,
    /// Permissions, times or ownership of the file were changed.
    ModifyMetadata,
    /// The file was renamed.
    Rename,
    /// The file was changed in some other way.
    ModifyOther,
    /// The file was removed.
    Remove,
    /// Something else.
    Other,
}

/// Does the notice report that content was written? A change of content
/// does, a change of unknown kind does, and so does the close of a file
/// that was open for writing.
pub open spec fn is_write(notice: Notice) -> bool {
    notice == Notice::ModifyData || notice == Notice::Modify || notice == Notice::CloseAfterWrite
}

/// The kind of change that a notice stands for.
pub fn change_kind(notice: Notice) -> (kind: ChangeKind)
    ensures
        kind == ChangeKind::Write <==> is_write(notice),
{
    match notice {
        Notice::ModifyData => ChangeKind::Write,
        Notice::Modify => ChangeKind::Write,
        Notice::CloseAfterWrite => ChangeKind::Write,
        _ => ChangeKind::Other,
    }
}

/// One filesystem notification.
#[derive(Debug, Clone, PartialEq, Eq)]
pub struct Change {
    pub path: String,
    pub kind: ChangeKind,
}

pub struct ChangeView {
    pub path: Seq<char>,
    pub kind: ChangeKind,
}

impl View for Change {
    type V = ChangeView;

    open spec fn view(&self) -> ChangeView {
        ChangeView { path: self.path@, kind: self.kind }
    }
}

/// What one look at the notification channel gave.
#[derive(Debug, Clone, PartialEq, Eq)]
pub enum Polled {
    /// The sending side is gone: no notification will ever come.
    Disconnected,
    /// Nothing is waiting.
    Empty,
    /// A notification.
    Event(Change),
}

pub enum PolledView {
    Disconnected,
    Empty,
    Event(ChangeView),
}

impl View for Polled {
    type V = PolledView;

    open spec fn view(&self) -> PolledView {
        match self {
            Polled::Disconnected => PolledView::Disconnected,
            Polled::Empty => PolledView::Empty,
            Polled::Event(change) => PolledView::Event(change@),
        }
    }
}

/// The signal of one session. `written` and `closed` only ever go from
/// `false` to `true`.
#[derive(Debug, Clone, PartialEq, Eq)]
pub struct WriteSignal {
    path: String,
    written: bool,
    closed: bool,
}

pub struct WriteSignalView {
    /// The scratch path that is watched.
    pub path: Seq<char>,
    /// A write to that path was seen.
    pub written: bool,
    /// Watching is over.
    pub closed: bool,
}

/// Is `polled` a notification of a write to `path`?
pub open spec fn is_write_to(path: Seq<char>, polled: PolledView) -> bool {
    match polled {
        PolledView::Event(change) => change.kind == ChangeKind::Write && change.path == path,
        _ => false,
    }
}

impl WriteSignalView {
    /// Does `change` report a write to the watched path?
    pub open spec fn is_hit(self, change: ChangeView) -> bool {
        is_write_to(self.path, PolledView::Event(change))
    }

    /// The signal after one notification: set by a write to the watched
    /// path while watching goes on, unchanged by anything else.
    pub open spec fn record(self, change: ChangeView) -> WriteSignalView {
        WriteSignalView {
            path: self.path,
            written: self.written || (!self.closed && self.is_hit(change)),
            closed: self.closed,
        }
    }

    /// The signal after watching was stopped.
    pub open spec fn stop(self) -> WriteSignalView {
        WriteSignalView { path: self.path, written: self.written, closed: true }
    }

    /// Does the watching loop go on after this look at the channel? Not once
    /// the channel is disconnected, and not once the session is closed and
    /// nothing is waiting. While notifications are waiting it goes on,
    /// closed session or not.
    pub open spec fn goes_on(self, session_closed: bool, polled: PolledView) -> bool {
        !self.closed && match polled {
            PolledView::Disconnected => false,
            PolledView::Empty => !session_closed,
            PolledView::Event(_) => true,
        }
    }

    /// The signal after one turn of the watching loop. A notification that
    /// is waiting is taken in before closure is honoured: a write that came
    /// before the session closed counts, though it is looked at afterwards.
    pub open spec fn poll(self, session_closed: bool, polled: PolledView) -> WriteSignalView {
        if self.closed {
            self
        } else {
            match polled {
                PolledView::Disconnected => self.stop(),
                PolledView::Empty => if session_closed {
                    self.stop()
                } else {
                    self
                },
                PolledView::Event(change) => self.record(change),
            }
        }
    }

    /// The signal after a series of turns, each with the state of the
    /// session's closing flag and what was polled.
    pub open spec fn poll_all(self, turns: Seq<(bool, PolledView)>) -> WriteSignalView
        decreases turns.len(),
    {
        if turns.len() == 0 {
            self
        } else {
            self.poll_all(turns.drop_last()).poll(turns.last().0, turns.last().1)
        }
    }
}

/// Does one of the turns bring a write to `path`?
pub open spec fn brings_write(path: Seq<char>, turns: Seq<(bool, PolledView)>) -> bool {
    exists|i: int| 0 <= i < turns.len() && is_write_to(path, (#[trigger] turns[i]).1)
}

impl View for WriteSignal {
    type V = WriteSignalView;

    closed spec fn view(&self) -> WriteSignalView {
        WriteSignalView { path: self.path@, written: self.written, closed: self.closed }
    }
}

impl WriteSignal {
    /// Starts to observe `path`: nothing written yet, not closed.
    pub fn observe(path: &str) -> (signal: WriteSignal)
        ensures
            signal@ == (WriteSignalView { path: path@, written: false, closed: false }),
    {
        WriteSignal { path: path.to_owned(), written: false, closed: false }
    }

    /// The path that is watched.
    pub fn path(&self) -> (path: &str)
        ensures
            path@ == self@.path,
    {
        self.path.as_str()
    }

    /// Was a write to the watched path seen?
    pub fn written(&self) -> (written: bool)
        ensures
            written == self@.written,
    {
        self.written
    }

    /// Is watching over?
    pub fn is_closed(&self) -> (closed: bool)
        ensures
            closed == self@.closed,
    {
        self.closed
    }

    /// Takes one notification in. Only a write to the watched path sets the
    /// signal, and nothing resets it.
    pub fn record(&mut self, change: &Change)
        ensures
            final(self)@ == old(self)@.record(change@),
            old(self)@.written ==> final(self)@.written,
            final(self)@.written && !old(self)@.written ==> change@.path == old(self)@.path
                && change@.kind == ChangeKind::Write,
    {
        if !self.closed {
            match change.kind {
                ChangeKind::Write => {
                    if change.path == self.path {
                        self.written = true;
                    }
                },
                ChangeKind::Other => {},
            }
        }
    }

    /// Ends watching. What was seen stays.
    pub fn stop(&mut self)
        ensures
            final(self)@ == old(self)@.stop(),
    {
        self.closed = true;
    }

    /// One turn of the watching loop: `session_closed` is the session's
    /// closing flag as read at the start of the turn, `polled` what the
    /// channel gave. Returns whether the loop goes on.
    pub fn poll(&mut self, session_closed: bool, polled: &Polled) -> (go_on: bool)
        ensures
            final(self)@ == old(self)@.poll(session_closed, polled@),
            go_on == old(self)@.goes_on(session_closed, polled@),
            go_on <==> !final(self)@.closed,
    {
        if self.closed {
            return false;
        }
        match polled {
            Polled::Disconnected => {
                self.closed = true;
                false
            },
            Polled::Empty => {
                if session_closed {
                    self.closed = true;
                }
                !session_closed
            },
            Polled::Event(change) => {
                self.record(change);
                true
            },
        }
    }
}

/// Once set, the signal stays set, and a closed signal stays closed,
/// whatever is polled afterwards; the watched path never changes.
pub proof fn lemma_signal_is_monotonic(signal: WriteSignalView, turns: Seq<(bool, PolledView)>)
    ensures
        signal.written ==> signal.poll_all(turns).written,
        signal.closed ==> signal.poll_all(turns).closed,
        signal.poll_all(turns).path == signal.path,
    decreases turns.len(),
{
    if turns.len() > 0 {
        lemma_signal_is_monotonic(signal, turns.drop_last());
    }
}

/// Notifications for other paths, and notifications that report no write,
/// never set the signal.
pub proof fn lemma_signal_is_isolated(signal: WriteSignalView, turns: Seq<(bool, PolledView)>)
    requires
        !brings_write(signal.path, turns),
    ensures
        signal.poll_all(turns).written == signal.written,
    decreases turns.len(),
{
    if turns.len() > 0 {
        let before = turns.drop_last();
        let last = turns.last();
        assert(!brings_write(signal.path, before)) by {
            if brings_write(signal.path, before) {
                let i = choose|i: int|
                    0 <= i < before.len() && is_write_to(signal.path, (#[trigger] before[i]).1);
                assert(turns[i] == before[i]);
            }
        }
        lemma_signal_is_isolated(signal, before);
        lemma_signal_is_monotonic(signal, before);
        assert(turns[turns.len() - 1] == last);
    }
}

/// Nothing is taken in once watching is over: a closed signal is what it
/// will be.
pub proof fn lemma_closed_signal_is_final(signal: WriteSignalView, turns: Seq<(bool, PolledView)>)
    requires
        signal.closed,
    ensures
        signal.poll_all(turns) == signal,
    decreases turns.len(),
{
    if turns.len() > 0 {
        lemma_closed_signal_is_final(signal, turns.drop_last());
    }
}

} // verus!
