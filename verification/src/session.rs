//! One edit session, as a state machine: render the request, hand the
//! scratch document to the editor, decide from the editor's exit and the
//! write signal whether there is anything to read, strip the comments from
//! what was saved, and take in what the decoder makes of the rest.
//!
//! The machine decides; its caller acts. Each step takes what happened and
//! says what to do next. Every step that ends the session asks for the
//! scratch document to be deleted.

use vstd::prelude::*;
use crate::error::ParseError;
use crate::strip::{begins_object, opens_object, strip_comments, stripped};
use crate::template::{
    are_value_texts, bare_layout, layout, lemma_layout_strips, lemma_unclosed_template_strips,
    template_text, CreateRequest, CreateRequestView, Values,
};

verus! {

/// What could not be set up around the editor.
#[derive(Debug, Copy, Clone, PartialEq, Eq, Structural)]
pub enum SetupError {
    /// The scratch document could not be created, persisted or read.
    Scratch,
    /// Filesystem notifications could not be subscribed to.
    Watcher,
    /// The editor could not be started.
    Editor,
}

/// Why a session failed.
#[derive(Debug, Copy, Clone, PartialEq, Eq, Structural)]
pub enum SessionError {
    Setup(SetupError),
    Parse(ParseError),
}

/// What the user left behind.
#[derive(Debug, Clone, PartialEq, Eq)]
pub enum EditOutcome {
    /// The template was saved and reads as this request.
    Saved(CreateRequest),
    /// The user left without saving, or the editor reported a failure.
    Aborted,
}

pub enum EditOutcomeView {
    Saved(CreateRequestView),
    Aborted,
}

impl View for EditOutcome {
    type V = EditOutcomeView;

    open spec fn view(&self) -> EditOutcomeView {
        match self {
            EditOutcome::Saved(request) => EditOutcomeView::Saved(request@),
            EditOutcome::Aborted => EditOutcomeView::Aborted,
        }
    }
}

/// What the editor's exit and the write signal add up to.
#[derive(Debug, Copy, Clone, PartialEq, Eq, Structural)]
pub enum Decision {
    /// There is a saved document to read.
    Parse,
    /// There is nothing to read.
    Abort,
}

/// What became of the editor.
#[derive(Debug, Copy, Clone, PartialEq, Eq, Structural)]
pub enum Editor {
    /// It ran and left, with success or without.
    Left { success: bool },
    /// It did not run.
    NotRun(SetupError),
}

/// The rule of the session: a document is read only where the editor left
/// with success and a write was observed. A failed exit aborts even after a
/// write, and a successful one aborts without.
pub open spec fn decision(exit_success: bool, write_observed: bool) -> Decision {
    if exit_success && write_observed {
        Decision::Parse
    } else {
        Decision::Abort
    }
}

pub fn decide(exit_success: bool, write_observed: bool) -> (decided: Decision)
    ensures
        decided == decision(exit_success, write_observed),
        decided == Decision::Parse <==> exit_success && write_observed,
{
    if exit_success && write_observed {
        Decision::Parse
    } else {
        Decision::Abort
    }
}

/// Where a session stands.
#[derive(Debug, Clone, PartialEq, Eq)]
pub enum Session {
    /// Not started; holds the request to offer.
    Idle(CreateRequest),
    /// The template is rendered and on its way to scratch storage.
    Rendering,
    /// The scratch document is there. The watcher is being started
    /// (`watching` is `false`), or it runs and the editor with it.
    Editing { watching: bool },
    /// The editor is done with; the watcher is being stopped.
    Deciding { editor: Editor },
    /// The scratch document is being read (`decoding` is `false`), or its
    /// text is stripped and the decoder has it.
    Parsing { decoding: bool },
    /// Done: the saved request.
    Completed(CreateRequest),
    /// Done: nothing saved.
    Aborted,
    /// Done: the session failed.
    Failed(SessionError),
}

pub enum SessionView {
    Idle(CreateRequestView),
    Rendering,
    Editing { watching: bool },
    Deciding { editor: Editor },
    Parsing { decoding: bool },
    Completed(CreateRequestView),
    Aborted,
    Failed(SessionError),
}

impl View for Session {
    type V = SessionView;

    open spec fn view(&self) -> SessionView {
        match self {
            Session::Idle(request) => SessionView::Idle(request@),
            Session::Rendering => SessionView::Rendering,
            Session::Editing { watching } => SessionView::Editing { watching: *watching },
            Session::Deciding { editor } => SessionView::Deciding { editor: *editor },
            Session::Parsing { decoding } => SessionView::Parsing { decoding: *decoding },
            Session::Completed(request) => SessionView::Completed(request@),
            Session::Aborted => SessionView::Aborted,
            Session::Failed(e) => SessionView::Failed(*e),
        }
    }
}

/// What happened outside since the last step.
#[derive(Debug, Clone, PartialEq, Eq)]
pub enum Event {
    /// The session is to begin.
    Start,
    /// The scratch document is written and persisted under its path.
    ScratchPersisted,
    /// The watcher is subscribed to the scratch path and takes
    /// notifications in.
    WatcherStarted,
    /// The editor process has left.
    EditorExited { success: bool },
    /// The watcher has ended; `written` is its signal.
    WatcherStopped { written: bool },
    /// The content of the scratch document.
    ScratchRead(String),
    /// What the decoder made of the stripped document: the request that
    /// the JSON object spells out, or `None` where it is no such object.
    Decoded(Option<CreateRequest>),
    /// What the last action asked for could not be done.
    SetupFailed(SetupError),
}

pub enum EventView {
    Start,
    ScratchPersisted,
    WatcherStarted,
    EditorExited { success: bool },
    WatcherStopped { written: bool },
    ScratchRead(Seq<char>),
    Decoded(Option<CreateRequestView>),
    SetupFailed(SetupError),
}

impl View for Event {
    type V = EventView;

    open spec fn view(&self) -> EventView {
        match self {
            Event::Start => EventView::Start,
            Event::ScratchPersisted => EventView::ScratchPersisted,
            Event::WatcherStarted => EventView::WatcherStarted,
            Event::EditorExited { success } => EventView::EditorExited { success: *success },
            Event::WatcherStopped { written } => EventView::WatcherStopped { written: *written },
            Event::ScratchRead(text) => EventView::ScratchRead(text@),
            Event::Decoded(decoded) => EventView::Decoded(
                match decoded {
                    Some(request) => Some(request@),
                    None => None,
                },
            ),
            Event::SetupFailed(e) => EventView::SetupFailed(*e),
        }
    }
}

/// What the caller is to do next.
#[derive(Debug, Clone, PartialEq, Eq)]
pub enum Action {
    /// Write this text to scratch storage and persist it under a path that
    /// stays the same for the session.
    PersistScratch(String),
    /// Subscribe to notifications for the scratch path, and start the
    /// watcher on them.
    StartWatcher,
    /// Run the editor on the scratch path in the foreground, and wait for
    /// it.
    RunEditor,
    /// Close the watcher, wait for it to end, and read its signal.
    StopWatcher,
    /// Read the scratch document.
    ReadScratch,
    /// Decode this text, which is the scratch document without its
    /// comments, as the JSON object of a request.
    Decode(String),
    /// The session is over: delete the scratch document.
    DeleteScratch,
    /// Nothing: the event does not belong to the state.
    Nothing,
}

pub enum ActionView {
    PersistScratch(Seq<char>),
    StartWatcher,
    RunEditor,
    StopWatcher,
    ReadScratch,
    Decode(Seq<char>),
    DeleteScratch,
    Nothing,
}

impl View for Action {
    type V = ActionView;

    open spec fn view(&self) -> ActionView {
        match self {
            Action::PersistScratch(text) => ActionView::PersistScratch(text@),
            Action::StartWatcher => ActionView::StartWatcher,
            Action::RunEditor => ActionView::RunEditor,
            Action::StopWatcher => ActionView::StopWatcher,
            Action::ReadScratch => ActionView::ReadScratch,
            Action::Decode(document) => ActionView::Decode(document@),
            Action::DeleteScratch => ActionView::DeleteScratch,
            Action::Nothing => ActionView::Nothing,
        }
    }
}

impl SessionView {
    /// Is the session over?
    pub open spec fn is_terminal(self) -> bool {
        self is Completed || self is Aborted || self is Failed
    }

    /// Has the session begun and not ended? Then something outside is under
    /// way that can fail.
    pub open spec fn is_under_way(self) -> bool {
        self is Rendering || self is Editing || self is Deciding || self is Parsing
    }

    /// Does the watcher run in this state?
    pub open spec fn is_watched(self) -> bool {
        self == (SessionView::Editing { watching: true })
    }

    /// The state after a failure, and what to do. While the watcher runs
    /// it is stopped first, and the session fails once it has ended; else
    /// the session fails at once.
    pub open spec fn fail(self, error: SetupError) -> (SessionView, ActionView) {
        if self.is_watched() {
            (SessionView::Deciding { editor: Editor::NotRun(error) }, ActionView::StopWatcher)
        } else if self.is_under_way() {
            (SessionView::Failed(SessionError::Setup(error)), ActionView::DeleteScratch)
        } else {
            (self, ActionView::Nothing)
        }
    }

    /// The state once the watcher has ended with its signal at `written`,
    /// and what to do.
    pub open spec fn conclude(editor: Editor, written: bool) -> (SessionView, ActionView) {
        match editor {
            Editor::NotRun(error) => (
                SessionView::Failed(SessionError::Setup(error)),
                ActionView::DeleteScratch,
            ),
            Editor::Left { success } => match decision(success, written) {
                Decision::Parse => (
                    SessionView::Parsing { decoding: false },
                    ActionView::ReadScratch,
                ),
                Decision::Abort => (SessionView::Aborted, ActionView::DeleteScratch),
            },
        }
    }

    /// The state once the scratch document was read as `text`, and what to
    /// do: the text without its comments goes to the decoder where it can
    /// be a JSON object, and fails the session as `Malformed` where it
    /// cannot; a text that does not come through stripping fails the
    /// session as `GrammarFailure`.
    pub open spec fn read(text: Seq<char>) -> (SessionView, ActionView) {
        match stripped(text) {
            Some(document) => if opens_object(document) {
                (SessionView::Parsing { decoding: true }, ActionView::Decode(document))
            } else {
                (
                    SessionView::Failed(SessionError::Parse(ParseError::Malformed)),
                    ActionView::DeleteScratch,
                )
            },
            None => (
                SessionView::Failed(SessionError::Parse(ParseError::GrammarFailure)),
                ActionView::DeleteScratch,
            ),
        }
    }

    /// The state once the decoder is done, and what to do: the request that
    /// it read completes the session, and a document that it rejected fails
    /// it.
    pub open spec fn accept(decoded: Option<CreateRequestView>) -> (SessionView, ActionView) {
        match decoded {
            Some(request) => (SessionView::Completed(request), ActionView::DeleteScratch),
            None => (
                SessionView::Failed(SessionError::Parse(ParseError::Malformed)),
                ActionView::DeleteScratch,
            ),
        }
    }

    /// The state after `event`, and what to do.
    ///
    /// An event that does not belong to the state changes nothing.
    pub open spec fn step(self, event: EventView) -> (SessionView, ActionView) {
        match (self, event) {
            (SessionView::Idle(request), EventView::Start) => (
                SessionView::Rendering,
                ActionView::PersistScratch(template_text(request)),
            ),
            (SessionView::Rendering, EventView::ScratchPersisted) => (
                SessionView::Editing { watching: false },
                ActionView::StartWatcher,
            ),
            (SessionView::Editing { watching: false }, EventView::WatcherStarted) => (
                SessionView::Editing { watching: true },
                ActionView::RunEditor,
            ),
            (SessionView::Editing { watching: true }, EventView::EditorExited { success }) => (
                SessionView::Deciding { editor: Editor::Left { success } },
                ActionView::StopWatcher,
            ),
            (SessionView::Deciding { editor }, EventView::WatcherStopped { written }) => {
                SessionView::conclude(editor, written)
            },
            (SessionView::Parsing { decoding: false }, EventView::ScratchRead(text)) => {
                SessionView::read(text)
            },
            (SessionView::Parsing { decoding: true }, EventView::Decoded(decoded)) => {
                SessionView::accept(decoded)
            },
            (_, EventView::SetupFailed(error)) => self.fail(error),
            _ => (self, ActionView::Nothing),
        }
    }

    /// What the session hands to its caller once it is over.
    pub open spec fn outcome(self) -> Option<Result<EditOutcomeView, SessionError>> {
        match self {
            SessionView::Completed(request) => Some(Ok(EditOutcomeView::Saved(request))),
            SessionView::Aborted => Some(Ok(EditOutcomeView::Aborted)),
            SessionView::Failed(e) => Some(Err(e)),
            _ => None,
        }
    }
}

pub open spec fn outcome_view(outcome: Option<Result<EditOutcome, SessionError>>) -> Option<
    Result<EditOutcomeView, SessionError>,
> {
    match outcome {
        Some(Ok(saved)) => Some(Ok(saved@)),
        Some(Err(e)) => Some(Err(e)),
        None => None,
    }
}

impl Session {
    /// A session that offers `request`.
    pub fn new(request: CreateRequest) -> (session: Session)
        ensures
            session@ == SessionView::Idle(request@),
    {
        Session::Idle(request)
    }

    /// Is the session over?
    pub fn is_terminal(&self) -> (over: bool)
        ensures
            over == self@.is_terminal(),
    {
        match self {
            Session::Completed(_) => true,
            Session::Aborted => true,
            Session::Failed(_) => true,
            _ => false,
        }
    }

    /// Takes a failure in.
    fn fail(self, error: SetupError) -> (next: (Session, Action))
        ensures
            (next.0@, next.1@) == self@.fail(error),
    {
        match self {
            Session::Editing { watching: true } => (
                Session::Deciding { editor: Editor::NotRun(error) },
                Action::StopWatcher,
            ),
            Session::Rendering => (Session::Failed(SessionError::Setup(error)), Action::DeleteScratch),
            Session::Editing { watching: false } => (
                Session::Failed(SessionError::Setup(error)),
                Action::DeleteScratch,
            ),
            Session::Deciding { .. } => (
                Session::Failed(SessionError::Setup(error)),
                Action::DeleteScratch,
            ),
            Session::Parsing { .. } => (
                Session::Failed(SessionError::Setup(error)),
                Action::DeleteScratch,
            ),
            state => (state, Action::Nothing),
        }
    }

    /// Takes the end of the watcher in.
    fn conclude(editor: Editor, written: bool) -> (next: (Session, Action))
        ensures
            (next.0@, next.1@) == SessionView::conclude(editor, written),
    {
        match editor {
            Editor::NotRun(error) => (
                Session::Failed(SessionError::Setup(error)),
                Action::DeleteScratch,
            ),
            Editor::Left { success } => match decide(success, written) {
                Decision::Parse => (Session::Parsing { decoding: false }, Action::ReadScratch),
                Decision::Abort => (Session::Aborted, Action::DeleteScratch),
            },
        }
    }

    /// Takes the content of the scratch document in.
    fn read(text: &str) -> (next: (Session, Action))
        ensures
            (next.0@, next.1@) == SessionView::read(text@),
    {
        match strip_comments(text) {
            Ok(document) => {
                if begins_object(document.as_str()) {
                    (Session::Parsing { decoding: true }, Action::Decode(document))
                } else {
                    (
                        Session::Failed(SessionError::Parse(ParseError::Malformed)),
                        Action::DeleteScratch,
                    )
                }
            },
            Err(e) => (Session::Failed(SessionError::Parse(e)), Action::DeleteScratch),
        }
    }

    /// Takes the decoder's answer in.
    fn accept(decoded: Option<CreateRequest>) -> (next: (Session, Action))
        ensures
            (next.0@, next.1@) == SessionView::accept(
                match decoded {
                    Some(request) => Some(request@),
                    None => None,
                },
            ),
    {
        match decoded {
            Some(request) => (Session::Completed(request), Action::DeleteScratch),
            None => (
                Session::Failed(SessionError::Parse(ParseError::Malformed)),
                Action::DeleteScratch,
            ),
        }
    }

    /// Takes one event in: the next state, and what the caller is to do.
    pub fn step(self, event: Event) -> (next: (Session, Action))
        ensures
            (next.0@, next.1@) == self@.step(event@),
    {
        match (self, event) {
            (Session::Idle(request), Event::Start) => {
                let text = request.to_template();
                (Session::Rendering, Action::PersistScratch(text))
            },
            (Session::Rendering, Event::ScratchPersisted) => (
                Session::Editing { watching: false },
                Action::StartWatcher,
            ),
            (Session::Editing { watching: false }, Event::WatcherStarted) => (
                Session::Editing { watching: true },
                Action::RunEditor,
            ),
            (Session::Editing { watching: true }, Event::EditorExited { success }) => (
                Session::Deciding { editor: Editor::Left { success } },
                Action::StopWatcher,
            ),
            (Session::Deciding { editor }, Event::WatcherStopped { written }) => {
                Session::conclude(editor, written)
            },
            (Session::Parsing { decoding: false }, Event::ScratchRead(text)) => Session::read(
                text.as_str(),
            ),
            (Session::Parsing { decoding: true }, Event::Decoded(decoded)) => Session::accept(
                decoded,
            ),
            (state, Event::SetupFailed(error)) => state.fail(error),
            (state, _) => (state, Action::Nothing),
        }
    }

    /// What the session hands to its caller: `None` while it is not over.
    pub fn outcome(self) -> (outcome: Option<Result<EditOutcome, SessionError>>)
        ensures
            outcome_view(outcome) == self@.outcome(),
            outcome is Some <==> self@.is_terminal(),
    {
        match self {
            Session::Completed(request) => Some(Ok(EditOutcome::Saved(request))),
            Session::Aborted => Some(Ok(EditOutcome::Aborted)),
            Session::Failed(e) => Some(Err(e)),
            _ => None,
        }
    }
}

/// Does the scratch document exist once `action` is carried out? Persisting
/// creates it, deleting removes it (where the deletion itself succeeds),
/// and nothing else touches it.
pub open spec fn scratch_after(exists: bool, action: ActionView) -> bool {
    match action {
        ActionView::PersistScratch(_) => true,
        ActionView::DeleteScratch => false,
        _ => exists,
    }
}

/// Does the watcher run once `action` is carried out? It runs when the
/// editor is asked for, and no longer once it is stopped.
pub open spec fn watcher_after(runs: bool, action: ActionView) -> bool {
    match action {
        ActionView::RunEditor => true,
        ActionView::StopWatcher => false,
        _ => runs,
    }
}

/// A session together with what its actions leave outside.
pub struct Run {
    pub state: SessionView,
    pub scratch_exists: bool,
    pub watcher_runs: bool,
}

impl Run {
    /// The start of a session that offers `request`: no scratch document
    /// and no watcher yet.
    pub open spec fn start(request: CreateRequestView) -> Run {
        Run { state: SessionView::Idle(request), scratch_exists: false, watcher_runs: false }
    }

    /// The run after `events`, each action carried out as it was asked for.
    pub open spec fn after(self, events: Seq<EventView>) -> Run
        decreases events.len(),
    {
        if events.len() == 0 {
            self
        } else {
            let before = self.after(events.drop_last());
            let next = before.state.step(events.last());
            Run {
                state: next.0,
                scratch_exists: scratch_after(before.scratch_exists, next.1),
                watcher_runs: watcher_after(before.watcher_runs, next.1),
            }
        }
    }
}

/// Does the state rest on a document that was read, or is being read?
pub open spec fn has_parsed(state: SessionView) -> bool {
    state is Parsing || state is Completed || (state matches SessionView::Failed(e) && e is Parse)
}

/// A session that is over stays as it is, and asks for nothing more.
pub proof fn lemma_terminal_is_final(state: SessionView, event: EventView)
    requires
        state.is_terminal(),
    ensures
        state.step(event) == (state, ActionView::Nothing),
{
}

/// Every step that ends a session asks for the scratch document to be
/// deleted, and no other step does.
pub proof fn lemma_ending_deletes_scratch(state: SessionView, event: EventView)
    ensures
        state.step(event).1 == ActionView::DeleteScratch <==> !state.is_terminal() && state.step(
            event,
        ).0.is_terminal(),
{
}

/// Without an observed write the session aborts, whatever the editor's exit
/// was: nothing is read.
pub proof fn lemma_no_write_aborts(success: bool)
    ensures
        (SessionView::Deciding { editor: Editor::Left { success } }).step(
            EventView::WatcherStopped { written: false },
        ) == (SessionView::Aborted, ActionView::DeleteScratch),
{
}

/// After a failed exit the session aborts, though a write was observed.
pub proof fn lemma_failed_exit_aborts(written: bool)
    ensures
        (SessionView::Deciding { editor: Editor::Left { success: false } }).step(
            EventView::WatcherStopped { written },
        ) == (SessionView::Aborted, ActionView::DeleteScratch),
{
}

/// The editor is run only in answer to a watcher that has started: where
/// the subscription fails, the session fails and no editor is asked for.
pub proof fn lemma_editor_needs_watcher(state: SessionView, event: EventView)
    ensures
        state.step(event).1 == ActionView::RunEditor <==> state == (SessionView::Editing {
            watching: false,
        }) && event == EventView::WatcherStarted,
        state == (SessionView::Editing { watching: false }) && event is SetupFailed ==> state.step(
            event,
        ).0 is Failed,
{
}

/// The watcher is stopped before its signal is read: the step that comes
/// to a decision asks for the watcher to be stopped, and the decision is
/// left only with the signal that the stopped watcher hands over, or with a
/// failure.
pub proof fn lemma_decision_follows_stop(state: SessionView, event: EventView)
    ensures
        !(state is Deciding) && state.step(event).0 is Deciding ==> state.step(event).1
            == ActionView::StopWatcher,
        state is Deciding && !(state.step(event).0 is Deciding) ==> event is WatcherStopped
            || event is SetupFailed,
{
}

/// The decoder gets to see a scratch document only without its comments,
/// only the document that was read, and only where it begins as a JSON
/// object does.
pub proof fn lemma_decoder_sees_stripped_text(state: SessionView, event: EventView)
    ensures
        state.step(event).1 matches ActionView::Decode(document) ==> (state == (
        SessionView::Parsing { decoding: false }) && event is ScratchRead && stripped(
            event->ScratchRead_0,
        ) == Some(document) && opens_object(document)),
{
}

/// A session is completed by nothing but the request that the decoder
/// read.
pub proof fn lemma_completion_is_decoded(state: SessionView, event: EventView)
    ensures
        state.step(event).0 matches SessionView::Completed(request) ==> (state
            == SessionView::Completed(request) || (state == (SessionView::Parsing {
            decoding: true,
        }) && event == EventView::Decoded(Some(request)))),
{
}

/// The two ways in which reading fails are told apart. The session fails
/// as `GrammarFailure` exactly where the text that was read does not come
/// through stripping. It fails as `Malformed` exactly where the stripped
/// text cannot be a JSON object, or the decoder rejects it.
pub proof fn lemma_reading_fails_two_ways(state: SessionView, event: EventView)
    requires
        !state.is_terminal(),
    ensures
        state.step(event).0 == SessionView::Failed(
            SessionError::Parse(ParseError::GrammarFailure),
        ) <==> state == (SessionView::Parsing { decoding: false }) && event is ScratchRead
            && stripped(event->ScratchRead_0) is None,
        state.step(event).0 == SessionView::Failed(SessionError::Parse(ParseError::Malformed))
            <==> (state == (SessionView::Parsing { decoding: true }) && event
            == EventView::Decoded(None)) || (state == (SessionView::Parsing { decoding: false })
            && event is ScratchRead && stripped(event->ScratchRead_0) is Some && !opens_object(
            stripped(event->ScratchRead_0)->0,
        )),
{
}

/// A template that comes back as it was written goes to the decoder as the
/// bare object of its values, whatever the strings in it hold; and without
/// its closing brace it still goes there, as the object that is not closed.
pub proof fn lemma_template_goes_to_decoder(values: Values)
    requires
        are_value_texts(values),
    ensures
        (SessionView::Parsing { decoding: false }).step(EventView::ScratchRead(layout(values)))
            == (SessionView::Parsing { decoding: true }, ActionView::Decode(bare_layout(values))),
        (SessionView::Parsing { decoding: false }).step(
            EventView::ScratchRead(layout(values).drop_last()),
        ) == (
            SessionView::Parsing { decoding: true },
            ActionView::Decode(bare_layout(values).drop_last()),
        ),
{
    lemma_layout_strips(values);
    lemma_unclosed_template_strips(values);
    reveal_strlit("{\n");
    reveal_strlit("}");
    let whole = bare_layout(values);
    let inner = whole.drop_last();
    assert(whole.len() >= "{\n"@.len() + "}"@.len());
    assert(whole[0] == '{');
    assert(inner[0] == '{');
}

/// Once a session is over, nothing of it is left outside, however it ended
/// and whatever happened on the way: no scratch document, and no watcher.
pub proof fn lemma_nothing_left(request: CreateRequestView, events: Seq<EventView>)
    ensures
        Run::start(request).after(events).state.is_terminal() ==> !Run::start(request).after(
            events,
        ).scratch_exists && !Run::start(request).after(events).watcher_runs,
        Run::start(request).after(events).watcher_runs ==> Run::start(request).after(
            events,
        ).state.is_watched(),
    decreases events.len(),
{
    if events.len() > 0 {
        let before = Run::start(request).after(events.drop_last());
        lemma_nothing_left(request, events.drop_last());
        lemma_ending_deletes_scratch(before.state, events.last());
    }
}

/// A document is read only in a session whose editor left with success and
/// whose watcher saw a write.
pub proof fn lemma_parse_needs_exit_and_write(request: CreateRequestView, events: Seq<EventView>)
    ensures
        has_parsed(Run::start(request).after(events).state) ==> events.contains(
            EventView::EditorExited { success: true },
        ) && events.contains(EventView::WatcherStopped { written: true }),
        Run::start(request).after(events).state == (SessionView::Deciding {
            editor: Editor::Left { success: true },
        }) ==> events.contains(EventView::EditorExited { success: true }),
    decreases events.len(),
{
    if events.len() > 0 {
        let earlier = events.drop_last();
        let last = events.last();
        lemma_parse_needs_exit_and_write(request, earlier);
        assert(events[events.len() - 1] == last);
        assert forall|e: EventView| earlier.contains(e) implies events.contains(e) by {
            let i = choose|i: int| 0 <= i < earlier.len() && earlier[i] == e;
            assert(events[i] == e);
        }
    }
}

} // verus!
