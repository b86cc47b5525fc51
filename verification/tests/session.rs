use create_gh_repo::error::ParseError;
use create_gh_repo::session::{
    decide, Action, Decision, EditOutcome, Editor, Event, Session, SessionError, SetupError,
};
use create_gh_repo::strip::strip_comments;
use create_gh_repo::template::CreateRequest;

fn request() -> CreateRequest {
    let mut request = CreateRequest::default();
    request.name = "demo".to_string();
    request
}

/// Runs a session up to the point where the watcher is being started.
fn persisted() -> Session {
    let (session, action) = Session::new(request()).step(Event::Start);
    assert_eq!(action, Action::PersistScratch(request().to_template()));
    assert_eq!(session, Session::Rendering);
    let (session, action) = session.step(Event::ScratchPersisted);
    assert_eq!(action, Action::StartWatcher);
    assert_eq!(session, Session::Editing { watching: false });
    session
}

/// Runs a session up to the point where the editor is open.
fn editing() -> Session {
    let (session, action) = persisted().step(Event::WatcherStarted);
    assert_eq!(action, Action::RunEditor);
    assert_eq!(session, Session::Editing { watching: true });
    session
}

fn left(success: bool) -> Session {
    Session::Deciding { editor: Editor::Left { success } }
}

fn reading() -> Session {
    Session::Parsing { decoding: false }
}

fn decoding() -> Session {
    Session::Parsing { decoding: true }
}

#[test]
fn decision_needs_exit_and_write() {
    assert_eq!(decide(true, true), Decision::Parse);
    assert_eq!(decide(true, false), Decision::Abort);
    assert_eq!(decide(false, true), Decision::Abort);
    assert_eq!(decide(false, false), Decision::Abort);
}

#[test]
fn saved_template_completes_the_session() {
    let mut edited = request();
    edited.description = "see // notes".to_string();
    let (session, action) = editing().step(Event::EditorExited { success: true });
    assert_eq!(action, Action::StopWatcher);
    assert_eq!(session, left(true));
    let (session, action) = session.step(Event::WatcherStopped { written: true });
    assert_eq!(action, Action::ReadScratch);
    assert_eq!(session, reading());
    assert!(!session.is_terminal());
    let (session, action) = session.step(Event::ScratchRead(edited.to_template()));
    assert_eq!(action, Action::Decode(strip_comments(&edited.to_template()).unwrap()));
    assert_eq!(session, decoding());
    assert!(!session.is_terminal());
    let (session, action) = session.step(Event::Decoded(Some(edited.clone())));
    assert_eq!(action, Action::DeleteScratch);
    assert_eq!(session, Session::Completed(edited.clone()));
    assert!(session.is_terminal());
    assert_eq!(session.outcome(), Some(Ok(EditOutcome::Saved(edited))));
}

#[test]
fn decoder_gets_the_document_without_its_comments() {
    let text = "{ //a comment\n  \"name\": \"a //b\" //another\n}".to_string();
    let (session, action) = reading().step(Event::ScratchRead(text));
    assert_eq!(action, Action::Decode("{  \"name\": \"a //b\"}".to_string()));
    assert_eq!(session, decoding());
}

#[test]
fn no_write_aborts_without_parsing() {
    let (session, _) = editing().step(Event::EditorExited { success: true });
    let (session, action) = session.step(Event::WatcherStopped { written: false });
    assert_eq!(action, Action::DeleteScratch);
    assert_eq!(session, Session::Aborted);
    let (session, action) = session.step(Event::ScratchRead(request().to_template()));
    assert_eq!(action, Action::Nothing);
    assert_eq!(session, Session::Aborted);
    assert_eq!(session.outcome(), Some(Ok(EditOutcome::Aborted)));
}

#[test]
fn failed_exit_aborts_after_a_write() {
    let (session, action) = editing().step(Event::EditorExited { success: false });
    assert_eq!(action, Action::StopWatcher);
    let (session, action) = session.step(Event::WatcherStopped { written: true });
    assert_eq!(action, Action::DeleteScratch);
    assert_eq!(session, Session::Aborted);
    assert_eq!(session.outcome(), Some(Ok(EditOutcome::Aborted)));
}

#[test]
fn rejected_document_fails_the_session_as_malformed() {
    let (session, action) = reading().step(Event::ScratchRead("{".to_string()));
    assert_eq!(action, Action::Decode("{".to_string()));
    let (failed, action) = session.step(Event::Decoded(None));
    assert_eq!(action, Action::DeleteScratch);
    assert_eq!(failed, Session::Failed(SessionError::Parse(ParseError::Malformed)));
    assert_eq!(failed.outcome(), Some(Err(SessionError::Parse(ParseError::Malformed))));
}

#[test]
fn text_that_does_not_strip_never_reaches_the_decoder() {
    let (failed, action) = reading().step(Event::ScratchRead("\"".to_string()));
    assert_eq!(action, Action::DeleteScratch);
    assert_eq!(failed, Session::Failed(SessionError::Parse(ParseError::GrammarFailure)));
    let (failed, action) = failed.step(Event::Decoded(Some(request())));
    assert_eq!(action, Action::Nothing);
    assert_eq!(failed, Session::Failed(SessionError::Parse(ParseError::GrammarFailure)));
}

#[test]
fn truncated_template_goes_to_the_decoder_and_fails_with_it() {
    let text = request().to_template();
    let truncated = text[..text.len() - 1].to_string();
    let (session, action) = reading().step(Event::ScratchRead(truncated.clone()));
    let document = strip_comments(&truncated).unwrap();
    assert_eq!(action, Action::Decode(document.clone()));
    let decoded = serde_json::from_str::<serde_json::Value>(&document).ok().map(|_| request());
    assert_eq!(decoded, None);
    let (session, action) = session.step(Event::Decoded(decoded));
    assert_eq!(action, Action::DeleteScratch);
    assert_eq!(session, Session::Failed(SessionError::Parse(ParseError::Malformed)));
}

#[test]
fn decoder_is_not_heard_before_it_was_asked() {
    let (session, action) = reading().step(Event::Decoded(Some(request())));
    assert_eq!((session, action), (reading(), Action::Nothing));
    let (session, action) = decoding().step(Event::ScratchRead(request().to_template()));
    assert_eq!((session, action), (decoding(), Action::Nothing));
}

#[test]
fn setup_failure_ends_a_session_that_is_under_way() {
    let (rendering, _) = Session::new(request()).step(Event::Start);
    let states = vec![
        (rendering, SetupError::Scratch),
        (persisted(), SetupError::Watcher),
        (left(true), SetupError::Watcher),
        (reading(), SetupError::Scratch),
        (decoding(), SetupError::Scratch),
    ];
    for (state, error) in states {
        let (session, action) = state.step(Event::SetupFailed(error));
        assert_eq!(action, Action::DeleteScratch);
        assert_eq!(session, Session::Failed(SessionError::Setup(error)));
        assert_eq!(session.outcome(), Some(Err(SessionError::Setup(error))));
    }
}

#[test]
fn failed_subscription_never_runs_the_editor() {
    let (session, action) = persisted().step(Event::SetupFailed(SetupError::Watcher));
    assert_eq!(action, Action::DeleteScratch);
    let (session, action) = session.step(Event::WatcherStarted);
    assert_eq!(action, Action::Nothing);
    assert_eq!(session, Session::Failed(SessionError::Setup(SetupError::Watcher)));
}

#[test]
fn editor_that_cannot_start_stops_the_watcher_first() {
    let (session, action) = editing().step(Event::SetupFailed(SetupError::Editor));
    assert_eq!(action, Action::StopWatcher);
    assert_eq!(session, Session::Deciding { editor: Editor::NotRun(SetupError::Editor) });
    assert!(!session.is_terminal());
    let (session, action) = session.step(Event::WatcherStopped { written: true });
    assert_eq!(action, Action::DeleteScratch);
    assert_eq!(session, Session::Failed(SessionError::Setup(SetupError::Editor)));
}

#[test]
fn setup_failure_before_the_start_changes_nothing() {
    let (session, action) = Session::new(request()).step(Event::SetupFailed(SetupError::Scratch));
    assert_eq!(action, Action::Nothing);
    assert_eq!(session, Session::Idle(request()));
    assert_eq!(session.outcome(), None);
}

#[test]
fn events_out_of_place_change_nothing() {
    let (session, action) = Session::new(request()).step(Event::EditorExited { success: true });
    assert_eq!((session, action), (Session::Idle(request()), Action::Nothing));
    let (session, action) = editing().step(Event::WatcherStopped { written: true });
    assert_eq!((session, action), (Session::Editing { watching: true }, Action::Nothing));
    let (session, action) = editing().step(Event::Start);
    assert_eq!((session, action), (Session::Editing { watching: true }, Action::Nothing));
    let (session, action) = persisted().step(Event::EditorExited { success: true });
    assert_eq!((session, action), (Session::Editing { watching: false }, Action::Nothing));
    let (session, action) = editing().step(Event::WatcherStarted);
    assert_eq!((session, action), (Session::Editing { watching: true }, Action::Nothing));
    let (session, action) = reading().step(Event::ScratchPersisted);
    assert_eq!((session, action), (reading(), Action::Nothing));
}

#[test]
fn every_ending_deletes_the_scratch_document() {
    let endings = vec![
        (left(false), Event::WatcherStopped { written: false }),
        (left(true), Event::WatcherStopped { written: false }),
        (left(false), Event::WatcherStopped { written: true }),
        (
            Session::Deciding { editor: Editor::NotRun(SetupError::Editor) },
            Event::WatcherStopped { written: false },
        ),
        (decoding(), Event::Decoded(Some(request()))),
        (decoding(), Event::Decoded(None)),
        (reading(), Event::ScratchRead("\"open".to_string())),
        (reading(), Event::SetupFailed(SetupError::Scratch)),
        (Session::Rendering, Event::SetupFailed(SetupError::Scratch)),
        (persisted(), Event::SetupFailed(SetupError::Watcher)),
    ];
    for (state, event) in endings {
        let (session, action) = state.step(event);
        assert!(session.is_terminal());
        assert_eq!(action, Action::DeleteScratch);
    }
}

#[test]
fn finished_session_stays_finished() {
    let finished = vec![
        Session::Completed(request()),
        Session::Aborted,
        Session::Failed(SessionError::Setup(SetupError::Watcher)),
    ];
    let events = vec![
        Event::Start,
        Event::ScratchPersisted,
        Event::WatcherStarted,
        Event::EditorExited { success: true },
        Event::WatcherStopped { written: true },
        Event::ScratchRead(request().to_template()),
        Event::Decoded(Some(request())),
        Event::Decoded(None),
        Event::SetupFailed(SetupError::Scratch),
    ];
    for state in finished {
        for event in events.clone() {
            let (session, action) = state.clone().step(event);
            assert_eq!(session, state);
            assert_eq!(action, Action::Nothing);
        }
    }
}

#[test]
fn document_that_is_no_object_never_reaches_the_decoder() {
    for text in ["[1, 2]", "true", "", "  \n", "\"name\"", "7 //seven\n", "[\"a\", true] //list"] {
        let (failed, action) = reading().step(Event::ScratchRead(text.to_string()));
        assert_eq!(action, Action::DeleteScratch);
        assert_eq!(failed, Session::Failed(SessionError::Parse(ParseError::Malformed)));
    }
}

#[test]
fn object_after_white_space_reaches_the_decoder() {
    let (session, action) = reading().step(Event::ScratchRead(" \t\r\n{}".to_string()));
    assert_eq!(action, Action::Decode(" \t\r\n{}".to_string()));
    assert_eq!(session, decoding());
}
