use create_gh_repo::watcher::{change_kind, Change, ChangeKind, Notice, Polled, WriteSignal};

fn write_to(path: &str) -> Polled {
    Polled::Event(Change { path: path.to_string(), kind: ChangeKind::Write })
}

#[test]
fn new_signal_is_unset_and_open() {
    let signal = WriteSignal::observe("/tmp/scratch");
    assert_eq!(signal.path(), "/tmp/scratch");
    assert!(!signal.written());
    assert!(!signal.is_closed());
}

#[test]
fn write_to_the_scratch_path_sets_the_signal() {
    let mut signal = WriteSignal::observe("/tmp/scratch");
    assert!(signal.poll(false, &write_to("/tmp/scratch")));
    assert!(signal.written());
    assert!(!signal.is_closed());
}

#[test]
fn other_paths_never_set_the_signal() {
    let mut signal = WriteSignal::observe("/tmp/scratch");
    assert!(signal.poll(false, &write_to("/tmp/other")));
    assert!(signal.poll(false, &write_to("/tmp/scratch2")));
    assert!(signal.poll(false, &write_to("/tmp")));
    assert!(signal.poll(false, &write_to("")));
    signal.record(&Change { path: "/tmp/scratc".to_string(), kind: ChangeKind::Write });
    assert!(!signal.written());
}

#[test]
fn other_kinds_never_set_the_signal() {
    let mut signal = WriteSignal::observe("/tmp/scratch");
    let touch = Polled::Event(Change { path: "/tmp/scratch".to_string(), kind: ChangeKind::Other });
    assert!(signal.poll(false, &touch));
    assert!(!signal.written());
}

#[test]
fn no_events_leave_the_signal_unset() {
    let mut signal = WriteSignal::observe("/tmp/scratch");
    for _ in 0..100 {
        assert!(signal.poll(false, &Polled::Empty));
    }
    assert!(!signal.poll(true, &Polled::Empty));
    assert!(!signal.written());
    assert!(signal.is_closed());
}

#[test]
fn signal_stays_set() {
    let mut signal = WriteSignal::observe("/tmp/scratch");
    signal.poll(false, &write_to("/tmp/scratch"));
    signal.poll(false, &write_to("/tmp/other"));
    signal.poll(false, &Polled::Empty);
    signal.poll(false, &Polled::Disconnected);
    signal.stop();
    assert!(signal.written());
}

#[test]
fn waiting_write_counts_though_the_session_has_closed() {
    let mut signal = WriteSignal::observe("/tmp/scratch");
    assert!(signal.poll(true, &write_to("/tmp/other")));
    assert!(!signal.written());
    assert!(signal.poll(true, &write_to("/tmp/scratch")));
    assert!(signal.written());
    assert!(!signal.is_closed());
    assert!(!signal.poll(true, &Polled::Empty));
    assert!(signal.written());
    assert!(signal.is_closed());
}

#[test]
fn nothing_counts_once_watching_is_over() {
    let mut signal = WriteSignal::observe("/tmp/scratch");
    assert!(!signal.poll(true, &Polled::Empty));
    assert!(signal.is_closed());
    assert!(!signal.poll(false, &write_to("/tmp/scratch")));
    assert!(!signal.poll(true, &write_to("/tmp/scratch")));
    assert!(!signal.written());
}

#[test]
fn disconnected_channel_ends_watching() {
    let mut signal = WriteSignal::observe("/tmp/scratch");
    assert!(!signal.poll(false, &Polled::Disconnected));
    assert!(signal.is_closed());
}

#[test]
fn stopped_signal_records_nothing() {
    let mut signal = WriteSignal::observe("/tmp/scratch");
    signal.stop();
    signal.record(&Change { path: "/tmp/scratch".to_string(), kind: ChangeKind::Write });
    assert!(!signal.written());
    assert!(signal.is_closed());
}

#[test]
fn only_writes_count_as_writes() {
    assert_eq!(change_kind(Notice::ModifyData), ChangeKind::Write);
    assert_eq!(change_kind(Notice::Modify), ChangeKind::Write);
    assert_eq!(change_kind(Notice::CloseAfterWrite), ChangeKind::Write);
    let others = [
        Notice::Any,
        Notice::Access,
        Notice::Create,
        Notice::ModifyMetadata,
        Notice::Rename,
        Notice::ModifyOther,
        Notice::Remove,
        Notice::Other,
    ];
    for notice in others {
        assert_eq!(change_kind(notice), ChangeKind::Other);
    }
}

#[test]
fn notice_that_is_no_write_leaves_the_signal_unset() {
    let mut signal = WriteSignal::observe("/tmp/scratch");
    let change =
        Change { path: "/tmp/scratch".to_string(), kind: change_kind(Notice::ModifyMetadata) };
    signal.record(&change);
    assert!(!signal.written());
    let change = Change { path: "/tmp/scratch".to_string(), kind: change_kind(Notice::ModifyData) };
    signal.record(&change);
    assert!(signal.written());
}
