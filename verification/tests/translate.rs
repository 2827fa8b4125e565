use fs_watcher::error::WatchError;
use fs_watcher::event::{translate, EventKind, PortableEvent, RawEvent, RawOutcome};

fn path(text: &str) -> String {
    String::from(text)
}

fn about(kind: EventKind, source: &str) -> PortableEvent {
    PortableEvent { kind, source: Some(path(source)), destination: None }
}

#[test]
fn closed_channel_is_an_event() {
    let event = translate(RawOutcome::Closed).expect("closing is no failure");
    assert_eq!(
        event,
        PortableEvent { kind: EventKind::WatcherClosed, source: None, destination: None }
    );
}

#[test]
fn notice_write_keeps_its_path() {
    let event = translate(RawOutcome::Event(RawEvent::NoticeWrite(path("/w/a")))).unwrap();
    assert_eq!(event, about(EventKind::NoticeWrite, "/w/a"));
}

#[test]
fn notice_remove_keeps_its_path() {
    let event = translate(RawOutcome::Event(RawEvent::NoticeRemove(path("/w/b")))).unwrap();
    assert_eq!(event, about(EventKind::NoticeRemove, "/w/b"));
}

#[test]
fn create_keeps_its_path() {
    let event = translate(RawOutcome::Event(RawEvent::Create(path("/tmp/watch/a.txt")))).unwrap();
    assert_eq!(event, about(EventKind::Create, "/tmp/watch/a.txt"));
}

#[test]
fn write_keeps_its_path() {
    let event = translate(RawOutcome::Event(RawEvent::Write(path("/w/c d")))).unwrap();
    assert_eq!(event, about(EventKind::Write, "/w/c d"));
}

#[test]
fn chmod_keeps_its_path() {
    let event = translate(RawOutcome::Event(RawEvent::Chmod(path("")))).unwrap();
    assert_eq!(event, about(EventKind::Chmod, ""));
}

#[test]
fn remove_keeps_its_path() {
    let event = translate(RawOutcome::Event(RawEvent::Remove(path("/w/\u{e9}t\u{e9}")))).unwrap();
    assert_eq!(event, about(EventKind::Remove, "/w/\u{e9}t\u{e9}"));
}

#[test]
fn rename_carries_source_and_destination() {
    let raw = RawEvent::Rename(path("/tmp/watch/a.txt"), path("/tmp/watch/b.txt"));
    let event = translate(RawOutcome::Event(raw)).unwrap();
    assert_eq!(
        event,
        PortableEvent {
            kind: EventKind::Rename,
            source: Some(path("/tmp/watch/a.txt")),
            destination: Some(path("/tmp/watch/b.txt")),
        }
    );
    assert_eq!(event.kind.name(), "rename");
}

#[test]
fn rename_does_not_swap_its_paths() {
    let raw = RawEvent::Rename(path("from"), path("to"));
    let event = translate(RawOutcome::Event(raw)).unwrap();
    assert_eq!(event.source, Some(path("from")));
    assert_eq!(event.destination, Some(path("to")));
}

#[test]
fn rescan_carries_no_path() {
    let event = translate(RawOutcome::Event(RawEvent::Rescan)).unwrap();
    assert_eq!(event, PortableEvent { kind: EventKind::Rescan, source: None, destination: None });
}

#[test]
fn only_rename_has_a_destination() {
    let singles = vec![
        RawEvent::NoticeWrite(path("p")),
        RawEvent::NoticeRemove(path("p")),
        RawEvent::Create(path("p")),
        RawEvent::Write(path("p")),
        RawEvent::Chmod(path("p")),
        RawEvent::Remove(path("p")),
        RawEvent::Rescan,
    ];
    for raw in singles {
        let event = translate(RawOutcome::Event(raw)).unwrap();
        assert_ne!(event.kind, EventKind::Rename);
        assert_eq!(event.destination, None);
    }
    let closed = translate(RawOutcome::Closed).unwrap();
    assert_eq!(closed.destination, None);
    assert_eq!(closed.source, None);
}

#[test]
fn native_error_is_a_failure_with_its_cause() {
    let raw = RawEvent::Error(notify::Error::Generic(path("boom")), None);
    match translate(RawOutcome::Event(raw)) {
        Err(WatchError::NativeWatchError(notify::Error::Generic(text), None)) => {
            assert_eq!(text, "boom");
        }
        other => panic!("unexpected result: {:?}", other),
    }
}

#[test]
fn native_error_keeps_the_path_it_names() {
    let raw = RawEvent::Error(notify::Error::PathNotFound, Some(path("/gone")));
    match translate(RawOutcome::Event(raw)) {
        Err(WatchError::NativeWatchError(notify::Error::PathNotFound, Some(named))) => {
            assert_eq!(named, "/gone");
        }
        other => panic!("unexpected result: {:?}", other),
    }
}

#[test]
fn native_io_error_is_handed_on() {
    let cause = std::io::Error::new(std::io::ErrorKind::Other, "disk on fire");
    let raw = RawEvent::Error(notify::Error::Io(cause), None);
    match translate(RawOutcome::Event(raw)) {
        Err(WatchError::NativeWatchError(notify::Error::Io(inner), None)) => {
            assert_eq!(inner.kind(), std::io::ErrorKind::Other);
            assert_eq!(format!("{}", inner), "disk on fire");
        }
        other => panic!("unexpected result: {:?}", other),
    }
}

#[test]
fn kinds_have_their_reported_names() {
    assert_eq!(EventKind::NoticeWrite.name(), "noticeWrite");
    assert_eq!(EventKind::NoticeRemove.name(), "noticeRemove");
    assert_eq!(EventKind::Create.name(), "create");
    assert_eq!(EventKind::Write.name(), "write");
    assert_eq!(EventKind::Chmod.name(), "chmod");
    assert_eq!(EventKind::Remove.name(), "remove");
    assert_eq!(EventKind::Rename.name(), "rename");
    assert_eq!(EventKind::Rescan.name(), "rescan");
    assert_eq!(EventKind::WatcherClosed.name(), "watcherClosed");
}
