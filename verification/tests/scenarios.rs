use fs_watcher::error::WatchError;
use fs_watcher::event::{EventKind, PortableEvent, RawEvent, RawOutcome};
use fs_watcher::open::{op_fs_open_watcher, OpenAction, OpenEvent, OpenProgress, WatchRequest};
use fs_watcher::table::{op_fs_poll_watcher, PollStep, WatcherTable};

/// Drives a session with a watcher that knows the given paths and an
/// authorization check that permits all but the given ones, and issues a
/// handle if the attempt succeeds. Returns the result and the paths that
/// were registered.
fn open(
    table: &mut WatcherTable<Vec<String>>,
    request: WatchRequest,
    existing: &[&str],
    forbidden: &[&str],
) -> (Result<u32, WatchError>, Vec<String>) {
    let mut registered: Vec<String> = Vec::new();
    let mut session = op_fs_open_watcher(request);
    loop {
        let event = match session.pending() {
            OpenAction::Construct { .. } => OpenEvent::Constructed,
            OpenAction::CheckRead { path } => {
                if forbidden.contains(&path.as_str()) {
                    OpenEvent::Denied
                } else {
                    OpenEvent::Granted
                }
            }
            OpenAction::Watch { path, .. } => {
                if existing.contains(&path.as_str()) {
                    registered.push(path);
                    OpenEvent::Watched
                } else {
                    OpenEvent::WatchFailed(notify::Error::PathNotFound)
                }
            }
        };
        match session.advance(event) {
            OpenProgress::Pending(next) => session = next,
            OpenProgress::Ready(ticket) => {
                assert!(table.has_room());
                let rid = table.issue(ticket, registered.clone());
                return (Ok(rid), registered);
            }
            OpenProgress::Failed(error) => return (Err(error), registered),
        }
    }
}

fn request(paths: &[&str], recursive: bool, debounce_ms: u64) -> WatchRequest {
    WatchRequest { paths: paths.iter().map(|p| String::from(*p)).collect(), recursive, debounce_ms }
}

#[test]
fn a_created_file_is_reported() {
    let mut table = WatcherTable::new();
    let (result, registered) =
        open(&mut table, request(&["/tmp/watch"], false, 50), &["/tmp/watch"], &[]);
    let rid = result.expect("the path exists and is permitted");
    assert_eq!(registered, vec!["/tmp/watch"]);
    assert!(matches!(op_fs_poll_watcher(&table, rid), Ok(PollStep::Receive(_))));
    let raw = RawEvent::Create(String::from("/tmp/watch/a.txt"));
    let event = table.finish_poll(rid, RawOutcome::Event(raw)).unwrap();
    assert_eq!(event.kind.name(), "create");
    assert_eq!(event.source, Some(String::from("/tmp/watch/a.txt")));
    assert_eq!(event.destination, None);
}

#[test]
fn a_watcher_over_no_path_reports_its_closing() {
    let mut table = WatcherTable::new();
    let (result, registered) = open(&mut table, request(&[], false, 50), &[], &[]);
    let rid = result.expect("an empty request is legal");
    assert!(registered.is_empty());
    assert!(matches!(op_fs_poll_watcher(&table, rid), Ok(PollStep::Receive(_))));
    assert!(table.dispose(rid).is_some());
    let event = table.finish_poll(rid, RawOutcome::Closed).unwrap();
    assert_eq!(
        event,
        PortableEvent { kind: EventKind::WatcherClosed, source: None, destination: None }
    );
    assert_eq!(event.kind.name(), "watcherClosed");
}

#[test]
fn a_rename_is_reported_with_both_paths() {
    let mut table = WatcherTable::new();
    let (result, _) = open(&mut table, request(&["/tmp/watch"], true, 0), &["/tmp/watch"], &[]);
    let rid = result.unwrap();
    let raw = RawEvent::Rename(
        String::from("/tmp/watch/a.txt"),
        String::from("/tmp/watch/b.txt"),
    );
    let event = table.finish_poll(rid, RawOutcome::Event(raw)).unwrap();
    assert_eq!(event.kind.name(), "rename");
    assert_eq!(event.source, Some(String::from("/tmp/watch/a.txt")));
    assert_eq!(event.destination, Some(String::from("/tmp/watch/b.txt")));
}

#[test]
fn a_path_that_does_not_exist_yields_no_handle() {
    let mut table = WatcherTable::new();
    let (result, registered) = open(&mut table, request(&["/nonexistent"], false, 50), &[], &[]);
    assert!(matches!(
        result,
        Err(WatchError::NativeWatchError(notify::Error::PathNotFound, None))
    ));
    assert!(registered.is_empty());
    assert!(!table.is_live(0));
    assert!(matches!(op_fs_poll_watcher(&table, 0), Err(WatchError::UnknownHandle(0))));
}

#[test]
fn a_denied_path_yields_no_handle_and_stops_the_registration() {
    let mut table = WatcherTable::new();
    let all = ["/a", "/b", "/c", "/d"];
    let (result, registered) = open(&mut table, request(&all, false, 50), &all, &["/c"]);
    match result {
        Err(WatchError::AuthorizationDenied(path)) => assert_eq!(path, "/c"),
        other => panic!("unexpected result: {:?}", other),
    }
    assert_eq!(registered, vec!["/a", "/b"]);
    assert!(!table.is_live(0));
    let (result, _) = open(&mut table, request(&["/a"], false, 50), &all, &["/c"]);
    assert_eq!(result.unwrap(), 0);
}

#[test]
fn the_first_refusal_decides() {
    let mut table = WatcherTable::new();
    let (result, registered) =
        open(&mut table, request(&["/a", "/missing", "/secret"], false, 50), &["/a"], &["/secret"]);
    assert!(matches!(
        result,
        Err(WatchError::NativeWatchError(notify::Error::PathNotFound, None))
    ));
    assert_eq!(registered, vec!["/a"]);
    let (result, registered) =
        open(&mut table, request(&["/secret", "/missing"], false, 50), &["/a"], &["/secret"]);
    assert!(matches!(result, Err(WatchError::AuthorizationDenied(_))));
    assert!(registered.is_empty());
}

#[test]
fn each_watcher_has_its_own_stream() {
    let mut table = WatcherTable::new();
    let (first, _) = open(&mut table, request(&["/x"], false, 0), &["/x", "/y"], &[]);
    let (second, _) = open(&mut table, request(&["/y"], false, 0), &["/x", "/y"], &[]);
    let (first, second) = (first.unwrap(), second.unwrap());
    assert_ne!(first, second);
    match op_fs_poll_watcher(&table, first) {
        Ok(PollStep::Receive(resource)) => assert_eq!(*resource, vec!["/x"]),
        _ => panic!("the watcher is active"),
    }
    match op_fs_poll_watcher(&table, second) {
        Ok(PollStep::Receive(resource)) => assert_eq!(*resource, vec!["/y"]),
        _ => panic!("the watcher is active"),
    }
    table.finish_poll(first, RawOutcome::Closed).unwrap();
    assert!(matches!(op_fs_poll_watcher(&table, first), Ok(PollStep::Deliver(_))));
    assert!(matches!(op_fs_poll_watcher(&table, second), Ok(PollStep::Receive(_))));
}
