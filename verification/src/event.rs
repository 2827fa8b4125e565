//! The event translator: from what the native layer delivers to the portable
//! event vocabulary.

use vstd::prelude::*;

use crate::error::{path_view, WatchError, WatchErrorView};

verus! {

/// The kinds of event that a poll can report.
#[derive(Clone, Copy, Debug, PartialEq, Eq, Hash, Structural)]
pub enum EventKind {
    NoticeWrite,
    NoticeRemove,
    Create,
    Write,
    Chmod,
    Remove,
    Rename,
    Rescan,
    WatcherClosed,
}

impl EventKind {
    /// Whether an event of this kind names the path that it is about.
    pub open spec fn carries_source(self) -> bool {
        !(self is Rescan) && !(self is WatcherClosed)
    }

    /// Whether an event of this kind names a second path, the one that the
    /// first was moved to.
    pub open spec fn carries_destination(self) -> bool {
        self is Rename
    }

    /// The name under which this kind is reported to callers.
    pub open spec fn name_spec(self) -> Seq<char> {
        match self {
            EventKind::NoticeWrite => "noticeWrite"@,
            EventKind::NoticeRemove => "noticeRemove"@,
            EventKind::Create => "create"@,
            EventKind::Write => "write"@,
            EventKind::Chmod => "chmod"@,
            EventKind::Remove => "remove"@,
            EventKind::Rename => "rename"@,
            EventKind::Rescan => "rescan"@,
            EventKind::WatcherClosed => "watcherClosed"@,
        }
    }

    /// The name under which this kind is reported to callers.
    pub fn name(&self) -> (s: &'static str)
        ensures
            s@ == self.name_spec(),
    {
        match self {
            EventKind::NoticeWrite => "noticeWrite",
            EventKind::NoticeRemove => "noticeRemove",
            EventKind::Create => "create",
            EventKind::Write => "write",
            EventKind::Chmod => "chmod",
            EventKind::Remove => "remove",
            EventKind::Rename => "rename",
            EventKind::Rescan => "rescan",
            EventKind::WatcherClosed => "watcherClosed",
        }
    }
}

/// An event in the portable vocabulary.
#[derive(Debug, PartialEq, Eq)]
pub struct PortableEvent {
    pub kind: EventKind,
    pub source: Option<String>,
    pub destination: Option<String>,
}

/// The mathematical content of a [`PortableEvent`].
pub struct PortableEventView {
    pub kind: EventKind,
    pub source: Option<Seq<char>>,
    pub destination: Option<Seq<char>>,
}

impl View for PortableEvent {
    type V = PortableEventView;

    open spec fn view(&self) -> PortableEventView {
        PortableEventView {
            kind: self.kind,
            source: path_view(self.source),
            destination: path_view(self.destination),
        }
    }
}

impl PortableEventView {
    /// The paths that the event holds, the source before the destination.
    pub open spec fn paths(self) -> Seq<Seq<char>> {
        let first = match self.source {
            Some(p) => seq![p],
            None => Seq::empty(),
        };
        match self.destination {
            Some(p) => first.push(p),
            None => first,
        }
    }

    /// An event names a source unless it is a rescan or the closing of the
    /// watcher, and a destination exactly when it is a rename.
    pub open spec fn well_formed(self) -> bool {
        &&& self.source is Some <==> self.kind.carries_source()
        &&& self.destination is Some <==> self.kind.carries_destination()
    }
}

/// A notification as the native layer shapes it.
#[derive(Debug)]
pub enum RawEvent {
    NoticeWrite(String),
    NoticeRemove(String),
    Create(String),
    Write(String),
    Chmod(String),
    Remove(String),
    Rename(String, String),
    Rescan,
    Error(notify::Error, Option<String>),
}

impl RawEvent {
    /// The portable kind that bears the same name as this notification; an
    /// error has none.
    pub open spec fn label(self) -> Option<EventKind> {
        match self {
            RawEvent::NoticeWrite(_) => Some(EventKind::NoticeWrite),
            RawEvent::NoticeRemove(_) => Some(EventKind::NoticeRemove),
            RawEvent::Create(_) => Some(EventKind::Create),
            RawEvent::Write(_) => Some(EventKind::Write),
            RawEvent::Chmod(_) => Some(EventKind::Chmod),
            RawEvent::Remove(_) => Some(EventKind::Remove),
            RawEvent::Rename(_, _) => Some(EventKind::Rename),
            RawEvent::Rescan => Some(EventKind::Rescan),
            RawEvent::Error(_, _) => None,
        }
    }

    /// The paths that the notification holds, in their order.
    pub open spec fn paths(self) -> Seq<Seq<char>> {
        match self {
            RawEvent::NoticeWrite(p) => seq![p@],
            RawEvent::NoticeRemove(p) => seq![p@],
            RawEvent::Create(p) => seq![p@],
            RawEvent::Write(p) => seq![p@],
            RawEvent::Chmod(p) => seq![p@],
            RawEvent::Remove(p) => seq![p@],
            RawEvent::Rename(from, to) => seq![from@, to@],
            RawEvent::Rescan => Seq::empty(),
            RawEvent::Error(_, path) => match path {
                Some(p) => seq![p@],
                None => Seq::empty(),
            },
        }
    }
}

/// What one receive on the event channel yields: a notification, or the
/// signal that the channel is closed.
#[derive(Debug)]
pub enum RawOutcome {
    Event(RawEvent),
    Closed,
}

impl RawOutcome {
    /// Whether the outcome is an error that the native layer reported.
    pub open spec fn is_error(self) -> bool {
        self matches RawOutcome::Event(raw) && raw is Error
    }
}

/// The event with no paths of the given kind.
pub open spec fn bare(kind: EventKind) -> PortableEventView {
    PortableEventView { kind, source: None, destination: None }
}

/// The event of the given kind about one path.
pub open spec fn about(kind: EventKind, path: String) -> PortableEventView {
    PortableEventView { kind, source: Some(path@), destination: None }
}

/// What a receive outcome translates to.
pub open spec fn translate_spec(outcome: RawOutcome) -> Result<PortableEventView, WatchErrorView> {
    match outcome {
        RawOutcome::Closed => Ok(bare(EventKind::WatcherClosed)),
        RawOutcome::Event(raw) => match raw {
            RawEvent::NoticeWrite(p) => Ok(about(EventKind::NoticeWrite, p)),
            RawEvent::NoticeRemove(p) => Ok(about(EventKind::NoticeRemove, p)),
            RawEvent::Create(p) => Ok(about(EventKind::Create, p)),
            RawEvent::Write(p) => Ok(about(EventKind::Write, p)),
            RawEvent::Chmod(p) => Ok(about(EventKind::Chmod, p)),
            RawEvent::Remove(p) => Ok(about(EventKind::Remove, p)),
            RawEvent::Rename(from, to) => Ok(
                PortableEventView {
                    kind: EventKind::Rename,
                    source: Some(from@),
                    destination: Some(to@),
                },
            ),
            RawEvent::Rescan => Ok(bare(EventKind::Rescan)),
            RawEvent::Error(cause, path) => Err(
                WatchErrorView::NativeWatchError(cause, path_view(path)),
            ),
        },
    }
}

/// The mathematical content of a translation result.
pub open spec fn delivery_view(r: Result<PortableEvent, WatchError>) -> Result<
    PortableEventView,
    WatchErrorView,
> {
    match r {
        Ok(event) => Ok(event@),
        Err(error) => Err(error@),
    }
}

fn single(kind: EventKind, path: String) -> (event: PortableEvent)
    ensures
        event@ == about(kind, path),
{
    PortableEvent { kind, source: Some(path), destination: None }
}

/// Translates the outcome of one receive into the portable vocabulary.
///
/// A closed channel is an ordinary result, the event `WatcherClosed`. Only a
/// native error yields a failure, which carries the cause unchanged.
pub fn translate(outcome: RawOutcome) -> (r: Result<PortableEvent, WatchError>)
    ensures
        delivery_view(r) == translate_spec(outcome),
        r is Err <==> outcome.is_error(),
        r matches Ok(event) ==> event@.well_formed(),
{
    match outcome {
        RawOutcome::Closed => Ok(
            PortableEvent { kind: EventKind::WatcherClosed, source: None, destination: None },
        ),
        RawOutcome::Event(raw) => match raw {
            RawEvent::NoticeWrite(p) => Ok(single(EventKind::NoticeWrite, p)),
            RawEvent::NoticeRemove(p) => Ok(single(EventKind::NoticeRemove, p)),
            RawEvent::Create(p) => Ok(single(EventKind::Create, p)),
            RawEvent::Write(p) => Ok(single(EventKind::Write, p)),
            RawEvent::Chmod(p) => Ok(single(EventKind::Chmod, p)),
            RawEvent::Remove(p) => Ok(single(EventKind::Remove, p)),
            RawEvent::Rename(from, to) => Ok(
                PortableEvent {
                    kind: EventKind::Rename,
                    source: Some(from),
                    destination: Some(to),
                },
            ),
            RawEvent::Rescan => Ok(
                PortableEvent { kind: EventKind::Rescan, source: None, destination: None },
            ),
            RawEvent::Error(cause, path) => Err(WatchError::NativeWatchError(cause, path)),
        },
    }
}

/// Translation is defined on every notification but an error, and it only
/// relabels: the event has the kind that bears the notification's name, and
/// holds the notification's paths, unchanged and in the same order.
pub proof fn lemma_translate_relabels(raw: RawEvent)
    requires
        !(raw is Error),
    ensures
        translate_spec(RawOutcome::Event(raw)) matches Ok(event) && Some(event.kind) == raw.label()
            && event.paths() == raw.paths(),
{
}

/// A rename carries both its source and its destination; an event of any
/// other kind carries no destination.
pub proof fn lemma_destination_only_on_rename(outcome: RawOutcome)
    ensures
        translate_spec(outcome) matches Ok(event) ==> {
            &&& event.well_formed()
            &&& event.kind is Rename ==> event.source is Some && event.destination is Some
            &&& !(event.kind is Rename) ==> event.destination is None
        },
{
}

} // verus!
