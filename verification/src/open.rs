//! The protocol by which a watcher is created.
//!
//! Creating a watcher takes work that lies outside this library: the native
//! watcher has to be constructed, each path has to pass the authorization
//! check, and each path has to be registered with the native watcher. The
//! library decides what is done next and when the attempt is over. A session
//! names the one piece of outside work that is pending; its driver performs
//! it and reports the answer as an event; the session then moves on, ends in
//! a ticket for a handle, or ends in the failure of the whole attempt.

use vstd::prelude::*;

use crate::error::{WatchError, WatchErrorView};

verus! {

/// What a caller asks to have watched.
///
/// The list of paths may be empty, and the debounce window may be zero.
#[derive(Debug)]
pub struct WatchRequest {
    pub paths: Vec<String>,
    pub recursive: bool,
    pub debounce_ms: u64,
}

/// The mathematical content of a [`WatchRequest`].
pub struct WatchRequestView {
    pub paths: Seq<Seq<char>>,
    pub recursive: bool,
    pub debounce_ms: u64,
}

/// The characters of each path of a list.
pub open spec fn paths_view(paths: Seq<String>) -> Seq<Seq<char>> {
    Seq::new(paths.len(), |i: int| paths[i]@)
}

impl View for WatchRequest {
    type V = WatchRequestView;

    open spec fn view(&self) -> WatchRequestView {
        WatchRequestView {
            paths: paths_view(self.paths@),
            recursive: self.recursive,
            debounce_ms: self.debounce_ms,
        }
    }
}

/// A piece of outside work that a session waits for.
#[derive(Debug, PartialEq, Eq)]
pub enum OpenAction {
    /// Construct the native watcher with this debounce window, in
    /// milliseconds.
    Construct { debounce_ms: u64 },
    /// Ask the authorization check whether this path may be read.
    CheckRead { path: String },
    /// Register this path with the native watcher.
    Watch { path: String, recursive: bool },
}

/// The mathematical content of an [`OpenAction`].
pub enum OpenActionView {
    Construct { debounce_ms: u64 },
    CheckRead { path: Seq<char> },
    Watch { path: Seq<char>, recursive: bool },
}

impl View for OpenAction {
    type V = OpenActionView;

    open spec fn view(&self) -> OpenActionView {
        match *self {
            OpenAction::Construct { debounce_ms } => OpenActionView::Construct { debounce_ms },
            OpenAction::CheckRead { path } => OpenActionView::CheckRead { path: path@ },
            OpenAction::Watch { path, recursive } => OpenActionView::Watch {
                path: path@,
                recursive,
            },
        }
    }
}

/// The answer to a piece of outside work.
#[derive(Debug)]
pub enum OpenEvent {
    /// The native watcher was constructed.
    Constructed,
    /// The native layer could not construct a watcher.
    ConstructFailed(notify::Error),
    /// The authorization check permits the path.
    Granted,
    /// The authorization check refuses the path.
    Denied,
    /// The native watcher registered the path.
    Watched,
    /// The native watcher refused the path.
    WatchFailed(notify::Error),
}

/// Where a session stands.
pub enum Phase {
    /// The native watcher is being constructed.
    Constructing,
    /// The paths before this index are registered, and the path at it is
    /// with the authorization check.
    Checking(nat),
    /// The paths before this index are registered, and the path at it, which
    /// the authorization check permitted, is with the native watcher.
    Registering(nat),
}

/// The mathematical content of an [`OpenSession`].
pub struct OpenModel {
    pub request: WatchRequestView,
    pub phase: Phase,
}

/// How far an attempt to create a watcher has come.
pub enum OpenProgressView {
    Pending(OpenModel),
    Ready(WatchRequestView),
    Failed(WatchErrorView),
}

impl OpenModel {
    /// The session of a request on which no work was done yet.
    pub open spec fn initial(request: WatchRequestView) -> OpenModel {
        OpenModel { request, phase: Phase::Constructing }
    }

    /// A session never waits on a path that the request does not hold.
    pub open spec fn well_formed(self) -> bool {
        match self.phase {
            Phase::Constructing => true,
            Phase::Checking(k) => k < self.request.paths.len(),
            Phase::Registering(k) => k < self.request.paths.len(),
        }
    }

    /// The outside work that the session waits for.
    pub open spec fn pending(self) -> OpenActionView {
        match self.phase {
            Phase::Constructing => OpenActionView::Construct {
                debounce_ms: self.request.debounce_ms,
            },
            Phase::Checking(k) => OpenActionView::CheckRead { path: self.request.paths[k as int] },
            Phase::Registering(k) => OpenActionView::Watch {
                path: self.request.paths[k as int],
                recursive: self.request.recursive,
            },
        }
    }

    /// Where the attempt stands once the paths before `next` are registered:
    /// the next path goes to the authorization check, and with no path left
    /// the attempt has succeeded.
    pub open spec fn registered(self, next: nat) -> OpenProgressView {
        if next < self.request.paths.len() {
            OpenProgressView::Pending(OpenModel { request: self.request, phase: Phase::Checking(next) })
        } else {
            OpenProgressView::Ready(self.request)
        }
    }

    /// The effect of one event.
    ///
    /// A refusal of either kind ends the attempt at once. An event that does
    /// not answer the pending work changes nothing.
    pub open spec fn step(self, event: OpenEvent) -> OpenProgressView {
        match (self.phase, event) {
            (Phase::Constructing, OpenEvent::Constructed) => self.registered(0),
            (Phase::Constructing, OpenEvent::ConstructFailed(cause)) => OpenProgressView::Failed(
                WatchErrorView::NativeWatchError(cause, None),
            ),
            (Phase::Checking(k), OpenEvent::Granted) => OpenProgressView::Pending(
                OpenModel { request: self.request, phase: Phase::Registering(k) },
            ),
            (Phase::Checking(k), OpenEvent::Denied) => OpenProgressView::Failed(
                WatchErrorView::AuthorizationDenied(self.request.paths[k as int]),
            ),
            (Phase::Registering(k), OpenEvent::Watched) => self.registered(k + 1),
            (Phase::Registering(k), OpenEvent::WatchFailed(cause)) => OpenProgressView::Failed(
                WatchErrorView::NativeWatchError(cause, None),
            ),
            _ => OpenProgressView::Pending(self),
        }
    }
}

enum Stage {
    Constructing,
    Checking(usize),
    Registering(usize),
}

impl Stage {
    spec fn phase(self) -> Phase {
        match self {
            Stage::Constructing => Phase::Constructing,
            Stage::Checking(k) => Phase::Checking(k as nat),
            Stage::Registering(k) => Phase::Registering(k as nat),
        }
    }
}

/// An attempt to create a watcher that waits for outside work.
pub struct OpenSession {
    request: WatchRequest,
    stage: Stage,
}

impl View for OpenSession {
    type V = OpenModel;

    closed spec fn view(&self) -> OpenModel {
        OpenModel { request: self.request@, phase: self.stage.phase() }
    }
}

/// The right to a handle: the proof that the native watcher was constructed
/// and that every path of the request was permitted and registered.
pub struct OpenTicket {
    request: WatchRequest,
}

impl View for OpenTicket {
    type V = WatchRequestView;

    closed spec fn view(&self) -> WatchRequestView {
        self.request@
    }
}

impl OpenTicket {
    /// The request that was carried out.
    pub fn request(&self) -> (request: &WatchRequest)
        ensures
            request@ == self@,
    {
        &self.request
    }
}

/// How far an attempt to create a watcher has come.
pub enum OpenProgress {
    /// More outside work is needed.
    Pending(OpenSession),
    /// All is done, and a handle may be issued.
    Ready(OpenTicket),
    /// The attempt is over: the native watcher is to be discarded, and no
    /// handle is issued.
    Failed(WatchError),
}

impl View for OpenProgress {
    type V = OpenProgressView;

    open spec fn view(&self) -> OpenProgressView {
        match *self {
            OpenProgress::Pending(session) => OpenProgressView::Pending(session@),
            OpenProgress::Ready(ticket) => OpenProgressView::Ready(ticket@),
            OpenProgress::Failed(error) => OpenProgressView::Failed(error@),
        }
    }
}

/// Begins the creation of a watcher for `request`.
///
/// The session that comes back waits for the native watcher to be
/// constructed.
pub fn op_fs_open_watcher(request: WatchRequest) -> (session: OpenSession)
    ensures
        session@ == OpenModel::initial(request@),
{
    OpenSession { request, stage: Stage::Constructing }
}

fn registered(request: WatchRequest, next: usize) -> (progress: OpenProgress)
    requires
        next <= request.paths.len(),
    ensures
        progress@ == (OpenModel { request: request@, phase: Phase::Constructing }).registered(
            next as nat,
        ),
{
    if next < request.paths.len() {
        OpenProgress::Pending(OpenSession { request, stage: Stage::Checking(next) })
    } else {
        OpenProgress::Ready(OpenTicket { request })
    }
}

impl OpenSession {
    #[verifier::type_invariant]
    spec fn inv(self) -> bool {
        self@.well_formed()
    }

    /// The outside work that the session waits for.
    pub fn pending(&self) -> (action: OpenAction)
        ensures
            action@ == self@.pending(),
    {
        proof {
            use_type_invariant(self);
        }
        match self.stage {
            Stage::Constructing => OpenAction::Construct { debounce_ms: self.request.debounce_ms },
            Stage::Checking(k) => OpenAction::CheckRead { path: self.request.paths[k].clone() },
            Stage::Registering(k) => OpenAction::Watch {
                path: self.request.paths[k].clone(),
                recursive: self.request.recursive,
            },
        }
    }

    /// Takes the answer to the pending work and says how the attempt goes
    /// on.
    pub fn advance(self, event: OpenEvent) -> (progress: OpenProgress)
        ensures
            progress@ == self@.step(event),
    {
        proof {
            use_type_invariant(&self);
        }
        let OpenSession { request, stage } = self;
        let count: usize = request.paths.len();
        assert(request@.paths.len() == count);
        match stage {
            Stage::Constructing => match event {
                OpenEvent::Constructed => registered(request, 0),
                OpenEvent::ConstructFailed(cause) => OpenProgress::Failed(
                    WatchError::NativeWatchError(cause, None),
                ),
                _ => OpenProgress::Pending(OpenSession { request, stage }),
            },
            Stage::Checking(k) => match event {
                OpenEvent::Granted => OpenProgress::Pending(
                    OpenSession { request, stage: Stage::Registering(k) },
                ),
                OpenEvent::Denied => OpenProgress::Failed(
                    WatchError::AuthorizationDenied(request.paths[k].clone()),
                ),
                _ => OpenProgress::Pending(OpenSession { request, stage }),
            },
            Stage::Registering(k) => match event {
                OpenEvent::Watched => registered(request, k + 1),
                OpenEvent::WatchFailed(cause) => OpenProgress::Failed(
                    WatchError::NativeWatchError(cause, None),
                ),
                _ => OpenProgress::Pending(OpenSession { request, stage }),
            },
        }
    }
}

/// Where an attempt stands after a sequence of events. Once the attempt is
/// over, later events change nothing.
pub open spec fn run(progress: OpenProgressView, events: Seq<OpenEvent>) -> OpenProgressView
    decreases events.len(),
{
    if events.len() == 0 {
        progress
    } else {
        match progress {
            OpenProgressView::Pending(session) => run(
                session.step(events[0]),
                events.drop_first(),
            ),
            _ => progress,
        }
    }
}

/// The events of an attempt in which the native watcher was constructed and
/// each of the first `count` paths was permitted and then registered.
pub open spec fn cleared(count: nat) -> Seq<OpenEvent>
    decreases count,
{
    if count == 0 {
        seq![OpenEvent::Constructed]
    } else {
        cleared((count - 1) as nat).push(OpenEvent::Granted).push(OpenEvent::Watched)
    }
}

/// How many times the authorization check permitted a path.
pub open spec fn grants(events: Seq<OpenEvent>) -> nat
    decreases events.len(),
{
    if events.len() == 0 {
        0
    } else if events[0] is Granted {
        1 + grants(events.drop_first())
    } else {
        grants(events.drop_first())
    }
}

/// How many times the native watcher registered a path.
pub open spec fn registrations(events: Seq<OpenEvent>) -> nat
    decreases events.len(),
{
    if events.len() == 0 {
        0
    } else if events[0] is Watched {
        1 + registrations(events.drop_first())
    } else {
        registrations(events.drop_first())
    }
}

impl OpenModel {
    /// The paths that still have to pass the authorization check.
    pub open spec fn unchecked(self) -> nat {
        match self.phase {
            Phase::Constructing => self.request.paths.len(),
            Phase::Checking(k) => (self.request.paths.len() - k) as nat,
            Phase::Registering(k) => (self.request.paths.len() - k - 1) as nat,
        }
    }

    /// The paths that still have to be registered.
    pub open spec fn unregistered(self) -> nat {
        match self.phase {
            Phase::Constructing => self.request.paths.len(),
            Phase::Checking(k) => (self.request.paths.len() - k) as nat,
            Phase::Registering(k) => (self.request.paths.len() - k) as nat,
        }
    }
}

/// Running over two sequences of events, one after the other, is running
/// over their concatenation.
pub proof fn lemma_run_concat(
    progress: OpenProgressView,
    first: Seq<OpenEvent>,
    second: Seq<OpenEvent>,
)
    ensures
        run(progress, first + second) == run(run(progress, first), second),
    decreases first.len(),
{
    if first.len() == 0 {
        assert(first + second == second);
    } else {
        assert((first + second).drop_first() == first.drop_first() + second);
        match progress {
            OpenProgressView::Pending(session) => {
                lemma_run_concat(session.step(first[0]), first.drop_first(), second);
            },
            _ => {
                lemma_run_over(progress, second);
                lemma_run_over(progress, first + second);
            },
        }
    }
}

/// An attempt that is over stays as it is.
pub proof fn lemma_run_over(progress: OpenProgressView, events: Seq<OpenEvent>)
    requires
        !(progress is Pending),
    ensures
        run(progress, events) == progress,
{
}

/// Running over one event is taking one step.
pub proof fn lemma_run_single(session: OpenModel, event: OpenEvent)
    ensures
        run(OpenProgressView::Pending(session), seq![event]) == session.step(event),
{
    reveal_with_fuel(run, 2);
    assert(seq![event].drop_first().len() == 0);
}

/// After the native watcher was constructed and the first `count` paths were
/// permitted and registered, the attempt waits for the authorization of the
/// next path, or has succeeded if no path is left.
pub proof fn lemma_run_cleared(request: WatchRequestView, count: nat)
    requires
        count <= request.paths.len(),
    ensures
        run(OpenProgressView::Pending(OpenModel::initial(request)), cleared(count))
            == OpenModel::initial(request).registered(count),
    decreases count,
{
    let start = OpenProgressView::Pending(OpenModel::initial(request));
    if count == 0 {
        lemma_run_single(OpenModel::initial(request), OpenEvent::Constructed);
    } else {
        let before = (count - 1) as nat;
        let checking = OpenModel { request, phase: Phase::Checking(before) };
        let registering = OpenModel { request, phase: Phase::Registering(before) };
        lemma_run_cleared(request, before);
        assert(cleared(count) == cleared(before) + seq![OpenEvent::Granted] + seq![
            OpenEvent::Watched,
        ]);
        lemma_run_concat(
            start,
            cleared(before) + seq![OpenEvent::Granted],
            seq![OpenEvent::Watched],
        );
        lemma_run_concat(start, cleared(before), seq![OpenEvent::Granted]);
        lemma_run_single(checking, OpenEvent::Granted);
        lemma_run_single(registering, OpenEvent::Watched);
    }
}

/// When the native watcher is constructed and every path is permitted and
/// registered, the attempt succeeds.
pub proof fn lemma_all_cleared_is_ready(request: WatchRequestView)
    ensures
        run(
            OpenProgressView::Pending(OpenModel::initial(request)),
            cleared(request.paths.len()),
        ) == OpenProgressView::Ready(request),
{
    lemma_run_cleared(request, request.paths.len());
}

/// However the events fall, an attempt becomes ready only for its own
/// request, and only after the authorization check permitted and the native
/// watcher registered as many paths as were still to do.
pub proof fn lemma_ready_is_earned(session: OpenModel, events: Seq<OpenEvent>)
    requires
        session.well_formed(),
        run(OpenProgressView::Pending(session), events) is Ready,
    ensures
        run(OpenProgressView::Pending(session), events) == OpenProgressView::Ready(
            session.request,
        ),
        grants(events) >= session.unchecked(),
        registrations(events) >= session.unregistered(),
    decreases events.len(),
{
    if events.len() > 0 {
        match session.step(events[0]) {
            OpenProgressView::Pending(next) => {
                lemma_ready_is_earned(next, events.drop_first());
            },
            OpenProgressView::Ready(_) => {
                lemma_run_over(session.step(events[0]), events.drop_first());
            },
            OpenProgressView::Failed(_) => {
                lemma_run_over(session.step(events[0]), events.drop_first());
            },
        }
    }
}

/// A watcher over `count` paths is ready only after at least `count` grants
/// of the authorization check and `count` registrations.
pub proof fn lemma_ready_needs_every_path(request: WatchRequestView, events: Seq<OpenEvent>)
    requires
        run(OpenProgressView::Pending(OpenModel::initial(request)), events) is Ready,
    ensures
        grants(events) >= request.paths.len(),
        registrations(events) >= request.paths.len(),
{
    lemma_ready_is_earned(OpenModel::initial(request), events);
}

/// When the native layer cannot construct a watcher, the attempt fails with
/// its error before any path is looked at.
pub proof fn lemma_failed_construction_fails_attempt(
    request: WatchRequestView,
    cause: notify::Error,
    later: Seq<OpenEvent>,
)
    ensures
        run(
            OpenProgressView::Pending(OpenModel::initial(request)),
            seq![OpenEvent::ConstructFailed(cause)] + later,
        ) == OpenProgressView::Failed(WatchErrorView::NativeWatchError(cause, None)),
{
    let start = OpenProgressView::Pending(OpenModel::initial(request));
    lemma_run_concat(start, seq![OpenEvent::ConstructFailed(cause)], later);
    lemma_run_single(OpenModel::initial(request), OpenEvent::ConstructFailed(cause));
    lemma_run_over(OpenProgressView::Failed(WatchErrorView::NativeWatchError(cause, None)), later);
}

/// When the authorization check refuses the path at `index`, after all the
/// paths before it were permitted and registered, the attempt fails with the
/// refusal of that path, whatever is reported afterwards: it never becomes
/// ready, so no ticket for a handle comes out of it.
pub proof fn lemma_denied_path_fails_attempt(
    request: WatchRequestView,
    index: nat,
    later: Seq<OpenEvent>,
)
    requires
        index < request.paths.len(),
    ensures
        run(
            OpenProgressView::Pending(OpenModel::initial(request)),
            cleared(index).push(OpenEvent::Denied) + later,
        ) == OpenProgressView::Failed(
            WatchErrorView::AuthorizationDenied(request.paths[index as int]),
        ),
{
    let start = OpenProgressView::Pending(OpenModel::initial(request));
    let checking = OpenModel { request, phase: Phase::Checking(index) };
    let failed = OpenProgressView::Failed(
        WatchErrorView::AuthorizationDenied(request.paths[index as int]),
    );
    lemma_run_cleared(request, index);
    assert(cleared(index).push(OpenEvent::Denied) == cleared(index) + seq![OpenEvent::Denied]);
    lemma_run_concat(start, cleared(index) + seq![OpenEvent::Denied], later);
    lemma_run_concat(start, cleared(index), seq![OpenEvent::Denied]);
    lemma_run_single(checking, OpenEvent::Denied);
    lemma_run_over(failed, later);
}

/// When the native watcher refuses the path at `index`, after all the paths
/// before it were permitted and registered, the attempt fails with the
/// native layer's error, whatever is reported afterwards.
pub proof fn lemma_refused_path_fails_attempt(
    request: WatchRequestView,
    index: nat,
    cause: notify::Error,
    later: Seq<OpenEvent>,
)
    requires
        index < request.paths.len(),
    ensures
        run(
            OpenProgressView::Pending(OpenModel::initial(request)),
            cleared(index).push(OpenEvent::Granted).push(OpenEvent::WatchFailed(cause)) + later,
        ) == OpenProgressView::Failed(WatchErrorView::NativeWatchError(cause, None)),
{
    let start = OpenProgressView::Pending(OpenModel::initial(request));
    let checking = OpenModel { request, phase: Phase::Checking(index) };
    let registering = OpenModel { request, phase: Phase::Registering(index) };
    let failed = OpenProgressView::Failed(WatchErrorView::NativeWatchError(cause, None));
    let granted = cleared(index) + seq![OpenEvent::Granted];
    lemma_run_cleared(request, index);
    assert(cleared(index).push(OpenEvent::Granted).push(OpenEvent::WatchFailed(cause))
        == granted + seq![OpenEvent::WatchFailed(cause)]);
    lemma_run_concat(start, granted + seq![OpenEvent::WatchFailed(cause)], later);
    lemma_run_concat(start, granted, seq![OpenEvent::WatchFailed(cause)]);
    lemma_run_concat(start, cleared(index), seq![OpenEvent::Granted]);
    lemma_run_single(checking, OpenEvent::Granted);
    lemma_run_single(registering, OpenEvent::WatchFailed(cause));
    lemma_run_over(failed, later);
}

} // verus!
