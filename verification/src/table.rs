//! The handle table: the live watchers, each behind the handle that was
//! issued for it, and the polling of their events.
//!
//! A watcher is active until a receive on its channel finds the channel
//! closed. From then on it is closed for good, and every poll reports the
//! closing without another receive. Disposing of a watcher takes its handle
//! out of the table, and the handle is never issued again.

use std::collections::HashMap;
use vstd::prelude::*;

use crate::error::{WatchError, WatchErrorView};
use crate::event::{
    bare, delivery_view, translate, translate_spec, EventKind, PortableEvent, PortableEventView,
    RawOutcome,
};
use crate::open::OpenTicket;

verus! {

broadcast use vstd::std_specs::hash::group_hash_axioms;

/// A watcher as the table holds it: the resource that the driver works
/// with, which the library carries and never looks into, and whether its
/// channel was found closed.
pub struct Slot<R> {
    pub resource: R,
    pub closed: bool,
}

/// The mathematical content of a [`WatcherTable`]: the watchers by their
/// handles, and the handle that is issued next.
pub struct TableModel<R> {
    pub slots: Map<u32, Slot<R>>,
    pub next: nat,
}

/// What a poll does before anything is received.
pub enum PollStepView<R> {
    /// The watcher is active: receive on the channel of this resource.
    Receive(R),
    /// The watcher is closed: report this event.
    Deliver(PortableEventView),
}

/// An operation on the table.
pub enum TableOp<R> {
    /// A handle is issued for a new watcher.
    Issue(R),
    /// A poll on the handle ends with this outcome of its receive.
    Finish(u32, RawOutcome),
    /// The watcher behind the handle is disposed of.
    Dispose(u32),
}

impl<R> TableModel<R> {
    /// Every handle in the table was issued before the one that is issued
    /// next.
    pub open spec fn well_formed(self) -> bool {
        &&& self.slots.dom().finite()
        &&& self.next <= u32::MAX
        &&& forall|rid: u32| self.slots.contains_key(rid) ==> rid < self.next
    }

    /// Whether a handle is left to issue.
    pub open spec fn has_room(self) -> bool {
        self.next < u32::MAX
    }

    /// Whether the handle refers to a watcher.
    pub open spec fn is_live(self, rid: u32) -> bool {
        self.slots.contains_key(rid)
    }

    /// Whether the handle refers to a watcher whose channel was found
    /// closed.
    pub open spec fn is_closed(self, rid: u32) -> bool {
        self.slots.contains_key(rid) && self.slots[rid].closed
    }

    /// The table after a handle was issued for `resource`.
    pub open spec fn issue(self, resource: R) -> TableModel<R> {
        TableModel {
            slots: self.slots.insert(self.next as u32, Slot { resource, closed: false }),
            next: self.next + 1,
        }
    }

    /// The table after the watcher behind `rid` was disposed of.
    pub open spec fn dispose(self, rid: u32) -> TableModel<R> {
        TableModel { slots: self.slots.remove(rid), next: self.next }
    }

    /// What a poll on `rid` does before anything is received.
    pub open spec fn poll(self, rid: u32) -> Result<PollStepView<R>, WatchErrorView> {
        if !self.slots.contains_key(rid) {
            Err(WatchErrorView::UnknownHandle(rid))
        } else if self.slots[rid].closed {
            Ok(PollStepView::Deliver(bare(EventKind::WatcherClosed)))
        } else {
            Ok(PollStepView::Receive(self.slots[rid].resource))
        }
    }

    /// The table after a poll on `rid` ended with `outcome`: a watcher whose
    /// channel was found closed is closed from then on, and nothing else
    /// changes.
    pub open spec fn finish(self, rid: u32, outcome: RawOutcome) -> TableModel<R> {
        if outcome is Closed && self.slots.contains_key(rid) {
            TableModel {
                slots: self.slots.insert(
                    rid,
                    Slot { resource: self.slots[rid].resource, closed: true },
                ),
                next: self.next,
            }
        } else {
            self
        }
    }

    /// The table after one operation. A handle is issued only while one is
    /// left.
    pub open spec fn apply(self, op: TableOp<R>) -> TableModel<R> {
        match op {
            TableOp::Issue(resource) => if self.has_room() {
                self.issue(resource)
            } else {
                self
            },
            TableOp::Finish(rid, outcome) => self.finish(rid, outcome),
            TableOp::Dispose(rid) => self.dispose(rid),
        }
    }

    /// The table after a sequence of operations.
    pub open spec fn apply_all(self, ops: Seq<TableOp<R>>) -> TableModel<R>
        decreases ops.len(),
    {
        if ops.len() == 0 {
            self
        } else {
            self.apply(ops[0]).apply_all(ops.drop_first())
        }
    }
}

/// The live watchers of a process, each behind its handle.
pub struct WatcherTable<R> {
    slots: HashMap<u32, Slot<R>>,
    next_rid: u32,
}

impl<R> View for WatcherTable<R> {
    type V = TableModel<R>;

    closed spec fn view(&self) -> TableModel<R> {
        TableModel { slots: self.slots@, next: self.next_rid as nat }
    }
}

/// What a poll does before anything is received.
pub enum PollStep<'a, R> {
    /// The watcher is active: receive on the channel of this resource, and
    /// finish the poll with the outcome.
    Receive(&'a R),
    /// The watcher is closed: report this event.
    Deliver(PortableEvent),
}

/// The mathematical content of the first step of a poll.
pub open spec fn poll_view<R>(r: Result<PollStep<'_, R>, WatchError>) -> Result<
    PollStepView<R>,
    WatchErrorView,
> {
    match r {
        Ok(PollStep::Receive(resource)) => Ok(PollStepView::Receive(*resource)),
        Ok(PollStep::Deliver(event)) => Ok(PollStepView::Deliver(event@)),
        Err(error) => Err(error@),
    }
}

impl<R> WatcherTable<R> {
    /// A table that holds no watcher.
    pub fn new() -> (table: Self)
        ensures
            table@.slots == Map::<u32, Slot<R>>::empty(),
            table@.next == 0,
            table@.well_formed(),
    {
        WatcherTable { slots: HashMap::new(), next_rid: 0 }
    }

    /// Whether a handle is left to issue.
    pub fn has_room(&self) -> (room: bool)
        ensures
            room == self@.has_room(),
    {
        self.next_rid < u32::MAX
    }

    /// Whether the handle refers to a watcher.
    pub fn is_live(&self, rid: u32) -> (live: bool)
        ensures
            live == self@.is_live(rid),
    {
        self.slots.contains_key(&rid)
    }

    /// Whether the handle refers to a watcher whose channel was found
    /// closed.
    pub fn is_closed(&self, rid: u32) -> (closed: bool)
        ensures
            closed == self@.is_closed(rid),
    {
        match self.slots.get(&rid) {
            Some(slot) => slot.closed,
            None => false,
        }
    }

    /// Issues a handle for a watcher that was created. The ticket is used
    /// up; the handle is one that no watcher ever had.
    pub fn issue(&mut self, _ticket: OpenTicket, resource: R) -> (rid: u32)
        requires
            old(self)@.well_formed(),
            old(self)@.has_room(),
        ensures
            rid == old(self)@.next,
            !old(self)@.is_live(rid),
            final(self)@ == old(self)@.issue(resource),
            final(self)@.well_formed(),
    {
        let rid: u32 = self.next_rid;
        self.next_rid = rid + 1;
        self.slots.insert(rid, Slot { resource, closed: false });
        rid
    }

    /// Disposes of the watcher behind `rid` and hands out its resource, for
    /// the driver to release. With no such watcher nothing changes.
    pub fn dispose(&mut self, rid: u32) -> (resource: Option<R>)
        requires
            old(self)@.well_formed(),
        ensures
            final(self)@ == old(self)@.dispose(rid),
            final(self)@.well_formed(),
            match resource {
                Some(r) => old(self)@.is_live(rid) && r == old(self)@.slots[rid].resource,
                None => !old(self)@.is_live(rid),
            },
    {
        match self.slots.remove(&rid) {
            Some(slot) => Some(slot.resource),
            None => None,
        }
    }

    /// Ends a poll on `rid` with the outcome of its receive: translates the
    /// outcome, and marks the watcher closed if the channel was found
    /// closed.
    ///
    /// The outcome is translated whether or not the handle is still live: a
    /// poll that was blocked while its watcher was disposed of reports the
    /// closing, not an unknown handle.
    pub fn finish_poll(&mut self, rid: u32, outcome: RawOutcome) -> (r: Result<
        PortableEvent,
        WatchError,
    >)
        requires
            old(self)@.well_formed(),
        ensures
            delivery_view(r) == translate_spec(outcome),
            final(self)@ == old(self)@.finish(rid, outcome),
            final(self)@.well_formed(),
    {
        let closed: bool = match &outcome {
            RawOutcome::Closed => true,
            RawOutcome::Event(_) => false,
        };
        if closed {
            match self.slots.remove(&rid) {
                Some(slot) => {
                    self.slots.insert(rid, Slot { resource: slot.resource, closed: true });
                    assert(self.slots@ == old(self).slots@.insert(
                        rid,
                        Slot { resource: old(self).slots@[rid].resource, closed: true },
                    ));
                },
                None => {
                    assert(self.slots@ == old(self).slots@);
                },
            }
        }
        translate(outcome)
    }
}

/// Begins a poll on `rid`.
///
/// A handle that refers to no watcher is refused. For a closed watcher the
/// closing is reported at once. For an active one the resource to receive on
/// is handed out; the poll is finished with `finish_poll`.
pub fn op_fs_poll_watcher<'a, R>(table: &'a WatcherTable<R>, rid: u32) -> (r: Result<
    PollStep<'a, R>,
    WatchError,
>)
    ensures
        poll_view(r) == table@.poll(rid),
{
    match table.slots.get(&rid) {
        None => Err(WatchError::UnknownHandle(rid)),
        Some(slot) => if slot.closed {
            Ok(
                PollStep::Deliver(
                    PortableEvent {
                        kind: EventKind::WatcherClosed,
                        source: None,
                        destination: None,
                    },
                ),
            )
        } else {
            Ok(PollStep::Receive(&slot.resource))
        },
    }
}

/// What polls on `rid` report when they are made one after another and the
/// receives that they lead to yield `outcomes`, in this order. A poll that
/// is refused or that reports the closing at once takes no outcome; the
/// polls end when the outcomes are used up.
pub open spec fn poll_reports<R>(table: TableModel<R>, rid: u32, outcomes: Seq<RawOutcome>) -> Seq<
    Result<PortableEventView, WatchErrorView>,
>
    decreases outcomes.len(),
{
    if outcomes.len() == 0 {
        Seq::empty()
    } else {
        match table.poll(rid) {
            Ok(PollStepView::Receive(_)) => seq![translate_spec(outcomes[0])] + poll_reports(
                table.finish(rid, outcomes[0]),
                rid,
                outcomes.drop_first(),
            ),
            _ => Seq::empty(),
        }
    }
}

/// No operation breaks the table's invariant, and the handle that is issued
/// next never goes down.
pub proof fn lemma_apply_all_preserves<R>(table: TableModel<R>, ops: Seq<TableOp<R>>)
    requires
        table.well_formed(),
    ensures
        table.apply_all(ops).well_formed(),
        table.next <= table.apply_all(ops).next,
    decreases ops.len(),
{
    if ops.len() > 0 {
        lemma_apply_all_preserves(table.apply(ops[0]), ops.drop_first());
    }
}

/// Once a watcher is closed it stays closed: whatever else is done with the
/// table, as long as the watcher is not disposed of, every poll on its
/// handle reports the closing.
pub proof fn lemma_closed_is_terminal<R>(table: TableModel<R>, rid: u32, ops: Seq<TableOp<R>>)
    requires
        table.well_formed(),
        table.is_closed(rid),
        forall|i: int| 0 <= i < ops.len() ==> ops[i] != TableOp::<R>::Dispose(rid),
    ensures
        table.apply_all(ops).is_closed(rid),
        table.apply_all(ops).poll(rid) == Ok::<PollStepView<R>, WatchErrorView>(
            PollStepView::Deliver(bare(EventKind::WatcherClosed)),
        ),
    decreases ops.len(),
{
    if ops.len() > 0 {
        let after = table.apply(ops[0]);
        assert(ops[0] != TableOp::<R>::Dispose(rid));
        assert(after.is_closed(rid));
        assert forall|i: int| 0 <= i < ops.drop_first().len() implies ops.drop_first()[i]
            != TableOp::<R>::Dispose(rid) by {
            assert(ops.drop_first()[i] == ops[i + 1]);
        }
        assert(after.well_formed());
        lemma_closed_is_terminal(after, rid, ops.drop_first());
    }
}

/// A poll that finds the channel closed closes the watcher: from then on,
/// whatever else is done with the table, as long as the watcher is not
/// disposed of, every poll on its handle reports the closing.
pub proof fn lemma_closure_repeats<R>(table: TableModel<R>, rid: u32, ops: Seq<TableOp<R>>)
    requires
        table.well_formed(),
        table.is_live(rid),
        forall|i: int| 0 <= i < ops.len() ==> ops[i] != TableOp::<R>::Dispose(rid),
    ensures
        table.finish(rid, RawOutcome::Closed).apply_all(ops).poll(rid) == Ok::<
            PollStepView<R>,
            WatchErrorView,
        >(PollStepView::Deliver(bare(EventKind::WatcherClosed))),
{
    lemma_closed_is_terminal(table.finish(rid, RawOutcome::Closed), rid, ops);
}

/// A handle whose watcher was disposed of is unknown from then on: no later
/// operation brings it back, since a handle is issued once only.
pub proof fn lemma_disposed_is_unknown<R>(table: TableModel<R>, rid: u32, ops: Seq<TableOp<R>>)
    requires
        table.well_formed(),
        table.is_live(rid),
    ensures
        table.dispose(rid).apply_all(ops).poll(rid) == Err::<PollStepView<R>, WatchErrorView>(
            WatchErrorView::UnknownHandle(rid),
        ),
{
    lemma_retired_is_unknown(table.dispose(rid), rid, ops);
}

/// A handle that was issued and is no longer in the table does not come
/// back.
pub proof fn lemma_retired_is_unknown<R>(table: TableModel<R>, rid: u32, ops: Seq<TableOp<R>>)
    requires
        table.well_formed(),
        !table.is_live(rid),
        rid < table.next,
    ensures
        !table.apply_all(ops).is_live(rid),
        table.apply_all(ops).poll(rid) == Err::<PollStepView<R>, WatchErrorView>(
            WatchErrorView::UnknownHandle(rid),
        ),
    decreases ops.len(),
{
    if ops.len() > 0 {
        let after = table.apply(ops[0]);
        assert(after.well_formed());
        assert(!after.is_live(rid));
        lemma_retired_is_unknown(after, rid, ops.drop_first());
    }
}

/// Polls on an active watcher, made one after another, report the outcomes
/// of their receives one for one and in order, up to the first that finds
/// the channel closed: none is reported twice, and none is left out.
pub proof fn lemma_polls_report_in_order<R>(
    table: TableModel<R>,
    rid: u32,
    outcomes: Seq<RawOutcome>,
)
    requires
        table.is_live(rid),
        !table.is_closed(rid),
        forall|i: int| 0 <= i < outcomes.len() - 1 ==> !(#[trigger] outcomes[i] is Closed),
    ensures
        poll_reports(table, rid, outcomes).len() == outcomes.len(),
        forall|i: int|
            0 <= i < outcomes.len() ==> #[trigger] poll_reports(table, rid, outcomes)[i]
                == translate_spec(outcomes[i]),
    decreases outcomes.len(),
{
    if outcomes.len() > 0 {
        let rest = outcomes.drop_first();
        let after = table.finish(rid, outcomes[0]);
        if rest.len() > 0 {
            assert(!(outcomes[0] is Closed));
            assert forall|i: int| 0 <= i < rest.len() - 1 implies !(#[trigger] rest[i] is Closed) by {
                assert(rest[i] == outcomes[i + 1]);
            }
            lemma_polls_report_in_order(after, rid, rest);
        }
        let reports = poll_reports(table, rid, outcomes);
        assert(reports == seq![translate_spec(outcomes[0])] + poll_reports(after, rid, rest));
        assert forall|i: int| 0 <= i < outcomes.len() implies #[trigger] reports[i]
            == translate_spec(outcomes[i]) by {
            if i > 0 {
                assert(reports[i] == poll_reports(after, rid, rest)[i - 1]);
                assert(rest[i - 1] == outcomes[i]);
            }
        }
    }
}

} // verus!
