//! The dispatcher: one invocation of select, publish, delete.
//!
//! The dispatcher never touches a store or a bus. It says what to do next
//! ([`Action`]), the caller does it and reports what happened ([`Event`]),
//! and [`Dispatcher::step`] decides from there. One invocation goes
//!
//! scan scheduled -> (scan immediate) -> publish -> (delete) -> stop
//!
//! and stops early where nothing is to be sent or a call fails. A failed
//! scan of the scheduled collection, or a record in it that cannot be
//! decoded, counts as "nothing due". A failed publish ends the invocation
//! before any delete, so the item is there for the next one. A failed
//! delete is reported and the published message is not taken back.
//!
//! Two invocations must not overlap on one store: nothing here locks or
//! compares-and-swaps, so overlapping invocations can select the same item.

use crate::clock::ZonedInstant;
use crate::model::{Post, PostView};
use crate::selector::{
    check_scheduled_posts, due_post, immediate_selection, scheduled_selection, Selection,
    SelectionView, Source,
};
use crate::store::{
    all_scheduled, decode_first_post, decode_scheduled_posts, defect_message, post_defects,
    post_in, record_views, scheduled_posts_in, Record, RecordView, StoreError,
};
use vstd::prelude::*;
use vstd::string::StringExecFns;

verus! {

/// A publish that the bus did not accept.
#[derive(Debug, PartialEq, Eq)]
pub struct BusError {
    pub message: String,
}

impl View for BusError {
    type V = Seq<char>;

    open spec fn view(&self) -> Seq<char> {
        self.message@
    }
}

/// The step at which an invocation failed.
#[derive(Debug, PartialEq, Eq, Structural, Clone, Copy)]
pub enum FailedStep {
    /// Scanning or decoding the immediate backlog.
    Scan,
    /// Publishing to the bus.
    Publish,
    /// Deleting the item after it was published.
    Delete,
    /// The caller reported something that was not asked for.
    Protocol,
}

/// How an invocation ended.
#[derive(Debug, PartialEq, Eq)]
pub enum Outcome {
    /// Neither collection had an item for this invocation. No error.
    NothingToSend,
    /// An item was published; `deleted` says whether it was then deleted.
    Sent { source: Source, deleted: bool },
    /// A call failed at `step`; `message` says how.
    Failed { step: FailedStep, message: String },
}

/// What an [`Outcome`] is in contracts.
pub enum OutcomeView {
    NothingToSend,
    Sent { source: Source, deleted: bool },
    Failed { step: FailedStep, message: Seq<char> },
}

impl View for Outcome {
    type V = OutcomeView;

    open spec fn view(&self) -> OutcomeView {
        match self {
            Outcome::NothingToSend => OutcomeView::NothingToSend,
            Outcome::Sent { source, deleted } => OutcomeView::Sent {
                source: *source,
                deleted: *deleted,
            },
            Outcome::Failed { step, message } => OutcomeView::Failed {
                step: *step,
                message: message@,
            },
        }
    }
}

/// The line that reports an outcome to the operator.
pub open spec fn outcome_text(outcome: OutcomeView) -> Seq<char> {
    match outcome {
        OutcomeView::NothingToSend => "Nothing to send"@,
        OutcomeView::Sent { source: Source::Scheduled, deleted: true } =>
            "Success! Sent a scheduled post and deleted it"@,
        OutcomeView::Sent { source: Source::Scheduled, deleted: false } =>
            "Success! Sent a recurring scheduled post and kept it"@,
        OutcomeView::Sent { source: Source::Immediate, deleted: true } =>
            "Success! Sent a post from the backlog and deleted it"@,
        OutcomeView::Sent { source: Source::Immediate, deleted: false } =>
            "Success! Sent a post from the backlog and kept it"@,
        OutcomeView::Failed { step: FailedStep::Scan, message } => "Failed: "@ + message,
        OutcomeView::Failed { step: FailedStep::Protocol, message } => "Failed: "@ + message,
        OutcomeView::Failed { step: _, message } => "Failed :/ "@ + message,
    }
}

impl Outcome {
    /// Whether the invocation ended in an error. Having nothing to send is
    /// none.
    pub fn is_failure(&self) -> (failed: bool)
        ensures
            failed == (self@ is Failed),
    {
        match self {
            Outcome::Failed { .. } => true,
            _ => false,
        }
    }

    /// The line that reports this outcome to the operator. It names the
    /// collection that was used and says whether the item was deleted.
    pub fn message(&self) -> (text: String)
        ensures
            text@ == outcome_text(self@),
    {
        match self {
            Outcome::NothingToSend => "Nothing to send".to_owned(),
            Outcome::Sent { source: Source::Scheduled, deleted: true } =>
                "Success! Sent a scheduled post and deleted it".to_owned(),
            Outcome::Sent { source: Source::Scheduled, deleted: false } =>
                "Success! Sent a recurring scheduled post and kept it".to_owned(),
            Outcome::Sent { source: Source::Immediate, deleted: true } =>
                "Success! Sent a post from the backlog and deleted it".to_owned(),
            Outcome::Sent { source: Source::Immediate, deleted: false } =>
                "Success! Sent a post from the backlog and kept it".to_owned(),
            Outcome::Failed { step: FailedStep::Scan, message } => "Failed: ".to_owned().concat(
                message.as_str(),
            ),
            Outcome::Failed { step: FailedStep::Protocol, message } =>
                "Failed: ".to_owned().concat(message.as_str()),
            Outcome::Failed { step: _, message } => "Failed :/ ".to_owned().concat(
                message.as_str(),
            ),
        }
    }
}

/// What the caller is asked to do next.
#[derive(Debug, PartialEq, Eq)]
pub enum Action {
    /// Scan the whole scheduled collection.
    ScanScheduled,
    /// Scan the immediate backlog for at most `limit` records.
    ScanImmediate { limit: u32 },
    /// Publish `message` on the bus.
    Publish { message: Post },
    /// Delete the item with this key from `source`. Deleting a key that is
    /// already gone is no error.
    Delete { source: Source, key: String },
    /// The invocation is over.
    Stop { outcome: Outcome },
}

/// What an [`Action`] is in contracts.
pub enum ActionView {
    ScanScheduled,
    ScanImmediate { limit: u32 },
    Publish { message: PostView },
    Delete { source: Source, key: Seq<char> },
    Stop { outcome: OutcomeView },
}

impl View for Action {
    type V = ActionView;

    open spec fn view(&self) -> ActionView {
        match self {
            Action::ScanScheduled => ActionView::ScanScheduled,
            Action::ScanImmediate { limit } => ActionView::ScanImmediate { limit: *limit },
            Action::Publish { message } => ActionView::Publish { message: message@ },
            Action::Delete { source, key } => ActionView::Delete { source: *source, key: key@ },
            Action::Stop { outcome } => ActionView::Stop { outcome: outcome@ },
        }
    }
}

/// What the caller reports back.
#[derive(Debug)]
pub enum Event {
    /// The answer to [`Action::ScanScheduled`].
    ScheduledScanned(Result<Vec<Record>, StoreError>),
    /// The answer to [`Action::ScanImmediate`].
    ImmediateScanned(Result<Vec<Record>, StoreError>),
    /// The answer to [`Action::Publish`].
    Published(Result<(), BusError>),
    /// The answer to [`Action::Delete`].
    Deleted(Result<(), StoreError>),
}

/// What an [`Event`] is in contracts.
pub enum EventView {
    ScheduledScanned(Result<Seq<RecordView>, Seq<char>>),
    ImmediateScanned(Result<Seq<RecordView>, Seq<char>>),
    Published(Result<(), Seq<char>>),
    Deleted(Result<(), Seq<char>>),
}

/// The view of a scan's answer.
pub open spec fn scan_view(scan: Result<Vec<Record>, StoreError>) -> Result<
    Seq<RecordView>,
    Seq<char>,
> {
    match scan {
        Ok(records) => Ok(record_views(records@)),
        Err(error) => Err(error@),
    }
}

impl View for Event {
    type V = EventView;

    open spec fn view(&self) -> EventView {
        match self {
            Event::ScheduledScanned(scan) => EventView::ScheduledScanned(scan_view(*scan)),
            Event::ImmediateScanned(scan) => EventView::ImmediateScanned(scan_view(*scan)),
            Event::Published(Ok(())) => EventView::Published(Ok(())),
            Event::Published(Err(error)) => EventView::Published(Err(error@)),
            Event::Deleted(Ok(())) => EventView::Deleted(Ok(())),
            Event::Deleted(Err(error)) => EventView::Deleted(Err(error@)),
        }
    }
}

/// Where an invocation stands: which answer it waits for.
#[derive(Debug, PartialEq, Eq)]
pub enum Phase {
    AwaitScheduled,
    AwaitImmediate,
    AwaitPublish(Selection),
    AwaitDelete(Selection),
    Finished,
}

/// What a [`Phase`] is in contracts.
pub enum PhaseView {
    AwaitScheduled,
    AwaitImmediate,
    AwaitPublish(SelectionView),
    AwaitDelete(SelectionView),
    Finished,
}

impl View for Phase {
    type V = PhaseView;

    open spec fn view(&self) -> PhaseView {
        match self {
            Phase::AwaitScheduled => PhaseView::AwaitScheduled,
            Phase::AwaitImmediate => PhaseView::AwaitImmediate,
            Phase::AwaitPublish(selection) => PhaseView::AwaitPublish(selection@),
            Phase::AwaitDelete(selection) => PhaseView::AwaitDelete(selection@),
            Phase::Finished => PhaseView::Finished,
        }
    }
}

/// The scheduled item that a scan makes due at `now`. A scan that failed,
/// or that holds a record that is no scheduled post, makes none due.
pub open spec fn due_in_scan(scan: Result<Seq<RecordView>, Seq<char>>, now: ZonedInstant) -> Option<
    SelectionView,
> {
    match scan {
        Ok(records) => if all_scheduled(records) {
            match due_post(scheduled_posts_in(records), now) {
                Some(post) => Some(scheduled_selection(post)),
                None => None,
            }
        } else {
            None
        },
        Err(_) => None,
    }
}

/// What follows a scan of the immediate backlog when nothing was due.
pub open spec fn after_immediate_scan(scan: Result<Seq<RecordView>, Seq<char>>) -> (
    PhaseView,
    ActionView,
) {
    match scan {
        Err(message) => stop(OutcomeView::Failed { step: FailedStep::Scan, message }),
        Ok(records) => if records.len() == 0 {
            stop(OutcomeView::NothingToSend)
        } else if post_defects(records[0]).len() > 0 {
            stop(
                OutcomeView::Failed {
                    step: FailedStep::Scan,
                    message: defect_message(post_defects(records[0])[0]),
                },
            )
        } else {
            publish(immediate_selection(post_in(records[0])))
        },
    }
}

/// The end of an invocation.
pub open spec fn stop(outcome: OutcomeView) -> (PhaseView, ActionView) {
    (PhaseView::Finished, ActionView::Stop { outcome })
}

/// The request to publish a selected item.
pub open spec fn publish(selection: SelectionView) -> (PhaseView, ActionView) {
    (PhaseView::AwaitPublish(selection), ActionView::Publish { message: selection.post })
}

/// The transition of the dispatcher: from where an invocation stands and
/// what the caller reports to where it stands next and what is asked next.
pub open spec fn next_step(phase: PhaseView, now: ZonedInstant, event: EventView) -> (
    PhaseView,
    ActionView,
) {
    match (phase, event) {
        (PhaseView::AwaitScheduled, EventView::ScheduledScanned(scan)) => match due_in_scan(
            scan,
            now,
        ) {
            Some(selection) => publish(selection),
            None => (PhaseView::AwaitImmediate, ActionView::ScanImmediate { limit: 1 }),
        },
        (PhaseView::AwaitImmediate, EventView::ImmediateScanned(scan)) => after_immediate_scan(
            scan,
        ),
        (PhaseView::AwaitPublish(selection), EventView::Published(Ok(()))) => if selection.delete_after_dispatch {
            (
                PhaseView::AwaitDelete(selection),
                ActionView::Delete { source: selection.source, key: selection.post.uuid },
            )
        } else {
            stop(OutcomeView::Sent { source: selection.source, deleted: false })
        },
        (PhaseView::AwaitPublish(_), EventView::Published(Err(message))) => stop(
            OutcomeView::Failed { step: FailedStep::Publish, message },
        ),
        (PhaseView::AwaitDelete(selection), EventView::Deleted(Ok(()))) => stop(
            OutcomeView::Sent { source: selection.source, deleted: true },
        ),
        (PhaseView::AwaitDelete(_), EventView::Deleted(Err(message))) => stop(
            OutcomeView::Failed { step: FailedStep::Delete, message },
        ),
        _ => stop(OutcomeView::Failed { step: FailedStep::Protocol, message: "unexpected event"@ }),
    }
}

/// One invocation of the pipeline, as far as it has come.
#[derive(Debug, PartialEq, Eq)]
pub struct Dispatcher {
    now: ZonedInstant,
    phase: Phase,
}

/// What a [`Dispatcher`] is in contracts.
pub struct DispatcherView {
    pub now: ZonedInstant,
    pub phase: PhaseView,
}

impl View for Dispatcher {
    type V = DispatcherView;

    closed spec fn view(&self) -> DispatcherView {
        DispatcherView { now: self.now, phase: self.phase@ }
    }
}

fn finish(now: ZonedInstant, outcome: Outcome) -> (next: (Dispatcher, Action))
    ensures
        next.0@.now == now,
        (next.0@.phase, next.1@) == stop(outcome@),
{
    (Dispatcher { now, phase: Phase::Finished }, Action::Stop { outcome })
}

fn request_publish(now: ZonedInstant, selection: Selection) -> (next: (Dispatcher, Action))
    ensures
        next.0@.now == now,
        (next.0@.phase, next.1@) == publish(selection@),
{
    let message = selection.post.clone();
    (Dispatcher { now, phase: Phase::AwaitPublish(selection) }, Action::Publish { message })
}

impl Dispatcher {
    /// Begins an invocation at `now`. The first thing to do is to scan the
    /// scheduled collection.
    pub fn start(now: ZonedInstant) -> (begun: (Dispatcher, Action))
        ensures
            begun.0@ == (DispatcherView { now, phase: PhaseView::AwaitScheduled }),
            begun.1@ == ActionView::ScanScheduled,
    {
        (Dispatcher { now, phase: Phase::AwaitScheduled }, Action::ScanScheduled)
    }

    /// Whether the invocation is over.
    pub fn is_finished(&self) -> (finished: bool)
        ensures
            finished == (self@.phase is Finished),
    {
        match self.phase {
            Phase::Finished => true,
            _ => false,
        }
    }

    /// Takes the caller's report and decides what comes next.
    ///
    /// The result is [`next_step`] of the phase, the invocation's "now" and
    /// the event. A report that does not answer the pending action ends the
    /// invocation with a failure at [`FailedStep::Protocol`].
    pub fn step(self, event: Event) -> (next: (Dispatcher, Action))
        ensures
            next.0@.now == self@.now,
            (next.0@.phase, next.1@) == next_step(self@.phase, self@.now, event@),
    {
        let now = self.now;
        match (self.phase, event) {
            (Phase::AwaitScheduled, Event::ScheduledScanned(scan)) => {
                let due = match scan {
                    Ok(records) => match decode_scheduled_posts(&records) {
                        Ok(posts) => check_scheduled_posts(&posts, &now),
                        Err(_) => None,
                    },
                    Err(_) => None,
                };
                match due {
                    Some(post) => request_publish(now, Selection::from_scheduled(post)),
                    None => (
                        Dispatcher { now, phase: Phase::AwaitImmediate },
                        Action::ScanImmediate { limit: 1 },
                    ),
                }
            },
            (Phase::AwaitImmediate, Event::ImmediateScanned(scan)) => match scan {
                Err(error) => finish(
                    now,
                    Outcome::Failed { step: FailedStep::Scan, message: error.message },
                ),
                Ok(records) => match decode_first_post(&records) {
                    Ok(None) => finish(now, Outcome::NothingToSend),
                    Ok(Some(post)) => request_publish(now, Selection::from_immediate(post)),
                    Err(error) => finish(
                        now,
                        Outcome::Failed {
                            step: FailedStep::Scan,
                            message: error.to_error().to_string(),
                        },
                    ),
                },
            },
            (Phase::AwaitPublish(selection), Event::Published(Ok(()))) => {
                if selection.delete_after_dispatch {
                    let source = selection.source;
                    let key = selection.post.uuid.clone();
                    (
                        Dispatcher { now, phase: Phase::AwaitDelete(selection) },
                        Action::Delete { source, key },
                    )
                } else {
                    finish(now, Outcome::Sent { source: selection.source, deleted: false })
                }
            },
            (Phase::AwaitPublish(_), Event::Published(Err(error))) => finish(
                now,
                Outcome::Failed { step: FailedStep::Publish, message: error.message },
            ),
            (Phase::AwaitDelete(selection), Event::Deleted(Ok(()))) => finish(
                now,
                Outcome::Sent { source: selection.source, deleted: true },
            ),
            (Phase::AwaitDelete(_), Event::Deleted(Err(error))) => finish(
                now,
                Outcome::Failed { step: FailedStep::Delete, message: error.message },
            ),
            _ => finish(
                now,
                Outcome::Failed {
                    step: FailedStep::Protocol,
                    message: "unexpected event".to_owned(),
                },
            ),
        }
    }
}

} // verus!
