//! One invocation of the dispatcher against a model of store and bus, and
//! what holds of every such invocation.
//!
//! The model is the interface that the dispatcher consumes: two collections
//! of records that can be scanned and deleted from by key, and a bus that
//! keeps what was published. Each of the four calls may fail, in which case
//! it changes nothing. Nothing here is executable; the functions below are
//! statements about [`next_step`], proved for all stores, all instants and
//! all failures.

use crate::clock::ZonedInstant;
use crate::dispatcher::{due_in_scan, next_step, ActionView, EventView, OutcomeView, PhaseView};
use crate::model::{PostView, ScheduledPostView};
use crate::selector::{due_post, scheduled_selection, selection_of, Source};
use crate::store::{
    all_posts, all_scheduled, attribute_name, post_defects, post_in, posts_in,
    scheduled_posts_in, FieldName, RecordView,
};
use vstd::prelude::*;

verus! {

/// The content store and what the bus has taken.
pub struct World {
    /// The scheduled collection, in the order in which a scan returns it.
    pub scheduled: Seq<RecordView>,
    /// The immediate backlog, in the order in which a scan returns it.
    pub immediate: Seq<RecordView>,
    /// Every message the bus accepted, oldest first.
    pub published: Seq<PostView>,
}

/// Which calls fail during an invocation, each with the message of its
/// failure.
pub struct Faults {
    pub scan_scheduled: Option<Seq<char>>,
    pub scan_immediate: Option<Seq<char>>,
    pub publish: Option<Seq<char>>,
    pub delete: Option<Seq<char>>,
}

/// An invocation in which every call succeeds.
pub open spec fn no_faults() -> Faults {
    Faults { scan_scheduled: None, scan_immediate: None, publish: None, delete: None }
}

/// The key under which a record is stored, where it has one.
pub open spec fn key_of(record: RecordView) -> Option<Seq<char>> {
    let name = attribute_name(FieldName::Uuid);
    if record.contains_key(name) && record[name] is Text {
        Some(record[name]->Text_0)
    } else {
        None
    }
}

/// Whether a collection holds a record under `key`.
pub open spec fn holds_key(records: Seq<RecordView>, key: Seq<char>) -> bool {
    exists|i: int| 0 <= i < records.len() && key_of(#[trigger] records[i]) == Some(key)
}

/// A collection after the delete of `key`: every record but those stored
/// under it, in their order.
pub open spec fn without_key(records: Seq<RecordView>, key: Seq<char>) -> Seq<RecordView> {
    records.filter(|record: RecordView| key_of(record) != Some(key))
}

/// What a scan answers.
pub open spec fn scan_answer(records: Seq<RecordView>, fault: Option<Seq<char>>) -> Result<
    Seq<RecordView>,
    Seq<char>,
> {
    match fault {
        Some(message) => Err(message),
        None => Ok(records),
    }
}

/// What a call that returns nothing answers.
pub open spec fn unit_answer(fault: Option<Seq<char>>) -> Result<(), Seq<char>> {
    match fault {
        Some(message) => Err(message),
        None => Ok(()),
    }
}

/// The first `limit` records of a collection, or all of it if it is
/// shorter.
pub open spec fn head(records: Seq<RecordView>, limit: u32) -> Seq<RecordView> {
    if limit < records.len() {
        records.take(limit as int)
    } else {
        records
    }
}

/// What carrying out an action does to the world, and what is reported
/// back. Stopping does nothing and reports nothing.
pub open spec fn perform(world: World, faults: Faults, action: ActionView) -> (
    World,
    Option<EventView>,
) {
    match action {
        ActionView::ScanScheduled => (
            world,
            Some(EventView::ScheduledScanned(scan_answer(world.scheduled, faults.scan_scheduled))),
        ),
        ActionView::ScanImmediate { limit } => (
            world,
            Some(
                EventView::ImmediateScanned(
                    scan_answer(head(world.immediate, limit), faults.scan_immediate),
                ),
            ),
        ),
        ActionView::Publish { message } => (
            if faults.publish is Some {
                world
            } else {
                World { published: world.published.push(message), ..world }
            },
            Some(EventView::Published(unit_answer(faults.publish))),
        ),
        ActionView::Delete { source, key } => (
            if faults.delete is Some {
                world
            } else {
                match source {
                    Source::Scheduled => World {
                        scheduled: without_key(world.scheduled, key),
                        ..world
                    },
                    Source::Immediate => World {
                        immediate: without_key(world.immediate, key),
                        ..world
                    },
                }
            },
            Some(EventView::Deleted(unit_answer(faults.delete))),
        ),
        ActionView::Stop { outcome } => (world, None),
    }
}

/// An invocation as far as it has run: the world it left, and every action
/// that was asked for, in order.
pub struct Run {
    pub world: World,
    pub actions: Seq<ActionView>,
}

/// Carries out `action` and whatever the dispatcher asks for after it, for
/// at most `exchanges` further answers.
pub open spec fn run_from(
    world: World,
    faults: Faults,
    now: ZonedInstant,
    phase: PhaseView,
    action: ActionView,
    exchanges: nat,
) -> Run
    decreases exchanges,
{
    let (after, answer) = perform(world, faults, action);
    match answer {
        Some(event) if exchanges > 0 => {
            let (next_phase, next_action) = next_step(phase, now, event);
            let rest = run_from(
                after,
                faults,
                now,
                next_phase,
                next_action,
                (exchanges - 1) as nat,
            );
            Run { world: rest.world, actions: seq![action] + rest.actions }
        },
        _ => Run { world: after, actions: seq![action] },
    }
}

/// One whole invocation at `now`: it begins with the scan of the scheduled
/// collection, and four answers are as many as any invocation takes.
pub open spec fn run(world: World, faults: Faults, now: ZonedInstant) -> Run {
    run_from(world, faults, now, PhaseView::AwaitScheduled, ActionView::ScanScheduled, 4)
}

/// The outcome with which a run stopped.
pub open spec fn outcome_of(run: Run) -> Option<OutcomeView> {
    match run.actions.last() {
        ActionView::Stop { outcome } => Some(outcome),
        _ => None,
    }
}

/// The scheduled item that is due in a world at `now`, where the scan
/// succeeds: the one an invocation selects.
pub open spec fn due_item(world: World, now: ZonedInstant) -> Option<ScheduledPostView> {
    if all_scheduled(world.scheduled) {
        due_post(scheduled_posts_in(world.scheduled), now)
    } else {
        None
    }
}

/// Every invocation stops: within four answers the dispatcher asks for
/// nothing more, whatever the store holds and whichever calls fail.
pub proof fn lemma_invocation_stops(world: World, faults: Faults, now: ZonedInstant)
    ensures
        outcome_of(run(world, faults, now)) is Some,
        run(world, faults, now).actions.len() <= 5,
{
    reveal_with_fuel(run_from, 5);
}

/// A due scheduled item that does not recur is gone from the scheduled
/// collection after it was dispatched; one that recurs is still there, and
/// the collection is as it was.
///
/// Stated of every world in which an item is due and of an invocation in
/// which every call succeeds. In both cases the item was published once,
/// and the immediate backlog was not touched.
pub proof fn lemma_dispatch_of_scheduled_item(world: World, now: ZonedInstant)
    requires
        due_item(world, now) is Some,
    ensures
        ({
            let item = due_item(world, now)->0;
            let after = run(world, no_faults(), now);
            &&& after.world.published == world.published.push(scheduled_selection(item).post)
            &&& after.world.immediate == world.immediate
            &&& item.recurring ==> after.world.scheduled == world.scheduled
            &&& !item.recurring ==> after.world.scheduled == without_key(
                world.scheduled,
                item.uuid,
            )
            &&& !item.recurring ==> !holds_key(after.world.scheduled, item.uuid)
            &&& outcome_of(after) == Some(
                OutcomeView::Sent { source: Source::Scheduled, deleted: !item.recurring },
            )
        }),
{
    reveal_with_fuel(run_from, 5);
    let item = due_item(world, now)->0;
    lemma_deleted_key_is_gone(world.scheduled, item.uuid);
}

/// Where nothing is due, the head of the immediate backlog is published
/// once and is gone from the backlog afterwards; the scheduled collection is
/// not touched.
///
/// Stated of every world whose backlog begins with a record that is a post,
/// and of an invocation in which every call succeeds.
pub proof fn lemma_dispatch_of_backlog_item(world: World, now: ZonedInstant)
    requires
        due_item(world, now) is None,
        world.immediate.len() > 0,
        post_defects(world.immediate[0]).len() == 0,
    ensures
        ({
            let item = post_in(world.immediate[0]);
            let after = run(world, no_faults(), now);
            &&& after.world.published == world.published.push(item)
            &&& after.world.scheduled == world.scheduled
            &&& after.world.immediate == without_key(world.immediate, item.uuid)
            &&& !holds_key(after.world.immediate, item.uuid)
            &&& outcome_of(after) == Some(
                OutcomeView::Sent { source: Source::Immediate, deleted: true },
            )
        }),
{
    reveal_with_fuel(run_from, 5);
    lemma_deleted_key_is_gone(world.immediate, post_in(world.immediate[0]).uuid);
}

/// An invocation dispatches what the selector selects. Where both scans
/// succeed and every record can be decoded, the message that goes to the bus
/// is the selected item, it is deleted exactly if the selection says so, and
/// where the selector selects nothing, nothing happens.
pub proof fn lemma_dispatch_follows_the_selector(world: World, now: ZonedInstant)
    requires
        all_scheduled(world.scheduled),
        all_posts(world.immediate),
    ensures
        ({
            let after = run(world, no_faults(), now);
            match selection_of(scheduled_posts_in(world.scheduled), posts_in(world.immediate), now) {
                Some(selection) => {
                    &&& after.world.published == world.published.push(selection.post)
                    &&& outcome_of(after) == Some(
                        OutcomeView::Sent {
                            source: selection.source,
                            deleted: selection.delete_after_dispatch,
                        },
                    )
                },
                None => {
                    &&& after.world == world
                    &&& outcome_of(after) == Some(OutcomeView::NothingToSend)
                },
            }
        }),
{
    reveal_with_fuel(run_from, 5);
}

/// After the delete of a key no record is stored under it.
pub proof fn lemma_deleted_key_is_gone(records: Seq<RecordView>, key: Seq<char>)
    ensures
        !holds_key(without_key(records, key), key),
{
    let kept = |record: RecordView| key_of(record) != Some(key);
    assert forall|i: int| 0 <= i < without_key(records, key).len() implies key_of(
        #[trigger] without_key(records, key)[i],
    ) != Some(key) by {
        records.lemma_filter_pred(kept, i);
    }
}

/// The delete of a key under which nothing is stored changes nothing, so a
/// key may be deleted twice.
pub proof fn lemma_delete_of_absent_key(records: Seq<RecordView>, key: Seq<char>)
    requires
        !holds_key(records, key),
    ensures
        without_key(records, key) == records,
    decreases records.len(),
{
    reveal(Seq::filter);
    if records.len() > 0 {
        let rest = records.drop_last();
        assert forall|i: int| 0 <= i < rest.len() implies key_of(#[trigger] rest[i]) != Some(
            key,
        ) by {
            assert(rest[i] == records[i]);
        }
        lemma_delete_of_absent_key(rest, key);
    }
}

/// Where nothing is due and the immediate backlog is empty, an invocation
/// scans the two collections and stops: it publishes nothing, deletes
/// nothing, leaves the world as it was and reports that there was nothing
/// to send.
///
/// "Nothing is due" covers a scheduled collection without a due item, one
/// whose scan failed, and one that holds a record that cannot be decoded.
pub proof fn lemma_nothing_to_send(world: World, faults: Faults, now: ZonedInstant)
    requires
        due_in_scan(scan_answer(world.scheduled, faults.scan_scheduled), now) is None,
        world.immediate.len() == 0,
        faults.scan_immediate is None,
    ensures
        run(world, faults, now).world == world,
        run(world, faults, now).actions == seq![
            ActionView::ScanScheduled,
            ActionView::ScanImmediate { limit: 1 },
            ActionView::Stop { outcome: OutcomeView::NothingToSend },
        ],
        outcome_of(run(world, faults, now)) == Some(OutcomeView::NothingToSend),
{
    reveal_with_fuel(run_from, 5);
}

/// Where the bus refuses the message, the store is as it was: the selected
/// item is still in its collection, nothing was deleted, and the invocation
/// does not report success.
pub proof fn lemma_failed_publish_loses_nothing(world: World, faults: Faults, now: ZonedInstant)
    requires
        faults.publish is Some,
    ensures
        run(world, faults, now).world == world,
        !(outcome_of(run(world, faults, now)) matches Some(OutcomeView::Sent { .. })),
        forall|i: int|
            0 <= i < run(world, faults, now).actions.len() ==> !(#[trigger] run(
                world,
                faults,
                now,
            ).actions[i] is Delete),
{
    reveal_with_fuel(run_from, 5);
}

/// Whatever fails, an invocation publishes at most one message and keeps
/// what the bus already had, and the store changes only after the bus has
/// taken the message: an item that is gone from the store was handed to the
/// bus.
pub proof fn lemma_no_loss_without_publish(world: World, faults: Faults, now: ZonedInstant)
    ensures
        ({
            let before = world.published.len();
            let after = run(world, faults, now).world;
            &&& before <= after.published.len() <= before + 1
            &&& after.published.take(before as int) == world.published
            &&& after.published.len() == before ==> after.scheduled == world.scheduled
                && after.immediate == world.immediate
        }),
{
    reveal_with_fuel(run_from, 5);
}

} // verus!
