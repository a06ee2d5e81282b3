//! The selector: which item, if any, is published on this invocation.
//!
//! A scheduled item is due when its fire window falls in the same hour of
//! day as "now". Among the due items the first of the scan wins; the order
//! of a scan is the store's, so callers must not expect a particular one.
//! Without a due item the head of the immediate backlog is taken. An item
//! that is due stays due for the whole hour: invoking twice within one hour
//! selects a recurring item twice.

use crate::clock::ZonedInstant;
use crate::model::{Post, PostView, ScheduledPost, ScheduledPostView, scheduled_views, post_views};
use crate::outside::{parse_epoch_seconds, timestamp_epoch_seconds};
use vstd::prelude::*;

verus! {

/// The collection an item was taken from, and is deleted from.
#[derive(Debug, PartialEq, Eq, Structural, Clone, Copy)]
pub enum Source {
    Scheduled,
    Immediate,
}

/// What the selector hands to the dispatcher: the item as it goes over the
/// bus, where it came from, and whether it is deleted once it has gone.
#[derive(Debug, PartialEq, Eq)]
pub struct Selection {
    pub post: Post,
    pub source: Source,
    pub delete_after_dispatch: bool,
}

/// What a [`Selection`] is in contracts.
pub struct SelectionView {
    pub post: PostView,
    pub source: Source,
    pub delete_after_dispatch: bool,
}

impl View for Selection {
    type V = SelectionView;

    open spec fn view(&self) -> SelectionView {
        SelectionView {
            post: self.post@,
            source: self.source,
            delete_after_dispatch: self.delete_after_dispatch,
        }
    }
}

/// The selection of a scheduled item: it is deleted unless it recurs.
pub open spec fn scheduled_selection(post: ScheduledPostView) -> SelectionView {
    SelectionView {
        post: PostView { uuid: post.uuid, post: post.post },
        source: Source::Scheduled,
        delete_after_dispatch: !post.recurring,
    }
}

/// The selection of an item of the immediate backlog: it is always deleted.
pub open spec fn immediate_selection(post: PostView) -> SelectionView {
    SelectionView { post, source: Source::Immediate, delete_after_dispatch: true }
}

impl Selection {
    /// Selects a scheduled item.
    pub fn from_scheduled(post: ScheduledPost) -> (selection: Selection)
        ensures
            selection@ == scheduled_selection(post@),
    {
        Selection {
            post: Post { uuid: post.uuid, post: post.post },
            source: Source::Scheduled,
            delete_after_dispatch: !post.recurring,
        }
    }

    /// Selects an item of the immediate backlog.
    pub fn from_immediate(post: Post) -> (selection: Selection)
        ensures
            selection@ == immediate_selection(post@),
    {
        Selection { post, source: Source::Immediate, delete_after_dispatch: true }
    }
}

/// Whether a fire window, read as an instant, is due at `now`. A window
/// that is no timestamp is never due.
pub open spec fn is_due(instant: Option<i64>, now: ZonedInstant) -> bool {
    instant matches Some(seconds) && now.spec_same_hour(seconds as int)
}

/// The index of the first due instant at or after `start`.
pub open spec fn first_due_from(instants: Seq<Option<i64>>, now: ZonedInstant, start: int) -> Option<
    int,
>
    decreases instants.len() - start,
{
    if start < 0 || start >= instants.len() {
        None
    } else if is_due(instants[start], now) {
        Some(start)
    } else {
        first_due_from(instants, now, start + 1)
    }
}

/// The index of the first due instant.
pub open spec fn first_due_index(instants: Seq<Option<i64>>, now: ZonedInstant) -> Option<int> {
    first_due_from(instants, now, 0)
}

/// `first_due_from` finds a due instant, and the first one: none between
/// `start` and the index it gives is due, and where it gives none, none
/// from `start` on is due.
pub proof fn lemma_first_due_from(instants: Seq<Option<i64>>, now: ZonedInstant, start: int)
    requires
        0 <= start,
    ensures
        match first_due_from(instants, now, start) {
            Some(index) => start <= index < instants.len() && is_due(instants[index], now)
                && forall|j: int| start <= j < index ==> !is_due(#[trigger] instants[j], now),
            None => forall|j: int|
                start <= j < instants.len() ==> !is_due(#[trigger] instants[j], now),
        },
    decreases instants.len() - start,
{
    if start < instants.len() && !is_due(instants[start], now) {
        lemma_first_due_from(instants, now, start + 1);
    }
}

/// Finds the first due instant of a scan.
///
/// Gives the least index whose instant falls in the hour of `now`, and
/// `None` exactly when no instant does.
pub fn first_due(instants: &Vec<Option<i64>>, now: &ZonedInstant) -> (found: Option<usize>)
    ensures
        match found {
            Some(index) => first_due_index(instants@, *now) == Some(index as int),
            None => first_due_index(instants@, *now) is None,
        },
        found matches Some(index) ==> index < instants@.len() && is_due(instants@[index as int], *now)
            && forall|j: int| 0 <= j < index ==> !is_due(#[trigger] instants@[j], *now),
        found is None ==> forall|j: int|
            0 <= j < instants@.len() ==> !is_due(#[trigger] instants@[j], *now),
{
    let mut i: usize = 0;
    while i < instants.len()
        invariant
            i <= instants.len(),
            first_due_from(instants@, *now, 0) == first_due_from(instants@, *now, i as int),
            forall|j: int| 0 <= j < i ==> !is_due(#[trigger] instants@[j], *now),
        decreases instants.len() - i,
    {
        let due = match instants[i] {
            Some(seconds) => now.same_hour(seconds),
            None => false,
        };
        if due {
            return Some(i);
        }
        i = i + 1;
    }
    None
}

/// The fire windows of a scan, read as instants, one for one.
pub open spec fn fire_instants_of(posts: Seq<ScheduledPostView>) -> Seq<Option<i64>> {
    Seq::new(posts.len(), |i: int| timestamp_epoch_seconds(posts[i].time))
}

/// Reads the fire window of every item of a scan.
pub fn fire_instants(posts: &Vec<ScheduledPost>) -> (instants: Vec<Option<i64>>)
    ensures
        instants@ == fire_instants_of(scheduled_views(posts@)),
{
    let mut instants: Vec<Option<i64>> = Vec::new();
    let mut i: usize = 0;
    while i < posts.len()
        invariant
            i <= posts.len(),
            instants@.len() == i,
            forall|j: int|
                0 <= j < i ==> #[trigger] instants@[j] == timestamp_epoch_seconds(posts@[j].time@),
        decreases posts.len() - i,
    {
        instants.push(parse_epoch_seconds(posts[i].time.as_str()));
        i = i + 1;
    }
    instants
}

/// The scheduled item that fires at `now`: the first of the scan that is
/// due.
pub open spec fn due_post(posts: Seq<ScheduledPostView>, now: ZonedInstant) -> Option<
    ScheduledPostView,
> {
    match first_due_index(fire_instants_of(posts), now) {
        Some(index) => Some(posts[index]),
        None => None,
    }
}

/// Picks the scheduled item that fires at `now`, if one does.
pub fn check_scheduled_posts(posts: &Vec<ScheduledPost>, now: &ZonedInstant) -> (due: Option<
    ScheduledPost,
>)
    ensures
        match due {
            Some(post) => due_post(scheduled_views(posts@), *now) == Some(post@),
            None => due_post(scheduled_views(posts@), *now) is None,
        },
{
    let instants = fire_instants(posts);
    match first_due(&instants, now) {
        Some(index) => Some(posts[index].clone()),
        None => None,
    }
}

/// What the selector returns for two scans: the due scheduled item if there
/// is one, else the head of the immediate backlog, else nothing.
pub open spec fn selection_of(
    scheduled: Seq<ScheduledPostView>,
    immediate: Seq<PostView>,
    now: ZonedInstant,
) -> Option<SelectionView> {
    match due_post(scheduled, now) {
        Some(post) => Some(scheduled_selection(post)),
        None => if immediate.len() > 0 {
            Some(immediate_selection(immediate[0]))
        } else {
            None
        },
    }
}

/// Selects at most one item for this invocation.
///
/// `None` means that nothing is to be sent, which is no error.
pub fn select(scheduled: &Vec<ScheduledPost>, immediate: &Vec<Post>, now: &ZonedInstant) -> (selected:
    Option<Selection>)
    ensures
        match selected {
            Some(selection) => selection_of(scheduled_views(scheduled@), post_views(immediate@), *now)
                == Some(selection@),
            None => selection_of(scheduled_views(scheduled@), post_views(immediate@), *now) is None,
        },
{
    match check_scheduled_posts(scheduled, now) {
        Some(post) => Some(Selection::from_scheduled(post)),
        None => if immediate.len() > 0 {
            Some(Selection::from_immediate(immediate[0].clone()))
        } else {
            None
        },
    }
}

} // verus!
