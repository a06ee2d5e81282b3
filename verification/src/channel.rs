//! The channel worker: a batch of fanned-out messages, each published in two
//! steps on one channel.
//!
//! For every message the worker asks for a primary post with the message's
//! text and, once that exists, for a reply to it that carries a fixed
//! footer. A message goes
//!
//! received -> primary posted -> reply posted
//!
//! or fails at the primary post or at the reply. A delivery that is no
//! message fails at the primary post before any call. A failed reply
//! neither takes the primary post back nor asks for it again. The worker
//! makes no call itself: it says which call is due ([`Call`]), the caller
//! makes it and hands the answer to [`BatchWorker::advance`].
//!
//! The messages of a batch do not touch each other: whatever happens to
//! one, the others are worked through, and each gets its own result. The
//! worker keeps no memory of keys. A message that the bus delivers twice is
//! published twice.

use crate::text::optional_text;
use vstd::prelude::*;

verus! {

/// The text of the reply that follows every primary post.
pub const FOOTER: &'static str =
    "If you like this kind of content, make sure to checkout my newsletter and remember, run with joy! https://davidjmeyer.substack.com";

/// The footer in contracts.
pub open spec fn footer() -> Seq<char> {
    FOOTER@
}

/// A call that the channel did not carry out.
#[derive(Debug, PartialEq, Eq)]
pub struct ChannelError {
    pub message: String,
}

/// One message of a batch, as far as it could be read.
#[derive(Debug, PartialEq, Eq)]
pub enum Delivery {
    /// A message with text to publish and, where the sender gave one, the
    /// key of the item it stands for.
    Message { key: Option<String>, body: String },
    /// A payload that is no message.
    Malformed,
}

/// What a [`Delivery`] is in contracts.
pub enum DeliveryView {
    Message { key: Option<Seq<char>>, body: Seq<char> },
    Malformed,
}

impl View for Delivery {
    type V = DeliveryView;

    open spec fn view(&self) -> DeliveryView {
        match self {
            Delivery::Message { key, body } => DeliveryView::Message {
                key: optional_text(*key),
                body: body@,
            },
            Delivery::Malformed => DeliveryView::Malformed,
        }
    }
}

/// The views of the deliveries of a batch, one for one.
pub open spec fn delivery_views(deliveries: Seq<Delivery>) -> Seq<DeliveryView> {
    Seq::new(deliveries.len(), |i: int| deliveries[i]@)
}

/// The step of a message's publication.
#[derive(Debug, PartialEq, Eq, Structural, Clone, Copy)]
pub enum Stage {
    Primary,
    Reply,
}

/// Why a message was not published in full.
///
/// A malformed delivery will fail again however often it is delivered; a
/// refused call may go through another time.
#[derive(Debug, PartialEq, Eq, Structural, Clone, Copy)]
pub enum Failure {
    /// The delivery is no message.
    Malformed,
    /// The channel refused the primary post.
    Primary,
    /// The channel refused the reply.
    Reply,
}

impl Failure {
    /// The step at which the message failed.
    pub open spec fn spec_stage(self) -> Stage {
        match self {
            Failure::Malformed => Stage::Primary,
            Failure::Primary => Stage::Primary,
            Failure::Reply => Stage::Reply,
        }
    }

    /// The step at which the message failed. A malformed delivery fails at
    /// the primary post.
    pub fn stage(self) -> (stage: Stage)
        ensures
            stage == self.spec_stage(),
    {
        match self {
            Failure::Malformed => Stage::Primary,
            Failure::Primary => Stage::Primary,
            Failure::Reply => Stage::Reply,
        }
    }
}

/// Whether a message was published in full.
#[derive(Debug, PartialEq, Eq, Structural, Clone, Copy)]
pub enum PublishOutcome {
    Success,
    Failure,
}

/// What became of one message on this channel.
#[derive(Debug, PartialEq, Eq)]
pub struct PublishResult {
    /// The key of the message, where it had one.
    pub key: Option<String>,
    pub outcome: PublishOutcome,
    /// `"Success"`, or what failed: `"malformed"`, `"primary"` or `"reply"`.
    pub detail: String,
}

/// What a [`PublishResult`] is in contracts.
pub struct PublishResultView {
    pub key: Option<Seq<char>>,
    pub outcome: PublishOutcome,
    pub detail: Seq<char>,
}

impl View for PublishResult {
    type V = PublishResultView;

    open spec fn view(&self) -> PublishResultView {
        PublishResultView { key: optional_text(self.key), outcome: self.outcome, detail: self.detail@ }
    }
}

/// The views of the results of a batch, one for one.
pub open spec fn result_views(results: Seq<PublishResult>) -> Seq<PublishResultView> {
    Seq::new(results.len(), |i: int| results[i]@)
}

/// The result of a message whose primary post and reply both exist.
pub open spec fn success(key: Option<Seq<char>>) -> PublishResultView {
    PublishResultView { key, outcome: PublishOutcome::Success, detail: "Success"@ }
}

/// The result of a message that failed.
pub open spec fn failure(key: Option<Seq<char>>, failure: Failure) -> PublishResultView {
    PublishResultView {
        key,
        outcome: PublishOutcome::Failure,
        detail: match failure {
            Failure::Malformed => "malformed"@,
            Failure::Primary => "primary"@,
            Failure::Reply => "reply"@,
        },
    }
}

impl PublishResult {
    /// The result of a message whose primary post and reply both exist.
    pub fn succeeded(key: Option<String>) -> (result: PublishResult)
        ensures
            result@ == success(optional_text(key)),
    {
        PublishResult { key, outcome: PublishOutcome::Success, detail: "Success".to_owned() }
    }

    /// The result of a message that failed.
    pub fn failed(key: Option<String>, failure: Failure) -> (result: PublishResult)
        ensures
            result@ == self::failure(optional_text(key), failure),
    {
        let detail = match failure {
            Failure::Malformed => "malformed".to_owned(),
            Failure::Primary => "primary".to_owned(),
            Failure::Reply => "reply".to_owned(),
        };
        PublishResult { key, outcome: PublishOutcome::Failure, detail }
    }
}

/// A call on the channel.
#[derive(Debug, PartialEq, Eq)]
pub enum Call {
    /// Create a post with this text.
    CreatePost { text: String },
    /// Create a post with this text in reply to the post `parent_post_id`.
    CreateReply { parent_post_id: String, text: String },
}

/// What a [`Call`] is in contracts.
pub enum CallView {
    CreatePost { text: Seq<char> },
    CreateReply { parent_post_id: Seq<char>, text: Seq<char> },
}

impl View for Call {
    type V = CallView;

    open spec fn view(&self) -> CallView {
        match self {
            Call::CreatePost { text } => CallView::CreatePost { text: text@ },
            Call::CreateReply { parent_post_id, text } => CallView::CreateReply {
                parent_post_id: parent_post_id@,
                text: text@,
            },
        }
    }
}

/// The channel's answer to a call: the identifier of the post it created,
/// or why it created none.
pub type Answer = Result<String, ChannelError>;

/// An [`Answer`] in contracts: the identifier, or the error's message.
pub type AnswerView = Result<Seq<char>, Seq<char>>;

/// The view of an answer.
pub open spec fn answer_view(answer: Answer) -> AnswerView {
    match answer {
        Ok(post_id) => Ok(post_id@),
        Err(error) => Err(error.message@),
    }
}

/// What the worker asks for next.
#[derive(Debug, PartialEq, Eq)]
pub enum Progress {
    /// Make this call and hand back the answer.
    Call(Call),
    /// The batch is done; every message has its result.
    Finished,
}

/// What a [`Progress`] is in contracts.
pub enum ProgressView {
    Call(CallView),
    Finished,
}

impl View for Progress {
    type V = ProgressView;

    open spec fn view(&self) -> ProgressView {
        match self {
            Progress::Call(call) => ProgressView::Call(call@),
            Progress::Finished => ProgressView::Finished,
        }
    }
}

/// The answer that the current message waits for.
#[derive(Debug, PartialEq, Eq)]
pub enum Awaiting {
    /// The message was received; its primary post was asked for.
    Primary,
    /// The primary post exists under `post_id`; the reply was asked for.
    Reply { post_id: String },
}

/// What an [`Awaiting`] is in contracts.
pub enum AwaitingView {
    Primary,
    Reply { post_id: Seq<char> },
}

impl View for Awaiting {
    type V = AwaitingView;

    open spec fn view(&self) -> AwaitingView {
        match self {
            Awaiting::Primary => AwaitingView::Primary,
            Awaiting::Reply { post_id } => AwaitingView::Reply { post_id: post_id@ },
        }
    }
}

/// A batch in the hands of a worker.
///
/// The messages before `current` have their results; the message at
/// `current`, if there is one, has text and waits for an answer.
#[derive(Debug, PartialEq, Eq)]
pub struct BatchWorker {
    deliveries: Vec<Delivery>,
    current: usize,
    awaiting: Awaiting,
    results: Vec<PublishResult>,
}

/// What a [`BatchWorker`] is in contracts.
pub struct WorkerView {
    pub deliveries: Seq<DeliveryView>,
    pub current: int,
    pub awaiting: AwaitingView,
    pub results: Seq<PublishResultView>,
}

impl View for BatchWorker {
    type V = WorkerView;

    closed spec fn view(&self) -> WorkerView {
        WorkerView {
            deliveries: delivery_views(self.deliveries@),
            current: self.current as int,
            awaiting: self.awaiting@,
            results: result_views(self.results@),
        }
    }
}

/// Where the worker stands once it has passed the malformed deliveries at
/// and after `current`, each of which fails without a call.
pub open spec fn skip_malformed(
    deliveries: Seq<DeliveryView>,
    current: int,
    results: Seq<PublishResultView>,
) -> (int, Seq<PublishResultView>)
    decreases deliveries.len() - current,
{
    if 0 <= current < deliveries.len() && deliveries[current] is Malformed {
        skip_malformed(deliveries, current + 1, results.push(failure(None, Failure::Malformed)))
    } else {
        (current, results)
    }
}

/// The worker that takes up the batch at `current`, and what it asks for:
/// the primary post of the next message that has text, or nothing more.
pub open spec fn take_up(
    deliveries: Seq<DeliveryView>,
    current: int,
    results: Seq<PublishResultView>,
) -> (WorkerView, ProgressView) {
    let (next, results) = skip_malformed(deliveries, current, results);
    let worker = WorkerView { deliveries, current: next, awaiting: AwaitingView::Primary, results };
    if 0 <= next < deliveries.len() {
        (worker, ProgressView::Call(CallView::CreatePost { text: deliveries[next]->body }))
    } else {
        (worker, ProgressView::Finished)
    }
}

/// The worker at the start of a batch, and what it asks for first.
pub open spec fn begin(deliveries: Seq<DeliveryView>) -> (WorkerView, ProgressView) {
    take_up(deliveries, 0, Seq::empty())
}

/// The transition of the worker on an answer.
///
/// An identifier for the primary post leads to the reply. Every other
/// answer settles the current message and takes up the next. A worker that
/// is done stays done.
pub open spec fn next_progress(worker: WorkerView, answer: AnswerView) -> (
    WorkerView,
    ProgressView,
) {
    if !(0 <= worker.current < worker.deliveries.len()) {
        (worker, ProgressView::Finished)
    } else {
        let key = worker.deliveries[worker.current]->key;
        match (worker.awaiting, answer) {
            (AwaitingView::Primary, Ok(post_id)) => (
                WorkerView { awaiting: AwaitingView::Reply { post_id }, ..worker },
                ProgressView::Call(
                    CallView::CreateReply { parent_post_id: post_id, text: footer() },
                ),
            ),
            (AwaitingView::Primary, Err(_)) => take_up(
                worker.deliveries,
                worker.current + 1,
                worker.results.push(failure(key, Failure::Primary)),
            ),
            (AwaitingView::Reply { .. }, Ok(_)) => take_up(
                worker.deliveries,
                worker.current + 1,
                worker.results.push(success(key)),
            ),
            (AwaitingView::Reply { .. }, Err(_)) => take_up(
                worker.deliveries,
                worker.current + 1,
                worker.results.push(failure(key, Failure::Reply)),
            ),
        }
    }
}

/// Copies a key that may be missing.
fn copy_key(key: &Option<String>) -> (copy: Option<String>)
    ensures
        optional_text(copy) == optional_text(*key),
{
    match key {
        Some(key) => Some(key.clone()),
        None => None,
    }
}

impl BatchWorker {
    /// That every message before `current` has its result, and that the
    /// message at `current`, if there is one, has text.
    #[verifier::type_invariant]
    spec fn well_formed(&self) -> bool {
        &&& self.current <= self.deliveries@.len()
        &&& self.results@.len() == self.current
        &&& self.current < self.deliveries@.len() ==> self.deliveries@[self.current as int] is Message
    }

    /// Passes the malformed deliveries from `current` on and asks for the
    /// primary post of the first message with text.
    fn resume(deliveries: Vec<Delivery>, current: usize, results: Vec<PublishResult>) -> (next: (
        BatchWorker,
        Progress,
    ))
        requires
            current <= deliveries@.len(),
            results@.len() == current,
        ensures
            (next.0@, next.1@) == take_up(
                delivery_views(deliveries@),
                current as int,
                result_views(results@),
            ),
    {
        let ghost views = delivery_views(deliveries@);
        let ghost entry = result_views(results@);
        let mut results = results;
        let mut i = current;
        while i < deliveries.len() && matches!(deliveries[i], Delivery::Malformed)
            invariant
                current <= i <= deliveries@.len(),
                results@.len() == i,
                views == delivery_views(deliveries@),
                skip_malformed(views, current as int, entry) == skip_malformed(
                    views,
                    i as int,
                    result_views(results@),
                ),
            decreases deliveries@.len() - i,
        {
            let ghost before = result_views(results@);
            results.push(PublishResult::failed(None, Failure::Malformed));
            assert(result_views(results@) == before.push(failure(None, Failure::Malformed)));
            i = i + 1;
        }
        if i < deliveries.len() {
            let text = match &deliveries[i] {
                Delivery::Message { body, .. } => body.clone(),
                Delivery::Malformed => String::new(),
            };
            (
                BatchWorker { deliveries, current: i, awaiting: Awaiting::Primary, results },
                Progress::Call(Call::CreatePost { text }),
            )
        } else {
            (
                BatchWorker { deliveries, current: i, awaiting: Awaiting::Primary, results },
                Progress::Finished,
            )
        }
    }

    /// Takes a batch and asks for the first call.
    ///
    /// A delivery that is no message fails at once; no call is made for it.
    pub fn start(deliveries: Vec<Delivery>) -> (begun: (BatchWorker, Progress))
        ensures
            (begun.0@, begun.1@) == begin(delivery_views(deliveries@)),
    {
        assert(result_views(Seq::<PublishResult>::empty()) == Seq::<PublishResultView>::empty());
        BatchWorker::resume(deliveries, 0, Vec::new())
    }

    /// Whether every message of the batch has its result.
    pub fn is_finished(&self) -> (finished: bool)
        ensures
            finished == !(0 <= self@.current < self@.deliveries.len()),
    {
        self.current >= self.deliveries.len()
    }

    /// The results so far, one for each message that is settled, in the
    /// order of the batch.
    pub fn results(&self) -> (results: &Vec<PublishResult>)
        ensures
            result_views(results@) == self@.results,
            results@.len() == self@.current,
            self@.current <= self@.deliveries.len(),
    {
        proof {
            use_type_invariant(self);
        }
        &self.results
    }

    /// Gives up the worker for its results. A worker that is finished gives
    /// one result for each message of its batch.
    pub fn into_results(self) -> (results: Vec<PublishResult>)
        ensures
            result_views(results@) == self@.results,
            results@.len() == self@.current,
            self@.current <= self@.deliveries.len(),
    {
        proof {
            use_type_invariant(&self);
        }
        self.results
    }

    /// Takes the channel's answer to the pending call and asks for the next.
    ///
    /// The result is [`next_progress`] of the worker and the answer.
    pub fn advance(self, answer: Answer) -> (next: (BatchWorker, Progress))
        ensures
            (next.0@, next.1@) == next_progress(self@, answer_view(answer)),
    {
        proof {
            use_type_invariant(&self);
        }
        if self.current >= self.deliveries.len() {
            return (self, Progress::Finished);
        }
        let BatchWorker { deliveries, current, awaiting, results } = self;
        let ghost settled = result_views(results@);
        let key = match &deliveries[current] {
            Delivery::Message { key, .. } => copy_key(key),
            Delivery::Malformed => None,
        };
        let mut results = results;
        match (awaiting, answer) {
            (Awaiting::Primary, Ok(post_id)) => {
                let parent_post_id = post_id.clone();
                (
                    BatchWorker {
                        deliveries,
                        current,
                        awaiting: Awaiting::Reply { post_id },
                        results,
                    },
                    Progress::Call(Call::CreateReply { parent_post_id, text: FOOTER.to_owned() }),
                )
            },
            (Awaiting::Primary, Err(_)) => {
                results.push(PublishResult::failed(key, Failure::Primary));
                assert(result_views(results@) == settled.push(
                    failure(optional_text(key), Failure::Primary),
                ));
                BatchWorker::resume(deliveries, current + 1, results)
            },
            (Awaiting::Reply { .. }, Ok(_)) => {
                results.push(PublishResult::succeeded(key));
                assert(result_views(results@) == settled.push(success(optional_text(key))));
                BatchWorker::resume(deliveries, current + 1, results)
            },
            (Awaiting::Reply { .. }, Err(_)) => {
                results.push(PublishResult::failed(key, Failure::Reply));
                assert(result_views(results@) == settled.push(
                    failure(optional_text(key), Failure::Reply),
                ));
                BatchWorker::resume(deliveries, current + 1, results)
            },
        }
    }
}

} // verus!
