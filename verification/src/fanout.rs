//! A batch worked through against a model of a channel, and what holds of
//! every such batch.
//!
//! The model gives, for each message of a batch, the answers that the
//! channel has for its primary post and for its reply. Nothing here is
//! executable; the functions below are statements about [`next_progress`],
//! proved for all batches and all answers.

use crate::channel::{
    begin, failure, footer, next_progress, success, take_up, AnswerView, AwaitingView, CallView,
    DeliveryView, Failure, ProgressView, PublishResultView, WorkerView,
};
use vstd::prelude::*;

verus! {

/// What the channel answers to the two calls of one message. The answer to
/// the reply is only ever asked for when the primary post was created.
pub struct Exchange {
    pub primary: AnswerView,
    pub reply: AnswerView,
}

/// What becomes of one message, given the channel's answers to it alone.
pub open spec fn message_result(delivery: DeliveryView, exchange: Exchange) -> PublishResultView {
    match delivery {
        DeliveryView::Malformed => failure(None, Failure::Malformed),
        DeliveryView::Message { key, body } => match exchange.primary {
            Err(_) => failure(key, Failure::Primary),
            Ok(_) => match exchange.reply {
                Err(_) => failure(key, Failure::Reply),
                Ok(_) => success(key),
            },
        },
    }
}

/// The calls that one message causes, given the channel's answers to it
/// alone: none for a malformed delivery, the primary post for every other,
/// and the reply to it where the primary post was created.
pub open spec fn message_calls(delivery: DeliveryView, exchange: Exchange) -> Seq<CallView> {
    match delivery {
        DeliveryView::Malformed => seq![],
        DeliveryView::Message { key, body } => match exchange.primary {
            Err(_) => seq![CallView::CreatePost { text: body }],
            Ok(post_id) => seq![
                CallView::CreatePost { text: body },
                CallView::CreateReply { parent_post_id: post_id, text: footer() },
            ],
        },
    }
}

/// The channel's answer to the call that a worker waits for.
pub open spec fn answer_for(worker: WorkerView, exchanges: Seq<Exchange>) -> AnswerView {
    match worker.awaiting {
        AwaitingView::Primary => exchanges[worker.current].primary,
        AwaitingView::Reply { .. } => exchanges[worker.current].reply,
    }
}

/// A batch as far as it was worked through: the results, and every call
/// that was made, in order.
pub struct BatchRun {
    pub results: Seq<PublishResultView>,
    pub calls: Seq<CallView>,
}

/// Makes the call that `progress` asks for and whatever the worker asks for
/// after it, for at most `answers` answers.
pub open spec fn drive(
    worker: WorkerView,
    progress: ProgressView,
    exchanges: Seq<Exchange>,
    answers: nat,
) -> BatchRun
    decreases answers,
{
    match progress {
        ProgressView::Call(call) if answers > 0 => {
            let (next_worker, next) = next_progress(worker, answer_for(worker, exchanges));
            let rest = drive(next_worker, next, exchanges, (answers - 1) as nat);
            BatchRun { results: rest.results, calls: seq![call] + rest.calls }
        },
        ProgressView::Call(call) => BatchRun { results: worker.results, calls: seq![call] },
        ProgressView::Finished => BatchRun { results: worker.results, calls: seq![] },
    }
}

/// A whole batch: two answers for each message are as many as it takes.
pub open spec fn run_batch(deliveries: Seq<DeliveryView>, exchanges: Seq<Exchange>) -> BatchRun {
    let (worker, progress) = begin(deliveries);
    drive(worker, progress, exchanges, 2 * deliveries.len())
}

/// The results of a batch, message by message.
pub open spec fn results_by_message(deliveries: Seq<DeliveryView>, exchanges: Seq<Exchange>) -> Seq<
    PublishResultView,
> {
    Seq::new(deliveries.len(), |i: int| message_result(deliveries[i], exchanges[i]))
}

/// The calls of a batch from message `from` on, message by message.
pub open spec fn calls_by_message(
    deliveries: Seq<DeliveryView>,
    exchanges: Seq<Exchange>,
    from: int,
) -> Seq<CallView>
    decreases deliveries.len() - from,
{
    if from < 0 || from >= deliveries.len() {
        seq![]
    } else {
        message_calls(deliveries[from], exchanges[from]) + calls_by_message(
            deliveries,
            exchanges,
            from + 1,
        )
    }
}

/// A worker that takes up a batch at message `current`, with the results
/// of the messages before it in hand, ends with the results of all messages
/// and makes exactly the calls of the messages from `current` on.
proof fn lemma_drive_from(
    deliveries: Seq<DeliveryView>,
    exchanges: Seq<Exchange>,
    current: int,
    results: Seq<PublishResultView>,
    answers: nat,
)
    requires
        exchanges.len() == deliveries.len(),
        0 <= current <= deliveries.len(),
        results == results_by_message(deliveries, exchanges).take(current),
        answers >= 2 * (deliveries.len() - current),
    ensures
        ({
            let (worker, progress) = take_up(deliveries, current, results);
            drive(worker, progress, exchanges, answers) == BatchRun {
                results: results_by_message(deliveries, exchanges),
                calls: calls_by_message(deliveries, exchanges, current),
            }
        }),
    decreases deliveries.len() - current,
{
    let all = results_by_message(deliveries, exchanges);
    let (worker, progress) = take_up(deliveries, current, results);
    if current == deliveries.len() {
        assert(all.take(current) == all);
    } else {
        let settled = results.push(message_result(deliveries[current], exchanges[current]));
        assert(settled == all.take(current + 1));
        match deliveries[current] {
            DeliveryView::Malformed => {
                lemma_drive_from(deliveries, exchanges, current + 1, settled, answers);
            },
            DeliveryView::Message { key, body } => {
                reveal_with_fuel(drive, 3);
                let rest = calls_by_message(deliveries, exchanges, current + 1);
                let post = CallView::CreatePost { text: body };
                match exchanges[current].primary {
                    Err(_) => {
                        lemma_drive_from(
                            deliveries,
                            exchanges,
                            current + 1,
                            settled,
                            (answers - 1) as nat,
                        );
                    },
                    Ok(post_id) => {
                        lemma_drive_from(
                            deliveries,
                            exchanges,
                            current + 1,
                            settled,
                            (answers - 2) as nat,
                        );
                        let reply = CallView::CreateReply {
                            parent_post_id: post_id,
                            text: footer(),
                        };
                        assert(seq![post] + (seq![reply] + rest) == seq![post, reply] + rest);
                    },
                }
            },
        }
    }
}

/// A batch is worked through message by message: the result of each
/// message is what its own delivery and the channel's answers to it alone
/// make it, and the calls are those of the first message, then those of the
/// second, and so on. No message's failure changes what another gets.
pub proof fn lemma_batch_is_messagewise(deliveries: Seq<DeliveryView>, exchanges: Seq<Exchange>)
    requires
        exchanges.len() == deliveries.len(),
    ensures
        run_batch(deliveries, exchanges).results == results_by_message(deliveries, exchanges),
        run_batch(deliveries, exchanges).calls == calls_by_message(deliveries, exchanges, 0),
{
    let none = Seq::<PublishResultView>::empty();
    assert(none == results_by_message(deliveries, exchanges).take(0));
    lemma_drive_from(deliveries, exchanges, 0, none, 2 * deliveries.len());
}

/// Partial failure stays partial: two runs of one batch in which the
/// channel answers alike to every message but message `k` give every
/// message but `k` the same result.
pub proof fn lemma_failure_is_isolated(
    deliveries: Seq<DeliveryView>,
    first: Seq<Exchange>,
    second: Seq<Exchange>,
    k: int,
)
    requires
        first.len() == deliveries.len(),
        second.len() == deliveries.len(),
        forall|i: int| 0 <= i < deliveries.len() && i != k ==> first[i] == second[i],
    ensures
        run_batch(deliveries, first).results.len() == deliveries.len(),
        run_batch(deliveries, second).results.len() == deliveries.len(),
        forall|i: int|
            0 <= i < deliveries.len() && i != k ==> run_batch(deliveries, first).results[i]
                == run_batch(deliveries, second).results[i],
{
    lemma_batch_is_messagewise(deliveries, first);
    lemma_batch_is_messagewise(deliveries, second);
}

/// A message whose two calls go through is published in full, whatever
/// becomes of the other messages of its batch.
pub proof fn lemma_success_is_independent(
    deliveries: Seq<DeliveryView>,
    exchanges: Seq<Exchange>,
    i: int,
)
    requires
        exchanges.len() == deliveries.len(),
        0 <= i < deliveries.len(),
        deliveries[i] is Message,
        exchanges[i].primary is Ok,
        exchanges[i].reply is Ok,
    ensures
        run_batch(deliveries, exchanges).results.len() == deliveries.len(),
        run_batch(deliveries, exchanges).results[i] == success(deliveries[i]->key),
{
    lemma_batch_is_messagewise(deliveries, exchanges);
}

/// A message that is delivered twice is published twice: the worker asks
/// for a primary post and a reply for the first delivery, and for another
/// primary post and another reply for the second, and gives each delivery
/// its own result.
pub proof fn lemma_redelivery_publishes_again(
    key: Option<Seq<char>>,
    body: Seq<char>,
    first: Exchange,
    second: Exchange,
)
    requires
        first.primary is Ok,
        second.primary is Ok,
    ensures
        ({
            let message = DeliveryView::Message { key, body };
            let run = run_batch(seq![message, message], seq![first, second]);
            &&& run.calls == seq![
                CallView::CreatePost { text: body },
                CallView::CreateReply { parent_post_id: first.primary->Ok_0, text: footer() },
                CallView::CreatePost { text: body },
                CallView::CreateReply { parent_post_id: second.primary->Ok_0, text: footer() },
            ]
            &&& run.results == seq![
                message_result(message, first),
                message_result(message, second),
            ]
        }),
{
    let message = DeliveryView::Message { key, body };
    let deliveries = seq![message, message];
    let exchanges = seq![first, second];
    lemma_batch_is_messagewise(deliveries, exchanges);
    reveal_with_fuel(calls_by_message, 3);
}

} // verus!
