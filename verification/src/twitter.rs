//! The bodies of the requests that the short-message channel takes, and
//! what is read from its answer.

use crate::channel::{Answer, Call, ChannelError};
use vstd::prelude::*;

verus! {

/// The body of a request for a new post.
#[derive(Debug, PartialEq, Eq)]
pub struct Tweet {
    pub text: String,
}

/// What the channel says of a post it created.
#[derive(Debug, PartialEq, Eq)]
pub struct TweetData {
    pub edit_history_tweet_ids: Vec<String>,
    pub id: String,
    pub text: String,
}

/// The channel's answer to a request that it carried out.
#[derive(Debug, PartialEq, Eq)]
pub struct TweetResponse {
    pub data: TweetData,
}

/// The post that a reply answers.
#[derive(Debug, PartialEq, Eq)]
pub struct Reply {
    pub in_reply_to_tweet_id: String,
}

/// The body of a request for a reply.
#[derive(Debug, PartialEq, Eq)]
pub struct TweetComment {
    pub text: String,
    pub reply: Reply,
}

impl TweetComment {
    /// A reply with the text `comment` to the post `id`.
    pub fn new(comment: String, id: String) -> (reply: TweetComment)
        ensures
            reply.text == comment,
            reply.reply.in_reply_to_tweet_id == id,
    {
        TweetComment { text: comment, reply: Reply { in_reply_to_tweet_id: id } }
    }
}

/// The body of a request to the channel.
#[derive(Debug, PartialEq, Eq)]
pub enum TweetBody {
    Post(Tweet),
    Comment(TweetComment),
}

/// The body of the request that makes a call.
pub fn body_for(call: Call) -> (body: TweetBody)
    ensures
        match call {
            Call::CreatePost { text } => body == TweetBody::Post(Tweet { text }),
            Call::CreateReply { parent_post_id, text } => body == TweetBody::Comment(
                TweetComment { text, reply: Reply { in_reply_to_tweet_id: parent_post_id } },
            ),
        },
{
    match call {
        Call::CreatePost { text } => TweetBody::Post(Tweet { text }),
        Call::CreateReply { parent_post_id, text } => TweetBody::Comment(
            TweetComment::new(text, parent_post_id),
        ),
    }
}

/// The answer that the worker is handed for a request: the identifier of
/// the post where the channel created one, the error where it did not.
pub fn answer_from(response: Result<TweetResponse, ChannelError>) -> (answer: Answer)
    ensures
        match response {
            Ok(created) => answer == Ok::<String, ChannelError>(created.data.id),
            Err(error) => answer == Err::<String, ChannelError>(error),
        },
{
    match response {
        Ok(created) => Ok(created.data.id),
        Err(error) => Err(error),
    }
}

} // verus!
