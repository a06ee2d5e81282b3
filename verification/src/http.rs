//! The answers of the request handlers: a status, whether any origin may
//! read the answer, and a body.

use crate::model::FailureResponse;
use vstd::prelude::*;
use vstd::string::StringExecFns;

verus! {

/// The answer to a request.
#[derive(Debug, PartialEq, Eq)]
pub struct HttpReply {
    pub status: u16,
    /// Whether the answer carries `Access-Control-Allow-Origin: *`.
    pub allow_any_origin: bool,
    pub body: String,
}

/// What an [`HttpReply`] is in contracts.
pub struct HttpReplyView {
    pub status: u16,
    pub allow_any_origin: bool,
    pub body: Seq<char>,
}

impl View for HttpReply {
    type V = HttpReplyView;

    open spec fn view(&self) -> HttpReplyView {
        HttpReplyView {
            status: self.status,
            allow_any_origin: self.allow_any_origin,
            body: self.body@,
        }
    }
}

/// Why the posts could not be listed.
#[derive(Debug, PartialEq, Eq)]
pub enum ListFailure {
    /// The account could not be configured.
    Config(String),
    /// No collection is named.
    NoTableName,
    /// The store or a record in it failed.
    Store(String),
}

/// The answer to a request for the list of posts.
///
/// The list goes out as it is, with status 200. Every failure is status
/// 500 with a sentence that says what failed. Both may be read from any
/// origin.
pub fn list_reply(listed: Result<String, ListFailure>) -> (reply: HttpReply)
    ensures
        reply@ == (match listed {
            Ok(body) => HttpReplyView { status: 200, allow_any_origin: true, body: body@ },
            Err(ListFailure::Config(detail)) => HttpReplyView {
                status: 500,
                allow_any_origin: true,
                body: "Error making config: "@ + detail@,
            },
            Err(ListFailure::NoTableName) => HttpReplyView {
                status: 500,
                allow_any_origin: true,
                body: "No Table Name Set"@,
            },
            Err(ListFailure::Store(detail)) => HttpReplyView {
                status: 500,
                allow_any_origin: true,
                body: "Get Posts Internal Error: "@ + detail@,
            },
        }),
{
    match listed {
        Ok(body) => HttpReply { status: 200, allow_any_origin: true, body },
        Err(ListFailure::Config(detail)) => HttpReply {
            status: 500,
            allow_any_origin: true,
            body: "Error making config: ".to_owned().concat(detail.as_str()),
        },
        Err(ListFailure::NoTableName) => HttpReply {
            status: 500,
            allow_any_origin: true,
            body: "No Table Name Set".to_owned(),
        },
        Err(ListFailure::Store(detail)) => HttpReply {
            status: 500,
            allow_any_origin: true,
            body: "Get Posts Internal Error: ".to_owned().concat(detail.as_str()),
        },
    }
}

/// Why a submission could not be taken.
#[derive(Debug, PartialEq, Eq)]
pub enum SubmitFailure {
    /// The account could not be configured.
    Config(String),
    /// No collection is named.
    NoTableName,
}

/// The answer to a submission of posts.
///
/// A submission that was taken is answered with status 200 and `Success`,
/// readable from any origin. A failure is status 500 with a sentence that
/// says what failed.
pub fn submit_reply(taken: Result<(), SubmitFailure>) -> (reply: HttpReply)
    ensures
        reply@ == (match taken {
            Ok(()) => HttpReplyView { status: 200, allow_any_origin: true, body: "Success"@ },
            Err(SubmitFailure::Config(detail)) => HttpReplyView {
                status: 500,
                allow_any_origin: false,
                body: "Error making config: "@ + detail@,
            },
            Err(SubmitFailure::NoTableName) => HttpReplyView {
                status: 500,
                allow_any_origin: false,
                body: "TABLE_NAME not set"@,
            },
        }),
{
    match taken {
        Ok(()) => HttpReply { status: 200, allow_any_origin: true, body: "Success".to_owned() },
        Err(SubmitFailure::Config(detail)) => HttpReply {
            status: 500,
            allow_any_origin: false,
            body: "Error making config: ".to_owned().concat(detail.as_str()),
        },
        Err(SubmitFailure::NoTableName) => HttpReply {
            status: 500,
            allow_any_origin: false,
            body: "TABLE_NAME not set".to_owned(),
        },
    }
}

/// The answer to a request to write new posts from the newsletter.
///
/// Success is status 200 and `Success`, readable from any origin. Every
/// failure, at whatever step, is status 500 with the failure's sentence
/// after the words `Error making config: `.
pub fn generate_reply(generated: Result<(), FailureResponse>) -> (reply: HttpReply)
    ensures
        reply@ == (match generated {
            Ok(()) => HttpReplyView { status: 200, allow_any_origin: true, body: "Success"@ },
            Err(failure) => HttpReplyView {
                status: 500,
                allow_any_origin: false,
                body: "Error making config: "@ + failure@,
            },
        }),
{
    match generated {
        Ok(()) => HttpReply { status: 200, allow_any_origin: true, body: "Success".to_owned() },
        Err(failure) => HttpReply {
            status: 500,
            allow_any_origin: false,
            body: "Error making config: ".to_owned().concat(failure.body.as_str()),
        },
    }
}

} // verus!
