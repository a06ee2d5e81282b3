//! Everything the library takes on trust from other crates.
//!
//! Each function here makes one call into another crate and states what the
//! library believes of the answer. Nothing in this file is proved; what the
//! rest of the crate proves rests on these statements. Where an answer is
//! too intricate to write down, it only gets a name: the statement is then
//! that the answer depends on the arguments and on nothing else.

use crate::feed::{feed_event_views, FeedEvent, FeedEventView};
use crate::text::optional_text;
use vstd::prelude::*;

verus! {

/// The instant that `chrono` reads out of a timestamp, in whole seconds
/// since the start of 1970 in UTC; `None` where `chrono` rejects the text.
pub uninterp spec fn timestamp_epoch_seconds(text: Seq<char>) -> Option<i64>;

/// Parses a timestamp with `chrono`'s `FromStr` for `DateTime<FixedOffset>`
/// (a relaxed RFC 3339) and takes `DateTime::timestamp` of the result.
///
/// Believed: the answer depends on the text alone. Nothing is claimed of
/// which texts parse or to what.
#[verifier::external_body]
pub(crate) fn parse_epoch_seconds(text: &str) -> (seconds: Option<i64>)
    ensures
        seconds == timestamp_epoch_seconds(text@),
{
    match text.parse::<chrono::DateTime<chrono::FixedOffset>>() {
        Ok(instant) => Some(instant.timestamp()),
        Err(_) => None,
    }
}

/// Draws a random key with `uuid`'s `Uuid::new_v4` and writes it in the
/// hyphenated form of its `Display`.
///
/// Believed: the text is 36 characters long. Nothing is claimed of which
/// key is drawn; two calls may or may not differ. The call ends the process
/// where the operating system has no random bytes to give.
#[verifier::external_body]
pub(crate) fn fresh_key() -> (key: String)
    ensures
        key@.len() == 36,
{
    uuid::Uuid::new_v4().to_string()
}

/// What `regex` makes of a haystack when every match of a pattern is
/// replaced; `None` where `regex` rejects the pattern.
pub uninterp spec fn regex_replace_all(
    pattern: Seq<char>,
    haystack: Seq<char>,
    replacement: Seq<char>,
) -> Option<Seq<char>>;

/// Compiles a pattern with `regex`'s `Regex::new` and replaces every match
/// in the haystack with `Regex::replace_all`.
///
/// Believed: the answer depends on the three texts alone. Nothing is
/// claimed of what matches.
#[verifier::external_body]
pub(crate) fn replace_all(pattern: &str, haystack: &str, replacement: &str) -> (replaced: Option<
    String,
>)
    ensures
        optional_text(replaced) == regex_replace_all(pattern@, haystack@, replacement@),
{
    match regex::Regex::new(pattern) {
        Ok(expression) => Some(expression.replace_all(haystack, replacement).into_owned()),
        Err(_) => None,
    }
}

/// The number of tokens into which `tiktoken_rs` splits a text with the
/// `cl100k_base` vocabulary, special tokens allowed; `None` where it cannot
/// build the encoder or encode the text.
pub uninterp spec fn cl100k_token_count(text: Seq<char>) -> Option<usize>;

/// Builds the encoder with `tiktoken_rs::cl100k_base` and encodes the text
/// with `CoreBPE::encode`, allowing the tokens of `CoreBPE::special_tokens`.
/// That is `CoreBPE::encode_with_special_tokens`, but for an answer in
/// place of its panic where the text cannot be encoded.
///
/// Believed: the count depends on the text alone. Nothing is claimed of
/// how large it is.
#[verifier::external_body]
pub(crate) fn count_tokens(text: &str) -> (count: Option<usize>)
    ensures
        count == cl100k_token_count(text@),
{
    match tiktoken_rs::cl100k_base() {
        Ok(encoder) => match encoder.encode(text, &encoder.special_tokens()) {
            Ok((tokens, _)) => Some(tokens.len()),
            Err(_) => None,
        },
        Err(_) => None,
    }
}

/// The events that `xml` reads out of a document, in order, each reduced to
/// what the feed reader looks at.
pub uninterp spec fn xml_event_stream(document: Seq<char>) -> Seq<FeedEventView>;

/// Reads a document to its end with `xml`'s `EventReader::new` and its
/// iterator, which stops after the end of the document or the first error.
/// The start and the end of an element keep the local name, character data
/// in a CDATA section keeps its text, and every other event, an error
/// among them, becomes `Other`.
///
/// Believed: the events depend on the document alone. Nothing is claimed
/// of which events a document gives.
#[verifier::external_body]
pub(crate) fn xml_events(document: &str) -> (events: Vec<FeedEvent>)
    ensures
        feed_event_views(events@) == xml_event_stream(document@),
{
    xml::reader::EventReader::new(document.as_bytes()).into_iter().map(
        |event| match event {
            Ok(xml::reader::XmlEvent::StartElement { name, .. }) => FeedEvent::Start(name.local_name),
            Ok(xml::reader::XmlEvent::EndElement { name }) => FeedEvent::End(name.local_name),
            Ok(xml::reader::XmlEvent::CData(text)) => FeedEvent::CData(text),
            _ => FeedEvent::Other,
        },
    ).collect()
}

} // verus!
