//! Turning a newsletter feed into requests for a language model, and the
//! model's answer into text that can be parsed.
//!
//! Fetching the feed and talking to the model are the caller's part. Here
//! is what lies between: the text of the feed's first item, that text
//! without its markup, the prompts that carry it (split where it is too
//! long for one request), and the JSON object inside the model's answer.

use crate::model::{FailureResponse, SuccessResponse};
use crate::outside::{
    cl100k_token_count, count_tokens, regex_replace_all, replace_all, xml_event_stream, xml_events,
};
use crate::text::{chars_of, text_views};
use vstd::prelude::*;
use vstd::string::{StrSliceExecFns, StringExecFns, StringSliceAdditionalSpecFns};

verus! {

/// One event of an XML document, reduced to what the feed reader looks at.
#[derive(Debug, PartialEq, Eq)]
pub enum FeedEvent {
    /// An element opens; the text is its local name.
    Start(String),
    /// An element closes; the text is its local name.
    End(String),
    /// The text of a CDATA section.
    CData(String),
    /// Anything else.
    Other,
}

/// What a [`FeedEvent`] is in contracts.
pub enum FeedEventView {
    Start(Seq<char>),
    End(Seq<char>),
    CData(Seq<char>),
    Other,
}

impl View for FeedEvent {
    type V = FeedEventView;

    open spec fn view(&self) -> FeedEventView {
        match self {
            FeedEvent::Start(name) => FeedEventView::Start(name@),
            FeedEvent::End(name) => FeedEventView::End(name@),
            FeedEvent::CData(text) => FeedEventView::CData(text@),
            FeedEvent::Other => FeedEventView::Other,
        }
    }
}

/// The views of a sequence of events, one for one.
pub open spec fn feed_event_views(events: Seq<FeedEvent>) -> Seq<FeedEventView> {
    Seq::new(events.len(), |i: int| events[i]@)
}

/// The element whose text is the newsletter.
pub const ITEM_TAG: &'static str = "item";

/// The CDATA text of the first `tag` element, read from event `from` on.
///
/// Reading stops at the first event that closes a `tag` element. Until
/// then the text of every CDATA section counts that comes after a `tag`
/// element has opened; `inside` says whether one has.
pub open spec fn item_text(events: Seq<FeedEventView>, tag: Seq<char>, from: int, inside: bool) -> Seq<
    char,
>
    decreases events.len() - from,
{
    if from < 0 || from >= events.len() {
        Seq::empty()
    } else {
        match events[from] {
            FeedEventView::End(name) if name == tag => Seq::empty(),
            FeedEventView::Start(name) if name == tag => item_text(events, tag, from + 1, true),
            FeedEventView::CData(part) if inside => part + item_text(
                events,
                tag,
                from + 1,
                inside,
            ),
            _ => item_text(events, tag, from + 1, inside),
        }
    }
}

/// Collects the CDATA text of the first `tag` element of a document.
///
/// A document without such an element has no text.
pub fn first_item_cdata(events: &Vec<FeedEvent>, tag: &str) -> (text: String)
    ensures
        text@ == item_text(feed_event_views(events@), tag@, 0, false),
{
    let ghost views = feed_event_views(events@);
    let wanted = tag.to_owned();
    let mut text = String::new();
    let mut inside = false;
    let mut i: usize = 0;
    while i < events.len()
        invariant
            i <= events.len(),
            wanted@ == tag@,
            views == feed_event_views(events@),
            item_text(views, tag@, 0, false) == text@ + item_text(views, tag@, i as int, inside),
        decreases events.len() - i,
    {
        match &events[i] {
            FeedEvent::Start(name) => {
                if *name == wanted {
                    inside = true;
                }
            },
            FeedEvent::End(name) => {
                if *name == wanted {
                    return text;
                }
            },
            FeedEvent::CData(part) => {
                if inside {
                    text.append(part.as_str());
                }
            },
            FeedEvent::Other => {},
        }
        i = i + 1;
    }
    text
}

/// Reads the newsletter out of a feed: the CDATA text of its first item.
pub fn newsletter_content(document: &str) -> (content: SuccessResponse)
    ensures
        content@ == item_text(xml_event_stream(document@), ITEM_TAG@, 0, false),
{
    let events = xml_events(document);
    SuccessResponse { body: first_item_cdata(&events, ITEM_TAG) }
}

/// The pattern of a tag: `<`, anything but `>`, then `>`.
pub const TAG_PATTERN: &'static str = "<[^>]*>";

/// The text without its tags, as far as the pattern could be compiled.
pub open spec fn without_tags(content: Seq<char>) -> Option<Seq<char>> {
    regex_replace_all(TAG_PATTERN@, content, ""@)
}

/// What `cleanup` makes of a replacement: the text, or the failure to
/// build the pattern.
pub fn cleanup_result(replaced: Option<String>) -> (cleaned: Result<String, FailureResponse>)
    ensures
        match replaced {
            Some(text) => cleaned == Ok::<String, FailureResponse>(text),
            None => cleaned matches Err(failure) && failure@ == "Error removing tags"@,
        },
{
    match replaced {
        Some(text) => Ok(text),
        None => Err(FailureResponse { body: "Error removing tags".to_owned() }),
    }
}

/// Removes the tags from a text.
pub fn cleanup(content: &str) -> (cleaned: Result<String, FailureResponse>)
    ensures
        match cleaned {
            Ok(text) => without_tags(content@) == Some(text@),
            Err(failure) => without_tags(content@) is None && failure@ == "Error removing tags"@,
        },
{
    let replaced = replace_all(TAG_PATTERN, content, "");
    cleanup_result(replaced)
}

/// The most tokens that one request may carry.
pub const MAX_TOKENS: usize = 7500;

/// What the model is asked to do with the text.
pub const PROMPT: &'static str =
    "Create 12 powerful short Tweets that \ninspire conversation from this article. Respond with the \nTweets in JSON format like this: {\"posts\": [\"post\": <str>]}\nbut make sure it is proper JSON syntax.";

/// The request that carries one part of the text: the prompt, a space, the
/// part.
pub open spec fn prompt_for(part: Seq<char>) -> Seq<char> {
    PROMPT@ + " "@ + part
}

/// The number of requests for a text of `tokens` tokens: as few as keep
/// each under the limit if the tokens were spread evenly.
pub open spec fn chunk_count(tokens: int) -> int {
    (tokens + MAX_TOKENS - 1) / (MAX_TOKENS as int)
}

/// The length of each part but the last when a text of `bytes` bytes goes
/// into `chunks` requests.
pub open spec fn chunk_size(bytes: int, chunks: int) -> int {
    (bytes + chunks - 1) / chunks
}

/// A text cut into parts of `size` characters, the last one as long as what
/// is left. An empty text has no parts, and no text has parts of no length.
pub open spec fn pieces(text: Seq<char>, size: int) -> Seq<Seq<char>>
    decreases text.len(),
{
    if size <= 0 || text.len() == 0 {
        Seq::empty()
    } else if text.len() <= size {
        seq![text]
    } else {
        seq![text.take(size)] + pieces(text.skip(size), size)
    }
}

/// The parts of a text, put together again.
pub open spec fn joined(parts: Seq<Seq<char>>) -> Seq<char>
    decreases parts.len(),
{
    if parts.len() == 0 {
        Seq::empty()
    } else {
        parts[0] + joined(parts.skip(1))
    }
}

/// Cutting loses nothing and makes no part longer than asked: the parts of
/// a text, put together in their order, are the text, and every part holds
/// at least one character and at most `size`.
pub proof fn lemma_pieces_cover_the_text(text: Seq<char>, size: int)
    requires
        size > 0,
    ensures
        joined(pieces(text, size)) == text,
        forall|i: int|
            0 <= i < pieces(text, size).len() ==> 0 < (#[trigger] pieces(text, size)[i]).len()
                <= size,
    decreases text.len(),
{
    let parts = pieces(text, size);
    if text.len() == 0 {
    } else if text.len() <= size {
        assert(joined(parts) == text + joined(parts.skip(1)));
    } else {
        let rest = pieces(text.skip(size), size);
        lemma_pieces_cover_the_text(text.skip(size), size);
        assert(parts.skip(1) == rest);
        assert forall|i: int| 0 <= i < parts.len() implies 0 < (#[trigger] parts[i]).len()
            <= size by {
            if i > 0 {
                assert(parts[i] == rest[i - 1]);
            }
        }
    }
}

/// The requests for a text of `bytes` bytes that counts `tokens` tokens.
///
/// A text within the limit goes into one request. A longer one is cut into
/// parts of equal length in characters, where that length is the number of
/// its bytes divided by the number of requests, rounded up.
pub open spec fn prompts_for(contents: Seq<char>, bytes: int, tokens: int) -> Seq<Seq<char>> {
    if tokens > MAX_TOKENS {
        let parts = pieces(contents, chunk_size(bytes, chunk_count(tokens)));
        Seq::new(parts.len(), |i: int| prompt_for(parts[i]))
    } else {
        seq![prompt_for(contents)]
    }
}

/// Puts the prompt before a part of the text.
fn prompt_with(part: &str) -> (prompt: String)
    ensures
        prompt@ == prompt_for(part@),
{
    PROMPT.to_owned().concat(" ").concat(part)
}

/// Cuts a text into parts of `size` characters.
pub fn split_text(text: &str, size: usize) -> (parts: Vec<String>)
    ensures
        text_views(parts@) == pieces(text@, size as int),
{
    let mut parts: Vec<String> = Vec::new();
    if size == 0 {
        return parts;
    }
    let length = text.unicode_len();
    let mut start: usize = 0;
    assert(text@.skip(0) == text@);
    while start < length
        invariant
            size > 0,
            length == text@.len(),
            start <= length,
            pieces(text@, size as int) == text_views(parts@) + pieces(
                text@.skip(start as int),
                size as int,
            ),
        decreases length - start,
    {
        let end = if length - start <= size {
            length
        } else {
            start + size
        };
        let ghost rest = text@.skip(start as int);
        let part = text.substring_char(start, end);
        parts.push(part.to_owned());
        proof {
            if length - start > size {
                assert(part@ == rest.take(size as int));
                assert(rest.skip(size as int) == text@.skip(end as int));
            }
        }
        start = end;
    }
    parts
}

/// Writes the requests for a text that counts `tokens` tokens.
pub fn prompts(contents: &str, tokens: usize) -> (requests: Vec<String>)
    ensures
        text_views(requests@) == prompts_for(
            contents@,
            contents.spec_bytes().len() as int,
            tokens as int,
        ),
{
    let mut requests: Vec<String> = Vec::new();
    if tokens > MAX_TOKENS {
        let chunks = (tokens - 1) / MAX_TOKENS + 1;
        let bytes = contents.as_bytes().len();
        let size = if bytes == 0 {
            0
        } else {
            (bytes - 1) / chunks + 1
        };
        assert(size == chunk_size(bytes as int, chunks as int)) by (nonlinear_arith)
            requires
                chunks >= 1,
                bytes >= 0,
                size == (if bytes == 0 {
                    0
                } else {
                    (bytes - 1) / (chunks as int) + 1
                }),
        ;
        let parts = split_text(contents, size);
        let ghost cut = pieces(contents@, size as int);
        let mut i: usize = 0;
        while i < parts.len()
            invariant
                i <= parts.len(),
                text_views(parts@) == cut,
                requests@.len() == i,
                forall|j: int| 0 <= j < i ==> (#[trigger] requests@[j])@ == prompt_for(cut[j]),
            decreases parts.len() - i,
        {
            requests.push(prompt_with(parts[i].as_str()));
            i = i + 1;
        }
    } else {
        requests.push(prompt_with(contents));
    }
    requests
}

/// The requests for a text, given the count of its tokens as far as they
/// could be counted: the requests, or the failure to count.
pub open spec fn requests_for(contents: Seq<char>, bytes: int, tokens: Option<usize>) -> Result<
    Seq<Seq<char>>,
    Seq<char>,
> {
    match tokens {
        Some(tokens) => Ok(prompts_for(contents, bytes, tokens as int)),
        None => Err("Error counting tokens"@),
    }
}

/// Writes the requests for a text whose tokens were counted, or fails where
/// they could not be.
pub fn plan_requests(contents: &str, tokens: Option<usize>) -> (requests: Result<
    Vec<String>,
    FailureResponse,
>)
    ensures
        match requests {
            Ok(list) => requests_for(contents@, contents.spec_bytes().len() as int, tokens) == Ok::<
                Seq<Seq<char>>,
                Seq<char>,
            >(text_views(list@)),
            Err(failure) => requests_for(contents@, contents.spec_bytes().len() as int, tokens)
                == Err::<Seq<Seq<char>>, Seq<char>>(failure@),
        },
{
    match tokens {
        Some(tokens) => Ok(prompts(contents, tokens)),
        None => Err(FailureResponse { body: "Error counting tokens".to_owned() }),
    }
}

/// Counts the tokens of a text and writes the requests for it.
///
/// Fails only where the tokens cannot be counted.
pub fn generate_prompts(contents: &str) -> (requests: Result<Vec<String>, FailureResponse>)
    ensures
        match requests {
            Ok(list) => requests_for(
                contents@,
                contents.spec_bytes().len() as int,
                cl100k_token_count(contents@),
            ) == Ok::<Seq<Seq<char>>, Seq<char>>(text_views(list@)),
            Err(failure) => requests_for(
                contents@,
                contents.spec_bytes().len() as int,
                cl100k_token_count(contents@),
            ) == Err::<Seq<Seq<char>>, Seq<char>>(failure@),
        },
{
    plan_requests(contents, count_tokens(contents))
}

/// Whether `index` is the place of the first `c` in `text`.
pub open spec fn is_first(text: Seq<char>, c: char, index: int) -> bool {
    &&& 0 <= index < text.len()
    &&& text[index] == c
    &&& forall|j: int| 0 <= j < index ==> text[j] != c
}

/// Whether `index` is the place of the last `c` in `text`.
pub open spec fn is_last(text: Seq<char>, c: char, index: int) -> bool {
    &&& 0 <= index < text.len()
    &&& text[index] == c
    &&& forall|j: int| index < j < text.len() ==> text[j] != c
}

/// Whether the JSON object of `text` runs from `open` to `close`: from its
/// first opening brace to its last closing brace, which must not lie more
/// than one place before it.
pub open spec fn json_span(text: Seq<char>, open: int, close: int) -> bool {
    is_first(text, '{', open) && is_last(text, '}', close) && open <= close + 1
}

/// Cuts the JSON object out of a text: everything from the first `{` to the
/// last `}`, both included.
///
/// There is none where either brace is missing, or where the last `}`
/// stands more than one place before the first `{`. What is cut out is
/// empty or runs from a brace to a brace, so it has no space at its ends.
pub fn extract_json(json_string: &str) -> (json: Option<String>)
    ensures
        json matches Some(body) ==> exists|open: int, close: int|
            json_span(json_string@, open, close) && body@ == json_string@.subrange(
                open,
                close + 1,
            ),
        json is None ==> forall|open: int, close: int| !json_span(json_string@, open, close),
        json matches Some(body) ==> body@.len() == 0 || (body@.first() == '{' && body@.last()
            == '}'),
{
    let chars = chars_of(json_string);
    let mut first: Option<usize> = None;
    let mut last: Option<usize> = None;
    let mut i: usize = 0;
    while i < chars.len()
        invariant
            i <= chars.len(),
            chars@ == json_string@,
            match first {
                Some(open) => open < i && is_first(chars@, '{', open as int),
                None => forall|j: int| 0 <= j < i ==> chars@[j] != '{',
            },
            match last {
                Some(close) => close < i && chars@[close as int] == '}' && forall|j: int|
                    close < j < i ==> chars@[j] != '}',
                None => forall|j: int| 0 <= j < i ==> chars@[j] != '}',
            },
        decreases chars.len() - i,
    {
        if chars[i] == '{' && first.is_none() {
            first = Some(i);
        }
        if chars[i] == '}' {
            last = Some(i);
        }
        i = i + 1;
    }
    match (first, last) {
        (Some(open), Some(close)) => {
            if open <= close + 1 {
                assert(json_span(json_string@, open as int, close as int));
                Some(json_string.substring_char(open, close + 1).to_owned())
            } else {
                None
            }
        },
        _ => None,
    }
}

/// What is made of the model's answer: the JSON object inside it.
///
/// An answer without content and a content without a JSON object are two
/// different failures.
pub fn completion_json(content: Option<String>) -> (json: Result<String, FailureResponse>)
    ensures
        content is None ==> (json matches Err(failure) && failure@
            == "Could not get message content"@),
        content matches Some(text) ==> match json {
            Ok(body) => exists|open: int, close: int|
                json_span(text@, open, close) && body@ == text@.subrange(open, close + 1),
            Err(failure) => failure@ == "Error parsing posts contents!"@ && forall|
                open: int,
                close: int,
            | !json_span(text@, open, close),
        },
{
    match content {
        None => Err(FailureResponse { body: "Could not get message content".to_owned() }),
        Some(text) => match extract_json(text.as_str()) {
            Some(body) => Ok(body),
            None => Err(FailureResponse { body: "Error parsing posts contents!".to_owned() }),
        },
    }
}

/// The key for the model's service, or the failure to have one.
pub fn require_api_key(key: Option<String>) -> (checked: Result<String, FailureResponse>)
    ensures
        match key {
            Some(key) => checked == Ok::<String, FailureResponse>(key),
            None => checked matches Err(failure) && failure@ == "API Key Not Set"@,
        },
{
    match key {
        Some(key) => Ok(key),
        None => Err(FailureResponse { body: "API Key Not Set".to_owned() }),
    }
}

} // verus!
