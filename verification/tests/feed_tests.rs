use post_dispatch::feed::{
    cleanup, cleanup_result, completion_json, extract_json, first_item_cdata, generate_prompts,
    newsletter_content, plan_requests, prompts, require_api_key, split_text, FeedEvent, ITEM_TAG,
    MAX_TOKENS, PROMPT, TAG_PATTERN,
};
use post_dispatch::model::FailureResponse;

fn start(name: &str) -> FeedEvent {
    FeedEvent::Start(name.to_string())
}

fn end(name: &str) -> FeedEvent {
    FeedEvent::End(name.to_string())
}

fn cdata(text: &str) -> FeedEvent {
    FeedEvent::CData(text.to_string())
}

fn failure(body: &str) -> FailureResponse {
    FailureResponse { body: body.to_string() }
}

const FEED: &str = "<?xml version=\"1.0\" encoding=\"UTF-8\"?>\
<rss version=\"2.0\"><channel><title><![CDATA[Run with joy]]></title>\
<link>https://davidjmeyer.substack.com/feed</link>\
<item><title><![CDATA[First letter]]></title>\
<description><![CDATA[<p>Hello <b>runners</b></p>]]></description></item>\
<item><title><![CDATA[Second letter]]></title></item>\
</channel></rss>";

#[test]
fn item_text_is_the_cdata_of_the_first_item() {
    let events = vec![
        start("rss"),
        cdata("before"),
        start("item"),
        start("title"),
        cdata("One"),
        end("title"),
        FeedEvent::Other,
        cdata(" and two"),
        end("item"),
        start("item"),
        cdata("never"),
        end("item"),
    ];
    assert_eq!(first_item_cdata(&events, "item"), "One and two");
    assert_eq!(first_item_cdata(&events, "title"), "One");
    assert_eq!(first_item_cdata(&events, "entry"), "");
    assert_eq!(first_item_cdata(&vec![], "item"), "");
}

#[test]
fn closing_tag_ends_the_reading_even_before_an_opening_one() {
    let events = vec![end("item"), start("item"), cdata("late"), end("item")];
    assert_eq!(first_item_cdata(&events, "item"), "");
}

#[test]
fn item_that_never_closes_is_read_to_the_end() {
    let events = vec![start("item"), cdata("a"), start("item"), cdata("b")];
    assert_eq!(first_item_cdata(&events, "item"), "ab");
}

#[test]
fn test_get_newsletter_content() {
    let response = newsletter_content(FEED).body;
    assert_eq!(response, "First letter<p>Hello <b>runners</b></p>");
    let cleanup = cleanup(&response).unwrap();
    println!("Response: {:?}", cleanup);
    assert_eq!(cleanup, "First letterHello runners");
}

#[test]
fn feed_without_items_has_no_text() {
    assert_eq!(newsletter_content("<rss><channel></channel></rss>").body, "");
    assert_eq!(newsletter_content("").body, "");
    assert_eq!(newsletter_content("this is no xml").body, "");
    assert_eq!(ITEM_TAG, "item");
}

#[test]
fn broken_feed_gives_what_was_read_before_the_break() {
    let broken = "<rss><item><![CDATA[kept]]><oops></item></rss>";
    assert_eq!(newsletter_content(broken).body, "kept");
}

#[test]
fn tags_are_removed() {
    assert_eq!(TAG_PATTERN, "<[^>]*>");
    assert_eq!(cleanup("<p>Hello</p>"), Ok("Hello".to_string()));
    assert_eq!(cleanup("no tags"), Ok("no tags".to_string()));
    assert_eq!(cleanup(""), Ok("".to_string()));
    assert_eq!(cleanup("a < b and c > d"), Ok("a  d".to_string()));
    assert_eq!(cleanup("open <never closed"), Ok("open <never closed".to_string()));
    assert_eq!(cleanup("<a\nhref=\"x\">link</a>"), Ok("link".to_string()));
    assert_eq!(cleanup("<<>>"), Ok(">".to_string()));
}

#[test]
fn failed_replacement_is_a_failure() {
    assert_eq!(cleanup_result(Some("text".to_string())), Ok("text".to_string()));
    assert_eq!(cleanup_result(None), Err(failure("Error removing tags")));
}

#[test]
fn text_is_cut_into_pieces_of_equal_length() {
    let pieces = |text: &str, size: usize| split_text(text, size);
    assert_eq!(pieces("abcdefg", 3), vec!["abc", "def", "g"]);
    assert_eq!(pieces("abcdef", 3), vec!["abc", "def"]);
    assert_eq!(pieces("abc", 3), vec!["abc"]);
    assert_eq!(pieces("ab", 3), vec!["ab"]);
    assert_eq!(pieces("abc", 1), vec!["a", "b", "c"]);
    assert_eq!(pieces("", 3), Vec::<String>::new());
    assert_eq!(pieces("abc", 0), Vec::<String>::new());
    assert_eq!(pieces("abc", usize::MAX), vec!["abc"]);
    // Pieces are counted in characters, not in bytes.
    assert_eq!(pieces("äöüß", 3), vec!["äöü", "ß"]);
}

#[test]
fn short_text_goes_into_one_request() {
    assert_eq!(MAX_TOKENS, 7500);
    assert_eq!(prompts("Hello", 1), vec![format!("{} Hello", PROMPT)]);
    assert_eq!(prompts("Hello", 7500), vec![format!("{} Hello", PROMPT)]);
    assert_eq!(prompts("", 0), vec![format!("{} ", PROMPT)]);
}

#[test]
fn long_text_is_spread_over_requests() {
    // 7501 tokens take two requests; ten bytes then go five and five.
    assert_eq!(
        prompts("0123456789", 7501),
        vec![format!("{} 01234", PROMPT), format!("{} 56789", PROMPT)]
    );
    // 15001 tokens take three requests; ten bytes go four, four and two.
    assert_eq!(
        prompts("0123456789", 15_001),
        vec![
            format!("{} 0123", PROMPT),
            format!("{} 4567", PROMPT),
            format!("{} 89", PROMPT),
        ]
    );
    assert_eq!(prompts("0123456789", 15_000).len(), 2);
    // The length of a part is taken from the bytes: four characters of two
    // bytes each go into two requests as parts of four characters.
    assert_eq!(prompts("äöüß", 7501), vec![format!("{} äöüß", PROMPT)]);
    // A text without bytes has no parts.
    assert_eq!(prompts("", 7501), Vec::<String>::new());
    assert_eq!(prompts("ab", usize::MAX).len(), 2);
}

#[test]
fn uncounted_text_has_no_requests() {
    assert_eq!(plan_requests("Hello", None), Err(failure("Error counting tokens")));
    assert_eq!(plan_requests("Hello", Some(1)), Ok(vec![format!("{} Hello", PROMPT)]));
    assert_eq!(plan_requests("0123456789", Some(7501)).unwrap().len(), 2);
}

#[test]
fn prompt_is_the_instruction_for_the_model() {
    assert!(PROMPT.starts_with("Create 12 powerful short Tweets that \ninspire conversation"));
    assert!(PROMPT.ends_with("but make sure it is proper JSON syntax."));
    assert!(PROMPT.contains("{\"posts\": [\"post\": <str>]}"));
}

#[test]
fn test_generate_posts() {
    let content = newsletter_content(FEED).body;
    let clean_content = cleanup(&content).unwrap();
    let posts = generate_prompts(&clean_content);
    println!("Posts: {:?}", posts);
    assert_eq!(posts, Ok(vec![format!("{} First letterHello runners", PROMPT)]));
}

#[test]
fn tokens_are_counted_before_the_text_is_cut() {
    // "hello " is one token and a bit; 20000 repetitions are far over the
    // limit, so the text goes into several requests that together carry it.
    let long = "hello ".repeat(20_000);
    let requests = generate_prompts(&long).unwrap();
    assert!(requests.len() >= 2);
    let carried: String = requests
        .iter()
        .map(|request| request.strip_prefix(PROMPT).unwrap().strip_prefix(' ').unwrap())
        .collect();
    assert_eq!(carried, long);
    let first = requests[0].len();
    assert!(requests.iter().all(|request| request.len() <= first));
}

#[test]
fn json_object_is_cut_out_of_the_answer() {
    let some = |s: &str| Some(s.to_string());
    assert_eq!(extract_json("{\"posts\": []}"), some("{\"posts\": []}"));
    assert_eq!(
        extract_json("Here you go:\n{\"posts\": [{\"post\": \"a\"}]}\nEnjoy!"),
        some("{\"posts\": [{\"post\": \"a\"}]}")
    );
    assert_eq!(extract_json("{}"), some("{}"));
    assert_eq!(extract_json("a{b}c{d}e"), some("{b}c{d}"));
    assert_eq!(extract_json("ä{ö}ü"), some("{ö}"));
    assert_eq!(extract_json("{ spaced }  "), some("{ spaced }"));
}

#[test]
fn answer_without_both_braces_has_no_json() {
    assert_eq!(extract_json(""), None);
    assert_eq!(extract_json("no braces"), None);
    assert_eq!(extract_json("{ never closed"), None);
    assert_eq!(extract_json("never opened }"), None);
    assert_eq!(extract_json("} {"), None);
}

#[test]
fn closing_brace_right_before_the_opening_one_gives_an_empty_object() {
    assert_eq!(extract_json("}{"), Some(String::new()));
    assert_eq!(extract_json("a}{b"), Some(String::new()));
}

#[test]
fn answer_of_the_model_is_reduced_to_its_json() {
    assert_eq!(completion_json(None), Err(failure("Could not get message content")));
    assert_eq!(
        completion_json(Some("sorry".to_string())),
        Err(failure("Error parsing posts contents!"))
    );
    assert_eq!(
        completion_json(Some("Sure: {\"posts\": []} ".to_string())),
        Ok("{\"posts\": []}".to_string())
    );
}

#[test]
fn missing_api_key_is_a_failure() {
    assert_eq!(require_api_key(None), Err(failure("API Key Not Set")));
    assert_eq!(require_api_key(Some("sk".to_string())), Ok("sk".to_string()));
    assert_eq!(failure("API Key Not Set").to_string(), "API Key Not Set");
}
