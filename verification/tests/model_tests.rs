use post_dispatch::http::{
    generate_reply, list_reply, submit_reply, HttpReply, ListFailure, SubmitFailure,
};
use post_dispatch::model::{
    ContentType, FailureResponse, MyError, Opt, Post, Posts, ScheduledPost, SocialPost,
    SuccessResponse,
};
use post_dispatch::store::{decode_posts, Attr, Record};

fn reply(status: u16, allow_any_origin: bool, body: &str) -> HttpReply {
    HttpReply { status, allow_any_origin, body: body.to_string() }
}

#[test]
fn post_gives_up_its_text() {
    let post = Post { uuid: "p1".to_string(), post: "World".to_string() };
    assert_eq!(post.clone(), post);
    assert_eq!(post.get_post(), "World");
    let scheduled = ScheduledPost {
        uuid: "s1".to_string(),
        post: "Hello".to_string(),
        time: "2024-01-01T14:00:00Z".to_string(),
        recurring: true,
    };
    assert_eq!(scheduled.clone(), scheduled);
    assert_eq!(scheduled.get_post(), "Hello");
}

#[test]
fn error_is_its_message() {
    let error = MyError::new("No items found in response");
    assert_eq!(error.to_string(), "No items found in response");
    assert_eq!(MyError::new("").to_string(), "");
    assert_ne!(MyError::new("a"), MyError::new("b"));
}

#[test]
fn responses_carry_a_body() {
    let ok = SuccessResponse { body: "fine".to_string() };
    assert_eq!(ok.body, "fine");
    let failure = FailureResponse { body: "broken".to_string() };
    assert_eq!(failure.to_string(), "broken");
}

#[test]
fn content_types_differ() {
    assert_eq!(ContentType::POST, ContentType::POST);
    assert_ne!(ContentType::POST, ContentType::THREAD);
}

#[test]
fn options_hold_region_and_verbosity() {
    let opt = Opt { region: Some("us-east-1".to_string()), verbose: true };
    assert_eq!(opt.region.as_deref(), Some("us-east-1"));
    assert!(opt.verbose);
}

#[test]
fn main_test_send_posts() {
    let mut first = Record::new();
    first.insert("uuid".to_string(), Attr::Text("a".to_string()));
    first.insert("post".to_string(), Attr::Text("One".to_string()));
    let mut second = Record::new();
    second.insert("post".to_string(), Attr::Text("Two".to_string()));
    second.insert("uuid".to_string(), Attr::Text("b".to_string()));
    let posts: Posts = decode_posts(&vec![first, second]).unwrap();
    println!("Total Posts: {}", posts.posts.len());
    for post in &posts.posts {
        println!("* UUID: {} Post: {}", post.uuid, post.post);
    }
    assert_eq!(
        posts,
        Posts {
            posts: vec![
                Post { uuid: "a".to_string(), post: "One".to_string() },
                Post { uuid: "b".to_string(), post: "Two".to_string() },
            ],
        }
    );
}

#[test]
fn list_of_posts_is_answered_for_any_origin() {
    assert_eq!(list_reply(Ok("{\"posts\":[]}".to_string())), reply(200, true, "{\"posts\":[]}"));
    assert_eq!(
        list_reply(Err(ListFailure::Config("no region".to_string()))),
        reply(500, true, "Error making config: no region")
    );
    assert_eq!(list_reply(Err(ListFailure::NoTableName)), reply(500, true, "No Table Name Set"));
    assert_eq!(
        list_reply(Err(ListFailure::Store("Missing 'post' attribute".to_string()))),
        reply(500, true, "Get Posts Internal Error: Missing 'post' attribute")
    );
}

#[test]
fn submission_is_answered_with_success_or_the_failure() {
    assert_eq!(submit_reply(Ok(())), reply(200, true, "Success"));
    assert_eq!(
        submit_reply(Err(SubmitFailure::Config("no region".to_string()))),
        reply(500, false, "Error making config: no region")
    );
    assert_eq!(
        submit_reply(Err(SubmitFailure::NoTableName)),
        reply(500, false, "TABLE_NAME not set")
    );
}

#[test]
fn generation_is_answered_with_success_or_the_failure() {
    assert_eq!(generate_reply(Ok(())), reply(200, true, "Success"));
    assert_eq!(
        generate_reply(Err(FailureResponse { body: "API Key Not Set".to_string() })),
        reply(500, false, "Error making config: API Key Not Set")
    );
}
