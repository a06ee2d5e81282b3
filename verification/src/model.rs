//! The records the pipeline moves around, and their mathematical views.
//!
//! Every type that holds text has a view in which each `String` is the
//! sequence of its characters. Contracts elsewhere in the crate speak of
//! those views.

use vstd::prelude::*;

verus! {

/// A piece of ready content: a unique key and the text to publish.
///
/// The same pair is what travels over the bus to the channel workers.
#[derive(Debug, PartialEq, Eq)]
pub struct Post {
    pub uuid: String,
    pub post: String,
}

/// What a [`Post`] is in contracts.
pub struct PostView {
    pub uuid: Seq<char>,
    pub post: Seq<char>,
}

impl View for Post {
    type V = PostView;

    open spec fn view(&self) -> PostView {
        PostView { uuid: self.uuid@, post: self.post@ }
    }
}

impl Clone for Post {
    fn clone(&self) -> (copy: Self)
        ensures
            copy == *self,
    {
        Post { uuid: self.uuid.clone(), post: self.post.clone() }
    }
}

/// A list of posts, in the order in which the store returned them.
#[derive(Debug, PartialEq, Eq)]
pub struct Posts {
    pub posts: Vec<Post>,
}

/// The views of a sequence of posts, one for one.
pub open spec fn post_views(posts: Seq<Post>) -> Seq<PostView> {
    Seq::new(posts.len(), |i: int| posts[i]@)
}

impl View for Posts {
    type V = Seq<PostView>;

    open spec fn view(&self) -> Seq<PostView> {
        post_views(self.posts@)
    }
}

/// Content that waits for its hour.
///
/// `time` is the fire window as the store holds it, an ISO-8601 timestamp.
/// Only its hour of day is ever compared. A recurring item survives its own
/// dispatch; any other is deleted once it has been handed to the bus.
#[derive(Debug, PartialEq, Eq)]
pub struct ScheduledPost {
    pub uuid: String,
    pub post: String,
    pub time: String,
    pub recurring: bool,
}

/// What a [`ScheduledPost`] is in contracts.
pub struct ScheduledPostView {
    pub uuid: Seq<char>,
    pub post: Seq<char>,
    pub time: Seq<char>,
    pub recurring: bool,
}

impl View for ScheduledPost {
    type V = ScheduledPostView;

    open spec fn view(&self) -> ScheduledPostView {
        ScheduledPostView {
            uuid: self.uuid@,
            post: self.post@,
            time: self.time@,
            recurring: self.recurring,
        }
    }
}

impl Clone for ScheduledPost {
    fn clone(&self) -> (copy: Self)
        ensures
            copy == *self,
    {
        ScheduledPost {
            uuid: self.uuid.clone(),
            post: self.post.clone(),
            time: self.time.clone(),
            recurring: self.recurring,
        }
    }
}

/// The views of a sequence of scheduled posts, one for one.
pub open spec fn scheduled_views(posts: Seq<ScheduledPost>) -> Seq<ScheduledPostView> {
    Seq::new(posts.len(), |i: int| posts[i]@)
}

/// The shape in which content is published.
#[derive(Debug, PartialEq, Eq, Structural, Clone, Copy)]
pub enum ContentType {
    POST,
    THREAD,
}

/// Anything that carries text for a channel.
pub trait SocialPost: Sized {
    /// The text that `get_post` hands out.
    spec fn text(&self) -> Seq<char>;

    /// Gives up the item for its text.
    fn get_post(self) -> (text: String)
        ensures
            text@ == self.text(),
    ;
}

impl SocialPost for Post {
    open spec fn text(&self) -> Seq<char> {
        self.post@
    }

    fn get_post(self) -> (text: String) {
        self.post
    }
}

impl SocialPost for ScheduledPost {
    open spec fn text(&self) -> Seq<char> {
        self.post@
    }

    fn get_post(self) -> (text: String) {
        self.post
    }
}

/// How to reach the cloud account: a region, if one is forced, and whether
/// to print what was chosen.
#[derive(Debug)]
pub struct Opt {
    /// The region to use before any default.
    pub region: Option<String>,
    /// Whether to display additional information.
    pub verbose: bool,
}

/// The body of a call that went well.
#[derive(Debug, PartialEq, Eq)]
pub struct SuccessResponse {
    pub body: String,
}

impl View for SuccessResponse {
    type V = Seq<char>;

    open spec fn view(&self) -> Seq<char> {
        self.body@
    }
}

/// The body of a call that failed: a sentence for the operator.
#[derive(Debug, PartialEq, Eq)]
pub struct FailureResponse {
    pub body: String,
}

impl View for FailureResponse {
    type V = Seq<char>;

    open spec fn view(&self) -> Seq<char> {
        self.body@
    }
}

impl FailureResponse {
    /// The failure as text: its body, unchanged.
    pub fn to_string(&self) -> (text: String)
        ensures
            text@ == self@,
    {
        self.body.clone()
    }
}

/// An error that is nothing but its message.
#[derive(Debug, PartialEq, Eq)]
pub struct MyError {
    message: String,
}

impl View for MyError {
    type V = Seq<char>;

    closed spec fn view(&self) -> Seq<char> {
        self.message@
    }
}

impl MyError {
    /// An error that says `message`.
    pub fn new(message: &str) -> (error: MyError)
        ensures
            error@ == message@,
    {
        MyError { message: message.to_owned() }
    }

    /// The error as text: its message, unchanged.
    pub fn to_string(&self) -> (text: String)
        ensures
            text@ == self@,
    {
        self.message.clone()
    }
}

} // verus!
