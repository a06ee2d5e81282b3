//! Taking new content in: posts as they are submitted, without a key, and
//! what is written to the store for them.
//!
//! Every submitted post gets a fresh key. The store takes writes in batches
//! of at most [`BATCH_LIMIT`] items, so the keyed posts are cut into such
//! batches, in the order of submission.

use crate::model::PostView;
use crate::outside::fresh_key;
use vstd::prelude::*;

verus! {

/// A post as it is submitted: text without a key.
#[derive(Debug, PartialEq, Eq)]
pub struct Post {
    pub post: String,
}

impl View for Post {
    type V = Seq<char>;

    open spec fn view(&self) -> Seq<char> {
        self.post@
    }
}

impl Clone for Post {
    fn clone(&self) -> (copy: Self)
        ensures
            copy == *self,
    {
        Post { post: self.post.clone() }
    }
}

/// The texts of a sequence of submitted posts, one for one.
pub open spec fn submitted_texts(posts: Seq<Post>) -> Seq<Seq<char>> {
    Seq::new(posts.len(), |i: int| posts[i]@)
}

/// A submission: posts in the order in which they were written.
#[derive(Debug, PartialEq, Eq)]
pub struct Posts {
    pub posts: Vec<Post>,
}

impl View for Posts {
    type V = Seq<Seq<char>>;

    open spec fn view(&self) -> Seq<Seq<char>> {
        submitted_texts(self.posts@)
    }
}

/// Walks through a submission, first post first.
#[derive(Debug)]
pub struct PostsIterator {
    posts: Vec<Post>,
    position: usize,
}

impl View for PostsIterator {
    type V = Seq<Seq<char>>;

    /// The texts of the posts that are still to come.
    closed spec fn view(&self) -> Seq<Seq<char>> {
        submitted_texts(self.posts@).skip(self.position as int)
    }
}

impl Posts {
    /// Turns the submission into a walk through its posts.
    pub fn into_iter(self) -> (walk: PostsIterator)
        ensures
            walk@ == self@,
    {
        PostsIterator { posts: self.posts, position: 0 }
    }
}

impl PostsIterator {
    #[verifier::type_invariant]
    spec fn within(&self) -> bool {
        self.position <= self.posts@.len()
    }

    /// Hands out the next post, or `None` when all have been handed out.
    pub fn next(&mut self) -> (post: Option<Post>)
        ensures
            match post {
                Some(post) => old(self)@.len() > 0 && post@ == old(self)@[0] && final(self)@ == old(
                    self,
                )@.drop_first(),
                None => old(self)@.len() == 0 && final(self)@ == old(self)@,
            },
    {
        proof {
            use_type_invariant(&*self);
        }
        if self.position < self.posts.len() {
            let post = self.posts[self.position].clone();
            self.position = self.position + 1;
            Some(post)
        } else {
            None
        }
    }
}

/// The most items that the store takes in one write.
pub const BATCH_LIMIT: usize = 25;

/// Gives a submitted post the key under which it is stored.
pub fn with_key(post: Post, key: String) -> (keyed: crate::model::Post)
    ensures
        keyed@ == (PostView { uuid: key@, post: post@ }),
{
    crate::model::Post { uuid: key, post: post.post }
}

/// Gives every post of a submission a fresh key.
///
/// The posts keep their order and their text. Each key is the text of a
/// random identifier, 36 characters long.
pub fn assign_keys(posts: Posts) -> (keyed: Vec<crate::model::Post>)
    ensures
        keyed@.len() == posts@.len(),
        forall|i: int|
            0 <= i < keyed@.len() ==> (#[trigger] keyed@[i]).post@ == posts@[i] && keyed@[i].uuid@.len()
                == 36,
{
    let ghost texts = posts@;
    let mut keyed: Vec<crate::model::Post> = Vec::new();
    let mut walk = posts.into_iter();
    loop
        invariant
            keyed@.len() + walk@.len() == texts.len(),
            walk@ == texts.skip(keyed@.len() as int),
            forall|i: int|
                0 <= i < keyed@.len() ==> (#[trigger] keyed@[i]).post@ == texts[i]
                    && keyed@[i].uuid@.len() == 36,
        ensures
            keyed@.len() == texts.len(),
            forall|i: int|
                0 <= i < keyed@.len() ==> (#[trigger] keyed@[i]).post@ == texts[i]
                    && keyed@[i].uuid@.len() == 36,
        decreases walk@.len(),
    {
        match walk.next() {
            Some(post) => {
                keyed.push(with_key(post, fresh_key()));
            },
            None => {
                break;
            },
        }
    }
    keyed
}

/// The number of writes that `items` items take.
pub open spec fn batch_count(items: int) -> int {
    (items + BATCH_LIMIT - 1) / (BATCH_LIMIT as int)
}

/// The place in the submission where batch `batch` ends.
pub open spec fn batch_end(batch: int, items: int) -> int {
    if BATCH_LIMIT * (batch + 1) < items {
        BATCH_LIMIT * (batch + 1)
    } else {
        items
    }
}

/// Cuts a list of items into the batches in which they are written.
///
/// The batches hold the items in their order. Each but the last holds
/// [`BATCH_LIMIT`] items; the last holds what is left, and at least one.
pub fn split_batches(items: Vec<crate::model::Post>) -> (batches: Vec<Vec<crate::model::Post>>)
    ensures
        batches@.len() == batch_count(items@.len() as int),
        forall|b: int|
            0 <= b < batches@.len() ==> (#[trigger] batches@[b])@ == items@.subrange(
                BATCH_LIMIT * b,
                batch_end(b, items@.len() as int),
            ),
{
    let ghost all = items@;
    let mut batches: Vec<Vec<crate::model::Post>> = Vec::new();
    let mut rest = items;
    while rest.len() > BATCH_LIMIT
        invariant
            BATCH_LIMIT * batches@.len() + rest@.len() == all.len(),
            rest@ == all.subrange(BATCH_LIMIT * batches@.len(), all.len() as int),
            forall|b: int|
                0 <= b < batches@.len() ==> (#[trigger] batches@[b])@ == all.subrange(
                    BATCH_LIMIT * b,
                    BATCH_LIMIT * (b + 1),
                ),
        decreases rest@.len(),
    {
        let tail = rest.split_off(BATCH_LIMIT);
        batches.push(rest);
        rest = tail;
    }
    if rest.len() > 0 {
        batches.push(rest);
    }
    batches
}

/// What is written for a submission: its posts, each under a fresh key, in
/// batches.
pub fn plan_writes(posts: Posts) -> (batches: Vec<Vec<crate::model::Post>>)
    ensures
        batches@.len() == batch_count(posts@.len() as int),
        forall|b: int|
            0 <= b < batches@.len() ==> (#[trigger] batches@[b])@.len() == batch_end(
                b,
                posts@.len() as int,
            ) - BATCH_LIMIT * b,
        forall|b: int, i: int|
            0 <= b < batches@.len() && 0 <= i < batches@[b]@.len() ==> (#[trigger] batches@[b]@[i]).post@
                == posts@[BATCH_LIMIT * b + i] && batches@[b]@[i].uuid@.len() == 36,
{
    let keyed = assign_keys(posts);
    split_batches(keyed)
}

} // verus!
