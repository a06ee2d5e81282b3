use post_dispatch::intake::{
    assign_keys, plan_writes, split_batches, with_key, Post, Posts, BATCH_LIMIT,
};

fn submission(count: usize) -> Posts {
    Posts { posts: (0..count).map(|i| Post { post: format!("Test Post {}", i + 1) }).collect() }
}

fn keyed(count: usize) -> Vec<post_dispatch::model::Post> {
    (0..count)
        .map(|i| post_dispatch::model::Post { uuid: format!("k{}", i), post: format!("t{}", i) })
        .collect()
}

#[test]
fn walk_hands_out_the_posts_in_order() {
    let mut walk = submission(3).into_iter();
    assert_eq!(walk.next(), Some(Post { post: "Test Post 1".to_string() }));
    assert_eq!(walk.next(), Some(Post { post: "Test Post 2".to_string() }));
    assert_eq!(walk.next(), Some(Post { post: "Test Post 3".to_string() }));
    assert_eq!(walk.next(), None);
    assert_eq!(walk.next(), None);
    let mut empty = submission(0).into_iter();
    assert_eq!(empty.next(), None);
}

#[test]
fn post_gets_the_key_it_is_given() {
    let keyed = with_key(Post { post: "Hello".to_string() }, "k1".to_string());
    assert_eq!(keyed, post_dispatch::model::Post { uuid: "k1".to_string(), post: "Hello".to_string() });
}

#[test]
fn every_post_gets_a_key_of_its_own() {
    let keyed = assign_keys(submission(3));
    assert_eq!(keyed.len(), 3);
    for (i, post) in keyed.iter().enumerate() {
        assert_eq!(post.post, format!("Test Post {}", i + 1));
        assert_eq!(post.uuid.chars().count(), 36);
        assert_ne!(post.uuid, post.post);
        assert!(post.uuid.chars().all(|c| c == '-' || c.is_ascii_hexdigit()));
    }
    assert_ne!(keyed[0].uuid, keyed[1].uuid);
    assert_ne!(keyed[1].uuid, keyed[2].uuid);
    assert_eq!(assign_keys(submission(0)), vec![]);
}

#[test]
fn batches_hold_at_most_the_limit() {
    assert_eq!(BATCH_LIMIT, 25);
    let sizes = |count: usize| -> Vec<usize> {
        split_batches(keyed(count)).iter().map(|batch| batch.len()).collect()
    };
    assert_eq!(sizes(0), Vec::<usize>::new());
    assert_eq!(sizes(1), vec![1]);
    assert_eq!(sizes(24), vec![24]);
    assert_eq!(sizes(25), vec![25]);
    assert_eq!(sizes(26), vec![25, 1]);
    assert_eq!(sizes(50), vec![25, 25]);
    assert_eq!(sizes(51), vec![25, 25, 1]);
    assert_eq!(sizes(60), vec![25, 25, 10]);
}

#[test]
fn batches_keep_the_order_of_the_items() {
    let batches = split_batches(keyed(60));
    let flat: Vec<post_dispatch::model::Post> = batches.into_iter().flatten().collect();
    assert_eq!(flat, keyed(60));
}

#[test]
fn test_add_to_db() {
    let post = Post { post: String::from("Test Post 1") };
    let post2 = Post { post: String::from("Test Post 2") };
    let posts: Posts = Posts { posts: vec![post, post2] };
    let batches = plan_writes(posts);
    assert_eq!(batches.len(), 1);
    assert_eq!(batches[0].len(), 2);
    assert_eq!(batches[0][0].post, "Test Post 1");
    assert_eq!(batches[0][1].post, "Test Post 2");
    assert_ne!(batches[0][0].uuid, batches[0][1].uuid);
}

#[test]
fn large_submission_is_written_in_several_batches() {
    let batches = plan_writes(submission(30));
    assert_eq!(batches.len(), 2);
    assert_eq!(batches[0].len(), 25);
    assert_eq!(batches[1].len(), 5);
    assert_eq!(batches[1][4].post, "Test Post 30");
    assert_eq!(plan_writes(submission(0)).len(), 0);
}
