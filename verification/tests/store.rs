use blog_api::health::health_check;
use blog_api::post::{CreatePost, Post};
use blog_api::store::{PostStore, StoreError};

fn input(title: &str, content: &str, author: &str) -> CreatePost {
    CreatePost {
        title: title.to_string(),
        content: content.to_string(),
        author: author.to_string(),
    }
}

fn seed() -> Post {
    Post {
        id: 1,
        title: "Welcome to Rust".to_string(),
        content: "Learning Rust is awesome!".to_string(),
        author: "Admin".to_string(),
    }
}

#[test]
fn health_check_answers_ok() {
    assert_eq!(health_check(), "OK");
}

#[test]
fn health_check_ignores_store_state() {
    let mut store = PostStore::new();
    assert_eq!(health_check(), "OK");
    store.create_post(input("a", "b", "c"));
    assert_eq!(health_check(), "OK");
    let _ = store.get_post(77);
    assert_eq!(health_check(), "OK");
}

#[test]
fn fresh_store_holds_exactly_the_seed_post() {
    let store = PostStore::new();
    assert_eq!(store.len(), 1);
    assert_eq!(store.list_posts(), vec![seed()]);
    assert_eq!(store.max_id(), 1);
}

#[test]
fn every_fresh_store_starts_the_same() {
    let first = PostStore::new();
    let mut second = PostStore::new();
    second.create_post(input("x", "y", "z"));
    let third = PostStore::new();
    assert_eq!(first.list_posts(), third.list_posts());
    assert_eq!(third.list_posts(), vec![seed()]);
}

#[test]
fn empty_store_holds_nothing() {
    let store = PostStore::empty();
    assert_eq!(store.len(), 0);
    assert_eq!(store.list_posts(), Vec::<Post>::new());
    assert_eq!(store.max_id(), 0);
    assert_eq!(store.get_post(1), Err(StoreError::NotFound));
}

#[test]
fn first_post_of_an_empty_store_gets_id_one() {
    let mut store = PostStore::empty();
    let post = store.create_post(input("first", "text", "me"));
    assert_eq!(post.id, 1);
    let next = store.create_post(input("second", "text", "me"));
    assert_eq!(next.id, 2);
    assert_eq!(store.list_posts(), vec![post, next]);
}

#[test]
fn create_returns_the_stored_record() {
    let mut store = PostStore::new();
    let post = store.create_post(input("T", "C", "A"));
    assert_eq!(
        post,
        Post {
            id: 2,
            title: "T".to_string(),
            content: "C".to_string(),
            author: "A".to_string(),
        }
    );
    assert_eq!(store.len(), 2);
    assert_eq!(store.list_posts(), vec![seed(), post]);
}

#[test]
fn creates_assign_consecutive_ids_in_order() {
    let mut store = PostStore::new();
    let n: u32 = 25;
    let mut assigned: Vec<u32> = Vec::new();
    for k in 0..n {
        let post = store.create_post(input(&format!("t{}", k), &format!("c{}", k), "a"));
        assigned.push(post.id);
    }
    let expected: Vec<u32> = (2..=n + 1).collect();
    assert_eq!(assigned, expected);
    assert_eq!(store.len(), 26);
    assert_eq!(store.max_id(), n + 1);
    let listed = store.list_posts();
    assert_eq!(listed[0], seed());
    for k in 0..n {
        let post = &listed[k as usize + 1];
        assert_eq!(post.id, k + 2);
        assert_eq!(post.title, format!("t{}", k));
        assert_eq!(post.content, format!("c{}", k));
        assert_eq!(post.author, "a");
    }
    let one_more = store.create_post(input("last", "", ""));
    assert_eq!(one_more.id, n + 2);
}

#[test]
fn get_after_create_returns_the_same_record() {
    let mut store = PostStore::new();
    let post = store.create_post(input("title", "content", "author"));
    assert_eq!(store.get_post(post.id), Ok(post));
}

#[test]
fn created_posts_stay_found_after_later_creates() {
    let mut store = PostStore::new();
    let mut made: Vec<Post> = Vec::new();
    for k in 0..10 {
        made.push(store.create_post(input(&format!("title {}", k), "body", "writer")));
    }
    for post in made {
        assert_eq!(store.get_post(post.id), Ok(post));
    }
    assert_eq!(store.get_post(1), Ok(seed()));
}

#[test]
fn get_post_of_unassigned_id_is_not_found() {
    let mut store = PostStore::new();
    assert_eq!(store.get_post(0), Err(StoreError::NotFound));
    assert_eq!(store.get_post(2), Err(StoreError::NotFound));
    assert_eq!(store.get_post(99), Err(StoreError::NotFound));
    assert_eq!(store.get_post(u32::MAX), Err(StoreError::NotFound));
    store.create_post(input("a", "b", "c"));
    assert_eq!(store.get_post(0), Err(StoreError::NotFound));
    assert_eq!(store.get_post(3), Err(StoreError::NotFound));
    assert!(store.get_post(2).is_ok());
}

#[test]
fn get_post_does_not_change_the_store() {
    let store = PostStore::new();
    let _ = store.get_post(5);
    let _ = store.get_post(1);
    assert_eq!(store.list_posts(), vec![seed()]);
}

#[test]
fn any_text_is_accepted() {
    let mut store = PostStore::new();
    let blank = store.create_post(input("", "", ""));
    assert_eq!(blank, Post { id: 2, title: String::new(), content: String::new(), author: String::new() });
    let long = "x".repeat(100_000);
    let big = store.create_post(input(&long, "caf\u{e9} \u{1f980}\n\t\"quoted\"", "<b>&</b>"));
    assert_eq!(big.id, 3);
    assert_eq!(big.title.len(), 100_000);
    assert_eq!(big.content, "caf\u{e9} \u{1f980}\n\t\"quoted\"");
    assert_eq!(big.author, "<b>&</b>");
    assert_eq!(store.get_post(3), Ok(big));
    assert_eq!(store.get_post(2), Ok(blank));
}

#[test]
fn equal_inputs_get_different_ids() {
    let mut store = PostStore::new();
    let a = store.create_post(input("same", "same", "same"));
    let b = store.create_post(input("same", "same", "same"));
    assert_ne!(a.id, b.id);
    assert_eq!((a.id, b.id), (2, 3));
    assert_eq!(store.len(), 3);
}

#[test]
fn changing_a_listed_post_leaves_the_store_alone() {
    let mut store = PostStore::new();
    store.create_post(input("T", "C", "A"));
    let mut listed = store.list_posts();
    listed[0].id = 42;
    listed[0].title = "changed".to_string();
    listed[1].content.push_str(" and more");
    listed.pop();
    listed.push(seed());
    listed.clear();
    let again = store.list_posts();
    assert_eq!(again.len(), 2);
    assert_eq!(again[0], seed());
    assert_eq!(again[1].content, "C");
    assert_eq!(store.get_post(42), Err(StoreError::NotFound));
    assert_eq!(store.get_post(1), Ok(seed()));
}

#[test]
fn changing_a_fetched_post_leaves_the_store_alone() {
    let mut store = PostStore::new();
    let created = store.create_post(input("T", "C", "A"));
    let mut fetched = store.get_post(2).unwrap();
    fetched.id = 7;
    fetched.author = "someone else".to_string();
    assert_eq!(store.get_post(2), Ok(created));
    assert_eq!(store.get_post(7), Err(StoreError::NotFound));
    let mut returned = store.create_post(input("U", "V", "W"));
    returned.id = 100;
    returned.title.clear();
    assert_eq!(store.get_post(3).unwrap().title, "U");
    assert_eq!(store.create_post(input("", "", "")).id, 4);
}

#[test]
fn post_clone_is_equal_and_independent() {
    let post = seed();
    let mut copy = post.clone();
    assert_eq!(copy, post);
    copy.title.push('!');
    assert_eq!(post, seed());
    let request = input("a", "b", "c");
    assert_eq!(request.clone(), request);
}

#[test]
fn not_found_is_the_only_error() {
    let store = PostStore::new();
    let err = store.get_post(12).unwrap_err();
    assert_eq!(err, StoreError::NotFound);
    assert!(matches!(err, StoreError::NotFound));
}

#[test]
fn list_then_create_then_get_scenario() {
    let mut store = PostStore::new();
    assert_eq!(store.list_posts(), vec![seed()]);
    let created = store.create_post(input("T", "C", "A"));
    assert_eq!(created.id, 2);
    assert_eq!(created.title, "T");
    assert_eq!(created.content, "C");
    assert_eq!(created.author, "A");
    let fetched = store.get_post(2);
    assert_eq!(fetched, Ok(created));
    assert_eq!(store.get_post(99), Err(StoreError::NotFound));
    let third = store.create_post(input("anything", "at", "all"));
    assert_eq!(third.id, 3);
}
