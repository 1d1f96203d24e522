use std::sync::Arc;

use blog_api::post::CreatePost;
use blog_api::store::PostStore;
use tokio::runtime::Builder;
use tokio::sync::RwLock;

fn request(n: u32) -> CreatePost {
    CreatePost {
        title: format!("title {}", n),
        content: format!("content {}", n),
        author: format!("author {}", n),
    }
}

#[test]
fn concurrent_creates_get_distinct_ids() {
    let runtime = Builder::new_multi_thread().worker_threads(4).build().unwrap();
    let store = Arc::new(RwLock::new(PostStore::new()));
    let ids = runtime.block_on(async {
        let mut tasks = Vec::new();
        for n in 0..64u32 {
            let store = Arc::clone(&store);
            tasks.push(tokio::spawn(async move {
                let mut guard = store.write().await;
                guard.create_post(request(n)).id
            }));
        }
        let mut ids = Vec::new();
        for task in tasks {
            ids.push(task.await.unwrap());
        }
        ids
    });
    let mut sorted = ids.clone();
    sorted.sort();
    let expected: Vec<u32> = (2..=65).collect();
    assert_eq!(sorted, expected);
    let listed = runtime.block_on(async { store.read().await.list_posts() });
    assert_eq!(listed.len(), 65);
    let stored: Vec<u32> = listed.iter().map(|p| p.id).collect();
    let in_order: Vec<u32> = (1..=65).collect();
    assert_eq!(stored, in_order);
}

#[test]
fn readers_share_the_store() {
    let runtime = Builder::new_current_thread().build().unwrap();
    let store = Arc::new(RwLock::new(PostStore::new()));
    runtime.block_on(async {
        let first = store.read().await;
        let second = store.read().await;
        assert_eq!(first.len(), 1);
        assert_eq!(second.get_post(1).unwrap().id, 1);
        assert!(store.try_write().is_err());
        drop(first);
        drop(second);
        let mut writer = store.write().await;
        assert_eq!(writer.create_post(request(0)).id, 2);
    });
}
