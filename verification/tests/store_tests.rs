use dupebot::store::MessageStore;

fn insert_simple(store: &mut MessageStore, author: &str, content: &str) -> u64 {
    let m = store.insert(
        String::from("g1"),
        String::from("100"),
        String::from("m1"),
        String::from(author),
        String::from(content),
    );
    m.id
}

#[test]
fn insert_returns_populated_record() {
    let mut store = MessageStore::new();
    let m = store.insert(
        String::from("g1"),
        String::from("100"),
        String::from("m1"),
        String::from("u1"),
        String::from("hello world!"),
    );
    assert_eq!(m.id, 1);
    assert_eq!(m.guild_id, "g1");
    assert_eq!(m.channel_id, "100");
    assert_eq!(m.platform_message_id, "m1");
    assert_eq!(m.author_id, "u1");
    assert_eq!(m.content, "hello world!");
    assert!(m.image_hash.is_none());
}

#[test]
fn insert_assigns_sequential_ids() {
    let mut store = MessageStore::new();
    assert_eq!(insert_simple(&mut store, "u1", "first message"), 1);
    assert_eq!(insert_simple(&mut store, "u2", "second message"), 2);
    assert_eq!(insert_simple(&mut store, "u3", "third message"), 3);
    assert_eq!(store.len(), 3);
}

#[test]
fn query_returns_exact_matches_oldest_first() {
    let mut store = MessageStore::new();
    insert_simple(&mut store, "u1", "hello world!");
    insert_simple(&mut store, "u2", "other content");
    insert_simple(&mut store, "u3", "hello world!");
    let rows = store.query_by_content("hello world!");
    assert_eq!(rows.len(), 2);
    assert_eq!(rows[0].id, 1);
    assert_eq!(rows[1].id, 3);
    assert_eq!(rows[0].author_id, "u1");
    assert_eq!(rows[1].author_id, "u3");
}

#[test]
fn query_is_byte_for_byte_exact() {
    let mut store = MessageStore::new();
    insert_simple(&mut store, "u1", "Hello World!");
    assert_eq!(store.query_by_content("hello world!").len(), 0);
    assert_eq!(store.query_by_content("Hello World! ").len(), 0);
    assert_eq!(store.query_by_content("Hello World!").len(), 1);
}

#[test]
fn query_on_empty_store_is_empty() {
    let store = MessageStore::new();
    assert_eq!(store.query_by_content("hello world!").len(), 0);
}

#[test]
fn unrelated_insert_leaves_queries_unchanged() {
    let mut store = MessageStore::new();
    insert_simple(&mut store, "u1", "hello world!");
    insert_simple(&mut store, "u2", "hello world!");
    let before: Vec<u64> = store.query_by_content("hello world!").iter().map(|m| m.id).collect();
    insert_simple(&mut store, "u3", "completely unrelated");
    let after: Vec<u64> = store.query_by_content("hello world!").iter().map(|m| m.id).collect();
    assert_eq!(before, after);
    assert_eq!(before, vec![1, 2]);
}
