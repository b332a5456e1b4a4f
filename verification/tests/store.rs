use chat_relay::context::ConversationContext;
use chat_relay::store::ContextStore;

#[test]
fn set_then_get_returns_the_context() {
    let mut store = ContextStore::new();
    store.set("alice", ConversationContext::from_tokens(vec![10, 20, 30]));
    assert_eq!(store.get("alice").into_tokens(), vec![10, 20, 30]);
    assert!(store.contains("alice"));
}

#[test]
fn empty_context_round_trips() {
    let mut store = ContextStore::new();
    store.set("alice", ConversationContext::empty());
    assert!(store.get("alice").is_empty());
    assert!(store.contains("alice"));
}

#[test]
fn unknown_key_yields_the_empty_context() {
    let mut store = ContextStore::new();
    assert!(store.get("nobody").is_empty());
    assert!(!store.contains("nobody"));
    store.set("alice", ConversationContext::from_tokens(vec![1]));
    assert_eq!(store.get("nobody"), ConversationContext::empty());
    assert!(!store.contains("nobody"));
}

#[test]
fn lookup_does_not_create_an_entry() {
    let store = ContextStore::new();
    let _ = store.get("alice");
    assert!(!store.contains("alice"));
}

#[test]
fn second_set_replaces_the_first() {
    let mut store = ContextStore::new();
    store.set("alice", ConversationContext::from_tokens(vec![1, 2, 3]));
    store.set("alice", ConversationContext::from_tokens(vec![9]));
    assert_eq!(store.get("alice").into_tokens(), vec![9]);
    store.set("alice", ConversationContext::empty());
    assert!(store.get("alice").is_empty());
    assert!(store.contains("alice"));
}

#[test]
fn keys_are_kept_apart() {
    let mut store = ContextStore::new();
    store.set("alice", ConversationContext::from_tokens(vec![1]));
    store.set("bob", ConversationContext::from_tokens(vec![2, 2]));
    store.set("alice", ConversationContext::from_tokens(vec![3, 3, 3]));
    assert_eq!(store.get("alice").into_tokens(), vec![3, 3, 3]);
    assert_eq!(store.get("bob").into_tokens(), vec![2, 2]);
}

#[test]
fn keys_are_compared_letter_for_letter() {
    let mut store = ContextStore::new();
    store.set("Alice", ConversationContext::from_tokens(vec![1]));
    assert!(store.get("alice").is_empty());
    assert!(store.get("Alice ").is_empty());
    assert!(store.get("").is_empty());
    store.set("", ConversationContext::from_tokens(vec![7]));
    assert_eq!(store.get("").into_tokens(), vec![7]);
    assert_eq!(store.get("Alice").into_tokens(), vec![1]);
}

#[test]
fn get_hands_out_a_copy() {
    let mut store = ContextStore::new();
    store.set("alice", ConversationContext::from_tokens(vec![5, 6]));
    let mut taken = store.get("alice").into_tokens();
    taken.push(7);
    assert_eq!(store.get("alice").into_tokens(), vec![5, 6]);
}
