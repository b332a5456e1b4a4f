use chat_relay::context::ConversationContext;

#[test]
fn empty_context_has_no_tokens() {
    let context = ConversationContext::empty();
    assert!(context.is_empty());
    assert_eq!(context.tokens(), &Vec::<i32>::new());
    assert_eq!(context.into_tokens(), Vec::<i32>::new());
}

#[test]
fn tokens_come_back_in_order() {
    let context = ConversationContext::from_tokens(vec![3, -1, 4, 1, 5]);
    assert!(!context.is_empty());
    assert_eq!(context.tokens(), &vec![3, -1, 4, 1, 5]);
    assert_eq!(context.into_tokens(), vec![3, -1, 4, 1, 5]);
}

#[test]
fn clone_keeps_every_token() {
    let context = ConversationContext::from_tokens(vec![i32::MIN, 0, i32::MAX]);
    let copy = context.clone();
    assert_eq!(copy.tokens(), &vec![i32::MIN, 0, i32::MAX]);
    assert_eq!(copy, context);
}

#[test]
fn equality_compares_items_and_order() {
    let one = ConversationContext::from_tokens(vec![1, 2, 3]);
    assert!(one.same_as(&ConversationContext::from_tokens(vec![1, 2, 3])));
    assert!(one == ConversationContext::from_tokens(vec![1, 2, 3]));
    assert!(!one.same_as(&ConversationContext::from_tokens(vec![1, 3, 2])));
    assert!(one != ConversationContext::from_tokens(vec![1, 2]));
    assert!(one != ConversationContext::from_tokens(vec![1, 2, 3, 4]));
    assert!(one != ConversationContext::empty());
    assert!(ConversationContext::empty() == ConversationContext::from_tokens(Vec::new()));
}
