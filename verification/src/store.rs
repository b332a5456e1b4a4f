//! The per-user context store: one continuation token for each user key.

use vstd::prelude::*;
use vstd::hash_map::StringHashMap;
use crate::context::ConversationContext;

verus! {

/// What a lookup of `key` yields in a store that holds `contexts`: the token
/// stored for the key, and the empty token for a key that was never set.
pub open spec fn context_for(contexts: Map<Seq<char>, Seq<i32>>, key: Seq<char>) -> Seq<i32> {
    if contexts.contains_key(key) {
        contexts[key]
    } else {
        Seq::<i32>::empty()
    }
}

/// An in-memory mapping from user key to the user's latest context.
///
/// Each key has at most one entry, and an entry is replaced as a whole: the
/// store keeps no history and never forgets a key.
pub struct ContextStore {
    entries: StringHashMap<ConversationContext>,
}

impl View for ContextStore {
    type V = Map<Seq<char>, Seq<i32>>;

    closed spec fn view(&self) -> Map<Seq<char>, Seq<i32>> {
        self.entries@.map_values(|context: ConversationContext| context@)
    }
}

impl ContextStore {
    /// A store without entries.
    pub fn new() -> (store: Self)
        ensures
            store@ == Map::<Seq<char>, Seq<i32>>::empty(),
    {
        let store = ContextStore { entries: StringHashMap::new() };
        assert(store@ =~= Map::<Seq<char>, Seq<i32>>::empty());
        store
    }

    /// A copy of the context stored for `key`; the empty context where the
    /// key has none. A miss is no error.
    pub fn get(&self, key: &str) -> (context: ConversationContext)
        ensures
            context@ == context_for(self@, key@),
    {
        match self.entries.get(key) {
            Some(found) => found.clone(),
            None => ConversationContext::empty(),
        }
    }

    /// Makes `context` the one entry of `key`, whether or not the key had an
    /// entry before. No other key is touched.
    pub fn set(&mut self, key: &str, context: ConversationContext)
        ensures
            final(self)@ == old(self)@.insert(key@, context@),
    {
        self.entries.insert(String::from_str(key), context);
        assert(self@ =~= old(self)@.insert(key@, context@));
    }

    /// Whether a context was ever set for `key`.
    pub fn contains(&self, key: &str) -> (present: bool)
        ensures
            present == self@.contains_key(key@),
    {
        self.entries.contains_key(key)
    }
}

/// A context that was set is the one that a lookup of the same key returns,
/// whatever the key and the context, the empty context included.
pub proof fn lemma_get_after_set(
    contexts: Map<Seq<char>, Seq<i32>>,
    key: Seq<char>,
    context: Seq<i32>,
)
    ensures
        context_for(contexts.insert(key, context), key) == context,
{
}

/// A key that was never set yields the empty context; so does every key in a
/// store without entries.
pub proof fn lemma_miss_is_empty(contexts: Map<Seq<char>, Seq<i32>>, key: Seq<char>)
    ensures
        !contexts.contains_key(key) ==> context_for(contexts, key) == Seq::<i32>::empty(),
        context_for(Map::<Seq<char>, Seq<i32>>::empty(), key) == Seq::<i32>::empty(),
{
}

/// Setting a key twice leaves the store as if only the second context had
/// been set: the first one is gone.
pub proof fn lemma_set_overwrites(
    contexts: Map<Seq<char>, Seq<i32>>,
    key: Seq<char>,
    first: Seq<i32>,
    second: Seq<i32>,
)
    ensures
        contexts.insert(key, first).insert(key, second) == contexts.insert(key, second),
        context_for(contexts.insert(key, first).insert(key, second), key) == second,
{
    assert(contexts.insert(key, first).insert(key, second) =~= contexts.insert(key, second));
}

/// Setting one key gives that key an entry and changes nothing for any other
/// key: neither whether it has an entry nor what a lookup of it yields.
pub proof fn lemma_set_keeps_other_keys(
    contexts: Map<Seq<char>, Seq<i32>>,
    key: Seq<char>,
    context: Seq<i32>,
    other: Seq<char>,
)
    requires
        other != key,
    ensures
        contexts.insert(key, context).contains_key(key),
        contexts.insert(key, context).contains_key(other) == contexts.contains_key(other),
        context_for(contexts.insert(key, context), other) == context_for(contexts, other),
{
}

} // verus!
