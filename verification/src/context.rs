//! The continuation token that the generation backend hands out with each
//! reply and expects back with the next request of the same user.

use vstd::prelude::*;

verus! {

/// The dialogue state of one user, as the backend issued it.
///
/// The relay never looks inside: it stores the token, hands out copies and
/// compares nothing but its items. A user without history has the empty token.
#[derive(Debug)]
pub struct ConversationContext {
    tokens: Vec<i32>,
}

impl View for ConversationContext {
    type V = Seq<i32>;

    closed spec fn view(&self) -> Seq<i32> {
        self.tokens@
    }
}

impl ConversationContext {
    /// The context of a user who has not spoken yet.
    pub fn empty() -> (context: Self)
        ensures
            context@ == Seq::<i32>::empty(),
    {
        ConversationContext { tokens: Vec::new() }
    }

    /// Wraps the items that the backend returned.
    pub fn from_tokens(tokens: Vec<i32>) -> (context: Self)
        ensures
            context@ == tokens@,
    {
        ConversationContext { tokens }
    }

    /// Gives the items back, in the order in which they came.
    pub fn into_tokens(self) -> (tokens: Vec<i32>)
        ensures
            tokens@ == self@,
    {
        self.tokens
    }

    /// The items, borrowed.
    pub fn tokens(&self) -> (tokens: &Vec<i32>)
        ensures
            tokens@ == self@,
    {
        &self.tokens
    }

    /// Whether this is the context of a user without history.
    pub fn is_empty(&self) -> (empty: bool)
        ensures
            empty == (self@.len() == 0),
    {
        self.tokens.len() == 0
    }

    /// Whether the two contexts hold the same items in the same order.
    pub fn same_as(&self, other: &Self) -> (same: bool)
        ensures
            same == (self@ == other@),
    {
        if self.tokens.len() != other.tokens.len() {
            return false;
        }
        let mut at: usize = 0;
        while at < self.tokens.len()
            invariant
                self.tokens.len() == other.tokens.len(),
                at <= self.tokens.len(),
                forall|i: int| 0 <= i < at ==> self.tokens@[i] == other.tokens@[i],
            decreases self.tokens.len() - at,
        {
            if self.tokens[at] != other.tokens[at] {
                return false;
            }
            at += 1;
        }
        assert(self.tokens@ =~= other.tokens@);
        true
    }
}

impl PartialEq for ConversationContext {
    fn eq(&self, other: &Self) -> (equal: bool) {
        self.same_as(other)
    }
}

impl Eq for ConversationContext {

}

impl vstd::std_specs::cmp::PartialEqSpecImpl for ConversationContext {
    open spec fn obeys_eq_spec() -> bool {
        true
    }

    open spec fn eq_spec(&self, other: &Self) -> bool {
        self@ == other@
    }
}

impl Clone for ConversationContext {
    fn clone(&self) -> (copy: Self)
        ensures
            copy@ == self@,
    {
        ConversationContext { tokens: self.tokens.clone() }
    }
}

} // verus!
