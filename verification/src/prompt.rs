//! How a message is marked with its sender before it goes to the backend.

use vstd::prelude::*;

verus! {

/// The text that stands for `text` as said by `sender`: the sender's name in
/// square brackets, a colon, a space, and the text as it came.
///
/// One system instruction serves every user; the tag is what lets the model
/// tell the speakers apart.
pub open spec fn tagged(sender: Seq<char>, text: Seq<char>) -> Seq<char> {
    seq!['['] + sender + seq![']', ':', ' '] + text
}

/// Builds the prompt for `text` as said by `sender`.
pub fn tag_prompt(sender: &str, text: &str) -> (prompt: String)
    ensures
        prompt@ == tagged(sender@, text@),
{
    proof {
        reveal_strlit("[");
        reveal_strlit("]: ");
        assert("["@ =~= seq!['[']);
        assert("]: "@ =~= seq![']', ':', ' ']);
    }
    let mut prompt = String::from_str("[");
    prompt.append(sender);
    prompt.append("]: ");
    prompt.append(text);
    prompt
}

/// The tag can be read back: a tagged prompt starts with the opening bracket,
/// holds the sender's name next, then the closing bracket, the colon and the
/// space, and ends with the untouched text.
pub proof fn lemma_tagged_shape(sender: Seq<char>, text: Seq<char>)
    ensures
        tagged(sender, text).len() == sender.len() + text.len() + 4,
        tagged(sender, text)[0] == '[',
        tagged(sender, text).subrange(1, 1 + sender.len() as int) == sender,
        tagged(sender, text).subrange(1 + sender.len() as int, 4 + sender.len() as int) == seq![
            ']',
            ':',
            ' ',
        ],
        tagged(sender, text).skip(4 + sender.len() as int) == text,
{
    let name_end = 1 + sender.len() as int;
    let whole = tagged(sender, text);
    assert(whole.subrange(1, name_end) =~= sender);
    assert(whole.subrange(name_end, name_end + 3) =~= seq![']', ':', ' ']);
    assert(whole.skip(name_end + 3) =~= text);
}

} // verus!
