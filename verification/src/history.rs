//! Conversation history: the ordered sequence of messages a channel owns,
//! snapshotted for branches and measured for compaction.

use vstd::prelude::*;

verus! {

/// Who a history entry speaks for.
#[derive(Clone, Copy, Debug, PartialEq, Eq, Structural)]
pub enum Role {
    User,
    Assistant,
    System,
}

/// One entry of a channel's conversation history.
#[derive(Debug)]
pub struct Message {
    pub role: Role,
    pub text: String,
}

impl Clone for Message {
    /// A deep copy, equal to the original.
    fn clone(&self) -> (res: Self)
        ensures
            res == *self,
    {
        Message { role: self.role, text: self.text.clone() }
    }
}

impl Message {
    /// A user-role entry with the given text, as results of background
    /// processes are folded into the conversation.
    pub fn user(text: String) -> (r: Message)
        ensures
            r.role == Role::User,
            r.text == text,
    {
        Message { role: Role::User, text }
    }
}

/// A deep copy of a history, taken when a branch is spawned: later channel
/// mutations do not affect the running branch.
pub fn clone_history(h: &Vec<Message>) -> (r: Vec<Message>)
    ensures
        r@ == h@,
{
    let n = h.len();
    let mut out: Vec<Message> = Vec::new();
    let mut i: usize = 0;
    while i < n
        invariant
            0 <= i <= n,
            n == h@.len(),
            out@ == h@.subrange(0, i as int),
        decreases n - i,
    {
        out.push(h[i].clone());
        proof {
            assert(out@ =~= h@.subrange(0, i as int + 1));
        }
        i = i + 1;
    }
    proof {
        assert(h@.subrange(0, n as int) =~= h@);
    }
    out
}

/// The total character count of a history, the size measure behind the
/// context-fill estimate.
pub open spec fn history_chars(h: Seq<Message>) -> nat
    decreases h.len(),
{
    if h.len() == 0 {
        0
    } else {
        history_chars(h.drop_last()) + h.last().text@.len()
    }
}

} // verus!
