//! The mailbox of a process and its scratch slot.
//!
//! The mailbox is a queue in order of arrival. A receive may be selective: it
//! takes the first message that carries one of the wanted tags and leaves all
//! others where they are, for a later receive that wants them. The scratch
//! slot holds at most one message, on its way between the sandbox and the
//! host.

use crate::message::{Message, MessageView};
use std::collections::VecDeque;
use vstd::prelude::*;

verus! {

/// The tags of a filter as plain values. `None` is the filter that lets
/// every message pass.
pub open spec fn spec_tags(tags: Option<&[i64]>) -> Option<Seq<i64>> {
    match tags {
        Some(wanted) => Some(wanted@),
        None => None,
    }
}

/// Whether a filter lets a message pass: without tags every message passes;
/// with tags only a message that has a tag, and one of those.
pub open spec fn spec_accepts(tags: Option<Seq<i64>>, message: MessageView) -> bool {
    match tags {
        None => true,
        Some(wanted) => message.tag() matches Some(tag) && wanted.contains(tag),
    }
}

/// The position of the first message in the queue that the filter lets
/// pass, if there is one.
pub open spec fn spec_first_match(queue: Seq<MessageView>, tags: Option<Seq<i64>>) -> Option<int>
    decreases queue.len(),
{
    if queue.len() == 0 {
        None
    } else if spec_accepts(tags, queue[0]) {
        Some(0)
    } else {
        match spec_first_match(queue.skip(1), tags) {
            Some(i) => Some(i + 1),
            None => None,
        }
    }
}

/// The first match is a match, and nothing before it is one; where there is
/// none, the filter lets no message of the queue pass.
pub proof fn lemma_first_match(queue: Seq<MessageView>, tags: Option<Seq<i64>>)
    ensures
        match spec_first_match(queue, tags) {
            Some(i) => {
                &&& 0 <= i < queue.len()
                &&& spec_accepts(tags, queue[i])
                &&& forall|j: int| 0 <= j < i ==> !spec_accepts(tags, #[trigger] queue[j])
            },
            None => forall|j: int| 0 <= j < queue.len() ==> !spec_accepts(tags, #[trigger] queue[j]),
        },
    decreases queue.len(),
{
    if queue.len() > 0 && !spec_accepts(tags, queue[0]) {
        let rest = queue.skip(1);
        lemma_first_match(rest, tags);
        match spec_first_match(rest, tags) {
            Some(i) => {
                assert(queue[i + 1] == rest[i]);
                assert forall|j: int| 0 <= j < i + 1 implies !spec_accepts(
                    tags,
                    #[trigger] queue[j],
                ) by {
                    if j > 0 {
                        assert(queue[j] == rest[j - 1]);
                    }
                }
            },
            None => {
                assert forall|j: int| 0 <= j < queue.len() implies !spec_accepts(
                    tags,
                    #[trigger] queue[j],
                ) by {
                    if j > 0 {
                        assert(queue[j] == rest[j - 1]);
                    }
                }
            },
        }
    }
}

/// A position that holds a match with no match before it is the first match.
pub proof fn lemma_first_match_at(queue: Seq<MessageView>, tags: Option<Seq<i64>>, i: int)
    requires
        0 <= i < queue.len(),
        spec_accepts(tags, queue[i]),
        forall|j: int| 0 <= j < i ==> !spec_accepts(tags, #[trigger] queue[j]),
    ensures
        spec_first_match(queue, tags) == Some(i),
{
    lemma_first_match(queue, tags);
}

/// The queue of messages that have arrived for a process and were not yet
/// received, oldest first.
#[derive(Clone, Debug, PartialEq, Eq)]
pub struct Mailbox {
    messages: VecDeque<Message>,
}

impl View for Mailbox {
    type V = Seq<MessageView>;

    closed spec fn view(&self) -> Seq<MessageView> {
        Seq::new(self.messages@.len(), |i: int| self.messages@[i]@)
    }
}

impl Mailbox {
    /// An empty mailbox.
    pub fn new() -> (mailbox: Mailbox)
        ensures
            mailbox@ == Seq::<MessageView>::empty(),
    {
        let mailbox = Mailbox { messages: VecDeque::new() };
        assert(mailbox@ =~= Seq::<MessageView>::empty());
        mailbox
    }

    /// The number of messages that wait.
    pub fn len(&self) -> (n: usize)
        ensures
            n == self@.len(),
    {
        self.messages.len()
    }

    /// Whether a filter lets a message pass.
    pub fn accepts(tags: Option<&[i64]>, message: &Message) -> (b: bool)
        ensures
            b == spec_accepts(spec_tags(tags), message@),
    {
        match tags {
            None => true,
            Some(wanted) => match message.tag() {
                None => false,
                Some(tag) => {
                    let mut k: usize = 0;
                    while k < wanted.len()
                        invariant
                            k <= wanted@.len(),
                            spec_tags(tags) == Some(wanted@),
                            message@.tag() == Some(tag),
                            forall|j: int| 0 <= j < k ==> wanted@[j] != tag,
                        decreases wanted@.len() - k,
                    {
                        if wanted[k] == tag {
                            assert(wanted@[k as int] == tag);
                            return true;
                        }
                        k = k + 1;
                    }
                    false
                },
            },
        }
    }

    /// Puts a message at the end of the queue.
    pub fn push(&mut self, message: Message)
        ensures
            final(self)@ == old(self)@.push(message@),
    {
        self.messages.push_back(message);
        assert(self@ =~= old(self)@.push(message@));
    }

    /// Takes the first message that the filter lets pass out of the queue and
    /// returns it. All other messages stay, in their order. Where no message
    /// passes, the queue is left as it is and `None` is returned: whether and
    /// how long to wait for another arrival is the caller's to decide.
    pub fn pop_matching(&mut self, tags: Option<&[i64]>) -> (found: Option<Message>)
        ensures
            match spec_first_match(old(self)@, spec_tags(tags)) {
                Some(i) => {
                    &&& found matches Some(message)
                    &&& message@ == old(self)@[i]
                    &&& final(self)@ == old(self)@.remove(i)
                },
                None => found is None && final(self)@ == old(self)@,
            },
    {
        let mut i: usize = 0;
        while i < self.messages.len()
            invariant
                i <= self.messages@.len(),
                *self == *old(self),
                forall|j: int| 0 <= j < i ==> !spec_accepts(spec_tags(tags), #[trigger] self@[j]),
            decreases self.messages@.len() - i,
        {
            if Self::accepts(tags, &self.messages[i]) {
                proof {
                    lemma_first_match_at(self@, spec_tags(tags), i as int);
                }
                let found = self.messages.remove(i);
                assert(self@ =~= old(self)@.remove(i as int));
                return found;
            }
            i = i + 1;
        }
        proof {
            lemma_first_match(self@, spec_tags(tags));
        }
        None
    }
}

/// The scratch slot of a process: the one place where a message lies between
/// the sandbox that stages or reads it and the host operation that sends or
/// delivers it.
#[derive(Clone, Debug, PartialEq, Eq)]
pub struct ScratchSlot {
    staged: Option<Message>,
}

impl View for ScratchSlot {
    type V = Option<MessageView>;

    closed spec fn view(&self) -> Option<MessageView> {
        match self.staged {
            Some(message) => Some(message@),
            None => None,
        }
    }
}

impl ScratchSlot {
    /// An empty slot.
    pub fn new() -> (slot: ScratchSlot)
        ensures
            slot@ is None,
    {
        ScratchSlot { staged: None }
    }

    /// Whether a message lies in the slot.
    pub fn is_occupied(&self) -> (b: bool)
        ensures
            b == (self@ is Some),
    {
        self.staged.is_some()
    }

    /// Removes the staged message and returns it, or `None` where the slot
    /// is empty. The slot is empty afterwards.
    pub fn take(&mut self) -> (taken: Option<Message>)
        ensures
            final(self)@ is None,
            match taken {
                Some(message) => old(self)@ == Some(message@),
                None => old(self)@ is None,
            },
    {
        self.staged.take()
    }

    /// Lays a message into the slot, whatever was there, and returns what
    /// was there.
    pub fn replace(&mut self, message: Message) -> (previous: Option<Message>)
        ensures
            final(self)@ == Some(message@),
            match previous {
                Some(before) => old(self)@ == Some(before@),
                None => old(self)@ is None,
            },
    {
        let previous = self.staged.take();
        self.staged = Some(message);
        previous
    }

    /// Lays a message into the empty slot.
    pub fn put(&mut self, message: Message)
        requires
            old(self)@ is None,
        ensures
            final(self)@ == Some(message@),
    {
        self.staged = Some(message);
    }
}

} // verus!
