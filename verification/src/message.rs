//! Messages that processes exchange.

use vstd::prelude::*;

verus! {

/// A message that carries data: an optional correlation tag and a payload
/// that this layer never looks into.
#[derive(Clone, Debug, PartialEq, Eq)]
pub struct DataMessage {
    pub tag: Option<i64>,
    pub buffer: Vec<u8>,
}

/// What a data message holds, as plain values.
pub struct DataMessageView {
    pub tag: Option<i64>,
    pub buffer: Seq<u8>,
}

impl View for DataMessage {
    type V = DataMessageView;

    open spec fn view(&self) -> DataMessageView {
        DataMessageView { tag: self.tag, buffer: self.buffer@ }
    }
}

impl DataMessage {
    /// A data message with the given tag and payload.
    pub fn new_from_vec(tag: Option<i64>, buffer: Vec<u8>) -> (m: DataMessage)
        ensures
            m@ == (DataMessageView { tag, buffer: buffer@ }),
    {
        DataMessage { tag, buffer }
    }
}

/// A message in a mailbox.
#[derive(Clone, Debug, PartialEq, Eq)]
pub enum Message {
    /// Data sent by another process.
    Data(DataMessage),
    /// Notice that a linked process died, with the tag of the link.
    LinkDied(Option<i64>),
}

/// What a message holds, as plain values.
pub enum MessageView {
    Data(DataMessageView),
    LinkDied(Option<i64>),
}

impl MessageView {
    /// The correlation tag of the message, whatever its kind.
    pub open spec fn tag(self) -> Option<i64> {
        match self {
            MessageView::Data(data) => data.tag,
            MessageView::LinkDied(tag) => tag,
        }
    }
}

impl View for Message {
    type V = MessageView;

    open spec fn view(&self) -> MessageView {
        match *self {
            Message::Data(data) => MessageView::Data(data@),
            Message::LinkDied(tag) => MessageView::LinkDied(tag),
        }
    }
}

impl Message {
    /// The correlation tag of the message, whatever its kind.
    pub fn tag(&self) -> (t: Option<i64>)
        ensures
            t == self@.tag(),
    {
        match self {
            Message::Data(data) => data.tag,
            Message::LinkDied(tag) => *tag,
        }
    }
}

} // verus!
