use lunatic_distributed::mailbox::{Mailbox, ScratchSlot};
use lunatic_distributed::message::{DataMessage, Message};

fn data(tag: Option<i64>, body: &[u8]) -> Message {
    Message::Data(DataMessage::new_from_vec(tag, body.to_vec()))
}

#[test]
fn pop_matching_takes_the_tagged_message_and_leaves_the_other() {
    let mut mailbox = Mailbox::new();
    mailbox.push(data(Some(1), b""));
    mailbox.push(data(Some(2), b"B"));
    assert_eq!(mailbox.pop_matching(Some(&[2])), Some(data(Some(2), b"B")));
    assert_eq!(mailbox.len(), 1);
    assert_eq!(mailbox.pop_matching(None), Some(data(Some(1), b"")));
    assert_eq!(mailbox.len(), 0);
}

#[test]
fn pop_matching_keeps_the_order_of_what_it_skips() {
    let mut mailbox = Mailbox::new();
    mailbox.push(data(Some(1), b"a"));
    mailbox.push(data(None, b"b"));
    mailbox.push(data(Some(3), b"c"));
    mailbox.push(Message::LinkDied(Some(3)));
    mailbox.push(data(Some(1), b"e"));
    assert_eq!(mailbox.pop_matching(Some(&[7, 3])), Some(data(Some(3), b"c")));
    assert_eq!(mailbox.pop_matching(Some(&[3])), Some(Message::LinkDied(Some(3))));
    assert_eq!(mailbox.pop_matching(Some(&[3])), None);
    assert_eq!(mailbox.len(), 3);
    assert_eq!(mailbox.pop_matching(None), Some(data(Some(1), b"a")));
    assert_eq!(mailbox.pop_matching(None), Some(data(None, b"b")));
    assert_eq!(mailbox.pop_matching(None), Some(data(Some(1), b"e")));
    assert_eq!(mailbox.pop_matching(None), None);
}

#[test]
fn pop_matching_with_tags_never_takes_an_untagged_message() {
    let mut mailbox = Mailbox::new();
    mailbox.push(data(None, b"x"));
    assert_eq!(mailbox.pop_matching(Some(&[0])), None);
    assert_eq!(mailbox.pop_matching(Some(&[])), None);
    assert_eq!(mailbox.len(), 1);
}

#[test]
fn accepts_follows_the_filter() {
    assert!(Mailbox::accepts(None, &data(None, b"")));
    assert!(Mailbox::accepts(Some(&[4, 5]), &data(Some(5), b"")));
    assert!(!Mailbox::accepts(Some(&[4, 5]), &data(Some(6), b"")));
    assert!(!Mailbox::accepts(Some(&[4, 5]), &data(None, b"")));
    assert!(Mailbox::accepts(Some(&[-1]), &Message::LinkDied(Some(-1))));
}

#[test]
fn message_tag_of_each_kind() {
    assert_eq!(data(Some(9), b"z").tag(), Some(9));
    assert_eq!(data(None, b"z").tag(), None);
    assert_eq!(Message::LinkDied(Some(4)).tag(), Some(4));
    assert_eq!(Message::LinkDied(None).tag(), None);
}

#[test]
fn scratch_slot_holds_one_message_between_put_and_take() {
    let mut slot = ScratchSlot::new();
    assert!(!slot.is_occupied());
    assert_eq!(slot.take(), None);
    slot.put(data(Some(1), b"m"));
    assert!(slot.is_occupied());
    assert_eq!(slot.take(), Some(data(Some(1), b"m")));
    assert!(!slot.is_occupied());
    assert_eq!(slot.take(), None);
}

#[test]
fn scratch_slot_replace_returns_what_was_there() {
    let mut slot = ScratchSlot::new();
    assert_eq!(slot.replace(data(None, b"1")), None);
    assert_eq!(slot.replace(data(None, b"2")), Some(data(None, b"1")));
    assert_eq!(slot.take(), Some(data(None, b"2")));
}
