use lunatic_distributed::message::{DataMessage, Message};
use lunatic_distributed::process::{
    message_outcome, signal_outcome, ProcessError, ProcessHandle, Signal, SignalAttempt,
    SIGNAL_CAPACITY,
};
use tokio::runtime::{Builder, Runtime};
use tokio::sync::mpsc::error::SendError;
use tokio::sync::mpsc::{channel, unbounded_channel, Receiver, UnboundedReceiver};

fn data(tag: Option<i64>, body: &[u8]) -> Message {
    Message::Data(DataMessage::new_from_vec(tag, body.to_vec()))
}

fn handle() -> (Runtime, ProcessHandle, Receiver<Signal>, UnboundedReceiver<Message>) {
    let runtime = Builder::new_current_thread().build().unwrap();
    let (signal_sender, signals) = channel::<Signal>(SIGNAL_CAPACITY);
    let (mailbox_sender, mailbox) = unbounded_channel::<Message>();
    let task = runtime.spawn(async {});
    (runtime, ProcessHandle::new(signal_sender, mailbox_sender, task), signals, mailbox)
}

#[test]
fn send_message_puts_messages_into_the_mailbox_in_order() {
    let (_runtime, handle, _signals, mut mailbox) = handle();
    assert_eq!(handle.send_message(data(Some(1), b"one")), Ok(()));
    assert_eq!(handle.send_message(data(None, b"two")), Ok(()));
    assert_eq!(mailbox.try_recv().ok(), Some(data(Some(1), b"one")));
    assert_eq!(mailbox.try_recv().ok(), Some(data(None, b"two")));
    assert_eq!(mailbox.try_recv().ok(), None);
}

#[test]
fn send_message_fails_once_the_mailbox_is_gone() {
    let (_runtime, handle, _signals, mailbox) = handle();
    drop(mailbox);
    assert_eq!(
        handle.send_message(data(Some(1), b"one")),
        Err(ProcessError::MailboxClosed)
    );
}

#[test]
fn send_signal_queues_one_kill_and_does_not_wait_for_room() {
    let (_runtime, handle, mut signals, _mailbox) = handle();
    assert_eq!(handle.send_signal(Signal::Kill), Ok(()));
    assert_eq!(handle.send_signal(Signal::Kill), Ok(()));
    assert_eq!(signals.try_recv().ok(), Some(Signal::Kill));
    assert_eq!(signals.try_recv().ok(), None);
    assert_eq!(SIGNAL_CAPACITY, 1);
}

#[test]
fn send_signal_fails_once_the_process_is_gone() {
    let (_runtime, handle, signals, _mailbox) = handle();
    drop(signals);
    assert_eq!(handle.send_signal(Signal::Kill), Err(ProcessError::SignalsClosed));
}

#[test]
fn outcomes_of_sending() {
    assert_eq!(message_outcome(Ok(())), Ok(()));
    assert_eq!(
        message_outcome(Err(SendError(data(None, b"lost")))),
        Err(ProcessError::MailboxClosed)
    );
    assert_eq!(signal_outcome(SignalAttempt::Queued), Ok(()));
    assert_eq!(signal_outcome(SignalAttempt::Full), Ok(()));
    assert_eq!(signal_outcome(SignalAttempt::Closed), Err(ProcessError::SignalsClosed));
}
