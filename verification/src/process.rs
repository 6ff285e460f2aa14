//! Supervision of one running process.
//!
//! A process is a computation that is polled until it finishes, next to a
//! channel on which a kill signal may arrive. The supervisor decides, tick by
//! tick, whether the computation may be polled once more. The polling itself,
//! the channel and the task that carries both belong to the caller.

use crate::message::Message;
use tokio::sync::mpsc::error::SendError;
use tokio::sync::mpsc::error::TrySendError;
use tokio::sync::mpsc::Sender;
use tokio::sync::mpsc::UnboundedSender;
use tokio::task::JoinError;
use tokio::task::JoinHandle;
use vstd::prelude::*;

verus! {

/// `tokio::sync::mpsc::UnboundedSender`: the sending end of a channel without
/// bound. Nothing is known of what is inside.
#[verifier::external_type_specification]
#[verifier::external_body]
#[verifier::reject_recursive_types(T)]
pub struct ExUnboundedSender<T>(UnboundedSender<T>);

/// `tokio::sync::mpsc::Sender`: the sending end of a bounded channel. Nothing
/// is known of what is inside.
#[verifier::external_type_specification]
#[verifier::external_body]
#[verifier::reject_recursive_types(T)]
pub struct ExSender<T>(Sender<T>);

/// `tokio::task::JoinHandle`: the owner's hold on a spawned task. Nothing is
/// known of what is inside.
#[verifier::external_type_specification]
#[verifier::external_body]
#[verifier::reject_recursive_types(T)]
pub struct ExJoinHandle<T>(JoinHandle<T>);

/// `tokio::task::JoinError`: why a task could not be joined. It is named
/// here because a `JoinHandle` resolves to it.
#[verifier::external_type_specification]
#[verifier::external_body]
pub struct ExJoinError(JoinError);

/// `tokio::sync::mpsc::error::SendError`: what a send on a closed channel
/// returns. Nothing is known of what is inside.
#[verifier::external_type_specification]
#[verifier::external_body]
#[verifier::reject_recursive_types(T)]
pub struct ExSendError<T>(SendError<T>);

/// A signal that can be sent to a process.
#[derive(Clone, Copy, Debug, PartialEq, Eq, Structural)]
pub enum Signal {
    Kill,
}

/// The reason of a process finishing.
#[derive(Debug, PartialEq, Eq)]
pub enum Finished<T> {
    /// The computation ran to its end: it returned or it trapped.
    Wasm(T),
    /// The process was terminated by an external signal.
    Signal(Signal),
}

/// What a poll of a channel or of a computation answered.
#[derive(Debug, PartialEq, Eq)]
pub enum Polled<T> {
    /// Nothing yet.
    Pending,
    /// The awaited value.
    Ready(T),
}

/// What the supervisor decides after it has looked at the signal channel.
#[derive(Clone, Copy, Debug, PartialEq, Eq, Structural)]
pub enum Verdict {
    /// Stop at once and do not poll the computation again.
    Stop(Signal),
    /// Poll the computation.
    Run,
}

/// What one poll of the signal channel means for the supervisor: whether it
/// goes on listening, and its verdict. To a supervisor that listens, a
/// signal stops the process, and a closed channel (no sender is left) ends
/// the listening; otherwise the computation runs. A supervisor that has
/// stopped listening pays no heed to the channel.
pub open spec fn spec_on_signal(listening: bool, polled: Polled<Option<Signal>>) -> (
    bool,
    Verdict,
) {
    if !listening {
        (false, Verdict::Run)
    } else {
        match polled {
            Polled::Ready(Some(signal)) => (true, Verdict::Stop(signal)),
            Polled::Ready(None) => (false, Verdict::Run),
            Polled::Pending => (true, Verdict::Run),
        }
    }
}

/// What one poll of the computation means: its output ends the process, and
/// a pending computation leaves it running.
pub open spec fn spec_on_computation<T>(polled: Polled<T>) -> Option<Finished<T>> {
    match polled {
        Polled::Ready(output) => Some(Finished::Wasm(output)),
        Polled::Pending => None,
    }
}

/// One scheduling tick. `listening` says whether the supervisor still looks
/// at the signal channel; `signal` is what the channel answers when polled
/// and `computation` what the computation answers when polled. The result
/// says whether the supervisor listens afterwards, and how the process ended
/// if it did. The signal is looked at first, and a signal found there wins
/// over a computation that is ready too.
pub open spec fn spec_tick<T>(
    listening: bool,
    signal: Polled<Option<Signal>>,
    computation: Polled<T>,
) -> (bool, Option<Finished<T>>) {
    match spec_on_signal(listening, signal) {
        (stay, Verdict::Stop(s)) => (stay, Some(Finished::Signal(s))),
        (stay, Verdict::Run) => (stay, spec_on_computation(computation)),
    }
}

/// How a process ends that is ticked with the given answers, one pair for
/// each tick: the end that the first decisive tick gives, or `None` if the
/// process is still running after the last.
pub open spec fn spec_run<T>(
    listening: bool,
    ticks: Seq<(Polled<Option<Signal>>, Polled<T>)>,
) -> Option<Finished<T>>
    decreases ticks.len(),
{
    if ticks.len() == 0 {
        None
    } else {
        let (stay, end) = spec_tick(listening, ticks[0].0, ticks[0].1);
        if end is Some {
            end
        } else {
            spec_run(stay, ticks.skip(1))
        }
    }
}

/// The decisions of a process's supervisor.
#[derive(Debug)]
pub struct Supervisor {
    signals_disabled: bool,
}

impl Supervisor {
    /// Whether the supervisor still looks at the signal channel.
    pub closed spec fn listening(&self) -> bool {
        !self.signals_disabled
    }

    /// A supervisor at the start of a process: it listens for signals.
    pub fn new() -> (s: Self)
        ensures
            s.listening(),
    {
        Supervisor { signals_disabled: false }
    }

    /// Whether the signal channel is to be polled at the start of the next
    /// tick. Once this is `false` it stays so.
    pub fn wants_signal(&self) -> (b: bool)
        ensures
            b == self.listening(),
    {
        !self.signals_disabled
    }

    /// Takes in what the signal channel answered at the start of a tick.
    pub fn on_signal(&mut self, polled: Polled<Option<Signal>>) -> (verdict: Verdict)
        ensures
            (final(self).listening(), verdict) == spec_on_signal(old(self).listening(), polled),
    {
        if self.signals_disabled {
            return Verdict::Run;
        }
        match polled {
            Polled::Ready(Some(signal)) => Verdict::Stop(signal),
            Polled::Ready(None) => {
                self.signals_disabled = true;
                Verdict::Run
            },
            Polled::Pending => Verdict::Run,
        }
    }

    /// Takes in what the computation answered when it was polled after a
    /// verdict of `Run`: the end of the process, or `None` where the task is
    /// to suspend until it is woken for the next tick.
    pub fn on_computation<T>(&self, polled: Polled<T>) -> (end: Option<Finished<T>>)
        ensures
            end == spec_on_computation(polled),
    {
        match polled {
            Polled::Ready(output) => Some(Finished::Wasm(output)),
            Polled::Pending => None,
        }
    }
}

/// How many signals can wait for a process at a time.
pub const SIGNAL_CAPACITY: usize = 1;

/// Why a process could not be reached.
#[derive(Clone, Copy, Debug, PartialEq, Eq, Structural)]
pub enum ProcessError {
    /// The process no longer takes messages.
    MailboxClosed,
    /// The process no longer takes signals.
    SignalsClosed,
}

/// How an attempt to queue a signal for a process ended.
#[derive(Clone, Copy, Debug, PartialEq, Eq, Structural)]
pub enum SignalAttempt {
    /// The signal waits for the process.
    Queued,
    /// As many signals as can wait are waiting already.
    Full,
    /// The process no longer takes signals.
    Closed,
}

/// `tokio::sync::mpsc::UnboundedSender::send`: hands a message to the channel
/// without waiting. Whether it is taken depends on the receiving end, so
/// nothing is said of the result.
#[verifier::external_body]
fn unbounded_send(sender: &UnboundedSender<Message>, message: Message) -> (sent: Result<
    (),
    SendError<Message>,
>) {
    sender.send(message)
}

/// `tokio::sync::mpsc::Sender::try_send`: hands a signal to the channel
/// without waiting, and says which of its three outcomes came. Which one
/// comes depends on the receiving end, so nothing is said of the result.
#[verifier::external_body]
fn try_send(sender: &Sender<Signal>, signal: Signal) -> (attempt: SignalAttempt) {
    match sender.try_send(signal) {
        Ok(()) => SignalAttempt::Queued,
        Err(TrySendError::Full(_)) => SignalAttempt::Full,
        Err(TrySendError::Closed(_)) => SignalAttempt::Closed,
    }
}

/// What the sender of a message is told: success where the channel took the
/// message, and a closed mailbox where it did not.
pub open spec fn spec_message_outcome(sent: Result<(), SendError<Message>>) -> Result<
    (),
    ProcessError,
> {
    match sent {
        Ok(_) => Ok(()),
        Err(_) => Err(ProcessError::MailboxClosed),
    }
}

/// What the sender of a message is told, given what the channel answered.
pub fn message_outcome(sent: Result<(), SendError<Message>>) -> (r: Result<(), ProcessError>)
    ensures
        r == spec_message_outcome(sent),
{
    match sent {
        Ok(_) => Ok(()),
        Err(_) => Err(ProcessError::MailboxClosed),
    }
}

/// What the sender of a signal is told. A signal that was queued will reach
/// the process. Where the channel is full, a signal waits for the process
/// already and the process will see that one; the sender is told of success
/// and does not wait. Only a closed channel is a failure.
pub open spec fn spec_signal_outcome(attempt: SignalAttempt) -> Result<(), ProcessError> {
    match attempt {
        SignalAttempt::Queued => Ok(()),
        SignalAttempt::Full => Ok(()),
        SignalAttempt::Closed => Err(ProcessError::SignalsClosed),
    }
}

/// What the sender of a signal is told, given how the attempt to queue it
/// ended.
pub fn signal_outcome(attempt: SignalAttempt) -> (r: Result<(), ProcessError>)
    ensures
        r == spec_signal_outcome(attempt),
{
    match attempt {
        SignalAttempt::Queued => Ok(()),
        SignalAttempt::Full => Ok(()),
        SignalAttempt::Closed => Err(ProcessError::SignalsClosed),
    }
}

/// The only way of communicating with a running process. It holds the
/// sending ends of the process's signal channel and of its mailbox, and the
/// task in which the process runs. The receiving ends belong to that task.
#[derive(Debug)]
pub struct ProcessHandle {
    signal_sender: Sender<Signal>,
    mailbox_sender: UnboundedSender<Message>,
    pub task: JoinHandle<()>,
}

impl ProcessHandle {
    /// The sending end of the signal channel.
    pub closed spec fn spec_signal_sender(&self) -> Sender<Signal> {
        self.signal_sender
    }

    /// The sending end of the mailbox.
    pub closed spec fn spec_mailbox_sender(&self) -> UnboundedSender<Message> {
        self.mailbox_sender
    }

    /// The task in which the process runs.
    pub closed spec fn spec_task(&self) -> JoinHandle<()> {
        self.task
    }

    /// The handle of a process that runs in `task` and listens on the
    /// receiving ends of the two channels. The signal channel is to have
    /// room for `SIGNAL_CAPACITY` signals.
    pub fn new(
        signal_sender: Sender<Signal>,
        mailbox_sender: UnboundedSender<Message>,
        task: JoinHandle<()>,
    ) -> (handle: ProcessHandle)
        ensures
            handle.spec_signal_sender() == signal_sender,
            handle.spec_mailbox_sender() == mailbox_sender,
            handle.spec_task() == task,
    {
        ProcessHandle { signal_sender, mailbox_sender, task }
    }

    /// Sends a message to the process. It fails only with a closed mailbox.
    pub fn send_message(&self, message: Message) -> (r: Result<(), ProcessError>)
        ensures
            r == Ok::<(), ProcessError>(()) || r == Err::<(), ProcessError>(
                ProcessError::MailboxClosed,
            ),
    {
        message_outcome(unbounded_send(&self.mailbox_sender, message))
    }

    /// Sends a signal to the process, without waiting for room or for the
    /// process to see it. It fails only with a closed signal channel.
    pub fn send_signal(&self, signal: Signal) -> (r: Result<(), ProcessError>)
        ensures
            r == Ok::<(), ProcessError>(()) || r == Err::<(), ProcessError>(
                ProcessError::SignalsClosed,
            ),
    {
        signal_outcome(try_send(&self.signal_sender, signal))
    }
}

impl<T, E> Finished<Result<T, E>> {
    /// The failure to record when the computation trapped. A trap ends the
    /// process like a return does and is handed to nobody else.
    pub fn trap(&self) -> (failure: Option<&E>)
        ensures
            match *self {
                Finished::Wasm(Err(e)) => failure == Some(&e),
                _ => failure is None,
            },
    {
        match self {
            Finished::Wasm(Err(e)) => Some(e),
            _ => None,
        }
    }
}

/// A signal that is there at the first tick ends the process, even where the
/// computation would have finished at its first poll.
pub proof fn lemma_signal_wins<T>(
    signal: Signal,
    ticks: Seq<(Polled<Option<Signal>>, Polled<T>)>,
)
    requires
        ticks.len() > 0,
        ticks[0].0 == Polled::Ready(Some(signal)),
    ensures
        spec_run(true, ticks) == Some(Finished::<T>::Signal(signal)),
{
}

/// A supervisor that has stopped listening never ends a process by a signal,
/// whatever the channel would answer: the process ends with the output of
/// the first tick at which the computation is ready, and not before.
pub proof fn lemma_unobstructed<T>(ticks: Seq<(Polled<Option<Signal>>, Polled<T>)>, n: int)
    requires
        0 <= n < ticks.len(),
        forall|i: int| 0 <= i < n ==> (#[trigger] ticks[i]).1 is Pending,
        ticks[n].1 is Ready,
    ensures
        spec_run(false, ticks) == Some(Finished::Wasm(ticks[n].1->Ready_0)),
    decreases n,
{
    if n > 0 {
        let rest = ticks.skip(1);
        assert(ticks[0].1 is Pending);
        assert forall|i: int| 0 <= i < n - 1 implies (#[trigger] rest[i]).1 is Pending by {
            assert(rest[i] == ticks[i + 1]);
        }
        lemma_unobstructed(rest, n - 1);
    }
}

/// Once the channel has been found closed the supervisor stops listening for
/// good: from the next tick on the run goes as if there were no channel.
pub proof fn lemma_closed_channel_disables<T>(
    ticks: Seq<(Polled<Option<Signal>>, Polled<T>)>,
)
    requires
        ticks.len() > 0,
        ticks[0].0 == Polled::<Option<Signal>>::Ready(None),
        ticks[0].1 is Pending,
    ensures
        spec_tick(true, ticks[0].0, ticks[0].1).0 == false,
        spec_run(true, ticks) == spec_run(false, ticks.skip(1)),
{
}

} // verus!
