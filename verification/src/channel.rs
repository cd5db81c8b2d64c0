use vstd::prelude::*;
use std::sync::mpsc::{Receiver, RecvError, SendError, SyncSender, TrySendError};

verus! {

/// The sending end of a bounded channel of std. Any number of them may
/// feed one channel.
#[verifier::external_type_specification]
#[verifier::external_body]
#[verifier::reject_recursive_types(T)]
pub struct ExSyncSender<T>(SyncSender<T>);

/// The receiving end of a channel of std.
#[verifier::external_type_specification]
#[verifier::external_body]
#[verifier::reject_recursive_types(T)]
pub struct ExReceiver<T>(Receiver<T>);

/// Why `try_send` did not send: the channel was full, or its receiver is
/// gone. It holds the message that was not sent.
#[verifier::external_type_specification]
#[verifier::external_body]
#[verifier::reject_recursive_types(T)]
pub struct ExTrySendError<T>(TrySendError<T>);

/// Why `send` did not send: the receiver is gone. It holds the message that
/// was not sent.
#[verifier::external_type_specification]
#[verifier::external_body]
#[verifier::reject_recursive_types(T)]
pub struct ExSendError<T>(SendError<T>);

/// Why `recv` received nothing: every sender is gone and the channel is
/// empty.
#[verifier::external_type_specification]
#[verifier::external_body]
pub struct ExRecvError(RecvError);

/// `sync_channel` makes a channel that holds up to `bound` messages and
/// returns its two ends. Nothing is claimed of them.
pub assume_specification<T>[ std::sync::mpsc::sync_channel::<T> ](bound: usize) -> (ends: (
    SyncSender<T>,
    Receiver<T>,
));

/// `SyncSender::clone` returns another sending end of the same channel.
/// Nothing is claimed of it.
pub assume_specification<T>[ <SyncSender<T> as Clone>::clone ](sender: &SyncSender<T>) -> (other:
    SyncSender<T>);

/// `SyncSender::try_send` offers a message to the channel without waiting.
/// Whether the channel takes it depends on what other threads have done, so
/// nothing is claimed of the result.
pub assume_specification<T>[ SyncSender::<T>::try_send ](
    sender: &SyncSender<T>,
    message: T,
) -> (outcome: Result<(), TrySendError<T>>);

/// `SyncSender::send` hands a message to the channel, waiting for room. It
/// fails when the receiver is gone, which depends on other threads, so
/// nothing is claimed of the result.
pub assume_specification<T>[ SyncSender::<T>::send ](sender: &SyncSender<T>, message: T) -> (outcome:
    Result<(), SendError<T>>);

/// `Receiver::recv` waits for the next message. It fails once every sender
/// is gone and the channel is empty. What arrives depends on other threads,
/// so nothing is claimed of the result.
pub assume_specification<T>[ Receiver::<T>::recv ](receiver: &Receiver<T>) -> (outcome: Result<
    T,
    RecvError,
>);

} // verus!
