//! The two unidirectional channels that connect the host side with the
//! event loop, as far as verified code needs them.

use std::sync::mpsc::{Receiver, RecvError, SendError, Sender, TryRecvError};
use vstd::prelude::*;

verus! {

/// The receiving end of a channel of the standard library, carried as it is.
#[verifier::external_type_specification]
#[verifier::external_body]
#[verifier::reject_recursive_types(T)]
pub struct ExReceiver<T>(Receiver<T>);

/// The sending end of a channel of the standard library, carried as it is.
#[verifier::external_type_specification]
#[verifier::external_body]
#[verifier::reject_recursive_types(T)]
pub struct ExSender<T>(Sender<T>);

/// The error of a blocking receive: every sender is gone.
#[verifier::external_type_specification]
pub struct ExRecvError(RecvError);

/// The error of a receive that does not block: the channel is `Empty`, or
/// it is `Disconnected`.
#[verifier::external_type_specification]
pub struct ExTryRecvError(TryRecvError);

/// The error of a send: the receiver is gone; it holds the message.
#[verifier::external_type_specification]
#[verifier::reject_recursive_types(T)]
pub struct ExSendError<T>(SendError<T>);

/// `Receiver::recv` blocks until a message arrives or every sender is gone.
/// Which of the two happens depends on the other side of the channel, so
/// nothing is claimed of the result.
pub assume_specification<T>[ Receiver::<T>::recv ](rx: &Receiver<T>) -> (r: Result<T, RecvError>);

/// `Receiver::try_recv` returns at once with a message, with `Empty` or
/// with `Disconnected`. Nothing is claimed of the result.
pub assume_specification<T>[ Receiver::<T>::try_recv ](rx: &Receiver<T>) -> (r: Result<
    T,
    TryRecvError,
>);

/// `Sender::send` hands the message over, or fails when the receiver is
/// gone. Which of the two happens depends on the other side of the channel,
/// so nothing is claimed of the result.
pub assume_specification<T>[ Sender::<T>::send ](tx: &Sender<T>, t: T) -> (r: Result<
    (),
    SendError<T>,
>);

/// `Receiver::try_iter` yields the messages that are waiting, without
/// blocking, and stops at the first attempt that finds none; the wrapper
/// collects them in the order received. How many there are depends on the
/// senders, so nothing is claimed of the result.
#[verifier::external_body]
pub(crate) fn drain_ready<T>(rx: &Receiver<T>) -> (waiting: Vec<T>) {
    rx.try_iter().collect()
}

} // verus!
