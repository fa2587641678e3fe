//! Reply slots: the single-use handoff through which one answer reaches the
//! one caller that waits for it.
//!
//! A slot is the sending half of a `futures` oneshot channel. The pump keeps
//! it while the request is in flight; the caller keeps the receiving half.
//! A slot that is dropped unfulfilled wakes its caller with a failure, which
//! is how callers learn that the connection to the worker is gone.
use vstd::prelude::*;
use crate::error::AuthResult;

verus! {

/// `futures::channel::oneshot::Sender`, the sending half of a oneshot
/// channel. It is carried, never looked into.
#[verifier::external_type_specification]
#[verifier::external_body]
#[verifier::reject_recursive_types(T)]
pub struct ExOneshotSender<T>(futures::channel::oneshot::Sender<T>);

/// `futures::channel::oneshot::Receiver`, the receiving half of a oneshot
/// channel. It is carried, never looked into.
#[verifier::external_type_specification]
#[verifier::external_body]
#[verifier::reject_recursive_types(T)]
pub struct ExOneshotReceiver<T>(futures::channel::oneshot::Receiver<T>);

/// `futures::channel::oneshot::Canceled`, what a receiving half yields when
/// its sending half was dropped unused.
#[verifier::external_type_specification]
#[verifier::external_body]
pub struct ExOneshotCanceled(futures::channel::oneshot::Canceled);

/// `futures::channel::mpsc::SendError`, what a send on the request queue
/// yields when the queue's receiving end is gone.
#[verifier::external_type_specification]
#[verifier::external_body]
pub struct ExMpscSendError(futures::channel::mpsc::SendError);

/// The half of a reply slot that the pump fulfils.
pub type ReplySlot = futures::channel::oneshot::Sender<AuthResult>;

/// The half of a reply slot that the caller waits on.
pub type ReplyReceiver = futures::channel::oneshot::Receiver<AuthResult>;

/// `futures::channel::oneshot::channel`: a fresh pair of connected halves.
/// Nothing is claimed of them here.
pub assume_specification<T>[ futures::channel::oneshot::channel::<T> ]() -> (pair: (
    futures::channel::oneshot::Sender<T>,
    futures::channel::oneshot::Receiver<T>,
));

/// `futures::channel::oneshot::Sender::send`: hands the value to the
/// receiving half. Whether that half still exists is not ours to know; if it
/// does not, the call gives back the very value it was handed.
pub assume_specification<T>[ futures::channel::oneshot::Sender::<T>::send ](
    slot: futures::channel::oneshot::Sender<T>,
    t: T,
) -> (r: Result<(), T>)
    ensures
        r matches Err(back) ==> back == t,
;

} // verus!
