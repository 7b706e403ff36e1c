//! The single-value notification channel that a service signals on: the watch
//! channel of tokio, and the blocking wait of futures.
//!
//! A channel holds one value. A send overwrites it and wakes the receivers; a
//! receiver that waits is woken once per send that it has not seen. Both
//! channels of a service carry requests: each holds the sentinel `Init` when it
//! is made and carries one request in its life.
//!
//! What a receiver sees depends on what the sender has done by then, and
//! whether a send arrives on who holds a receiver, so nothing is promised of
//! what a receiver gives or of whether a send arrives: the rules of the service
//! are proved for every value that can come back. What the one sender of a
//! channel has put into it depends on that sender alone, and is named.

use vstd::prelude::*;
use core::future::Future;
use vstd::future::FutureAdditionalSpecFns;
use futures::executor::EnterError;
use tokio::sync::watch::{Receiver, Sender};
use tokio::sync::watch::error::{RecvError, SendError};
use crate::control::{ServiceControlRequest, ServiceError};

verus! {

/// `tokio::sync::watch::Sender`, the sending half of a channel. Opaque.
#[verifier::external_type_specification]
#[verifier::external_body]
#[verifier::reject_recursive_types(T)]
pub struct ExSender<T>(Sender<T>);

/// `tokio::sync::watch::Receiver`, a receiving half of a channel, with the
/// version of the value that it has seen last. Opaque.
#[verifier::external_type_specification]
#[verifier::external_body]
#[verifier::reject_recursive_types(T)]
pub struct ExReceiver<T>(Receiver<T>);

/// `tokio::sync::watch::error::SendError`, the error of a send on a channel
/// without receivers. Opaque.
#[verifier::external_type_specification]
#[verifier::external_body]
#[verifier::reject_recursive_types(T)]
pub struct ExSendError<T>(SendError<T>);

/// `tokio::sync::watch::error::RecvError`, the error of a wait on a channel
/// whose senders are gone. Opaque.
#[verifier::external_type_specification]
#[verifier::external_body]
pub struct ExRecvError(RecvError);

/// `futures::executor::EnterError`, the error of entering an executor on a
/// thread that is inside one. Opaque.
#[verifier::external_type_specification]
#[verifier::external_body]
pub struct ExEnterError(EnterError);

/// What came first in a race between a change on a channel and a unit of work.
#[derive(Debug)]
pub enum Raced<T> {
    /// The wait for a change ended first, with this result.
    Changed(Result<(), RecvError>),
    /// The work completed first, with this output.
    Work(T),
}

/// The value that the channel of `sender` holds: what
/// `tokio::sync::watch::Sender::borrow` gives. A service never clones a sender,
/// so the value is the one that the channel was made with until this sender
/// has sent, and then the one that it sent last. Nothing is claimed of what a
/// receiver finds.
pub uninterp spec fn held(sender: Sender<ServiceControlRequest>) -> ServiceControlRequest;

/// `tokio::sync::watch::channel`: a new channel that holds `init`, as its
/// sender and its one receiver, which counts `init` as seen. It neither panics
/// nor waits.
#[verifier::external_body]
pub(crate) fn open(init: ServiceControlRequest) -> (halves: (
    Sender<ServiceControlRequest>,
    Receiver<ServiceControlRequest>,
))
    ensures
        held(halves.0) == init,
    opens_invariants none
    no_unwind
{
    tokio::sync::watch::channel(init)
}

/// `tokio::sync::watch::channel`, in place of a channel that is retired: the
/// two halves are replaced by those of a new channel that holds `init`, and the
/// old sender is dropped, which closes the old channel. The new receiver
/// listens on another channel than the old one did, so it is not that
/// receiver. It neither panics nor waits.
#[verifier::external_body]
pub(crate) fn renew(
    sender: &mut Sender<ServiceControlRequest>,
    receiver: &mut Receiver<ServiceControlRequest>,
    init: ServiceControlRequest,
)
    ensures
        held(*final(sender)) == init,
        *final(receiver) != *old(receiver),
    opens_invariants none
    no_unwind
{
    let halves = tokio::sync::watch::channel(init);
    *sender = halves.0;
    *receiver = halves.1;
}

/// `Clone::clone` of `tokio::sync::watch::Receiver`: the clone is a receiver of
/// the same channel that has seen the same version, which is all that a
/// receiver consists of. It neither panics nor waits.
#[verifier::external_body]
pub(crate) fn duplicate(receiver: &Receiver<ServiceControlRequest>) -> (clone: Receiver<
    ServiceControlRequest,
>)
    ensures
        clone == *receiver,
    opens_invariants none
    no_unwind
{
    receiver.clone()
}

/// `tokio::sync::watch::Sender::send`: stores `value` in the channel and wakes
/// its receivers, or fails where the channel has no receiver left and then
/// leaves the channel as it was. Which of the two happens depends on who else
/// holds a receiver, so nothing is claimed of that. It neither panics nor waits
/// for a receiver.
#[verifier::external_body]
pub(crate) fn publish(
    sender: &mut Sender<ServiceControlRequest>,
    value: ServiceControlRequest,
) -> (sent: Result<(), SendError<ServiceControlRequest>>)
    ensures
        sent is Ok ==> held(*final(sender)) == value,
        sent is Err ==> *final(sender) == *old(sender),
    opens_invariants none
    no_unwind
{
    sender.send(value)
}

/// `tokio::sync::watch::Receiver::changed`, run to its end on this thread by
/// `futures::executor::block_on`: returns at once where the channel holds a
/// value that `receiver` has not seen, and otherwise only when one is sent or
/// the last sender is dropped. `block_on` cannot start on a thread that is
/// inside an executor of `futures`, so `futures::executor::enter` is asked
/// first, and its error is handed back where it refuses.
///
/// The result of `changed` depends on the sender, so nothing is claimed of
/// which it is. What is done to the receiver is claimed: with `Ok` of `Ok` the
/// receiver has marked as seen a version that it had not seen, so it is no
/// longer the receiver it was; in every other case nothing was marked, and it
/// is the receiver it was.
#[verifier::external_body]
pub(crate) fn changed(receiver: &mut Receiver<ServiceControlRequest>) -> (ran: Result<
    Result<(), RecvError>,
    EnterError,
>)
    ensures
        ran matches Ok(Ok(_)) ==> *final(receiver) != *old(receiver),
        !(ran matches Ok(Ok(_))) ==> *final(receiver) == *old(receiver),
{
    drop(futures::executor::enter()?);
    Ok(futures::executor::block_on(receiver.changed()))
}

/// What a blocking wait gave, where it could start, and `InExecutor` where
/// `futures::executor::enter` refused.
pub fn started<T>(ran: Result<T, EnterError>) -> (res: Result<T, ServiceError>)
    ensures
        res == match ran {
            Ok(given) => Ok::<T, ServiceError>(given),
            Err(_) => Err(ServiceError::InExecutor),
        },
{
    match ran {
        Ok(given) => Ok(given),
        Err(_) => Err(ServiceError::InExecutor),
    }
}

/// `tokio::sync::watch::Receiver::borrow`: a copy of the value that the channel
/// holds now. It depends on the sender, so nothing is claimed of it.
#[verifier::external_body]
pub(crate) fn latest(receiver: &Receiver<ServiceControlRequest>) -> (value: ServiceControlRequest)
{
    *receiver.borrow()
}

/// `futures::future::select` of `tokio::sync::watch::Receiver::changed` and
/// `work`, run to its end on this thread by `futures::executor::block_on`. The
/// wait for a change is polled first. The one that completes first gives the
/// result and the other is dropped as it stands. `block_on` cannot start on a
/// thread that is inside an executor of `futures`, so
/// `futures::executor::enter` is asked first, and its error is handed back
/// where it refuses; `work` is then dropped as it was given.
///
/// Which of the two completes first depends on the sender and on the work, so
/// nothing is claimed of it. Where it is the work, the work was run to its end
/// and the output is the one that it gave.
#[verifier::external_body]
pub(crate) fn race<F: Future>(
    receiver: &mut Receiver<ServiceControlRequest>,
    work: F,
) -> (ran: Result<Raced<F::Output>, EnterError>)
    ensures
        ran matches Ok(Raced::Work(output)) ==> work.awaited() && output == work@,
{
    drop(futures::executor::enter()?);
    let both = futures::future::select(Box::pin(receiver.changed()), Box::pin(work));
    Ok(match futures::executor::block_on(both) {
        futures::future::Either::Left((seen, _)) => Raced::Changed(seen),
        futures::future::Either::Right((output, _)) => Raced::Work(output),
    })
}

} // verus!
