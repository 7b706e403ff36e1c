//! The service itself: the handle of its owner, the shared view of its
//! observers, and the control context between them.

use vstd::prelude::*;
use core::future::Future;
use vstd::future::FutureAdditionalSpecFns;
use std::sync::{Arc, Mutex};
use tokio::sync::watch::{Receiver, Sender};
use tokio::sync::watch::error::{RecvError, SendError};
pub use crate::control::{Phase, ServiceControlCode, ServiceControlRequest, ServiceError};
use crate::model::ControlPlane;
use crate::signal::{
    changed, duplicate, held, latest, open, publish, race, renew, started, Raced,
};

verus! {

/// `std::sync::Mutex`, the lock around the shared control context. Opaque.
#[verifier::external_type_specification]
#[verifier::external_body]
#[verifier::reject_recursive_types(T)]
pub struct ExMutex<T: ?Sized>(Mutex<T>);

/// The control context: the state of the service, the receiver that the owner
/// signals on the next resume, and the receiver that it signals on the next
/// transition. The one that the owner writes is shared by all observers; a
/// paused status carries a copy of it taken when the service was paused.
#[derive(Debug)]
pub struct ServiceContext {
    status: Box<ServiceStatus>,
    rx: Receiver<ServiceControlRequest>,
    rx2: Receiver<ServiceControlRequest>,
}

/// The state of a service. A paused one carries the context to wait on for the
/// resume.
#[derive(Debug)]
pub enum ServiceStatus {
    Stopped(),
    Paused(ServiceContext),
    Running(),
}

/// What a call that races a unit of work against the next transition saw first.
#[derive(Debug)]
pub enum Event<T> {
    StatusChanged(ServiceStatus),
    Future(T),
}

/// How a wait for the next transition starts.
#[derive(Debug)]
pub enum WaitStep {
    /// The service is stopped or paused already: the wait is over with this
    /// status.
    Done(ServiceStatus),
    /// The service is running: the waiter waits for a change on this receiver.
    Pending(Receiver<ServiceControlRequest>),
}

impl ServiceContext {
    /// The state held.
    pub closed spec fn status(&self) -> ServiceStatus {
        *self.status
    }

    /// The receiver of the resume channel.
    pub closed spec fn resume_receiver(&self) -> Receiver<ServiceControlRequest> {
        self.rx
    }

    /// The receiver of the control channel.
    pub closed spec fn control_receiver(&self) -> Receiver<ServiceControlRequest> {
        self.rx2
    }

    /// The context made of these three.
    pub closed spec fn of(
        status: ServiceStatus,
        resume: Receiver<ServiceControlRequest>,
        control: Receiver<ServiceControlRequest>,
    ) -> ServiceContext {
        ServiceContext { status: Box::new(status), rx: resume, rx2: control }
    }

    /// A context is its three parts, and no more.
    pub proof fn lemma_parts(
        self,
        status: ServiceStatus,
        resume: Receiver<ServiceControlRequest>,
        control: Receiver<ServiceControlRequest>,
    )
        ensures
            self == Self::of(self.status(), self.resume_receiver(), self.control_receiver()),
            Self::of(status, resume, control).status() == status,
            Self::of(status, resume, control).resume_receiver() == resume,
            Self::of(status, resume, control).control_receiver() == control,
    {
    }

    /// Waits until the owner resumes the service that this context was
    /// captured from. Only the resume channel is waited on: a stop of the
    /// paused service does not end the wait. Fails where the owner has dropped
    /// the sender of that channel and nothing unseen is left on it.
    ///
    /// A wait that succeeds uses up the signal that ended it: the receiver of
    /// the resume channel has marked it as seen and is no longer the receiver
    /// it was, so that a further wait answers a later signal. A wait that
    /// fails leaves the context as it was. Nothing else of the context changes
    /// either way.
    ///
    /// Blocks the thread while it waits. The wait is driven by an executor of
    /// its own: on a thread that is running one of `futures` already it
    /// cannot start, and the call fails with `InExecutor`.
    pub fn wait(&mut self) -> (res: Result<(), ServiceError>)
        ensures
            res matches Err(error) ==> error == ServiceError::ChannelClosed || error
                == ServiceError::InExecutor,
            res is Ok ==> final(self).resume_receiver() != old(self).resume_receiver(),
            res is Err ==> *final(self) == *old(self),
            final(self).status() == old(self).status(),
            final(self).control_receiver() == old(self).control_receiver(),
    {
        match started(changed(&mut self.rx)) {
            Ok(seen) => Self::resumed(seen),
            Err(error) => Err(error),
        }
    }

    /// The result of a wait for the resume whose wait on the channel ended
    /// with `seen`.
    pub fn resumed(seen: Result<(), RecvError>) -> (res: Result<(), ServiceError>)
        ensures
            seen is Ok <==> res is Ok,
            res matches Err(error) ==> error == ServiceError::ChannelClosed,
    {
        match seen {
            Ok(_) => Ok(()),
            Err(_) => Err(ServiceError::ChannelClosed),
        }
    }

    /// The state held, without what a paused service carries.
    pub fn phase(&self) -> (phase: Phase)
        ensures
            phase == self.status().phase(),
    {
        self.status.phase()
    }

    /// Whether the state held is stopped.
    pub fn is_stopped(&self) -> (stopped: bool)
        ensures
            stopped == (self.status() is Stopped),
    {
        matches!(*self.status, ServiceStatus::Stopped())
    }

    /// Whether the state held is paused.
    pub fn is_paused(&self) -> (paused: bool)
        ensures
            paused == (self.status() is Paused),
    {
        matches!(*self.status, ServiceStatus::Paused(_))
    }

    /// Whether the state held is running.
    pub fn is_running(&self) -> (running: bool)
        ensures
            running == (self.status() is Running),
    {
        matches!(*self.status, ServiceStatus::Running())
    }

    /// How a waiter that has read this context from the service goes on: with
    /// the status, where the service is stopped or paused, and else by waiting
    /// on the control receiver that it read together with the status.
    pub fn first_step(self) -> (step: WaitStep)
        ensures
            step == match self.status() {
                ServiceStatus::Stopped() => WaitStep::Done(ServiceStatus::Stopped()),
                ServiceStatus::Paused(context) => WaitStep::Done(ServiceStatus::Paused(context)),
                ServiceStatus::Running() => WaitStep::Pending(self.control_receiver()),
            },
    {
        match *self.status {
            ServiceStatus::Stopped() => WaitStep::Done(ServiceStatus::Stopped()),
            ServiceStatus::Paused(context) => WaitStep::Done(ServiceStatus::Paused(context)),
            ServiceStatus::Running() => WaitStep::Pending(self.rx2),
        }
    }
}

impl Clone for ServiceContext {
    fn clone(&self) -> (copy: Self)
        ensures
            copy == *self,
        decreases self,
    {
        ServiceContext {
            status: Box::new((*self.status).clone()),
            rx: duplicate(&self.rx),
            rx2: duplicate(&self.rx2),
        }
    }
}

impl Clone for ServiceStatus {
    fn clone(&self) -> (copy: Self)
        ensures
            copy == *self,
        decreases self,
    {
        match self {
            ServiceStatus::Stopped() => ServiceStatus::Stopped(),
            ServiceStatus::Paused(context) => ServiceStatus::Paused(context.clone()),
            ServiceStatus::Running() => ServiceStatus::Running(),
        }
    }
}

impl ServiceStatus {
    /// The state, without what a paused service carries.
    pub open spec fn spec_phase(&self) -> Phase {
        match self {
            ServiceStatus::Stopped() => Phase::Stopped,
            ServiceStatus::Paused(_) => Phase::Paused,
            ServiceStatus::Running() => Phase::Running,
        }
    }

    /// The state, without what a paused service carries.
    #[verifier::when_used_as_spec(spec_phase)]
    pub fn phase(&self) -> (phase: Phase)
        ensures
            phase == self.spec_phase(),
        opens_invariants none
        no_unwind
    {
        match self {
            ServiceStatus::Stopped() => Phase::Stopped,
            ServiceStatus::Paused(_) => Phase::Paused,
            ServiceStatus::Running() => Phase::Running,
        }
    }

    /// The status that an observer derives from `request`, the value that it
    /// found on the control channel after a change, and from `context`, the
    /// control context as it read it then: stopped from `Stop`, paused with
    /// that context from `Pause`, running from `Continue`. The sentinel `Init`
    /// announces no transition: to find it there is a defect.
    pub open spec fn resolved(request: ServiceControlRequest, context: ServiceContext) -> Result<
        ServiceStatus,
        ServiceError,
    > {
        match request {
            ServiceControlRequest::Init() => Err(ServiceError::Defect),
            ServiceControlRequest::Stop() => Ok(ServiceStatus::Stopped()),
            ServiceControlRequest::Pause() => Ok(ServiceStatus::Paused(context)),
            ServiceControlRequest::Continue() => Ok(ServiceStatus::Running()),
        }
    }

    /// Computes [`Self::resolved`].
    pub fn resolve(request: ServiceControlRequest, context: ServiceContext) -> (res: Result<
        ServiceStatus,
        ServiceError,
    >)
        ensures
            res == Self::resolved(request, context),
            res matches Ok(status) ==> request.phase() == Some(status.phase()),
            res is Err <==> request is Init,
    {
        match request {
            ServiceControlRequest::Init() => Err(ServiceError::Defect),
            ServiceControlRequest::Stop() => Ok(ServiceStatus::Stopped()),
            ServiceControlRequest::Pause() => Ok(ServiceStatus::Paused(context)),
            ServiceControlRequest::Continue() => Ok(ServiceStatus::Running()),
        }
    }
}

/// What the lock behind the owner's handle holds: the control context that
/// `std::sync::Mutex::lock` gives there. Only the owner writes it, through its
/// one handle, so it is what the owner stored last; nothing is claimed of what
/// a read through another handle gives.
pub uninterp spec fn stored(cell: Mutex<ServiceContext>) -> ServiceContext;

/// `std::sync::Mutex::new`: a lock that holds `context`.
#[verifier::external_body]
fn shared(context: ServiceContext) -> (cell: Mutex<ServiceContext>)
    ensures
        stored(cell) == context,
{
    Mutex::new(context)
}

/// `std::sync::Mutex::lock`, to read: a clone of the context that the lock
/// holds now. For an observer that depends on what the owner has stored by
/// now, so nothing is claimed of it. A poisoned lock is read like any other.
#[verifier::external_body]
fn load(cell: &Arc<Mutex<ServiceContext>>) -> (context: ServiceContext)
{
    match cell.lock() {
        Ok(held) => held.clone(),
        Err(poisoned) => poisoned.into_inner().clone(),
    }
}

/// `std::sync::Mutex::lock`, to write the state: under one hold of the lock,
/// the context that it holds gets `status` as its state and `resume` as its
/// receiver of the resume channel, and keeps its receiver of the control
/// channel. A poisoned lock is written like any other, so this does not panic.
#[verifier::external_body]
fn store_state(
    cell: &mut Arc<Mutex<ServiceContext>>,
    status: ServiceStatus,
    resume: Receiver<ServiceControlRequest>,
)
    ensures
        stored(**final(cell)) == ServiceContext::of(
            status,
            resume,
            stored(**old(cell)).control_receiver(),
        ),
    opens_invariants none
    no_unwind
{
    let mut held = match cell.lock() {
        Ok(held) => held,
        Err(poisoned) => poisoned.into_inner(),
    };
    held.rx = resume;
    *held.status = status;
}

/// `std::sync::Mutex::lock`, to write the control receiver: the context that
/// the lock holds gets `control` as its receiver of the control channel, and
/// keeps its state and its receiver of the resume channel. A poisoned lock is
/// written like any other, so this does not panic.
#[verifier::external_body]
fn store_control(cell: &mut Arc<Mutex<ServiceContext>>, control: Receiver<ServiceControlRequest>)
    ensures
        stored(**final(cell)) == ServiceContext::of(
            stored(**old(cell)).status(),
            stored(**old(cell)).resume_receiver(),
            control,
        ),
    opens_invariants none
    no_unwind
{
    let mut held = match cell.lock() {
        Ok(held) => held,
        Err(poisoned) => poisoned.into_inner(),
    };
    held.rx2 = control;
}

impl<T> Event<T> {
    /// The event of a race in which the wait for a transition ended first,
    /// with `waited`: its status, or its error as the error of the whole call.
    pub fn status_changed(waited: Result<ServiceStatus, ServiceError>) -> (res: Result<
        Event<T>,
        ServiceError,
    >)
        ensures
            res == match waited {
                Ok(status) => Ok::<Event<T>, ServiceError>(Event::StatusChanged(status)),
                Err(error) => Err(error),
            },
    {
        match waited {
            Ok(status) => Ok(Event::StatusChanged(status)),
            Err(error) => Err(error),
        }
    }
}

/// The view of the observers on a service: it reads the shared control context
/// and writes nothing. Any number of them may wait at once.
pub struct ServiceInstance {
    context: Arc<Mutex<ServiceContext>>,
}

impl ServiceInstance {
    /// The lock that this view reads the control context from.
    pub closed spec fn lock(&self) -> Mutex<ServiceContext> {
        *self.context
    }

    /// A copy of the control context as it is now.
    fn snapshot(&self) -> (context: ServiceContext)
    {
        load(&self.context)
    }

    /// Whether the service is stopped now: [`ServiceContext::is_stopped`] of
    /// the control context as it is read.
    pub fn stopped(&self) -> (stopped: bool)
    {
        self.snapshot().is_stopped()
    }

    /// Whether the service is paused now: [`ServiceContext::is_paused`] of the
    /// control context as it is read.
    pub fn paused(&self) -> (paused: bool)
    {
        self.snapshot().is_paused()
    }

    /// Whether the service is running now: [`ServiceContext::is_running`] of
    /// the control context as it is read.
    pub fn is_running(&self) -> (running: bool)
    {
        self.snapshot().is_running()
    }

    /// Starts a wait for the next transition: reads the control receiver and
    /// the state together, and ends the wait at once where the service is
    /// stopped or paused.
    pub fn begin_wait(&self) -> (step: WaitStep)
        ensures
            step matches WaitStep::Done(status) ==> status !is Running,
    {
        self.snapshot().first_step()
    }

    /// Ends a wait for the next transition, after the wait for a change on
    /// `receiver` ended with `seen`: derives the status from the request that
    /// the channel holds, or fails where the channel was closed instead.
    pub fn end_wait(
        &self,
        receiver: &Receiver<ServiceControlRequest>,
        seen: Result<(), RecvError>,
    ) -> (res: Result<ServiceStatus, ServiceError>)
        ensures
            seen is Err ==> res is Err,
            res matches Err(error) ==> error == (if seen is Err {
                ServiceError::ChannelClosed
            } else {
                ServiceError::Defect
            }),
    {
        match seen {
            Ok(_) => ServiceStatus::resolve(latest(receiver), self.snapshot()),
            Err(_) => Err(ServiceError::ChannelClosed),
        }
    }

    /// Waits for the next transition and returns the status that it led to.
    /// Returns at once where the service is stopped or paused already.
    ///
    /// Blocks the thread while it waits. The wait is driven by an executor of
    /// its own: on a thread that is running one of `futures` already it
    /// cannot start, and the call fails with `InExecutor`.
    pub fn wait(&self) -> (res: Result<ServiceStatus, ServiceError>)
        ensures
            res matches Err(error) ==> error == ServiceError::ChannelClosed || error
                == ServiceError::Defect || error == ServiceError::InExecutor,
    {
        match self.begin_wait() {
            WaitStep::Done(status) => Ok(status),
            WaitStep::Pending(receiver) => {
                let mut receiver = receiver;
                match started(changed(&mut receiver)) {
                    Ok(seen) => self.end_wait(&receiver, seen),
                    Err(error) => Err(error),
                }
            },
        }
    }

    /// Races `future` against a wait for the next transition, and returns the
    /// output of the one or the status of the other, whichever came first. The
    /// loser is abandoned as it stands. Where the service is stopped or paused
    /// already, the status wins and `future` is never polled. An output that
    /// is returned is the one that `future` gave when it was run to its end.
    ///
    /// Blocks the thread while it waits. The race is driven by an executor of
    /// its own: on a thread that is running one of `futures` already it
    /// cannot start, and the call fails with `InExecutor`.
    pub fn wait_future<T: Future>(&self, future: T) -> (res: Result<Event<T::Output>, ServiceError>)
        ensures
            res matches Ok(Event::Future(output)) ==> future.awaited() && output == future@,
            res matches Err(error) ==> error == ServiceError::ChannelClosed || error
                == ServiceError::Defect || error == ServiceError::InExecutor,
    {
        match self.begin_wait() {
            WaitStep::Done(status) => Ok(Event::StatusChanged(status)),
            WaitStep::Pending(receiver) => {
                let mut receiver = receiver;
                match started(race(&mut receiver, future)) {
                    Ok(Raced::Work(output)) => Ok(Event::Future(output)),
                    Ok(Raced::Changed(seen)) => Event::status_changed(
                        self.end_wait(&receiver, seen),
                    ),
                    Err(error) => Err(error),
                }
            },
        }
    }
}

/// The handle of the owner: the one place that stops, pauses and resumes the
/// service. It holds the sending halves of both channels, and beside each a
/// receiver of it, so that what it stores in the shared control context is a
/// copy of what it holds itself.
pub struct Service {
    status: ServiceStatus,
    context: Arc<Mutex<ServiceContext>>,
    notify: Sender<ServiceControlRequest>,
    resume: Receiver<ServiceControlRequest>,
    sender: Sender<ServiceControlRequest>,
    control: Receiver<ServiceControlRequest>,
    published: Ghost<Seq<ServiceControlRequest>>,
    resumes: Ghost<nat>,
    carried: Ghost<Seq<ServiceControlRequest>>,
    signals: Ghost<Seq<ServiceControlRequest>>,
}

impl Service {
    /// The state as the owner holds it.
    pub closed spec fn status(&self) -> ServiceStatus {
        self.status
    }

    /// Every request that the owner has handed to a control channel so far,
    /// oldest first.
    pub closed spec fn published(&self) -> Seq<ServiceControlRequest> {
        self.published@
    }

    /// The number of resumes that the owner has carried out so far.
    pub closed spec fn resumes(&self) -> nat {
        self.resumes@
    }

    /// The control plane as the owner has driven it.
    pub open spec fn view(&self) -> ControlPlane {
        ControlPlane {
            phase: self.status().phase(),
            published: self.published(),
            resumes: self.resumes(),
        }
    }

    /// What each control channel that the owner has retired held when it was
    /// retired, oldest first: the request that was sent on it, or still the
    /// sentinel where the send found no receiver.
    pub closed spec fn carried(&self) -> Seq<ServiceControlRequest> {
        self.carried@
    }

    /// What each resume channel that the owner has retired held when it was
    /// retired, oldest first: `Continue` where the signal was sent on it, or
    /// still the sentinel where the send found no receiver.
    pub closed spec fn signals(&self) -> Seq<ServiceControlRequest> {
        self.signals@
    }

    /// What the live control channel holds.
    pub closed spec fn control_holds(&self) -> ServiceControlRequest {
        held(self.sender)
    }

    /// What the live resume channel holds.
    pub closed spec fn resume_holds(&self) -> ServiceControlRequest {
        held(self.notify)
    }

    /// The owner's receiver of the live resume channel.
    pub closed spec fn resume_receiver(&self) -> Receiver<ServiceControlRequest> {
        self.resume
    }

    /// The owner's receiver of the live control channel.
    pub closed spec fn control_receiver(&self) -> Receiver<ServiceControlRequest> {
        self.control
    }

    /// The lock that the owner stores the control context in.
    pub closed spec fn lock(&self) -> Mutex<ServiceContext> {
        *self.context
    }

    /// The shared control context: what the owner stored last for the
    /// observers to read.
    pub open spec fn context(&self) -> ServiceContext {
        stored(self.lock())
    }

    /// What holds of a service between any two calls of its owner. The shared
    /// control context mirrors the owner: it holds the owner's state, and
    /// receivers of the live resume channel and of the live control channel.
    /// Both live channels hold the sentinel: each channel carries one request
    /// and is retired with it. And the state agrees with the request published
    /// last, and no request published was the sentinel.
    pub open spec fn wf(&self) -> bool {
        &&& self.context() == ServiceContext::of(
            self.status(),
            self.resume_receiver(),
            self.control_receiver(),
        )
        &&& self.control_holds() is Init
        &&& self.resume_holds() is Init
        &&& self@.wf()
    }

    /// Every send so far has arrived: each retired control channel holds the
    /// request that was published on it, and each retired resume channel holds
    /// its signal.
    pub open spec fn delivered(&self) -> bool {
        &&& self.carried() == self.published()
        &&& self.signals() == Seq::new(self.resumes(), |i: int| ServiceControlRequest::Continue())
    }

    /// No stale read once woken: an observer that is woken by the request that
    /// the service published last, and derives its status from it, reads the
    /// state that the owner holds and that the shared context holds, whatever
    /// context it read.
    pub proof fn lemma_woken_observer_agrees(&self, context: ServiceContext)
        requires
            self.wf(),
            self@.published.len() > 0,
        ensures
            ServiceStatus::resolved(self@.latest(), context) is Ok,
            ServiceStatus::resolved(self@.latest(), context).unwrap().phase()
                == self.status().phase(),
            self.context().status() == self.status(),
    {
    }

    /// No defect: each control channel that the service has retired with its
    /// send arrived holds a request that an observer woken on it derives a
    /// status from.
    pub proof fn lemma_woken_observer_resolves(&self, channel: int, context: ServiceContext)
        requires
            self.wf(),
            self.delivered(),
            0 <= channel < self.carried().len(),
        ensures
            self.carried()[channel] == self@.published[channel],
            ServiceStatus::resolved(self.carried()[channel], context) is Ok,
    {
    }

    /// A new running service, with its handle for the owner and its view for
    /// the observers, which reads the lock that the owner stores in.
    pub fn new() -> (made: (Self, Arc<ServiceInstance>))
        ensures
            made.0@ == ControlPlane::initial(),
            made.0.status() == ServiceStatus::Running(),
            made.0.wf(),
            made.0.delivered(),
            made.0.carried().len() == 0,
            made.1.lock() == made.0.lock(),
    {
        let (notify, resume) = open(ServiceControlRequest::Init());
        let (sender, control) = open(ServiceControlRequest::Init());
        let context = Arc::new(
            shared(
                ServiceContext {
                    status: Box::new(ServiceStatus::Running()),
                    rx: duplicate(&resume),
                    rx2: duplicate(&control),
                },
            ),
        );
        let instance = Arc::new(ServiceInstance { context: context.clone() });
        let service = Service {
            status: ServiceStatus::Running(),
            context,
            notify,
            resume,
            sender,
            control,
            published: Ghost(Seq::empty()),
            resumes: Ghost(0),
            carried: Ghost(Seq::empty()),
            signals: Ghost(Seq::empty()),
        };
        proof {
            assert(service.signals() =~= Seq::new(
                service.resumes(),
                |i: int| ServiceControlRequest::Continue(),
            ));
        }
        (service, instance)
    }

    /// The result of a transition that led to `status`, from what its sends
    /// gave: `signalled` the one on the resume channel, `Ok` where the
    /// transition made none, and `announced` the one on the control channel.
    /// The status, where both reached a receiver; where one of them did not,
    /// the transition stands all the same and the caller is told.
    pub fn outcome(
        status: ServiceStatus,
        signalled: Result<(), SendError<ServiceControlRequest>>,
        announced: Result<(), SendError<ServiceControlRequest>>,
    ) -> (res: Result<ServiceStatus, ServiceError>)
        ensures
            res == if signalled is Ok && announced is Ok {
                Ok::<ServiceStatus, ServiceError>(status)
            } else {
                Err(ServiceError::SendFailed)
            },
        opens_invariants none
        no_unwind
    {
        match (signalled, announced) {
            (Ok(_), Ok(_)) => Ok(status),
            _ => Err(ServiceError::SendFailed),
        }
    }

    /// Makes the service stopped, for the owner and in the shared context.
    fn enter_stopped(&mut self)
        ensures
            final(self).status == ServiceStatus::Stopped(),
            stored(*final(self).context) == ServiceContext::of(
                ServiceStatus::Stopped(),
                old(self).resume,
                stored(*old(self).context).control_receiver(),
            ),
            final(self).notify == old(self).notify,
            final(self).resume == old(self).resume,
            final(self).sender == old(self).sender,
            final(self).control == old(self).control,
            final(self).published == old(self).published,
            final(self).resumes == old(self).resumes,
            final(self).carried == old(self).carried,
            final(self).signals == old(self).signals,
        opens_invariants none
        no_unwind
    {
        store_state(&mut self.context, ServiceStatus::Stopped(), duplicate(&self.resume));
        self.status = ServiceStatus::Stopped();
    }

    /// Makes the service paused, for the owner and in the shared context, with
    /// a copy of the context as the owner held it.
    fn enter_paused(&mut self)
        ensures
            final(self).status == ServiceStatus::Paused(
                ServiceContext::of(old(self).status, old(self).resume, old(self).control),
            ),
            stored(*final(self).context) == ServiceContext::of(
                final(self).status,
                old(self).resume,
                stored(*old(self).context).control_receiver(),
            ),
            final(self).notify == old(self).notify,
            final(self).resume == old(self).resume,
            final(self).sender == old(self).sender,
            final(self).control == old(self).control,
            final(self).published == old(self).published,
            final(self).resumes == old(self).resumes,
            final(self).carried == old(self).carried,
            final(self).signals == old(self).signals,
    {
        let captured = ServiceContext {
            status: Box::new(self.status.clone()),
            rx: duplicate(&self.resume),
            rx2: duplicate(&self.control),
        };
        store_state(
            &mut self.context,
            ServiceStatus::Paused(captured.clone()),
            duplicate(&self.resume),
        );
        self.status = ServiceStatus::Paused(captured);
    }

    /// Signals the live resume channel, which the contexts captured since the
    /// last resume listen on, then retires it for a new one, and makes the
    /// service running, for the owner and in the shared context.
    fn enter_running(&mut self) -> (signalled: Result<(), SendError<ServiceControlRequest>>)
        ensures
            final(self).status == ServiceStatus::Running(),
            stored(*final(self).context) == ServiceContext::of(
                ServiceStatus::Running(),
                final(self).resume,
                stored(*old(self).context).control_receiver(),
            ),
            final(self).resume != old(self).resume,
            held(final(self).notify) is Init,
            final(self).sender == old(self).sender,
            final(self).control == old(self).control,
            final(self).published == old(self).published,
            final(self).resumes@ == old(self).resumes@ + 1,
            final(self).carried == old(self).carried,
            final(self).signals@ == old(self).signals@.push(
                if signalled is Ok {
                    ServiceControlRequest::Continue()
                } else {
                    held(old(self).notify)
                },
            ),
    {
        let signalled = publish(&mut self.notify, ServiceControlRequest::Continue());
        self.signals = Ghost(self.signals@.push(held(self.notify)));
        renew(&mut self.notify, &mut self.resume, ServiceControlRequest::Init());
        store_state(&mut self.context, ServiceStatus::Running(), duplicate(&self.resume));
        self.status = ServiceStatus::Running();
        self.resumes = Ghost(self.resumes@ + 1);
        signalled
    }

    /// Publishes `request` on the live control channel, then retires that
    /// channel for a new one, for the owner and in the shared context: no
    /// channel carries more than the one transition.
    ///
    /// The state that `request` announces is stored by then, so that an
    /// observer that is woken by it and reads the shared context does not read
    /// the state before the transition.
    fn announce(&mut self, request: ServiceControlRequest) -> (announced: Result<
        (),
        SendError<ServiceControlRequest>,
    >)
        requires
            request.phase() == Some(stored(*old(self).context).status().phase()),
            request.phase() == Some(old(self).status.phase()),
        ensures
            final(self).status == old(self).status,
            stored(*final(self).context) == ServiceContext::of(
                stored(*old(self).context).status(),
                stored(*old(self).context).resume_receiver(),
                final(self).control,
            ),
            final(self).control != old(self).control,
            held(final(self).sender) is Init,
            final(self).notify == old(self).notify,
            final(self).resume == old(self).resume,
            final(self).published@ == old(self).published@.push(request),
            final(self).resumes == old(self).resumes,
            final(self).carried@ == old(self).carried@.push(
                if announced is Ok {
                    request
                } else {
                    held(old(self).sender)
                },
            ),
            final(self).signals == old(self).signals,
        opens_invariants none
        no_unwind
    {
        let announced = publish(&mut self.sender, request);
        self.carried = Ghost(self.carried@.push(held(self.sender)));
        renew(&mut self.sender, &mut self.control, ServiceControlRequest::Init());
        store_control(&mut self.context, duplicate(&self.control));
        self.published = Ghost(self.published@.push(request));
        announced
    }

    /// Carries out the transition that `code` names, which the state has
    /// accepted.
    fn carry_out(&mut self, code: ServiceControlCode) -> (res: Result<ServiceStatus, ServiceError>)
        requires
            old(self).status.phase().accepts(code),
        ensures
            final(self).accepted(*old(self), code, res),
    {
        let signalled = match code {
            ServiceControlCode::Stop() => {
                self.enter_stopped();
                Ok(())
            },
            ServiceControlCode::Pause() => {
                self.enter_paused();
                Ok(())
            },
            ServiceControlCode::Resume() => self.enter_running(),
        };
        let announced = self.announce(code.to_request());
        let res = Self::outcome(self.status.clone(), signalled, announced);
        proof {
            assert(self.carried().drop_last() =~= old(self).carried());
            if code is Resume {
                assert(self.signals().drop_last() =~= old(self).signals());
            }
            if old(self).delivered() && res is Ok {
                assert(self.signals() =~= Seq::new(
                    self.resumes(),
                    |i: int| ServiceControlRequest::Continue(),
                ));
            }
        }
        res
    }

    /// What a command that the state accepted has done, from the service
    /// `before` it to this one, with the result `res`.
    ///
    /// The new state is stored for the owner and for the observers; a pause
    /// captures the control context as the owner held it. A resume signals
    /// the live resume channel and retires it. The request of `code` is
    /// published on the live control channel, and that channel is retired:
    /// the owner and the shared context hold the receiver of a new channel,
    /// which holds the sentinel.
    ///
    /// The result is the new status. Where a send found no receiver, the
    /// transition stands all the same and the result is `SendFailed`.
    pub open spec fn accepted(
        &self,
        before: Service,
        code: ServiceControlCode,
        res: Result<ServiceStatus, ServiceError>,
    ) -> bool {
        &&& self@ == before@.apply(code)
        &&& self.status() == match code {
            ServiceControlCode::Stop() => ServiceStatus::Stopped(),
            ServiceControlCode::Pause() => ServiceStatus::Paused(
                ServiceContext::of(
                    before.status(),
                    before.resume_receiver(),
                    before.control_receiver(),
                ),
            ),
            ServiceControlCode::Resume() => ServiceStatus::Running(),
        }
        &&& self.context() == ServiceContext::of(
            self.status(),
            self.resume_receiver(),
            self.control_receiver(),
        )
        &&& self.control_receiver() != before.control_receiver()
        &&& self.control_holds() is Init
        &&& self.carried().len() == before.carried().len() + 1
        &&& self.carried().drop_last() == before.carried()
        &&& if code is Resume {
            &&& self.resume_receiver() != before.resume_receiver()
            &&& self.resume_holds() is Init
            &&& self.signals().len() == before.signals().len() + 1
            &&& self.signals().drop_last() == before.signals()
        } else {
            &&& self.resume_receiver() == before.resume_receiver()
            &&& self.resume_holds() == before.resume_holds()
            &&& self.signals() == before.signals()
        }
        &&& res matches Ok(status) ==> {
            &&& status == self.status()
            &&& self.carried().last() == code.request()
            &&& code is Resume ==> self.signals().last() is Continue
        }
        &&& res matches Err(error) ==> error == ServiceError::SendFailed
        &&& before.wf() ==> self.wf()
        &&& before.delivered() && res is Ok ==> self.delivered()
    }

    /// Sends the command that `code` names. Where the state accepts it, it is
    /// carried out as [`Self::accepted`] says. In any other state the service
    /// stays as it is and its status is returned: nothing is stored, signalled
    /// or published. A stopped service accepts nothing.
    pub fn send(&mut self, code: ServiceControlCode) -> (res: Result<ServiceStatus, ServiceError>)
        ensures
            final(self)@ == old(self)@.step(code),
            old(self).status().phase().accepts(code) ==> final(self).accepted(
                *old(self),
                code,
                res,
            ),
            !old(self).status().phase().accepts(code) ==> *final(self) == *old(self) && res
                == Ok::<ServiceStatus, ServiceError>(old(self).status()),
            old(self).wf() ==> final(self).wf(),
    {
        if self.status.phase().accepts(code) {
            self.carry_out(code)
        } else {
            Ok(self.status.clone())
        }
    }

    /// Stops the service: [`Self::send`] of `Stop`. A stopped service stays as
    /// it is: nothing is stored and nothing is published.
    pub fn stop(&mut self) -> (res: Result<ServiceStatus, ServiceError>)
        ensures
            final(self)@ == old(self)@.step(ServiceControlCode::Stop()),
            !(old(self).status() is Stopped) ==> final(self).accepted(
                *old(self),
                ServiceControlCode::Stop(),
                res,
            ),
            old(self).status() is Stopped ==> *final(self) == *old(self) && res == Ok::<
                ServiceStatus,
                ServiceError,
            >(ServiceStatus::Stopped()),
            old(self).wf() ==> final(self).wf(),
            old(self).wf() ==> final(self).context().status() == ServiceStatus::Stopped(),
            final(self).status() == ServiceStatus::Stopped(),
        opens_invariants none
        no_unwind
    {
        match self.status {
            ServiceStatus::Stopped() => Ok(ServiceStatus::Stopped()),
            _ => {
                self.enter_stopped();
                let announced = self.announce(ServiceControlRequest::Stop());
                proof {
                    assert(self.carried().drop_last() =~= old(self).carried());
                }
                Self::outcome(ServiceStatus::Stopped(), Ok(()), announced)
            },
        }
    }

    /// Pauses the service: [`Self::send`] of `Pause`. It is carried out where
    /// the service is running. In any other state the service stays as it is:
    /// nothing is stored and nothing is published.
    pub fn pause(&mut self) -> (res: Result<ServiceStatus, ServiceError>)
        ensures
            final(self)@ == old(self)@.step(ServiceControlCode::Pause()),
            old(self).status() is Running ==> final(self).accepted(
                *old(self),
                ServiceControlCode::Pause(),
                res,
            ),
            !(old(self).status() is Running) ==> *final(self) == *old(self) && res == Ok::<
                ServiceStatus,
                ServiceError,
            >(old(self).status()),
            old(self).wf() ==> final(self).wf(),
    {
        self.send(ServiceControlCode::Pause())
    }

    /// Resumes the service: [`Self::send`] of `Resume`. It is carried out
    /// where the service is paused. In any other state the service stays as
    /// it is: nothing is stored, signalled or published.
    pub fn resume(&mut self) -> (res: Result<ServiceStatus, ServiceError>)
        ensures
            final(self)@ == old(self)@.step(ServiceControlCode::Resume()),
            old(self).status() is Paused ==> final(self).accepted(
                *old(self),
                ServiceControlCode::Resume(),
                res,
            ),
            !(old(self).status() is Paused) ==> *final(self) == *old(self) && res == Ok::<
                ServiceStatus,
                ServiceError,
            >(old(self).status()),
            old(self).wf() ==> final(self).wf(),
    {
        self.send(ServiceControlCode::Resume())
    }
}

impl Drop for Service {
    /// A service whose owner lets go of it is stopped, as by a call of `stop`
    /// whose result nobody is left to read.
    fn drop(&mut self)
        ensures
            final(self)@ == old(self)@.step(ServiceControlCode::Stop()),
            final(self).status() == ServiceStatus::Stopped(),
            old(self).wf() ==> final(self).wf(),
            old(self).wf() ==> final(self).context().status() == ServiceStatus::Stopped(),
        opens_invariants none
        no_unwind
    {
        let _ = self.stop();
    }
}

} // verus!
