//! The control plane as a state machine over plain values, and what holds of it
//! after every sequence of commands.

use vstd::prelude::*;
use crate::control::{Phase, ServiceControlCode, ServiceControlRequest};

verus! {

/// A call of the owner on its handle: one of the three commands by its own
/// name, or a command sent by its code. Each is carried out only where the
/// state accepts it.
pub enum OwnerCall {
    Stop,
    Pause,
    Resume,
    Send(ServiceControlCode),
}

/// The control plane as its owner drives it.
///
/// Every transition publishes one request on the live control channel and then
/// retires that channel, so `published.len()` also counts the control channels
/// retired so far. Every resume signals the live resume channel and retires it,
/// so `resumes` is also the index of the live resume channel.
pub struct ControlPlane {
    pub phase: Phase,
    pub published: Seq<ServiceControlRequest>,
    pub resumes: nat,
}

impl ControlPlane {
    /// The control plane of a new service.
    pub open spec fn initial() -> ControlPlane {
        ControlPlane { phase: Phase::Running, published: Seq::empty(), resumes: 0 }
    }

    /// The transition that `code` names, once the state has accepted it.
    pub open spec fn apply(self, code: ServiceControlCode) -> ControlPlane {
        ControlPlane {
            phase: code.target(),
            published: self.published.push(code.request()),
            resumes: if code is Resume { self.resumes + 1 } else { self.resumes },
        }
    }

    /// A command of the owner: carried out where the state accepts `code`, and
    /// otherwise nothing changes and nothing is published.
    pub open spec fn step(self, code: ServiceControlCode) -> ControlPlane {
        if self.phase.accepts(code) {
            self.apply(code)
        } else {
            self
        }
    }

    /// The control plane after one call of the owner.
    pub open spec fn call(self, call: OwnerCall) -> ControlPlane {
        match call {
            OwnerCall::Stop => self.step(ServiceControlCode::Stop()),
            OwnerCall::Pause => self.step(ServiceControlCode::Pause()),
            OwnerCall::Resume => self.step(ServiceControlCode::Resume()),
            OwnerCall::Send(code) => self.step(code),
        }
    }

    /// The control plane after the calls `calls` of the owner, first to last.
    pub open spec fn run(self, calls: Seq<OwnerCall>) -> ControlPlane
        decreases calls.len(),
    {
        if calls.len() == 0 {
            self
        } else {
            self.run(calls.drop_last()).call(calls.last())
        }
    }

    /// The request published last, `Init` before the first.
    pub open spec fn latest(self) -> ServiceControlRequest {
        if self.published.len() == 0 {
            ServiceControlRequest::Init()
        } else {
            self.published.last()
        }
    }

    /// The stored state agrees with the request published last: an observer
    /// that derives the state from that request reads the stored one.
    pub open spec fn consistent(self) -> bool {
        if self.published.len() == 0 {
            self.phase == Phase::Running
        } else {
            self.latest().phase() == Some(self.phase)
        }
    }

    /// Every request published announces a transition: none is the sentinel
    /// `Init`, so an observer that is woken on a control channel, whichever,
    /// finds a state to derive.
    pub open spec fn announces_transitions(self) -> bool {
        forall|i: int| 0 <= i < self.published.len() ==> (#[trigger] self.published[i]) !is Init
    }

    /// What holds of the control plane between any two calls of the owner.
    pub open spec fn wf(self) -> bool {
        &&& self.consistent()
        &&& self.announces_transitions()
    }

    /// The resume channel that a context captured now listens on.
    pub open spec fn resume_channel(self) -> nat {
        self.resumes
    }

    /// Whether the resume channel `channel` has been signalled.
    pub open spec fn signalled(self, channel: nat) -> bool {
        channel < self.resumes
    }
}

/// A transition leaves the stored state in agreement with the request it
/// published, and that request is no sentinel.
pub proof fn lemma_apply_wf(plane: ControlPlane, code: ServiceControlCode)
    ensures
        plane.apply(code).consistent(),
        plane.apply(code).latest() == code.request(),
        plane.apply(code).latest() !is Init,
        plane.apply(code).latest().phase() == Some(plane.apply(code).phase),
        plane.wf() ==> plane.apply(code).wf(),
{
}

/// Every call of the owner keeps what holds between calls.
pub proof fn lemma_call_wf(plane: ControlPlane, call: OwnerCall)
    requires
        plane.wf(),
    ensures
        plane.call(call).wf(),
{
    match call {
        OwnerCall::Stop => lemma_apply_wf(plane, ServiceControlCode::Stop()),
        OwnerCall::Pause => lemma_apply_wf(plane, ServiceControlCode::Pause()),
        OwnerCall::Resume => lemma_apply_wf(plane, ServiceControlCode::Resume()),
        OwnerCall::Send(code) => lemma_apply_wf(plane, code),
    }
}

/// No stale read once woken: after every sequence of calls of the owner on a
/// new service, the state that an observer derives from the request published
/// last is the stored state, and no request published is the sentinel `Init`,
/// which is the latest value only while nothing was published.
pub proof fn lemma_run_wf(calls: Seq<OwnerCall>)
    ensures
        ControlPlane::initial().run(calls).wf(),
        ControlPlane::initial().run(calls).published.len() > 0 ==> {
            &&& ControlPlane::initial().run(calls).latest() !is Init
            &&& ControlPlane::initial().run(calls).latest().phase() == Some(
                ControlPlane::initial().run(calls).phase,
            )
        },
    decreases calls.len(),
{
    if calls.len() > 0 {
        lemma_run_wf(calls.drop_last());
        lemma_call_wf(ControlPlane::initial().run(calls.drop_last()), calls.last());
    }
}

/// Stopping is idempotent: after a stop the service is stopped, a second stop
/// changes nothing and publishes nothing, and the two together publish `Stop`
/// once where the service was not stopped before and never where it was.
pub proof fn lemma_stop_idempotent(plane: ControlPlane)
    ensures
        plane.step(ServiceControlCode::Stop()).phase == Phase::Stopped,
        plane.step(ServiceControlCode::Stop()).step(ServiceControlCode::Stop()) == plane.step(
            ServiceControlCode::Stop(),
        ),
        plane.phase != Phase::Stopped ==> plane.step(ServiceControlCode::Stop()).step(
            ServiceControlCode::Stop(),
        ).published == plane.published.push(ServiceControlRequest::Stop()),
        plane.phase == Phase::Stopped ==> plane.step(ServiceControlCode::Stop()).step(
            ServiceControlCode::Stop(),
        ) == plane,
{
}

/// One transition, one request: a command that the state accepts publishes
/// the request of its code once and retires one control channel, and a command
/// that it does not accept publishes nothing. So each control channel carries
/// the one request that all its waiters are woken by.
pub proof fn lemma_step_publishes_once(plane: ControlPlane, code: ServiceControlCode)
    ensures
        plane.phase.accepts(code) ==> plane.step(code).published == plane.published.push(
            code.request(),
        ),
        !plane.phase.accepts(code) ==> plane.step(code) == plane,
{
}

/// Stopped is final: no sequence of calls of the owner leaves it, and none
/// publishes or signals anything more.
pub proof fn lemma_stopped_is_final(plane: ControlPlane, calls: Seq<OwnerCall>)
    requires
        plane.phase == Phase::Stopped,
    ensures
        plane.run(calls) == plane,
    decreases calls.len(),
{
    if calls.len() > 0 {
        lemma_stopped_is_final(plane, calls.drop_last());
    }
}

/// Each pause has a resume channel of its own. Of a service that is not
/// stopped and is paused, resumed and paused again: it is paused after the
/// first call and after the third, the contexts captured for these two pauses
/// listen on different resume channels, the resume in between signals the
/// first and not the second, and a stop after the second pause signals neither
/// anew. (On a stopped service the three calls do nothing and capture nothing.)
pub proof fn lemma_pause_epochs_distinct(plane: ControlPlane)
    requires
        plane.phase != Phase::Stopped,
    ensures
        ({
            let first = plane.step(ServiceControlCode::Pause());
            let resumed = first.step(ServiceControlCode::Resume());
            let second = resumed.step(ServiceControlCode::Pause());
            let stopped = second.step(ServiceControlCode::Stop());
            &&& first.phase == Phase::Paused
            &&& resumed.phase == Phase::Running
            &&& second.phase == Phase::Paused
            &&& second.published == resumed.published.push(ServiceControlRequest::Pause())
            &&& first.resume_channel() != second.resume_channel()
            &&& !first.signalled(first.resume_channel())
            &&& resumed.signalled(first.resume_channel())
            &&& !resumed.signalled(second.resume_channel())
            &&& !second.signalled(second.resume_channel())
            &&& !stopped.signalled(second.resume_channel())
        }),
{
}

/// Only a resume signals a resume channel: a stop or a pause leaves every
/// waiter on one as it was.
pub proof fn lemma_only_resume_signals(plane: ControlPlane, code: ServiceControlCode, channel: nat)
    requires
        code !is Resume,
    ensures
        plane.step(code).signalled(channel) == plane.signalled(channel),
        plane.apply(code).signalled(channel) == plane.signalled(channel),
{
}

} // verus!
