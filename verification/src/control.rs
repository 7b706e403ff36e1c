//! The vocabulary of the control plane: the commands of the owner, the requests
//! that travel on the control channel, and the state that each of them leads to.

use vstd::prelude::*;

verus! {

/// The state of a service, without what a paused service carries.
#[derive(Clone, Copy, Debug, PartialEq, Eq, Structural)]
pub enum Phase {
    Stopped,
    Paused,
    Running,
}

/// A command of the owner.
#[derive(Clone, Copy, Debug, PartialEq, Eq, Structural)]
pub enum ServiceControlCode {
    Stop(),
    Pause(),
    Resume(),
}

/// A value of the control channel. `Init` is what a channel holds before its
/// one transition is published; it stands for no state.
#[derive(Clone, Copy, Debug, PartialEq, Eq, Structural)]
pub enum ServiceControlRequest {
    Init(),
    Stop(),
    Pause(),
    Continue(),
}

/// Why a call on a service failed.
#[derive(Clone, Copy, Debug, PartialEq, Eq, Structural)]
pub enum ServiceError {
    /// The sending side of a channel is gone and nothing new is left to see.
    ChannelClosed,
    /// A transition was applied, but a channel had no receiver left to tell.
    SendFailed,
    /// The sentinel `Init` was seen where a transition had been announced.
    Defect,
    /// A blocking wait was asked of a thread that is running an executor of
    /// `futures` already, where it cannot be started.
    InExecutor,
}

impl ServiceControlCode {
    /// The request that announces this command on the control channel.
    pub open spec fn request(self) -> ServiceControlRequest {
        match self {
            ServiceControlCode::Stop() => ServiceControlRequest::Stop(),
            ServiceControlCode::Pause() => ServiceControlRequest::Pause(),
            ServiceControlCode::Resume() => ServiceControlRequest::Continue(),
        }
    }

    /// The state that this command leads to.
    pub open spec fn target(self) -> Phase {
        match self {
            ServiceControlCode::Stop() => Phase::Stopped,
            ServiceControlCode::Pause() => Phase::Paused,
            ServiceControlCode::Resume() => Phase::Running,
        }
    }

    /// Computes [`Self::request`].
    pub fn to_request(&self) -> (request: ServiceControlRequest)
        ensures
            request == self.request(),
        opens_invariants none
        no_unwind
    {
        match self {
            ServiceControlCode::Stop() => ServiceControlRequest::Stop(),
            ServiceControlCode::Pause() => ServiceControlRequest::Pause(),
            ServiceControlCode::Resume() => ServiceControlRequest::Continue(),
        }
    }
}

impl ServiceControlRequest {
    /// The state that an observer derives from this request: none from `Init`.
    pub open spec fn phase(self) -> Option<Phase> {
        match self {
            ServiceControlRequest::Init() => None,
            ServiceControlRequest::Stop() => Some(Phase::Stopped),
            ServiceControlRequest::Pause() => Some(Phase::Paused),
            ServiceControlRequest::Continue() => Some(Phase::Running),
        }
    }
}

impl Phase {
    /// Whether a command is carried out in this state: a stop unless stopped,
    /// a pause only while running, a resume only while paused. A stopped
    /// service accepts nothing: that state is final.
    pub open spec fn spec_accepts(self, code: ServiceControlCode) -> bool {
        match code {
            ServiceControlCode::Stop() => self != Phase::Stopped,
            ServiceControlCode::Pause() => self == Phase::Running,
            ServiceControlCode::Resume() => self == Phase::Paused,
        }
    }

    /// Computes [`Self::spec_accepts`].
    #[verifier::when_used_as_spec(spec_accepts)]
    pub fn accepts(self, code: ServiceControlCode) -> (accepted: bool)
        ensures
            accepted == self.spec_accepts(code),
        opens_invariants none
        no_unwind
    {
        match code {
            ServiceControlCode::Stop() => !matches!(self, Phase::Stopped),
            ServiceControlCode::Pause() => matches!(self, Phase::Running),
            ServiceControlCode::Resume() => matches!(self, Phase::Paused),
        }
    }
}

} // verus!
