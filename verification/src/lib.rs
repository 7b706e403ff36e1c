//! A cooperative lifecycle control for a service: one owner commands it through
//! the states running, paused and stopped, and any number of observers react to
//! each transition without polling.
//!
//! - [`control`] names the commands, the requests and the states.
//! - [`model`] is the control plane as a state machine over plain values, with
//!   what holds of it after every sequence of calls of the owner.
//! - [`signal`] is the notification channel that the service is built on.
//! - [`service`] is the service: the handle of the owner, which is proved to
//!   follow the model, and the view of the observers.

pub mod control;
pub mod model;
pub mod signal;
pub mod service;
