//! Executor-side runtime of a distributed job scheduler: the per-handler
//! admission state machine and block queue, the coordinator channel's
//! decisions (address list, fan-out, heartbeat and shutdown), and the
//! validation of inbound requests.
use vstd::prelude::*;

pub mod text;
pub mod enum_type;
pub mod model;
pub mod client_config;
pub mod handler;
pub mod executor;
pub mod admin;
pub mod builder;
pub mod ip_utils;
pub mod api;

pub use builder::XxlClientBuilder;
pub use client_config::ClientConfig;
pub use enum_type::{ExecutorBlockStrategy, GlueType};
pub use executor::{Admission, Dispatch, ExecutorActor, ExecutorActorResult, JobTicket};
pub use handler::{JobContext, JobHandlerValue};
pub use model::{CallbackParam, JobRunParam, RegistryParam, XxlApiResult, XxlError};

verus! {

} // verus!
