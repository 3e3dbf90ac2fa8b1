//! The rules of the sidecar that sits beside a decode engine in a disaggregated
//! deployment: what it sends to the workers behind it, in which order, and what
//! it answers.
//!
//! [`trtllm_context_first`] runs a request in two legs, one after the other, and
//! [`sglang_pd`] prepares two legs that run side by side. [`config`], [`startup`]
//! and [`routing`] decide which of the ways a request takes.

pub mod address;
pub mod buffer;
pub mod clock;
pub mod config;
pub mod context_first_adapter;
pub mod context_first_transport;
pub mod error;
pub mod json;
pub mod routing;
pub mod sglang_pd;
pub mod startup;
pub mod text;
pub mod trtllm_context_first;

pub use config::{AdapterMode, Config, ContextFirstConfig};
pub use context_first_adapter::{trtllm_context_first_adapter, ContextFirstAdapter};
pub use context_first_transport::ContextFirstTransport;
pub use error::SidecarError;
pub use sglang_pd::{
    enforce_body_limit, prepare_pd_requests, prepare_pd_requests_with_random_room, ContractError,
    PreparedLeg, PreparedSglangRequests, RandomRoomGenerator, RequestError, RoomGenerator,
    SglangPdContract, TrustError, TrustedBootstrap, PROTOCOL_REVISION, VERIFIED_ENGINE_REVISION,
};
pub use trtllm_context_first::{
    ContextFirstDispatcher, ContextFirstLimits, DisaggIdNamespace, DisaggRequestIds,
    TrtllmContextFirstContract,
};
