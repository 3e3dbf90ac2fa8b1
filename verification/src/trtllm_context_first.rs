//! The context-first handoff between a TRT-LLM context worker and a generation
//! worker.
//!
//! A client request is answered in two legs. The context leg computes the prompt
//! and hands over what the generation leg needs, and one request id names both.

pub mod contract;
pub mod dispatch;
pub mod handoff;
pub mod ids;
pub mod request;
pub mod run;
pub mod signature;

pub use contract::{
    TrtllmContextFirstContract, PROTOCOL_REVISION, VERIFIED_ENGINE_REVISION, VERIFIED_ENGINE_TAG,
};
pub use dispatch::{
    AfterContext, ConfigError, ContextFirstDispatcher, ContextFirstLimits, ContextPending,
    ContextPlan, DispatchError, DispatchOutcome, GenerationLeg, GenerationPending, GenerationPlan,
    Leg, LegFailure, OwnedBody,
};
pub use handoff::{
    parse_context_response, ContextHandoff, HandoffError, PromptTokens, GEN_PENDING_FINISH_REASONS,
    REQUEST_TYPE_CONTEXT_AND_GENERATION, REQUEST_TYPE_CONTEXT_ONLY, REQUEST_TYPE_GENERATION_ONLY,
};
pub use ids::{
    compose_disagg_request_id, decompose_disagg_request_id, DisaggIdNamespace, DisaggRequestIds,
    IdError, RequestIds, COUNTER_BITS, MAX_INT64, MIN_GLOBAL_ID, NODE_ID_BITS, NODE_ID_SPACE,
    PROCESS_ID_BITS, PROCESS_ID_SPACE, TIMESTAMP_BITS, TIMESTAMP_SPACE,
};
pub use request::{
    correlation_id_of, prepare_context_request, prepare_generation_request,
    reject_client_orchestration, PreparedContextRequest, PreparedGenerationRequest, PreparedLeg, RequestError,
    CHAT_COMPLETIONS_PATH, CLIENT_FORBIDDEN_FIELDS,
};
pub use signature::{
    sign_disagg_handoff, INTERNAL_DISAGG_AUTH_FIELDS, INTERNAL_DISAGG_AUTH_HEADER,
};
