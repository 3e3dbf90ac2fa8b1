//! The engine release that the handoff is written for.

use crate::text::text_eq;
use crate::trtllm_context_first::handoff::REQUEST_TYPE_CONTEXT_AND_GENERATION;
use crate::trtllm_context_first::request::CHAT_COMPLETIONS_PATH;
use vstd::prelude::*;

verus! {

/// The release tag of the engine.
pub const VERIFIED_ENGINE_TAG: &'static str = "v1.3.0rc24";

/// The commit that the release tag stands for.
pub const VERIFIED_ENGINE_REVISION: &'static str = "1cef02e901be43081b1ba6d4981e94ed3bd9c1e8";

/// The revision of the handoff.
pub const PROTOCOL_REVISION: &'static str = "trtllm-context-first-v1";

/// The revisions, as a value that can be logged.
#[derive(Debug, Clone, Copy, PartialEq, Eq)]
pub struct TrtllmContextFirstContract {
    pub engine_tag: &'static str,
    pub engine_revision: &'static str,
    pub protocol_revision: &'static str,
}

impl TrtllmContextFirstContract {
    /// The revisions that this library is written for.
    pub fn pinned() -> (contract: Self)
        ensures
            contract.engine_tag@ == "v1.3.0rc24"@,
            contract.engine_revision@ == "1cef02e901be43081b1ba6d4981e94ed3bd9c1e8"@,
            contract.protocol_revision@ == "trtllm-context-first-v1"@,
    {
        TrtllmContextFirstContract {
            engine_tag: VERIFIED_ENGINE_TAG,
            engine_revision: VERIFIED_ENGINE_REVISION,
            protocol_revision: PROTOCOL_REVISION,
        }
    }

    /// The path that both legs are sent to.
    pub fn chat_completions_path(&self) -> (path: &'static str)
        ensures
            path@ == "v1/chat/completions"@,
    {
        CHAT_COMPLETIONS_PATH
    }

    /// Whether `request_type` is the combined one, which is refused and not
    /// approximated.
    pub fn is_unsupported_request_type(&self, request_type: &str) -> (unsupported: bool)
        ensures
            unsupported == (request_type@ == "context_and_generation"@),
    {
        text_eq(request_type, REQUEST_TYPE_CONTEXT_AND_GENERATION)
    }
}

} // verus!
