//! The adapter that a configuration asks for.

use crate::address::url_text;
use crate::clock::duration_nanos;
use crate::config::{AdapterMode, Config, ContextFirstConfig};
use crate::context_first_transport::ContextFirstTransport;
use crate::trtllm_context_first::dispatch::{ContextFirstLimits, Leg};
use crate::trtllm_context_first::ids::DisaggIdNamespace;
use reqwest::{Client, Url};
use std::time::Duration;
use vstd::prelude::*;

verus! {

/// The time that a client of the adapter is given to send its body.
pub const CLIENT_BODY_TIMEOUT_MS: u64 = 30_000;

/// Why the adapter could not be built.
#[derive(Debug, Clone, Copy, PartialEq, Eq, Structural)]
pub enum StartupError {
    /// The mode asks for an adapter that has no settings.
    MissingSettings,
}

impl StartupError {
    /// Writes the error out.
    pub fn message(&self) -> (message: String)
        ensures
            message@ == "adapter mode trtllm-context-first requires its settings"@,
    {
        "adapter mode trtllm-context-first requires its settings".to_string()
    }
}

/// What the context-first adapter is built from.
#[derive(Debug)]
pub struct ContextFirstPlan {
    /// The worker of the context leg.
    pub context_base: Url,
    /// The worker of the generation leg.
    pub generation_base: Url,
    pub connect_timeout: Duration,
    pub read_timeout: Duration,
    pub limits: ContextFirstLimits,
    pub namespace: DisaggIdNamespace,
    pub client_body_timeout: Duration,
}

/// The adapter to build.
#[derive(Debug)]
pub enum AdapterPlan {
    /// None: a request with a selected prefill worker cannot be served.
    Unavailable,
    ContextFirst(ContextFirstPlan),
}

/// Whether a plan is what a configuration with these settings asks for. The
/// generation leg goes to the decode engine.
pub open spec fn planned_from(
    plan: ContextFirstPlan,
    config: Config,
    settings: ContextFirstConfig,
) -> bool {
    &&& url_text(plan.context_base) == url_text(settings.context_engine_url)
    &&& url_text(plan.generation_base) == url_text(config.decode_engine_url)
    &&& plan.connect_timeout == config.connect_timeout
    &&& plan.read_timeout == config.read_timeout
    &&& plan.limits == settings.limits
    &&& plan.namespace == settings.namespace
    &&& duration_nanos(plan.client_body_timeout) == 30_000_000_000
}

/// Decides which adapter to build. A mode without its settings is an error and
/// never falls back to no adapter.
pub fn plan_adapter(config: &Config) -> (outcome: Result<AdapterPlan, StartupError>)
    ensures
        match (config.adapter_mode, config.context_first) {
            (AdapterMode::Disabled, _) => outcome == Ok::<AdapterPlan, StartupError>(
                AdapterPlan::Unavailable,
            ),
            (AdapterMode::TrtllmContextFirst, None) => outcome == Err::<AdapterPlan, StartupError>(
                StartupError::MissingSettings,
            ),
            (AdapterMode::TrtllmContextFirst, Some(settings)) => outcome matches Ok(
                AdapterPlan::ContextFirst(plan),
            ) && planned_from(plan, *config, settings),
        },
{
    match config.adapter_mode {
        AdapterMode::Disabled => Ok(AdapterPlan::Unavailable),
        AdapterMode::TrtllmContextFirst => match &config.context_first {
            Some(settings) => Ok(
                AdapterPlan::ContextFirst(
                    ContextFirstPlan {
                        context_base: settings.context_engine_url.clone(),
                        generation_base: config.decode_engine_url.clone(),
                        connect_timeout: config.connect_timeout,
                        read_timeout: config.read_timeout,
                        limits: settings.limits,
                        namespace: settings.namespace,
                        client_body_timeout: Duration::from_millis(CLIENT_BODY_TIMEOUT_MS),
                    },
                ),
            ),
            None => Err(StartupError::MissingSettings),
        },
    }
}

impl ContextFirstPlan {
    /// Builds the transport around a client. Responses are capped as the limits
    /// say.
    pub fn transport(&self, client: Client) -> (transport: ContextFirstTransport)
        ensures
            transport.sender() == client,
            url_text(transport.base(Leg::Context)) == url_text(self.context_base),
            url_text(transport.base(Leg::Generation)) == url_text(self.generation_base),
            transport.cap() == self.limits.response_body_bytes,
    {
        ContextFirstTransport::new(
            client,
            self.context_base.clone(),
            self.generation_base.clone(),
            self.limits.response_body_bytes,
        )
    }
}

/// A plan keeps the configuration: each worker's address, each time and every limit,
/// the ids' namespace, and half a minute for the client's body.
pub proof fn law_plans_keep_the_configuration(
    plan: ContextFirstPlan,
    config: Config,
    settings: ContextFirstConfig,
)
    requires
        planned_from(plan, config, settings),
    ensures
        url_text(plan.context_base) == settings@.context_engine_url,
        url_text(plan.generation_base) == config@.decode_engine_url,
        duration_nanos(plan.connect_timeout) == config@.connect_timeout,
        duration_nanos(plan.read_timeout) == config@.read_timeout,
        plan.limits.request_body_bytes == settings@.request_body_bytes,
        plan.limits.handoff_body_bytes == settings@.handoff_body_bytes,
        plan.limits.response_body_bytes == settings@.response_body_bytes,
        duration_nanos(plan.limits.context_deadline) == settings@.context_deadline,
        duration_nanos(plan.limits.generation_deadline) == settings@.generation_deadline,
        plan.namespace.node() == settings@.node_id,
        plan.namespace.process() == settings@.process_id,
        duration_nanos(plan.client_body_timeout) == 30 * 1_000_000_000,
{
}

} // verus!
