//! The order of the two legs, driven with scripted workers.

use dynamo_epp_sidecar::trtllm_context_first::{
    AfterContext, ConfigError, ContextFirstDispatcher, ContextFirstLimits, DispatchError,
    DispatchOutcome, HandoffError, Leg, LegFailure, OwnedBody, PreparedLeg, RequestError,
    RequestIds, TrtllmContextFirstContract, REQUEST_TYPE_CONTEXT_ONLY,
};
use serde_json::Value;
use std::sync::{Arc, Mutex};
use std::time::Duration;
use tokio_util::sync::CancellationToken;

struct FixedIds(i64);

impl RequestIds for FixedIds {
    fn mint(&self) -> i64 {
        self.0
    }
}

fn json(text: &str) -> Value {
    serde_json::from_str(text).expect("fixture is JSON")
}

fn client_request() -> Value {
    json(
        r#"{
            "model": "m",
            "messages": [{"role": "user", "content": "hi"}],
            "max_tokens": 32,
            "temperature": 0.25,
            "stream": false
        }"#,
    )
}

/// One recorded call, so tests can assert what was actually sent and in what
/// order rather than inferring it from the outcome.
#[derive(Debug, Clone)]
enum Sent {
    Context(Vec<u8>),
    Generation(Vec<u8>),
}

struct Scripted {
    sent: Mutex<Vec<Sent>>,
    context: Result<Vec<u8>, LegFailure>,
    generation: Result<Vec<u8>, LegFailure>,
    cancel_after_context: bool,
}

impl Scripted {
    fn new(context: Result<Vec<u8>, LegFailure>) -> Self {
        Self {
            sent: Mutex::new(Vec::new()),
            context,
            generation: Ok(br#"{"object":"chat.completion","choices":[]}"#.to_vec()),
            cancel_after_context: false,
        }
    }

    fn returning_context(body: Vec<u8>) -> Self {
        Self::new(Ok(body))
    }

    fn failing_context(failure: LegFailure) -> Self {
        Self::new(Err(failure))
    }

    fn calls(&self) -> Vec<Sent> {
        self.sent.lock().unwrap().clone()
    }

    fn generation_calls(&self) -> usize {
        self.calls()
            .iter()
            .filter(|c| matches!(c, Sent::Generation(_)))
            .count()
    }

    fn send_context(
        &self,
        leg: PreparedLeg,
        cancellation: &CancellationToken,
    ) -> Result<Vec<u8>, LegFailure> {
        self.sent
            .lock()
            .unwrap()
            .push(Sent::Context(leg.body.to_vec()));
        if self.cancel_after_context {
            cancellation.cancel();
        }
        self.context.clone()
    }

    fn send_generation(
        &self,
        leg: PreparedLeg,
        cancellation: CancellationToken,
    ) -> Result<OwnedBody, LegFailure> {
        self.sent
            .lock()
            .unwrap()
            .push(Sent::Generation(leg.body.to_vec()));
        self.generation
            .clone()
            .map(|body| OwnedBody::new(body, cancellation))
    }
}

fn limits() -> ContextFirstLimits {
    ContextFirstLimits::new(
        64 * 1024,
        256 * 1024,
        512 * 1024,
        Duration::from_secs(30),
        Duration::from_secs(30),
    )
    .expect("valid limits")
}

fn dispatcher(minted: i64) -> ContextFirstDispatcher {
    ContextFirstDispatcher::new(
        TrtllmContextFirstContract::pinned(),
        Arc::new(FixedIds(minted)),
        limits(),
        None,
    )
}

/// Takes the steps of a dispatch, the worker's replies being scripted.
fn dispatch_with(
    dispatcher: &ContextFirstDispatcher,
    transport: &Scripted,
    client_body: &[u8],
    conversation_id: &str,
    cancellation: CancellationToken,
) -> Result<DispatchOutcome, DispatchError> {
    let context = dispatcher.begin(client_body, conversation_id, &cancellation)?;
    let reply = transport.send_context(context.leg, &cancellation);
    match context.pending.receive(reply, cancellation.clone())? {
        AfterContext::Completed(outcome) => Ok(outcome),
        AfterContext::Generate(plan) => {
            let generation = plan.release(&cancellation)?;
            let reply = transport.send_generation(generation.leg, cancellation);
            generation.pending.finish(reply)
        }
    }
}

fn dispatch(
    transport: &Scripted,
    client_body: &[u8],
    cancellation: CancellationToken,
) -> Result<DispatchOutcome, DispatchError> {
    dispatch_with(
        &dispatcher(777),
        transport,
        client_body,
        "conv-1",
        cancellation,
    )
}

/// A context response body with an explicit `finish_reason`, so the generation
/// gate can be driven without re-serializing.
fn context_body(finish_reason: &str, params: Value, top: Value) -> Vec<u8> {
    let mut parameters = json(r#"{"ctx_request_id": 42, "first_gen_tokens": [15043]}"#);
    parameters["request_type"] = Value::from(REQUEST_TYPE_CONTEXT_ONLY);
    if let (Some(base), Some(extra)) = (parameters.as_object_mut(), params.as_object()) {
        for (key, value) in extra {
            base.insert(key.clone(), value.clone());
        }
    }

    let mut body = json(
        r#"{
            "id": "chatcmpl-test",
            "object": "chat.completion",
            "model": "m",
            "choices": [{
                "index": 0,
                "message": {"role": "assistant", "content": ""}
            }],
            "usage": {"prompt_tokens": 5, "completion_tokens": 1, "total_tokens": 6}
        }"#,
    );
    body["choices"][0]["finish_reason"] = Value::from(finish_reason);
    body["choices"][0]["disaggregated_params"] = parameters;
    if let (Some(object), Some(extra)) = (body.as_object_mut(), top.as_object()) {
        for (key, value) in extra {
            object.insert(key.clone(), value.clone());
        }
    }
    serde_json::to_vec(&body).expect("serializes")
}

fn request_body() -> Vec<u8> {
    serde_json::to_vec(&client_request()).unwrap()
}

/// The generation leg is sent only after the context leg completed and its
/// handoff validated.
#[test]
fn generation_runs_only_after_a_valid_context_handoff() {
    let transport = Scripted::returning_context(context_body(
        "length",
        json("{}"),
        json(r#"{"prompt_token_ids": [1, 2, 3]}"#),
    ));
    let outcome = dispatch(&transport, &request_body(), CancellationToken::new())
        .expect("dispatch succeeds");

    assert!(!outcome.context_completed());
    let calls = transport.calls();
    assert_eq!(calls.len(), 2, "both legs must run exactly once");
    assert!(matches!(calls[0], Sent::Context(_)));
    assert!(matches!(calls[1], Sent::Generation(_)));

    // The context leg was non-streaming and carried the minted id.
    let Sent::Context(ctx) = &calls[0] else {
        unreachable!()
    };
    let ctx: Value = serde_json::from_slice(ctx).unwrap();
    assert_eq!(ctx["stream"], Value::Bool(false));
    assert_eq!(ctx["disaggregated_params"]["disagg_request_id"], 777);
}

/// Both legs carry one correlation id, and the other context identity is not
/// overwritten by it.
#[test]
fn both_legs_share_one_id_and_keep_ctx_request_id_distinct() {
    let transport = Scripted::returning_context(context_body(
        "length",
        json("{}"),
        json(r#"{"prompt_token_ids": [1]}"#),
    ));
    let outcome = dispatch(&transport, &request_body(), CancellationToken::new()).unwrap();
    assert_eq!(outcome.correlation_id(), 777);

    let calls = transport.calls();
    let Sent::Generation(generation) = &calls[1] else {
        unreachable!()
    };
    let generation: Value = serde_json::from_slice(generation).unwrap();
    assert_eq!(generation["disaggregated_params"]["disagg_request_id"], 777);
    assert_eq!(generation["disaggregated_params"]["ctx_request_id"], 42);
}

/// A context leg that already finished ends the request. No generation leg is
/// sent, and nothing is added.
#[test]
fn a_finished_context_leg_runs_no_generation_and_returns_its_own_body() {
    let transport = Scripted::returning_context(context_body(
        "stop",
        json("{}"),
        json(r#"{"prompt_token_ids": [1]}"#),
    ));
    let outcome = dispatch(&transport, &request_body(), CancellationToken::new())
        .expect("dispatch succeeds");

    assert!(outcome.context_completed());
    assert_eq!(transport.generation_calls(), 0);
    assert!(!outcome.body().is_empty());
    assert_eq!(outcome.body().as_slice(), transport.context.unwrap());
}

/// Every pre-generation failure produces zero generation requests and keeps its
/// own classification.
#[test]
fn no_failure_before_generation_can_start_it() {
    // Unreachable worker.
    let transport = Scripted::failing_context(LegFailure::Connect { leg: Leg::Context });
    let error =
        dispatch(&transport, &request_body(), CancellationToken::new()).expect_err("must fail");
    assert!(matches!(
        error,
        DispatchError::Leg(LegFailure::Connect { leg: Leg::Context })
    ));
    assert_eq!(transport.generation_calls(), 0);

    // Read stall, deadline and status stay distinguishable.
    for failure in [
        LegFailure::ReadStall { leg: Leg::Context },
        LegFailure::Deadline { leg: Leg::Context },
        LegFailure::Status {
            leg: Leg::Context,
            status: 503,
        },
    ] {
        let transport = Scripted::failing_context(failure);
        let error =
            dispatch(&transport, &request_body(), CancellationToken::new()).expect_err("must fail");
        assert_eq!(error.message(), failure.message());
        assert_eq!(transport.generation_calls(), 0);
    }

    // Malformed context body.
    let transport = Scripted::returning_context(b"not json".to_vec());
    let error =
        dispatch(&transport, &request_body(), CancellationToken::new()).expect_err("must fail");
    assert!(matches!(error, DispatchError::Handoff { .. }));
    assert_eq!(transport.generation_calls(), 0);

    // Context response with no handoff at all.
    let transport = Scripted::returning_context(br#"{"choices": [{"index": 0}]}"#.to_vec());
    let error =
        dispatch(&transport, &request_body(), CancellationToken::new()).expect_err("must fail");
    assert!(matches!(
        error,
        DispatchError::Handoff {
            source: HandoffError::NoDisaggregatedParams
        }
    ));
    assert_eq!(transport.generation_calls(), 0);
}

/// An oversized handoff body is rejected on size, before parsing.
#[test]
fn an_oversized_handoff_is_rejected_by_size_not_by_parsing() {
    let mut body = context_body(
        "length",
        json("{}"),
        json(r#"{"prompt_token_ids": [1]}"#),
    );
    body.extend(std::iter::repeat_n(b' ', 512 * 1024));
    let transport = Scripted::returning_context(body);
    let error =
        dispatch(&transport, &request_body(), CancellationToken::new()).expect_err("must fail");
    match error {
        DispatchError::Leg(LegFailure::BodyTooLarge { leg, limit }) => {
            assert_eq!(leg, Leg::Context);
            assert_eq!(limit, 256 * 1024);
        }
        other => panic!("expected a size rejection, got {}", other.message()),
    }
    assert_eq!(transport.generation_calls(), 0);
}

/// A request that is cancelled before the context leg must not start any leg.
#[test]
fn cancellation_before_the_context_leg_starts_nothing() {
    let transport = Scripted::returning_context(context_body(
        "length",
        json("{}"),
        json(r#"{"prompt_token_ids": [1]}"#),
    ));
    let cancellation = CancellationToken::new();
    cancellation.cancel();
    let error = dispatch(&transport, &request_body(), cancellation).expect_err("must fail");
    assert!(matches!(
        error,
        DispatchError::Cancelled { leg: Leg::Context }
    ));
    assert!(transport.calls().is_empty(), "no leg may be sent");
}

/// A client cannot inject orchestration state into either leg.
#[test]
fn client_supplied_orchestration_state_never_reaches_a_leg() {
    let mut request = client_request();
    request["disaggregated_params"] = json(
        r#"{
            "request_type": "generation_only",
            "disagg_request_id": 1
        }"#,
    );
    let transport = Scripted::returning_context(context_body(
        "length",
        json("{}"),
        json(r#"{"prompt_token_ids": [1]}"#),
    ));
    let error = dispatch(
        &transport,
        &serde_json::to_vec(&request).unwrap(),
        CancellationToken::new(),
    )
    .expect_err("must fail");
    assert!(matches!(
        error,
        DispatchError::Request(RequestError::ForbiddenField { .. })
    ));
    assert!(transport.calls().is_empty());
}

/// The limits are validated at construction rather than silently accepting a zero
/// budget.
#[test]
fn limits_reject_zero_budgets() {
    assert!(matches!(
        ContextFirstLimits::new(0, 1, 1, Duration::from_secs(1), Duration::from_secs(1)),
        Err(ConfigError::RequestBodyLimit)
    ));
    assert!(matches!(
        ContextFirstLimits::new(1, 0, 1, Duration::from_secs(1), Duration::from_secs(1)),
        Err(ConfigError::HandoffBodyLimit)
    ));
    assert!(matches!(
        ContextFirstLimits::new(1, 1, 1, Duration::ZERO, Duration::from_secs(1)),
        Err(ConfigError::Deadline)
    ));
}

/// The generation body is owned by the response, so the stream is bound to the
/// response's lifetime rather than the request's.
#[test]
fn the_generation_body_carries_the_response_cancellation() {
    let transport = Scripted::returning_context(context_body(
        "length",
        json("{}"),
        json(r#"{"prompt_token_ids": [1]}"#),
    ));
    let cancellation = CancellationToken::new();
    let outcome = dispatch(&transport, &request_body(), cancellation.clone()).unwrap();
    assert!(!outcome.body().cancellation().is_cancelled());
    cancellation.cancel();
    assert!(outcome.body().cancellation().is_cancelled());
}

#[test]
fn a_finished_context_body_carries_the_request_cancellation() {
    let transport = Scripted::returning_context(context_body("stop", json("{}"), json("{}")));
    let cancellation = CancellationToken::new();
    let outcome = dispatch(&transport, &request_body(), cancellation.clone()).unwrap();
    cancellation.cancel();
    assert!(outcome.body().cancellation().is_cancelled());
    assert_eq!(outcome.body().len(), transport.context.unwrap().len());
}

#[test]
fn cancellation_between_the_legs_sends_no_generation() {
    let mut transport = Scripted::returning_context(context_body(
        "length",
        json("{}"),
        json(r#"{"prompt_token_ids": [1]}"#),
    ));
    transport.cancel_after_context = true;
    let error =
        dispatch(&transport, &request_body(), CancellationToken::new()).expect_err("must fail");
    assert!(matches!(
        error,
        DispatchError::Cancelled {
            leg: Leg::Generation
        }
    ));
    assert_eq!(transport.calls().len(), 1);
    assert_eq!(
        error.message(),
        "the client cancelled the request during the generation leg"
    );
}

#[test]
fn the_reply_to_the_generation_leg_decides() {
    let mut transport = Scripted::returning_context(context_body(
        "not_finished",
        json("{}"),
        json(r#"{"prompt_token_ids_b64": "AAEC"}"#),
    ));
    let outcome = dispatch(&transport, &request_body(), CancellationToken::new()).unwrap();
    assert_eq!(
        outcome.body().as_slice(),
        br#"{"object":"chat.completion","choices":[]}"#
    );

    transport.generation = Err(LegFailure::Deadline {
        leg: Leg::Generation,
    });
    let error =
        dispatch(&transport, &request_body(), CancellationToken::new()).expect_err("must fail");
    assert!(matches!(
        error,
        DispatchError::Leg(LegFailure::Deadline {
            leg: Leg::Generation
        })
    ));
}

#[test]
fn a_reported_id_takes_over_from_the_generation_leg_on() {
    let transport = Scripted::returning_context(context_body(
        "length",
        json(r#"{"disagg_request_id": 4242}"#),
        json(r#"{"prompt_token_ids": [1]}"#),
    ));
    let outcome = dispatch(&transport, &request_body(), CancellationToken::new()).unwrap();
    assert_eq!(outcome.correlation_id(), 4242);
    let ids: Vec<Value> = transport
        .calls()
        .iter()
        .map(|sent| match sent {
            Sent::Context(body) | Sent::Generation(body) => {
                let body: Value = serde_json::from_slice(body).unwrap();
                body["disaggregated_params"]["disagg_request_id"].clone()
            }
        })
        .collect();
    assert_eq!(ids, vec![Value::from(777), Value::from(4242)]);
}

#[test]
fn a_handoff_in_both_prompt_forms_starts_no_generation() {
    let transport = Scripted::returning_context(context_body(
        "length",
        json("{}"),
        json(r#"{"prompt_token_ids": [1], "prompt_token_ids_b64": "AAEC"}"#),
    ));
    let error =
        dispatch(&transport, &request_body(), CancellationToken::new()).expect_err("must fail");
    assert!(matches!(
        error,
        DispatchError::Request(RequestError::Handoff {
            source: HandoffError::ConflictingPromptTokenForms
        })
    ));
    assert_eq!(transport.generation_calls(), 0);
}

#[test]
fn plans_carry_the_deadlines_of_their_legs() {
    let limits = ContextFirstLimits::new(
        1024,
        4096,
        4096,
        Duration::from_secs(7),
        Duration::from_secs(11),
    )
    .unwrap();
    let dispatcher = ContextFirstDispatcher::new(
        TrtllmContextFirstContract::pinned(),
        Arc::new(FixedIds(5)),
        limits,
        Some(b"k".to_vec()),
    );
    assert!(dispatcher.signs_handoffs());
    let body = request_body();
    let context = dispatcher.begin_unless(false, &body, "conv-1").unwrap();
    assert_eq!(context.deadline, Duration::from_secs(7));
    let reply = Ok(context_body(
        "length",
        json(r#"{"encoded_opaque_state": "blob"}"#),
        json(r#"{"prompt_token_ids": [1]}"#),
    ));
    let next = context
        .pending
        .receive(reply, CancellationToken::new())
        .unwrap();
    let AfterContext::Generate(plan) = next else {
        panic!("a generation leg must be planned")
    };
    assert_eq!(plan.correlation_id(), 5);
    let generation = plan.release_unless(false).unwrap();
    assert_eq!(generation.deadline, Duration::from_secs(11));
    assert_eq!(generation.leg.correlation_id, 5);
    assert_eq!(
        generation.leg.auth_header.unwrap().0,
        "x-trtllm-disagg-auth"
    );
}

#[test]
fn a_dispatcher_reports_what_it_was_made_with() {
    let dispatcher = dispatcher(1);
    assert!(!dispatcher.signs_handoffs());
    assert_eq!(dispatcher.contract(), TrtllmContextFirstContract::pinned());
    assert_eq!(dispatcher.limits().handoff_body_bytes, 256 * 1024);
    assert_eq!(dispatcher.next_conversation_sequence(), 0);
    assert_eq!(dispatcher.next_conversation_sequence(), 1);
}

#[test]
fn failures_and_limits_are_written_out() {
    let leg = Leg::Context;
    for (failure, text) in [
        (
            LegFailure::Connect { leg },
            "could not connect to the context worker",
        ),
        (
            LegFailure::ReadStall { leg },
            "the context worker stopped sending data before finishing",
        ),
        (
            LegFailure::Deadline {
                leg: Leg::Generation,
            },
            "the generation leg exceeded its total deadline",
        ),
        (
            LegFailure::Status { leg, status: 503 },
            "the context worker returned HTTP 503",
        ),
        (
            LegFailure::BodyTooLarge { leg, limit: 8 },
            "the context response body exceeded the configured limit of 8 bytes",
        ),
        (
            LegFailure::Unavailable { leg },
            "the context worker could not be reached",
        ),
    ] {
        assert_eq!(failure.message(), text);
        assert_eq!(DispatchError::from(failure).message(), text);
    }
    assert_eq!(
        DispatchError::from(HandoffError::NoChoices).message(),
        "context handoff rejected: context response carries no choices"
    );
    assert_eq!(
        DispatchError::from(RequestError::NotAnObject).message(),
        "request body must be a JSON object"
    );
    assert_eq!(
        ConfigError::RequestBodyLimit.message(),
        "request_body_bytes must be greater than zero"
    );
    assert_eq!(
        ConfigError::HandoffBodyLimit.message(),
        "handoff_body_bytes must be greater than zero"
    );
    assert_eq!(
        ConfigError::ResponseBodyLimit.message(),
        "response_body_bytes must be greater than zero"
    );
    assert_eq!(
        ConfigError::Deadline.message(),
        "leg deadlines must be greater than zero"
    );
    assert_eq!(Leg::Context.as_str(), "context");
    assert_eq!(Leg::Generation.as_str(), "generation");
}
