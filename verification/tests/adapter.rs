//! What a client is answered, and how its body is read.

use dynamo_epp_sidecar::buffer::BoundedBody;
use dynamo_epp_sidecar::context_first_adapter::{
    accept_client_chunk, client_body, conversation_id, map_dispatch_error, map_leg_failure,
    map_request_error, response_for, ClientRead,
};
use dynamo_epp_sidecar::text::{decimal_text, hex_encode};
use dynamo_epp_sidecar::trtllm_context_first::{
    ContextFirstDispatcher, ContextFirstLimits, DispatchError, DispatchOutcome, HandoffError, Leg,
    LegFailure, OwnedBody, RequestError, RequestIds, TrtllmContextFirstContract,
};
use dynamo_epp_sidecar::{trtllm_context_first_adapter, SidecarError};
use std::sync::Arc;
use std::time::Duration;
use tokio_util::sync::CancellationToken;

struct FixedIds(i64);

impl RequestIds for FixedIds {
    fn mint(&self) -> i64 {
        self.0
    }
}

fn parts(error: &SidecarError) -> (u16, &'static str, String) {
    (error.status(), error.code(), error.message().to_string())
}

#[test]
fn every_leg_failure_has_its_status_and_code() {
    let (context, generation) = (Leg::Context, Leg::Generation);
    for (failure, status, code) in [
        (
            LegFailure::Connect { leg: context },
            502,
            "trtllm_context_unreachable",
        ),
        (
            LegFailure::Unavailable { leg: generation },
            502,
            "trtllm_context_unreachable",
        ),
        (
            LegFailure::ReadStall { leg: context },
            504,
            "trtllm_context_read_stall",
        ),
        (
            LegFailure::ReadStall { leg: generation },
            504,
            "trtllm_generation_read_stall",
        ),
        (
            LegFailure::Deadline { leg: context },
            504,
            "trtllm_context_deadline_exceeded",
        ),
        (
            LegFailure::Deadline { leg: generation },
            504,
            "trtllm_generation_deadline_exceeded",
        ),
        (
            LegFailure::Status {
                leg: context,
                status: 503,
            },
            502,
            "trtllm_worker_status",
        ),
        (
            LegFailure::BodyTooLarge {
                leg: generation,
                limit: 8,
            },
            502,
            "trtllm_worker_response_too_large",
        ),
    ] {
        assert_eq!(
            parts(&map_leg_failure(failure)),
            (status, code, failure.message())
        );
        assert_eq!(
            parts(&map_dispatch_error(DispatchError::Leg(failure))),
            (status, code, failure.message())
        );
    }
}

#[test]
fn refused_requests_have_their_status_and_code() {
    for error in [
        RequestError::BodyTooLarge { limit: 1 },
        RequestError::MalformedJson {
            source: "s".to_string(),
        },
        RequestError::NotAnObject,
        RequestError::ForbiddenField { field: "f" },
    ] {
        assert_eq!(
            parts(&map_request_error(&error)),
            (400, "invalid_request", error.message())
        );
    }
    assert_eq!(
        parts(&map_request_error(&RequestError::UnsupportedStreaming)),
        (
            501,
            "streaming_not_supported",
            "streaming responses are not supported by the context-first adapter".to_string()
        )
    );
    // The text of a refused handoff stands alone.
    let refused = (
        502,
        "trtllm_context_handoff_invalid",
        "context response carries no choices".to_string(),
    );
    assert_eq!(
        parts(&map_request_error(&RequestError::Handoff {
            source: HandoffError::NoChoices
        })),
        refused
    );
    assert_eq!(
        parts(&map_dispatch_error(DispatchError::Handoff {
            source: HandoffError::NoChoices
        })),
        refused
    );
    assert_eq!(
        parts(&map_dispatch_error(DispatchError::Request(
            RequestError::NotAnObject
        ))),
        (
            400,
            "invalid_request",
            "request body must be a JSON object".to_string()
        )
    );
    assert_eq!(
        parts(&map_dispatch_error(DispatchError::Cancelled {
            leg: Leg::Generation
        })),
        (
            502,
            "trtllm_context_cancelled",
            "the client cancelled the request during the generation leg".to_string()
        )
    );
}

#[test]
fn a_client_body_is_read_under_its_cap() {
    let mut body = BoundedBody::new(6);
    assert!(accept_client_chunk(&mut body, b"{\"a").is_ok());
    assert!(accept_client_chunk(&mut body, b"").is_ok());
    let error = accept_client_chunk(&mut body, b"\":1}").unwrap_err();
    assert_eq!(
        error.message(),
        "request body is not valid JSON: body exceeds the configured limit of 6 bytes"
    );
    assert!(accept_client_chunk(&mut body, b"\":1").is_ok());
    assert_eq!(body.limit(), 6);
    assert_eq!(body.into_bytes(), b"{\"a\":1");
}

#[test]
fn the_end_of_a_client_body_decides() {
    assert_eq!(
        client_body(ClientRead::Complete(b"{}".to_vec())).unwrap(),
        b"{}"
    );
    assert_eq!(
        parts(&client_body(ClientRead::Elapsed).unwrap_err()),
        (
            408,
            "client_body_deadline_exceeded",
            "the client did not finish sending its request body in time".to_string()
        )
    );
    assert_eq!(
        parts(&client_body(ClientRead::Broken("reset".to_string())).unwrap_err()),
        (
            400,
            "invalid_request",
            "request body is not valid JSON: reset".to_string()
        )
    );
    assert_eq!(
        parts(&client_body(ClientRead::Refused(RequestError::NotAnObject)).unwrap_err()),
        (
            400,
            "invalid_request",
            "request body must be a JSON object".to_string()
        )
    );
}

#[test]
fn an_outcome_is_answered_byte_for_byte() {
    for outcome in [
        DispatchOutcome::ContextCompleted {
            body: OwnedBody::new(b"{\"x\": 1}".to_vec(), CancellationToken::new()),
            correlation_id: 1,
        },
        DispatchOutcome::Generated {
            body: OwnedBody::new(b"{\"x\": 1}".to_vec(), CancellationToken::new()),
            correlation_id: 1,
        },
    ] {
        let response = response_for(&outcome);
        assert_eq!(response.status, 200);
        assert_eq!(response.content_type, "application/json");
        assert_eq!(response.body, b"{\"x\": 1}");
    }
}

#[test]
fn conversations_are_numbered() {
    assert_eq!(conversation_id(0), "dyn-0");
    assert_eq!(conversation_id(u64::MAX), "dyn-18446744073709551615");

    let limits = ContextFirstLimits::new(
        1,
        1,
        1,
        Duration::from_secs(1),
        Duration::from_secs(1),
    )
    .unwrap();
    let dispatcher = Arc::new(ContextFirstDispatcher::new(
        TrtllmContextFirstContract::pinned(),
        Arc::new(FixedIds(1)),
        limits,
        None,
    ));
    let adapter = trtllm_context_first_adapter(dispatcher, Duration::from_secs(30));
    assert_eq!(adapter.client_body_timeout(), Duration::from_secs(30));
    assert_eq!(adapter.next_conversation_id(), "dyn-0");
    assert_eq!(adapter.next_conversation_id(), "dyn-1");
    assert_eq!(adapter.dispatcher().limits().request_body_bytes, 1);
}

#[test]
fn numbers_and_bytes_are_written_as_digits() {
    assert_eq!(decimal_text(0), "0");
    assert_eq!(decimal_text(907), "907");
    assert_eq!(hex_encode(&[0x0a, 0xf0]), "0af0");
}
