//! The context leg and the generation leg of a client request.

use dynamo_epp_sidecar::trtllm_context_first::request::{
    accept_client_body, accept_client_object, build_context_leg, correlation_id_in,
    prepare_context_request_as, require_object,
};
use dynamo_epp_sidecar::trtllm_context_first::{
    correlation_id_of, prepare_context_request, prepare_generation_request,
    reject_client_orchestration, ContextHandoff, HandoffError, PreparedContextRequest, RequestError,
    RequestIds, TrtllmContextFirstContract, CHAT_COMPLETIONS_PATH, CLIENT_FORBIDDEN_FIELDS,
    PROTOCOL_REVISION, REQUEST_TYPE_CONTEXT_AND_GENERATION, REQUEST_TYPE_CONTEXT_ONLY,
    VERIFIED_ENGINE_REVISION, VERIFIED_ENGINE_TAG,
};
use serde_json::Value;

struct FixedIds(i64);

impl RequestIds for FixedIds {
    fn mint(&self) -> i64 {
        self.0
    }
}

fn json(text: &str) -> Value {
    serde_json::from_str(text).expect("fixture is JSON")
}

fn client_request() -> Value {
    json(
        r#"{
            "model": "m",
            "messages": [{"role": "user", "content": "hi"}],
            "max_tokens": 32,
            "temperature": 0.25,
            "stream": false
        }"#,
    )
}

fn prepare_ctx(body: &Value) -> Result<PreparedContextRequest, RequestError> {
    prepare_context_request(
        &serde_json::to_vec(body).unwrap(),
        64 * 1024,
        "conv-1",
        &FixedIds(777),
    )
}

#[test]
fn context_leg_is_non_streaming_and_carries_context_only() {
    let prepared = prepare_ctx(&client_request()).expect("prepares");
    assert_eq!(prepared.leg.path, CHAT_COMPLETIONS_PATH);
    assert_eq!(prepared.leg.correlation_id, 777);
    assert_eq!(prepared.leg.field("stream"), Some(Value::Bool(false)));
    assert_eq!(prepared.leg.field("stream_options"), Some(Value::Null));
    let params = prepared.leg.field("disaggregated_params").unwrap();
    assert_eq!(params["request_type"], REQUEST_TYPE_CONTEXT_ONLY);
    assert_eq!(params["disagg_request_id"], 777);
    assert_eq!(params["conversation_id"], "conv-1");
}

/// The context leg is forced non-streaming while a non-streaming client request
/// keeps its mode on the generation leg.
#[test]
fn a_non_streaming_client_request_keeps_its_mode_on_the_generation_leg() {
    let mut request = client_request();
    request["stream"] = Value::Bool(false);
    let prepared = prepare_ctx(&request).unwrap();
    // The context leg is non-streaming regardless of what the client asked.
    assert_eq!(prepared.leg.field("stream"), Some(Value::Bool(false)));

    let handoff = ContextHandoff {
        finish_reason: Some("length".to_string()),
        prompt_token_ids: Some(vec![1, 2, 3]),
        ..Default::default()
    };
    let generation = prepare_generation_request(
        &serde_json::to_vec(&request).unwrap(),
        &handoff,
        prepared.leg.correlation_id,
        &prepared.conversation_id,
        None,
    )
    .expect("prepares");
    assert_eq!(generation.leg.field("stream"), Some(Value::Bool(false)));
}

/// A streaming request is refused before any leg runs, because the adapter
/// buffers the generation leg and cannot produce an SSE body.
#[test]
fn a_streaming_request_is_refused_rather_than_downgraded() {
    let mut request = client_request();
    request["stream"] = Value::Bool(true);
    let error = prepare_ctx(&request).expect_err("must be refused");
    assert!(matches!(error, RequestError::UnsupportedStreaming));
}

/// A client must not be able to inject orchestration state.
#[test]
fn client_orchestration_fields_are_rejected() {
    for field in CLIENT_FORBIDDEN_FIELDS {
        let mut request = client_request();
        request[field] = json(r#"{"request_type": "generation_only"}"#);
        let error = prepare_ctx(&request).expect_err("must be rejected");
        assert!(
            matches!(error, RequestError::ForbiddenField { field: rejected } if rejected == field),
            "expected {field} rejected, got {}",
            error.message()
        );
    }
}

/// An explicit null is absent, so a client that round-trips it is served.
#[test]
fn null_orchestration_fields_are_treated_as_absent() {
    let mut request = client_request();
    for field in CLIENT_FORBIDDEN_FIELDS {
        request[field] = Value::Null;
    }
    let prepared = prepare_ctx(&request).unwrap();
    assert_eq!(
        prepared.leg.field("disaggregated_params").unwrap()["request_type"],
        REQUEST_TYPE_CONTEXT_ONLY
    );
}

#[test]
fn body_cap_and_shape_are_checked_before_anything_is_built() {
    let small = serde_json::to_vec(&client_request()).unwrap();
    assert!(matches!(
        prepare_context_request(&small, 4, "c", &FixedIds(1)).unwrap_err(),
        RequestError::BodyTooLarge { limit: 4 }
    ));
    assert!(matches!(
        prepare_context_request(b"[1,2,3]", 1024, "c", &FixedIds(1)).unwrap_err(),
        RequestError::NotAnObject
    ));
    assert!(matches!(
        prepare_context_request(b"not json", 1024, "c", &FixedIds(1)).unwrap_err(),
        RequestError::MalformedJson { .. }
    ));
}

fn generation_for(handoff: &ContextHandoff) -> Value {
    let prepared = prepare_generation_request(
        &serde_json::to_vec(&client_request()).unwrap(),
        handoff,
        777,
        "conv-1",
        None,
    )
    .expect("prepares");
    serde_json::from_slice(&prepared.leg.body).unwrap()
}

/// The same trusted id on both legs, `ctx_request_id` kept distinct, and the
/// handoff values carried with their types intact.
#[test]
fn generation_leg_reuses_the_id_and_preserves_the_handoff() {
    let handoff = ContextHandoff {
        disagg_request_id: Some(4242),
        ctx_request_id: Some(42),
        first_gen_tokens: Some(vec![15043]),
        encoded_opaque_state: Some("opaque-blob".to_string()),
        finish_reason: Some("length".to_string()),
        prompt_token_ids: Some(vec![1, 2, 3]),
        prompt_token_ids_b64: None,
        ctx_info_endpoint: None,
    };
    let body = generation_for(&handoff);
    let params = &body["disaggregated_params"];
    assert_eq!(params["request_type"], "generation_only");
    assert_eq!(params["disagg_request_id"], 4242);
    assert_eq!(params["ctx_request_id"], 42);
    assert_eq!(params["first_gen_tokens"], json("[15043]"));
    assert_eq!(params["encoded_opaque_state"], "opaque-blob");
    assert_eq!(body["prompt_token_ids"], json("[1, 2, 3]"));
    // Sampling is untouched.
    assert_eq!(body["max_tokens"], 32);
    assert_eq!(body["temperature"], 0.25);
}

/// The context worker's id wins when it reports one, because a retry may have
/// replaced the id the gateway minted.
#[test]
fn the_context_reported_id_is_authoritative() {
    let handoff = ContextHandoff {
        disagg_request_id: Some(4242),
        finish_reason: Some("not_finished".to_string()),
        prompt_token_ids: Some(vec![1]),
        ..Default::default()
    };
    let prepared = prepare_generation_request(
        &serde_json::to_vec(&client_request()).unwrap(),
        &handoff,
        777,
        "conv-1",
        None,
    )
    .unwrap();
    assert_eq!(prepared.correlation_id, Some(4242));
    assert_eq!(prepared.leg.correlation_id, 4242);
}

/// When the context leg already finished, there is no generation leg at all — not
/// an empty one, and never an added token.
#[test]
fn a_finished_context_leg_produces_no_generation_request() {
    for reason in ["stop", "abort", ""] {
        let handoff = ContextHandoff {
            finish_reason: Some(reason.to_string()),
            prompt_token_ids: Some(vec![1]),
            ..Default::default()
        };
        let prepared = prepare_generation_request(
            &serde_json::to_vec(&client_request()).unwrap(),
            &handoff,
            777,
            "conv-1",
            None,
        )
        .expect("prepares");
        assert_eq!(
            prepared.correlation_id, None,
            "finish_reason={reason:?} must not start generation"
        );
        assert!(prepared.leg.body.is_empty());
    }
}

/// The base64 form is relayed verbatim and the int form is cleared, so the two
/// representations are never both set.
#[test]
fn the_base64_form_is_relayed_verbatim_and_never_decoded() {
    let handoff = ContextHandoff {
        finish_reason: Some("length".to_string()),
        prompt_token_ids_b64: Some("AAECAw==".to_string()),
        ..Default::default()
    };
    let body = generation_for(&handoff);
    assert_eq!(body["prompt_token_ids_b64"], "AAECAw==");
    assert!(body.get("prompt_token_ids").is_none() || body["prompt_token_ids"].is_null());
}

/// A large integer must round-trip exactly, with no float transit.
#[test]
fn large_integers_round_trip_without_precision_loss() {
    let large = 9_007_199_254_740_993_i64; // 2^53 + 1, not representable as f64
    let handoff = ContextHandoff {
        disagg_request_id: Some(large),
        ctx_request_id: Some(large - 2),
        finish_reason: Some("length".to_string()),
        prompt_token_ids: Some(vec![large]),
        ..Default::default()
    };
    let body = generation_for(&handoff);
    assert_eq!(body["disaggregated_params"]["disagg_request_id"], large);
    assert_eq!(body["disaggregated_params"]["ctx_request_id"], large - 2);
    assert_eq!(body["prompt_token_ids"][0], large);
    // Reading it back as text proves no f64 round trip happened.
    let text = String::from_utf8(generation_for(&handoff).to_string().into_bytes()).unwrap();
    assert!(
        text.contains(&large.to_string()),
        "id lost its exact digits"
    );
}

/// A handoff that sets both token forms is rejected rather than guessed at.
#[test]
fn a_handoff_with_both_token_forms_never_builds_a_generation_request() {
    let handoff = ContextHandoff {
        finish_reason: Some("length".to_string()),
        prompt_token_ids: Some(vec![1]),
        prompt_token_ids_b64: Some("AAEC".to_string()),
        ..Default::default()
    };
    let error = prepare_generation_request(
        &serde_json::to_vec(&client_request()).unwrap(),
        &handoff,
        777,
        "conv-1",
        None,
    )
    .expect_err("must be rejected");
    assert!(matches!(
        error,
        RequestError::Handoff {
            source: HandoffError::ConflictingPromptTokenForms
        }
    ));
}

#[test]
fn the_contract_reports_its_pin_and_rejects_the_combined_mode() {
    let contract = TrtllmContextFirstContract::pinned();
    assert_eq!(contract.engine_tag, VERIFIED_ENGINE_TAG);
    assert_eq!(contract.engine_revision, VERIFIED_ENGINE_REVISION);
    assert_eq!(contract.protocol_revision, PROTOCOL_REVISION);
    assert_eq!(contract.chat_completions_path(), CHAT_COMPLETIONS_PATH);
    assert!(contract.is_unsupported_request_type(REQUEST_TYPE_CONTEXT_AND_GENERATION));
    assert!(!contract.is_unsupported_request_type(REQUEST_TYPE_CONTEXT_ONLY));
}

/// The correlation id is readable from a serialized leg, for logging.
#[test]
fn correlation_id_is_readable_from_a_leg_body() {
    let prepared = prepare_ctx(&client_request()).unwrap();
    assert_eq!(correlation_id_of(&prepared.leg.body), Some(777));
    assert_eq!(correlation_id_of(b"not json"), None);
}

#[test]
fn a_body_without_an_integer_id_has_no_correlation_id() {
    for text in [
        "[]",
        "{}",
        r#"{"disaggregated_params": 7}"#,
        r#"{"disaggregated_params": {}}"#,
        r#"{"disaggregated_params": {"disagg_request_id": "7"}}"#,
        r#"{"disaggregated_params": {"disagg_request_id": 7.0}}"#,
        r#"{"disaggregated_params": {"disagg_request_id": 9223372036854775808}}"#,
    ] {
        assert_eq!(correlation_id_of(text.as_bytes()), None, "{text}");
    }
    assert_eq!(
        correlation_id_of(br#"{"disaggregated_params": {"disagg_request_id": -7}}"#),
        Some(-7)
    );
}

#[test]
fn the_context_leg_is_written_compactly_with_sorted_names() {
    let prepared = prepare_context_request_as(
        br#"{ "z": [1.5, -2, 1e3], "stream_options": {"a": 1}, "b": "x" }"#,
        1024,
        "conv-1",
        777,
    )
    .expect("prepares");
    assert_eq!(
        &prepared.leg.body[..],
        br#"{"b":"x","disaggregated_params":{"conversation_id":"conv-1","disagg_request_id":777,"request_type":"context_only"},"stream":false,"stream_options":null,"z":[1.5,-2,1000.0]}"#
            .as_slice()
    );
    assert_eq!(prepared.conversation_id, "conv-1");
    assert_eq!(prepared.leg.auth_header, None);
}

#[test]
fn the_generation_leg_is_written_compactly_with_sorted_names() {
    let handoff = ContextHandoff {
        finish_reason: Some("length".to_string()),
        prompt_token_ids: Some(vec![1, 2]),
        ..Default::default()
    };
    let prepared = prepare_generation_request(
        br#"{"b": "x", "prompt_token_ids_b64": null, "stream_options": 1}"#,
        &handoff,
        777,
        "conv-1",
        None,
    )
    .expect("prepares");
    assert_eq!(
        &prepared.leg.body[..],
        br#"{"b":"x","disaggregated_params":{"conversation_id":"conv-1","disagg_request_id":777,"request_type":"generation_only"},"prompt_token_ids":[1,2],"stream_options":1}"#
            .as_slice()
    );
    assert_eq!(prepared.correlation_id, Some(777));
}

#[test]
fn a_client_body_of_exactly_the_limit_is_accepted() {
    let body = br#"{"a":1}"#;
    assert_eq!(accept_client_body(body, 7).unwrap()["a"], 1);
    assert!(matches!(
        accept_client_body(body, 6).unwrap_err(),
        RequestError::BodyTooLarge { limit: 6 }
    ));
}

#[test]
fn only_a_true_stream_is_refused() {
    for text in ["false", "null", "1", r#""true""#] {
        let body = format!(r#"{{"stream": {text}}}"#);
        assert!(accept_client_body(body.as_bytes(), 1024).is_ok(), "{text}");
    }
    // A field of the gateway is looked at before the stream.
    assert!(matches!(
        accept_client_body(br#"{"stream": true, "ctx_info_endpoint": 1}"#, 1024).unwrap_err(),
        RequestError::ForbiddenField {
            field: "ctx_info_endpoint"
        }
    ));
}

#[test]
fn the_first_forbidden_field_is_reported() {
    let object = match json(r#"{"encoded_opaque_state": 1, "prompt_token_ids_b64": 1}"#) {
        Value::Object(object) => object,
        _ => unreachable!(),
    };
    assert!(matches!(
        reject_client_orchestration(&object),
        Err(RequestError::ForbiddenField {
            field: "prompt_token_ids_b64"
        })
    ));
}

#[test]
fn a_deeply_nested_body_is_malformed() {
    let body = "[".repeat(200) + &"]".repeat(200);
    let error = accept_client_body(body.as_bytes(), 1024).unwrap_err();
    assert_eq!(
        error.message(),
        "request body is not valid JSON: recursion limit exceeded at line 1 column 128"
    );
}

#[test]
fn a_generation_leg_needs_a_client_object() {
    let handoff = ContextHandoff::default();
    assert!(matches!(
        prepare_generation_request(b"[1]", &handoff, 1, "c", None).unwrap_err(),
        RequestError::NotAnObject
    ));
    assert!(matches!(
        prepare_generation_request(b"x", &handoff, 1, "c", None).unwrap_err(),
        RequestError::MalformedJson { .. }
    ));
    let unprompted = ContextHandoff {
        finish_reason: Some("length".to_string()),
        ..Default::default()
    };
    assert!(matches!(
        prepare_generation_request(b"{}", &unprompted, 1, "c", None).unwrap_err(),
        RequestError::Handoff {
            source: HandoffError::MissingPromptTokens
        }
    ));
}

#[test]
fn a_leg_has_only_the_fields_that_it_was_given() {
    let prepared = prepare_ctx(&client_request()).unwrap();
    assert_eq!(prepared.leg.field("max_tokens"), Some(Value::from(32)));
    assert_eq!(prepared.leg.field("tools"), None);
}

#[test]
fn request_errors_are_written_out() {
    assert_eq!(
        RequestError::BodyTooLarge { limit: 4096 }.message(),
        "request body exceeds the configured limit of 4096 bytes"
    );
    assert_eq!(
        accept_client_body(b"not json", 64).unwrap_err().message(),
        "request body is not valid JSON: expected ident at line 1 column 2"
    );
    assert_eq!(
        RequestError::NotAnObject.message(),
        "request body must be a JSON object"
    );
    assert_eq!(
        RequestError::ForbiddenField { field: "f" }.message(),
        "client-supplied f is not allowed; the gateway owns orchestration state"
    );
    assert_eq!(
        RequestError::UnsupportedStreaming.message(),
        "streaming responses are not supported by the context-first adapter"
    );
    assert_eq!(
        RequestError::from(HandoffError::NoChoices).message(),
        "handoff rejected: context response carries no choices"
    );
}

#[test]
fn documents_are_read_like_the_bodies_that_hold_them() {
    let document = json(r#"{"disaggregated_params": {"disagg_request_id": 7}}"#);
    assert_eq!(correlation_id_in(&document), Some(7));
    assert_eq!(correlation_id_in(&Value::Null), None);
    assert!(matches!(
        require_object(json("[1]")),
        Err(RequestError::NotAnObject)
    ));
    let object = require_object(json(r#"{"stream": true}"#)).unwrap();
    assert!(matches!(
        accept_client_object(&object),
        Err(RequestError::UnsupportedStreaming)
    ));
    let leg = build_context_leg(require_object(json("{}")).unwrap(), "c", 5)
        .unwrap()
        .leg;
    assert_eq!(correlation_id_of(&leg.body), Some(5));
}

#[test]
fn the_generation_leg_carries_every_field_that_is_signed() {
    let handoff = ContextHandoff {
        finish_reason: Some("length".to_string()),
        prompt_token_ids: Some(vec![1]),
        encoded_opaque_state: Some("blob".to_string()),
        ctx_info_endpoint: Some("h:1".to_string()),
        ..Default::default()
    };
    let body = generation_for(&handoff);
    assert_eq!(body["disaggregated_params"]["encoded_opaque_state"], "blob");
    assert_eq!(body["disaggregated_params"]["ctx_info_endpoint"], "h:1");

    let without = ContextHandoff {
        ctx_info_endpoint: None,
        ..handoff
    };
    assert!(generation_for(&without)["disaggregated_params"]
        .get("ctx_info_endpoint")
        .is_none());
}

/// No member name is special, whatever it is called and wherever it stands.
#[test]
fn a_leg_reads_back_whatever_its_members_are_called() {
    for body in [
        r#"{"model": "m", "$serde_json::private::RawValue": "x"}"#,
        r#"{"$serde_json::private::RawValue": "[1]", "model": "m"}"#,
        r#"{"model": "m", "$serde_json::private::Number": "1"}"#,
    ] {
        let client = json(body);
        let context =
            prepare_context_request_as(body.as_bytes(), 1024, "conv-1", 777).expect("prepares");
        assert_eq!(correlation_id_of(&context.leg.body), Some(777));
        let handoff = ContextHandoff {
            finish_reason: Some("length".to_string()),
            prompt_token_ids: Some(vec![1]),
            ..Default::default()
        };
        let generation =
            prepare_generation_request(body.as_bytes(), &handoff, 777, "conv-1", None).unwrap();
        assert_eq!(correlation_id_of(&generation.leg.body), Some(777));
        for (name, value) in client.as_object().unwrap() {
            assert_eq!(context.leg.field(name).as_ref(), Some(value));
            assert_eq!(generation.leg.field(name).as_ref(), Some(value));
        }
    }
}

/// A text within a body is never parsed as a document of its own.
#[test]
fn nesting_is_bounded_whatever_members_are_called() {
    let inner = "[".repeat(100) + &"]".repeat(100);
    let body = format!(
        "{{\"a\": {}{{\"$serde_json::private::RawValue\": \"{inner}\"}}{}}}",
        "[".repeat(100),
        "]".repeat(100)
    );
    let accepted = accept_client_body(body.as_bytes(), 4096).expect("accepted");
    let mut value = &accepted["a"];
    for _ in 0..100 {
        value = &value[0];
    }
    assert_eq!(
        value["$serde_json::private::RawValue"],
        Value::from(inner.as_str())
    );
}
