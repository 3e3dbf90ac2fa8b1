//! The handoff in a context response.

use dynamo_epp_sidecar::trtllm_context_first::handoff::read_context_response;
use dynamo_epp_sidecar::trtllm_context_first::{
    parse_context_response, ContextHandoff, HandoffError, PromptTokens,
    REQUEST_TYPE_CONTEXT_AND_GENERATION,
};
use serde_json::Value;

fn json(text: &str) -> Value {
    serde_json::from_str(text).expect("fixture is JSON")
}

fn context_response(params: Value, top: Value) -> Vec<u8> {
    let mut body = json(
        r#"{
            "id": "chatcmpl-test",
            "object": "chat.completion",
            "model": "m",
            "choices": [{
                "index": 0,
                "message": {"role": "assistant", "content": ""},
                "finish_reason": "length"
            }],
            "usage": {"prompt_tokens": 5, "completion_tokens": 1, "total_tokens": 6}
        }"#,
    );
    body["choices"][0]["disaggregated_params"] = params;
    if let (Some(object), Some(extra)) = (body.as_object_mut(), top.as_object()) {
        for (key, value) in extra {
            object.insert(key.clone(), value.clone());
        }
    }
    serde_json::to_vec(&body).unwrap()
}

fn full_params() -> Value {
    json(
        r#"{
            "request_type": "context_only",
            "disagg_request_id": 1234567890123456789,
            "ctx_request_id": 42,
            "first_gen_tokens": [15043],
            "encoded_opaque_state": "opaque-blob"
        }"#,
    )
}

#[test]
fn handoff_parses_from_the_choice_and_not_the_top_level() {
    let body = context_response(full_params(), json(r#"{"prompt_token_ids": [1, 2, 3]}"#));
    let handoff = parse_context_response(&body).expect("parses");
    assert_eq!(handoff.disagg_request_id, Some(1234567890123456789));
    assert_eq!(handoff.ctx_request_id, Some(42));
    assert_eq!(
        handoff.first_gen_tokens.as_deref(),
        Some([15043].as_slice())
    );
    assert_eq!(handoff.encoded_opaque_state.as_deref(), Some("opaque-blob"));
    assert_eq!(handoff.finish_reason.as_deref(), Some("length"));
    assert_eq!(
        handoff.prompt_token_ids.as_deref(),
        Some([1, 2, 3].as_slice())
    );
}

/// A top-level `kv_transfer_params` must not be mistaken for the handoff.
#[test]
fn a_top_level_kv_transfer_params_is_not_the_handoff() {
    let mut body: Value = serde_json::from_slice(&context_response(
        full_params(),
        json(r#"{"prompt_token_ids": [1]}"#),
    ))
    .unwrap();
    body.as_object_mut().unwrap().remove("choices");
    body.as_object_mut().unwrap().insert(
        "kv_transfer_params".to_string(),
        json(r#"{"disagg_request_id": 1}"#),
    );
    assert_eq!(
        parse_context_response(&serde_json::to_vec(&body).unwrap()).unwrap_err(),
        HandoffError::NoChoices
    );
}

#[test]
fn missing_disaggregated_params_is_rejected() {
    let body = json(r#"{"choices": [{"index": 0, "finish_reason": "length"}]}"#);
    assert_eq!(
        parse_context_response(&serde_json::to_vec(&body).unwrap()).unwrap_err(),
        HandoffError::NoDisaggregatedParams
    );
}

#[test]
fn a_generation_only_response_cannot_be_used_as_a_context_handoff() {
    let mut params = full_params();
    params["request_type"] = Value::from("generation_only");
    let body = context_response(params, json(r#"{"prompt_token_ids": [1]}"#));
    assert_eq!(
        parse_context_response(&body).unwrap_err(),
        HandoffError::UnexpectedRequestType {
            found: Some("generation_only".to_string()),
            expected: "context_only",
        }
    );
}

#[test]
fn context_and_generation_is_not_accepted_as_context_first() {
    let mut params = full_params();
    params["request_type"] = Value::from(REQUEST_TYPE_CONTEXT_AND_GENERATION);
    let body = context_response(params, json(r#"{"prompt_token_ids": [1]}"#));
    assert!(matches!(
        parse_context_response(&body).unwrap_err(),
        HandoffError::UnexpectedRequestType { .. }
    ));
}

#[test]
fn the_two_prompt_token_forms_are_mutually_exclusive() {
    let both = context_response(
        full_params(),
        json(r#"{"prompt_token_ids": [1, 2], "prompt_token_ids_b64": "AAAA"}"#),
    );
    let handoff = parse_context_response(&both).expect("parses");
    assert_eq!(
        handoff.prompt_tokens().unwrap_err(),
        HandoffError::ConflictingPromptTokenForms
    );

    let neither = context_response(full_params(), json("{}"));
    let handoff = parse_context_response(&neither).expect("parses");
    assert_eq!(
        handoff.prompt_tokens().unwrap_err(),
        HandoffError::MissingPromptTokens
    );
}

#[test]
fn the_base64_form_is_preferred_only_when_it_is_the_only_form() {
    let body = context_response(full_params(), json(r#"{"prompt_token_ids_b64": "AAEC"}"#));
    let handoff = parse_context_response(&body).expect("parses");
    assert_eq!(
        handoff.prompt_tokens().unwrap(),
        PromptTokens::Base64("AAEC")
    );
}

#[test]
fn wrong_field_types_are_rejected_rather_than_coerced() {
    let mut params = full_params();
    params["first_gen_tokens"] = json(r#"["not", "ints"]"#);
    let body = context_response(params, json(r#"{"prompt_token_ids": [1]}"#));
    assert_eq!(
        parse_context_response(&body).unwrap_err(),
        HandoffError::WrongFieldType {
            field: "first_gen_tokens"
        }
    );

    // A fractional value must not be truncated into an integer.
    let mut params = full_params();
    params["disagg_request_id"] = Value::from(1.5);
    let body = context_response(params, json(r#"{"prompt_token_ids": [1]}"#));
    assert_eq!(
        parse_context_response(&body).unwrap_err(),
        HandoffError::WrongFieldType {
            field: "disagg_request_id"
        }
    );
}

#[test]
fn the_generation_gate_follows_finish_reason() {
    for (reason, expected) in [
        ("length", true),
        ("not_finished", true),
        ("stop", false),
        ("abort", false),
        ("", false),
    ] {
        let mut body: Value = serde_json::from_slice(&context_response(
            full_params(),
            json(r#"{"prompt_token_ids": [1]}"#),
        ))
        .unwrap();
        body["choices"][0]["finish_reason"] = Value::from(reason);
        let handoff = parse_context_response(&serde_json::to_vec(&body).unwrap()).unwrap();
        assert_eq!(
            handoff.needs_generation(),
            expected,
            "finish_reason={reason:?}"
        );
    }
}

#[test]
fn a_handoff_without_a_finish_reason_is_finished() {
    assert!(!ContextHandoff::default().needs_generation());
}

#[test]
fn null_fields_of_a_handoff_count_as_missing() {
    let response = json(
        r#"{
            "prompt_token_ids": null,
            "prompt_token_ids_b64": null,
            "choices": [{
                "finish_reason": null,
                "disaggregated_params": {
                    "request_type": "context_only",
                    "disagg_request_id": null,
                    "ctx_request_id": null,
                    "first_gen_tokens": null,
                    "encoded_opaque_state": null,
                    "ctx_info_endpoint": null
                }
            }]
        }"#,
    );
    assert_eq!(
        read_context_response(&response).unwrap(),
        ContextHandoff::default()
    );
}

#[test]
fn every_field_of_a_handoff_must_have_its_type() {
    for (place, field) in [
        ("params", "request_type"),
        ("params", "disagg_request_id"),
        ("params", "ctx_request_id"),
        ("params", "first_gen_tokens"),
        ("params", "encoded_opaque_state"),
        ("choice", "finish_reason"),
        ("top", "prompt_token_ids"),
        ("top", "prompt_token_ids_b64"),
        ("params", "ctx_info_endpoint"),
    ] {
        let mut response: Value =
            serde_json::from_slice(&context_response(full_params(), json("{}"))).unwrap();
        match place {
            "params" => response["choices"][0]["disaggregated_params"][field] = Value::Bool(true),
            "choice" => response["choices"][0][field] = Value::Bool(true),
            _ => response[field] = Value::Bool(true),
        }
        assert_eq!(
            read_context_response(&response).unwrap_err(),
            HandoffError::WrongFieldType { field }
        );
    }
}

#[test]
fn the_first_wrong_field_is_reported() {
    let mut params = full_params();
    params["ctx_info_endpoint"] = Value::from(1);
    params["ctx_request_id"] = Value::from("42");
    let body = context_response(params, json(r#"{"prompt_token_ids": "1"}"#));
    assert_eq!(
        parse_context_response(&body).unwrap_err(),
        HandoffError::WrongFieldType {
            field: "ctx_request_id"
        }
    );
}

#[test]
fn responses_without_choices_are_rejected() {
    for text in ["[]", "{}", r#"{"choices": []}"#, r#"{"choices": {"a": 1}}"#] {
        assert_eq!(
            parse_context_response(text.as_bytes()).unwrap_err(),
            HandoffError::NoChoices,
            "{text}"
        );
    }
    assert_eq!(
        parse_context_response(b"not json").unwrap_err(),
        HandoffError::NoDisaggregatedParams
    );
    assert_eq!(
        parse_context_response(br#"{"choices": [{"disaggregated_params": null}]}"#).unwrap_err(),
        HandoffError::NoDisaggregatedParams
    );
    assert_eq!(
        parse_context_response(br#"{"choices": [{"disaggregated_params": {}}]}"#).unwrap_err(),
        HandoffError::UnexpectedRequestType {
            found: None,
            expected: "context_only"
        }
    );
}

#[test]
fn handoff_errors_are_written_out() {
    assert_eq!(
        HandoffError::NoChoices.message(),
        "context response carries no choices"
    );
    assert_eq!(
        HandoffError::NoDisaggregatedParams.message(),
        "context response choice carries no disaggregated_params"
    );
    assert_eq!(
        HandoffError::UnexpectedRequestType {
            found: Some("generation_only".to_string()),
            expected: "context_only"
        }
        .message(),
        r#"context disaggregated_params.request_type is Some("generation_only"), expected "context_only""#
    );
    assert_eq!(
        HandoffError::UnexpectedRequestType {
            found: Some("a\"b".to_string()),
            expected: "context_only"
        }
        .message(),
        r#"context disaggregated_params.request_type is Some("a\"b"), expected "context_only""#
    );
    assert_eq!(
        HandoffError::UnexpectedRequestType {
            found: None,
            expected: "context_only"
        }
        .message(),
        r#"context disaggregated_params.request_type is None, expected "context_only""#
    );
    assert_eq!(
        HandoffError::ConflictingPromptTokenForms.message(),
        "context response sets both prompt_token_ids and prompt_token_ids_b64"
    );
    assert_eq!(
        HandoffError::MissingPromptTokens.message(),
        "context response carries no prompt token representation"
    );
    assert_eq!(
        HandoffError::WrongFieldType { field: "x" }.message(),
        "context response field x has the wrong JSON type"
    );
}

#[test]
fn a_list_of_endpoints_stands_for_its_first() {
    for (listed, expected) in [
        (r#""h:1""#, Ok(Some("h:1"))),
        (r#"["h:1", "h:2"]"#, Ok(Some("h:1"))),
        (r#"["h:1", 2]"#, Ok(Some("h:1"))),
        ("[]", Err(())),
        ("[null]", Ok(None)),
        ("[1]", Err(())),
        (r#"[["h:1"]]"#, Err(())),
        ("{}", Err(())),
    ] {
        let mut params = full_params();
        params["ctx_info_endpoint"] = json(listed);
        let outcome = parse_context_response(&context_response(params, json("{}")));
        match expected {
            Ok(endpoint) => assert_eq!(
                outcome.unwrap().ctx_info_endpoint.as_deref(),
                endpoint,
                "{listed}"
            ),
            Err(()) => assert_eq!(
                outcome.unwrap_err(),
                HandoffError::WrongFieldType {
                    field: "ctx_info_endpoint"
                },
                "{listed}"
            ),
        }
    }
}
