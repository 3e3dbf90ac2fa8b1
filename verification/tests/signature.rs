//! The signature of a protected handoff.

use dynamo_epp_sidecar::trtllm_context_first::signature::{canonical_payload, signature_text};
use dynamo_epp_sidecar::trtllm_context_first::{
    prepare_generation_request, sign_disagg_handoff, ContextHandoff, INTERNAL_DISAGG_AUTH_FIELDS,
    INTERNAL_DISAGG_AUTH_HEADER,
};
use hmac::{Hmac, Mac};
use sha2::Sha256;

fn client_request() -> Vec<u8> {
    br#"{
        "model": "m",
        "messages": [{"role": "user", "content": "hi"}],
        "max_tokens": 32,
        "temperature": 0.25,
        "stream": false
    }"#
    .to_vec()
}

/// The signature is checked against an independently computed HMAC.
#[test]
fn the_handoff_signature_matches_an_independent_hmac() {
    let key = b"shared-secret";
    let opaque = "opaque-blob";
    let signature = sign_disagg_handoff(key, Some(opaque), None).expect("signed");
    assert!(signature.starts_with("sha256="), "got {signature}");

    // Sorted keys and compact separators, nulls among them.
    let payload = br#"{"ctx_info_endpoint":null,"encoded_opaque_state":"opaque-blob"}"#;
    let mut mac = Hmac::<Sha256>::new_from_slice(key).unwrap();
    mac.update(payload);
    let expected = mac
        .finalize()
        .into_bytes()
        .iter()
        .fold(String::new(), |mut acc, b| {
            acc.push_str(&format!("{b:02x}"));
            acc
        });
    assert_eq!(signature, format!("sha256={expected}"));
}

/// A handoff with no protected field needs no signature, because the worker only
/// demands one when such a field is present.
#[test]
fn an_unprotected_handoff_needs_no_signature() {
    assert_eq!(sign_disagg_handoff(b"k", None, None), None);
    assert!(sign_disagg_handoff(b"k", Some("state"), None).is_some());
    assert!(sign_disagg_handoff(b"k", None, Some("host:1")).is_some());
}

/// Every protected field changes the signature, so a tampered value cannot reuse
/// another handoff's signature.
#[test]
fn changing_a_protected_field_changes_the_signature() {
    let a = sign_disagg_handoff(b"k", Some("state-a"), None).unwrap();
    let b = sign_disagg_handoff(b"k", Some("state-b"), None).unwrap();
    let c = sign_disagg_handoff(b"k", Some("state-a"), Some("h:1")).unwrap();
    assert_ne!(a, b, "a changed opaque state must change the signature");
    assert_ne!(a, c, "a changed endpoint must change the signature");
}

/// The generation leg carries the header exactly when a protected field is
/// present and a key is configured.
#[test]
fn the_generation_leg_is_signed_only_when_it_needs_to_be() {
    let signed = |handoff: &ContextHandoff, key: Option<&[u8]>| {
        prepare_generation_request(&client_request(), handoff, 1, "conv-1", key)
            .expect("prepares")
            .leg
            .auth_header
    };

    let with_opaque = ContextHandoff {
        finish_reason: Some("length".to_string()),
        prompt_token_ids: Some(vec![1]),
        encoded_opaque_state: Some("blob".to_string()),
        ..Default::default()
    };
    let header = signed(&with_opaque, Some(b"k")).expect("must be signed");
    assert_eq!(header.0, INTERNAL_DISAGG_AUTH_HEADER);
    assert!(header.1.starts_with("sha256="));
    // No key configured: unsigned, which the worker only tolerates for an
    // unprotected handoff.
    assert!(signed(&with_opaque, None).is_none());

    let without_opaque = ContextHandoff {
        finish_reason: Some("length".to_string()),
        prompt_token_ids: Some(vec![1]),
        ..Default::default()
    };
    assert!(
        signed(&without_opaque, Some(b"k")).is_none(),
        "an unprotected handoff must not be signed"
    );
}

#[test]
fn the_endpoint_alone_makes_a_signature_necessary() {
    let handoff = ContextHandoff {
        finish_reason: Some("length".to_string()),
        prompt_token_ids: Some(vec![1]),
        ctx_info_endpoint: Some("h:1".to_string()),
        ..Default::default()
    };
    let leg = prepare_generation_request(&client_request(), &handoff, 1, "c", Some(b"k"))
        .expect("prepares")
        .leg;
    assert_eq!(
        leg.auth_header,
        sign_disagg_handoff(b"k", None, Some("h:1")).map(|signed| ("x-trtllm-disagg-auth", signed))
    );
}

#[test]
fn both_fields_are_signed_in_the_order_of_their_names() {
    assert_eq!(
        canonical_payload(Some("s"), Some("h:1")),
        br#"{"ctx_info_endpoint":"h:1","encoded_opaque_state":"s"}"#
    );
    assert_eq!(
        canonical_payload(None, Some("h:1")),
        br#"{"ctx_info_endpoint":"h:1","encoded_opaque_state":null}"#
    );
    assert_eq!(
        canonical_payload(Some("a\"b"), None),
        br#"{"ctx_info_endpoint":null,"encoded_opaque_state":"a\"b"}"#
    );
    assert_eq!(
        INTERNAL_DISAGG_AUTH_FIELDS,
        ["encoded_opaque_state", "ctx_info_endpoint"]
    );
}

#[test]
fn characters_outside_printable_ascii_are_signed_as_escapes() {
    let state = "\u{e9}\u{7f}\u{0}\u{1f}\n\r\t\u{8}\u{c}\"\\/~ \u{ffff}\u{1f600}\u{10ffff}";
    assert_eq!(
        canonical_payload(Some(state), None),
        br#"{"ctx_info_endpoint":null,"encoded_opaque_state":"\u00e9\u007f\u0000\u001f\n\r\t\b\f\"\\/~ \uffff\ud83d\ude00\udbff\udfff"}"#
    );
    let payload = br#"{"ctx_info_endpoint":null,"encoded_opaque_state":"\u00e9"}"#;
    let mut mac = Hmac::<Sha256>::new_from_slice(b"k").unwrap();
    mac.update(payload);
    assert_eq!(
        sign_disagg_handoff(b"k", Some("\u{e9}"), None),
        Some(signature_text(&mac.finalize().into_bytes()))
    );
}

#[test]
fn a_missing_field_is_signed_unlike_any_text() {
    assert_ne!(
        canonical_payload(Some("null"), None),
        canonical_payload(None, Some("null"))
    );
    assert_ne!(
        canonical_payload(Some("null"), Some("")),
        canonical_payload(None, Some(""))
    );
    assert_eq!(sign_disagg_handoff(b"k", Some(""), None).unwrap().len(), 71);
}

#[test]
fn a_code_is_written_in_lower_case_digits() {
    assert_eq!(signature_text(&[0x00, 0x0f, 0xa9, 0xff]), "sha256=000fa9ff");
    assert_eq!(signature_text(&[]), "sha256=");
}

#[test]
fn any_key_can_sign() {
    assert!(sign_disagg_handoff(b"", Some("s"), None).is_some());
    assert_ne!(
        sign_disagg_handoff(&[7; 200], Some("s"), None),
        sign_disagg_handoff(&[8; 200], Some("s"), None)
    );
}
