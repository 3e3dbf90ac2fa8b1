//! The SGLang legs, the bootstrap tuple and its rooms.

use dynamo_epp_sidecar::sglang_pd::{
    accept_document, build_legs, document_room, prepare_pd_requests_in_room, room_from_draw,
    MAX_ROOM, MIN_ROOM, RANK_ROUTING_FIELDS,
};
use dynamo_epp_sidecar::{
    enforce_body_limit, prepare_pd_requests, prepare_pd_requests_with_random_room, ContractError,
    PreparedLeg, PreparedSglangRequests, RandomRoomGenerator, RequestError, RoomGenerator,
    SglangPdContract, SidecarError, TrustError, TrustedBootstrap, PROTOCOL_REVISION,
    VERIFIED_ENGINE_REVISION,
};
use serde_json::Value;

fn contract() -> SglangPdContract {
    SglangPdContract::pinned()
}

fn bootstrap() -> TrustedBootstrap {
    TrustedBootstrap::new("10.0.0.7", 8998, 42).expect("valid bootstrap")
}

struct FixedRoom(i64);

impl RoomGenerator for FixedRoom {
    fn next_room(&self) -> i64 {
        self.0
    }
}

fn prepare_with_room(body: &str, room: i64) -> Result<PreparedSglangRequests, RequestError> {
    prepare_pd_requests(
        contract(),
        PROTOCOL_REVISION,
        body.as_bytes(),
        &bootstrap(),
        &FixedRoom(room),
    )
}

/// The default path, exercised through the production generator.
fn prepare(body: &str) -> Result<PreparedSglangRequests, RequestError> {
    prepare_pd_requests_with_random_room(
        contract(),
        PROTOCOL_REVISION,
        body.as_bytes(),
        &bootstrap(),
    )
}

fn json(leg: &PreparedLeg) -> Value {
    serde_json::from_slice(&leg.body).expect("prepared leg is JSON")
}

#[test]
fn both_legs_carry_the_trusted_bootstrap_tuple() {
    let prepared = prepare_with_room(
        r#"{"model":"m","messages":[{"role":"user","content":"hi"}]}"#,
        42,
    )
    .expect("prepare succeeds");
    for leg in [&prepared.prefill, &prepared.decode] {
        assert_eq!(leg.authority, "10.0.0.7:8998");
        assert_eq!(leg.path, "/v1/chat/completions");
        let value = json(leg);
        assert_eq!(value["bootstrap_host"], "10.0.0.7");
        assert_eq!(value["bootstrap_port"], 8998);
    }
    // Both legs share one room for the request they belong to.
    assert_eq!(
        prepared.prefill.room().unwrap(),
        prepared.decode.room().unwrap()
    );
    assert_eq!(prepared.prefill.room().unwrap(), 42);
}

#[test]
fn client_forged_bootstrap_is_replaced_including_extra_array_values() {
    let prepared = prepare_with_room(
        r#"{
            "model":"m",
            "bootstrap_host":["evil.example","evil2.example"],
            "bootstrap_port":[1,2,3],
            "bootstrap_room":999999,
            "messages":[{"role":"user","content":"bootstrap_host is a word in my prompt"}]
        }"#,
        42,
    )
    .expect("prepare succeeds");
    let value = json(&prepared.prefill);
    assert_eq!(value["bootstrap_host"], "10.0.0.7");
    assert_eq!(value["bootstrap_port"], 8998);
    assert_eq!(value["bootstrap_room"], 42);
    // Prose that merely mentions a bootstrap field name is untouched.
    assert_eq!(
        value["messages"][0]["content"],
        "bootstrap_host is a word in my prompt"
    );
}

#[test]
fn unknown_extension_fields_are_preserved() {
    let prepared = prepare(
        r#"{"model":"m","stream":true,"seed":7,"tools":[{"type":"function"}],
            "x-vendor-extension":{"keep":true},"messages":[]}"#,
    )
    .expect("prepare succeeds");
    let value = json(&prepared.decode);
    assert_eq!(value["stream"], true);
    assert_eq!(value["seed"], 7);
    assert_eq!(value["tools"][0]["type"], "function");
    assert_eq!(value["x-vendor-extension"]["keep"], true);
}

#[test]
fn client_cannot_bypass_epp_worker_selection() {
    for field in RANK_ROUTING_FIELDS {
        let body = format!(r#"{{"model":"m","messages":[],"{field}":3}}"#);
        let error = prepare(&body).expect_err("rank routing must be rejected");
        assert!(
            matches!(error, RequestError::RankRoutingField { field: rejected } if rejected == field),
            "expected {field} to be rejected, got {}",
            error.message()
        );
    }
}

#[test]
fn non_object_and_malformed_bodies_are_rejected_before_any_request_exists() {
    assert!(matches!(
        prepare("[1,2,3]").unwrap_err(),
        RequestError::NotAnObject
    ));
    assert!(matches!(
        prepare("not json").unwrap_err(),
        RequestError::MalformedJson { .. }
    ));
}

#[test]
fn unsupported_revision_produces_no_requests() {
    let error = prepare_pd_requests_with_random_room(
        contract(),
        "sglang-pd-v2",
        br#"{"model":"m","messages":[]}"#,
        &bootstrap(),
    )
    .expect_err("unsupported revision must fail");
    assert!(
        matches!(
            error,
            RequestError::UnsupportedRevision { ref revision } if revision == "sglang-pd-v2"
        ),
        "unexpected error: {}",
        error.message()
    );
}

#[test]
fn body_limit_is_enforced_before_parsing() {
    assert!(enforce_body_limit(10, 10).is_ok());
    assert!(matches!(
        enforce_body_limit(11, 10).unwrap_err(),
        RequestError::BodyTooLarge { limit: 10 }
    ));
}

#[test]
fn trusted_bootstrap_rejects_port_and_host_that_are_not_usable_targets() {
    assert_eq!(
        TrustedBootstrap::new("10.0.0.7", 0, 1).unwrap_err(),
        TrustError::ZeroBootstrapPort
    );
    assert_eq!(
        TrustedBootstrap::new("http://10.0.0.7", 8998, 1).unwrap_err(),
        TrustError::MalformedBootstrapHost
    );
    assert_eq!(
        TrustedBootstrap::new("10.0.0.7:8998", 8998, 1).unwrap_err(),
        TrustError::MalformedBootstrapHost
    );
    assert_eq!(
        TrustedBootstrap::new("10.0.0.7,10.0.0.8", 8998, 1).unwrap_err(),
        TrustError::MalformedBootstrapHost
    );
    assert_eq!(
        TrustedBootstrap::new("", 8998, 1).unwrap_err(),
        TrustError::EmptyBootstrapHost
    );
}

#[test]
fn bootstrap_room_is_always_a_usable_non_zero_int64() {
    assert_eq!(
        TrustedBootstrap::new("h", 1, 0).unwrap_err(),
        TrustError::BootstrapRoomOutOfRange
    );
    assert_eq!(
        TrustedBootstrap::new("h", 1, -1).unwrap_err(),
        TrustError::BootstrapRoomOutOfRange
    );
    let generator = RandomRoomGenerator;
    for _ in 0..1000 {
        let room = generator.next_room();
        assert!(
            (MIN_ROOM..=MAX_ROOM).contains(&room),
            "room {room} unusable"
        );
    }
}

/// A stub generator pins room boundaries deterministically instead of relying on
/// probabilistic pressure.
#[test]
fn room_generator_boundaries_are_revalidated() {
    for drawn in [0i64, -5, i64::MIN] {
        let error = prepare_pd_requests(
            contract(),
            PROTOCOL_REVISION,
            br#"{"model":"m","messages":[]}"#,
            &bootstrap(),
            &FixedRoom(drawn),
        )
        .expect_err("unusable room must be rejected");
        assert!(
            matches!(
                error,
                RequestError::Bootstrap {
                    source: TrustError::BootstrapRoomOutOfRange
                }
            ),
            "room {drawn} must be rejected"
        );
    }

    let prepared = prepare_pd_requests(
        contract(),
        PROTOCOL_REVISION,
        br#"{"model":"m","messages":[]}"#,
        &bootstrap(),
        &FixedRoom(i64::MAX),
    )
    .expect("i64::MAX is a legal room");
    assert_eq!(prepared.prefill.room().unwrap(), i64::MAX);
}

#[test]
fn both_legs_are_the_same_compact_document() {
    let prepared = prepare_pd_requests_in_room(
        contract(),
        PROTOCOL_REVISION,
        br#"{ "z": 1, "a": [true, null] }"#,
        &bootstrap(),
        7,
    )
    .expect("prepare succeeds");
    assert_eq!(prepared.prefill, prepared.decode);
    assert_eq!(
        &prepared.prefill.body[..],
        br#"{"a":[true,null],"bootstrap_host":"10.0.0.7","bootstrap_port":8998,"bootstrap_room":7,"z":1}"#
            .as_slice()
    );
}

#[test]
fn draws_become_odd_rooms_of_63_bits() {
    assert_eq!(room_from_draw(0), 1);
    assert_eq!(room_from_draw(6), 7);
    assert_eq!(room_from_draw(7), 7);
    assert_eq!(room_from_draw(1 << 63), 1);
    assert_eq!(room_from_draw(u64::MAX), i64::MAX);
}

#[test]
fn random_rooms_differ() {
    let generator = RandomRoomGenerator;
    let first = generator.next_room();
    assert!((0..16).any(|_| generator.next_room() != first));
}

#[test]
fn the_room_is_read_from_the_bytes_of_a_leg() {
    let leg = |text: &'static str| PreparedLeg {
        authority: "h:1".to_string(),
        path: "/v1/chat/completions",
        body: bytes::Bytes::from_static(text.as_bytes()),
    };
    assert_eq!(leg(r#"{"bootstrap_room": 9}"#).room().unwrap(), 9);
    assert!(matches!(
        leg("x").room(),
        Err(RequestError::MalformedJson { .. })
    ));
    assert!(leg("{}").checked_room().is_none());
    assert!(leg(r#"{"bootstrap_room": "9"}"#).checked_room().is_none());
    assert!(matches!(
        leg(r#"{"bootstrap_room": 9}"#).checked_room(),
        Some(Ok(9))
    ));
    assert!(matches!(
        leg("x").checked_room(),
        Some(Err(RequestError::MalformedJson { .. }))
    ));
}

#[test]
fn a_bootstrap_tuple_reports_what_it_was_made_with() {
    let tuple = bootstrap().clone();
    assert_eq!(
        (tuple.host(), tuple.port(), tuple.room()),
        ("10.0.0.7", 8998, 42)
    );
    assert_eq!(tuple, bootstrap());
    for host in ["a/b", "\u{a0}h", "h\u{3000}", " ", "a@b"] {
        assert_eq!(
            TrustedBootstrap::new(host, 1, 1),
            Err(TrustError::MalformedBootstrapHost),
            "{host:?}"
        );
    }
    assert!(TrustedBootstrap::new("inner space", 1, 1).is_ok());
}

#[test]
fn client_mistakes_and_sidecar_faults_are_answered_apart() {
    for error in [
        RequestError::BodyTooLarge { limit: 1 },
        RequestError::MalformedJson {
            source: "s".to_string(),
        },
        RequestError::NotAnObject,
        RequestError::RankRoutingField { field: "f" },
    ] {
        let text = error.message();
        let answer = SidecarError::from(error);
        assert_eq!((answer.status(), answer.code()), (400, "invalid_request"));
        assert_eq!(answer.message(), text);
    }
    for error in [
        RequestError::from(TrustError::ZeroBootstrapPort),
        RequestError::UnsupportedRevision {
            revision: "r".to_string(),
        },
        RequestError::Serialize {
            leg: "prefill",
            source: "s".to_string(),
        },
    ] {
        let text = error.message();
        let answer = SidecarError::from(error);
        assert_eq!((answer.status(), answer.code()), (500, "pd_contract_error"));
        assert_eq!(answer.message(), text);
    }
}

#[test]
fn errors_of_the_legs_are_written_out() {
    assert_eq!(
        RequestError::BodyTooLarge { limit: 10 }.message(),
        "request body exceeds the configured limit of 10 bytes"
    );
    assert_eq!(
        prepare("").unwrap_err().message(),
        "request body is not valid JSON: EOF while parsing a value at line 1 column 0"
    );
    assert_eq!(
        prepare("1").unwrap_err().message(),
        "request body must be a JSON object"
    );
    assert_eq!(
        RequestError::RankRoutingField {
            field: "routed_dp_rank"
        }
        .message(),
        "client-supplied routed_dp_rank is not allowed; the gateway assigns rank routing"
    );
    assert_eq!(
        RequestError::Serialize {
            leg: "decode",
            source: "s".to_string()
        }
        .message(),
        "failed to serialize the decode request body: s"
    );
    for (error, text) in [
        (
            TrustError::EmptyBootstrapHost,
            "trusted bootstrap host is empty",
        ),
        (
            TrustError::MalformedBootstrapHost,
            "trusted bootstrap host contains a scheme, path, port or permission separator",
        ),
        (
            TrustError::ZeroBootstrapPort,
            "trusted bootstrap port must be greater than zero",
        ),
        (
            TrustError::BootstrapRoomOutOfRange,
            "trusted bootstrap room must be between 1 and i64::MAX",
        ),
    ] {
        assert_eq!(error.message(), text);
        assert_eq!(
            RequestError::from(error).message(),
            format!("trusted bootstrap rejected: {text}")
        );
    }
    let refused = contract().validate_revision("v0").unwrap_err();
    assert_eq!(
        refused,
        ContractError::UnsupportedRevision {
            revision: "v0".to_string()
        }
    );
    assert_eq!(
        refused.message(),
        "unsupported SGLang P/D protocol revision: v0"
    );
    assert_eq!(contract().engine_revision, VERIFIED_ENGINE_REVISION);
}

#[test]
fn documents_are_accepted_like_the_bodies_that_hold_them() {
    let document = |text: &str| serde_json::from_str::<Value>(text).unwrap();
    assert!(matches!(
        accept_document(document("[1]")),
        Err(RequestError::NotAnObject)
    ));
    assert!(matches!(
        accept_document(document(
            r#"{"disagg_prefill_dp_rank": 1, "routed_dp_rank": 2}"#
        )),
        Err(RequestError::RankRoutingField {
            field: "routed_dp_rank"
        })
    ));
    let client = accept_document(document(r#"{"routed_dp_rank": null}"#)).unwrap();
    let legs = build_legs(client, &bootstrap(), 3).unwrap();
    assert_eq!(document_room(&json(&legs.decode)), Some(3));
}

#[test]
fn legs_read_back_whatever_their_members_are_called() {
    let prepared = prepare_with_room(
        r#"{"model": "m", "$serde_json::private::RawValue": "x"}"#,
        42,
    )
    .expect("prepare succeeds");
    for leg in [&prepared.prefill, &prepared.decode] {
        assert_eq!(leg.room().unwrap(), 42);
        assert_eq!(json(leg)["$serde_json::private::RawValue"], "x");
    }
}
