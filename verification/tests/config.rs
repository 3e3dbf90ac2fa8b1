//! The configuration, the routes and the start of the adapter.

use dynamo_epp_sidecar::config::{
    context_first_from_settings, ContextFirstConfig, RawSetting, SettingError, Settings,
};
use dynamo_epp_sidecar::routing::{select_route, Route};
use dynamo_epp_sidecar::startup::{plan_adapter, AdapterPlan, StartupError};
use dynamo_epp_sidecar::trtllm_context_first::{
    ConfigError, ContextFirstLimits, DisaggIdNamespace, IdError, Leg,
};
use dynamo_epp_sidecar::{AdapterMode, Config};
use reqwest::Url;
use std::time::Duration;

fn text(value: &str) -> RawSetting {
    RawSetting::Text(value.to_string())
}

fn unset() -> Settings {
    Settings {
        sidecar_port: RawSetting::Missing,
        decode_engine_port: RawSetting::Missing,
        adapter_mode: RawSetting::Missing,
        context_engine_url: RawSetting::Missing,
        request_bytes: RawSetting::Missing,
        handoff_bytes: RawSetting::Missing,
        response_bytes: RawSetting::Missing,
        context_deadline_ms: RawSetting::Missing,
        generation_deadline_ms: RawSetting::Missing,
        node_id: RawSetting::Missing,
        process_id: RawSetting::Missing,
        connect_timeout_ms: RawSetting::Missing,
        read_timeout_ms: RawSetting::Missing,
        drain_timeout_ms: RawSetting::Missing,
    }
}

fn enabled() -> Settings {
    Settings {
        adapter_mode: text("trtllm-context-first"),
        context_engine_url: text("http://context:8000"),
        ..unset()
    }
}

fn refusal(settings: &Settings) -> String {
    Config::from_settings(settings)
        .expect_err("must be refused")
        .message()
}

#[test]
fn an_unknown_adapter_mode_is_rejected_rather_than_defaulted() {
    assert!(matches!(
        AdapterMode::parse("none"),
        Ok(AdapterMode::Disabled)
    ));
    assert!(matches!(AdapterMode::parse(""), Ok(AdapterMode::Disabled)));
    assert!(matches!(
        AdapterMode::parse("trtllm-context-first"),
        Ok(AdapterMode::TrtllmContextFirst)
    ));
    // Case and surrounding whitespace are tolerated.
    assert!(matches!(
        AdapterMode::parse("  TRTLLM-Context-First  "),
        Ok(AdapterMode::TrtllmContextFirst)
    ));
    // Every near-miss is an error, never a silent fallback to no adapter.
    for typo in [
        "trtllm_context_first",
        "context-first",
        "trtllm-context",
        "enabled",
        "true",
        "trtllm-context-firsts",
    ] {
        assert!(
            AdapterMode::parse(typo).is_err(),
            "{typo} must be rejected, not defaulted"
        );
    }
}

#[test]
fn disabling_the_adapter_yields_no_context_first_settings() {
    assert!(context_first_from_settings(AdapterMode::Disabled, &unset())
        .unwrap()
        .is_none());
}

#[test]
fn the_mode_round_trips_through_its_configured_spelling() {
    for mode in [AdapterMode::Disabled, AdapterMode::TrtllmContextFirst] {
        assert_eq!(AdapterMode::parse(mode.as_str()).unwrap(), mode);
    }
}

/// The effective configuration must be visible, because a mode that is on without
/// its settings, or off when the operator expected it on, is the failure this
/// selector exists to prevent.
#[test]
fn the_effective_configuration_reports_the_adapter_and_its_budgets() {
    let limits = ContextFirstLimits::new(
        4096,
        8192,
        16384,
        Duration::from_secs(7),
        Duration::from_secs(11),
    )
    .expect("valid limits");
    let config = ContextFirstConfig {
        context_engine_url: Url::parse("http://context:8000/").unwrap(),
        limits,
        namespace: DisaggIdNamespace::new(3, 4).unwrap(),
    };

    // Every knob the operator can set is readable back off the config, so a
    // startup log line can state what is actually in force.
    assert_eq!(config.limits.request_body_bytes, 4096);
    assert_eq!(config.limits.handoff_body_bytes, 8192);
    assert_eq!(config.limits.response_body_bytes, 16384);
    assert_eq!(config.limits.context_deadline, Duration::from_secs(7));
    assert_eq!(config.limits.generation_deadline, Duration::from_secs(11));
    assert_eq!(config.namespace.node_id(), 3);
    assert_eq!(config.namespace.process_id(), 4);
    assert!(config
        .context_engine_url
        .as_str()
        .starts_with("http://context"));
}

/// A zero response cap is refused as well, so no leg runs unbounded.
#[test]
fn a_zero_response_cap_is_refused() {
    assert!(matches!(
        ContextFirstLimits::new(1, 1, 0, Duration::from_secs(1), Duration::from_secs(1)),
        Err(ConfigError::ResponseBodyLimit)
    ));
}

#[test]
fn without_settings_the_defaults_are_in_force() {
    let config = Config::from_settings(&unset()).unwrap();
    assert_eq!(config.listen_addr.host, [0, 0, 0, 0]);
    assert_eq!(config.listen_addr.port, 8000);
    assert_eq!(config.decode_engine_url.as_str(), "http://localhost:8001/");
    assert_eq!(config.connect_timeout, Duration::from_secs(10));
    assert_eq!(config.read_timeout, Duration::from_secs(300));
    assert_eq!(config.drain_timeout, Duration::from_secs(30));
    assert_eq!(config.adapter_mode, AdapterMode::Disabled);
    assert!(config.context_first.is_none());
}

#[test]
fn the_adapter_has_defaults_for_all_but_its_url() {
    let config = Config::from_settings(&enabled()).unwrap().clone();
    let adapter = config.context_first.expect("the adapter is on").clone();
    assert_eq!(adapter.context_engine_url.as_str(), "http://context:8000/");
    assert_eq!(adapter.limits.request_body_bytes, 1_048_576);
    assert_eq!(adapter.limits.handoff_body_bytes, 8_388_608);
    assert_eq!(adapter.limits.response_body_bytes, 16_777_216);
    assert_eq!(adapter.limits.context_deadline, Duration::from_secs(60));
    assert_eq!(adapter.limits.generation_deadline, Duration::from_secs(300));
    assert_eq!(adapter.namespace, DisaggIdNamespace::new(0, 0).unwrap());

    let missing = Settings {
        context_engine_url: RawSetting::Missing,
        ..enabled()
    };
    assert_eq!(
        refusal(&missing),
        "DYN_CONTEXT_ENGINE_URL must be set when the context-first adapter is enabled"
    );
}

#[test]
fn settings_are_taken_over() {
    let config = Config::from_settings(&Settings {
        sidecar_port: text("+9000"),
        decode_engine_port: text("9001"),
        request_bytes: text(" 10 "),
        handoff_bytes: text("20"),
        response_bytes: text("30\n"),
        context_deadline_ms: text("3600000"),
        generation_deadline_ms: text("1"),
        node_id: text(" 255"),
        process_id: text("63 "),
        connect_timeout_ms: text("5"),
        read_timeout_ms: text("6"),
        drain_timeout_ms: text("7"),
        ..enabled()
    })
    .unwrap();
    assert_eq!(config.listen_addr.port, 9000);
    assert_eq!(config.decode_engine_url.as_str(), "http://localhost:9001/");
    assert_eq!(config.connect_timeout, Duration::from_millis(5));
    assert_eq!(config.read_timeout, Duration::from_millis(6));
    assert_eq!(config.drain_timeout, Duration::from_millis(7));
    let adapter = config.context_first.unwrap();
    assert_eq!(adapter.limits.request_body_bytes, 10);
    assert_eq!(adapter.limits.handoff_body_bytes, 20);
    assert_eq!(adapter.limits.response_body_bytes, 30);
    assert_eq!(adapter.limits.context_deadline, Duration::from_secs(3600));
    assert_eq!(adapter.limits.generation_deadline, Duration::from_millis(1));
    assert_eq!(adapter.namespace, DisaggIdNamespace::new(255, 63).unwrap());
}

#[test]
fn unusable_settings_are_refused_by_name() {
    for (settings, message) in [
        (
            Settings {
                sidecar_port: text("65536"),
                ..unset()
            },
            "DYN_SIDECAR_PORT must be a valid TCP port",
        ),
        (
            Settings {
                sidecar_port: text(" 80"),
                ..unset()
            },
            "DYN_SIDECAR_PORT must be a valid TCP port",
        ),
        (
            Settings {
                decode_engine_port: text("0"),
                ..unset()
            },
            "DYN_DECODE_ENGINE_PORT must be greater than zero",
        ),
        (
            Settings {
                adapter_mode: text(" Off "),
                ..unset()
            },
            r#"DYN_ADAPTER_MODE must be "none" or "trtllm-context-first", got "off""#,
        ),
        (
            Settings {
                adapter_mode: RawSetting::NotUnicode,
                ..unset()
            },
            "DYN_ADAPTER_MODE must be valid UTF-8",
        ),
        (
            Settings {
                context_engine_url: text("not a url"),
                ..enabled()
            },
            "DYN_CONTEXT_ENGINE_URL must be a valid URL",
        ),
        (
            Settings {
                context_engine_url: RawSetting::NotUnicode,
                ..enabled()
            },
            "DYN_CONTEXT_ENGINE_URL must be valid UTF-8",
        ),
        (
            Settings {
                request_bytes: text("-1"),
                ..enabled()
            },
            "DYN_CONTEXT_FIRST_REQUEST_BYTES must be a byte count",
        ),
        (
            Settings {
                handoff_bytes: text("0"),
                ..enabled()
            },
            "DYN_CONTEXT_FIRST_HANDOFF_BYTES must be greater than zero",
        ),
        (
            Settings {
                response_bytes: text("99999999999999999999"),
                ..enabled()
            },
            "DYN_CONTEXT_FIRST_RESPONSE_BYTES must be a byte count",
        ),
        (
            Settings {
                context_deadline_ms: text("1s"),
                ..enabled()
            },
            "DYN_CONTEXT_FIRST_CONTEXT_DEADLINE_MS must be a valid duration in milliseconds",
        ),
        (
            Settings {
                generation_deadline_ms: text("3600001"),
                ..enabled()
            },
            "context-first leg deadlines must not exceed 3600s",
        ),
        (
            Settings {
                node_id: text("seven"),
                ..enabled()
            },
            "DYN_CONTEXT_FIRST_NODE_ID must be a non-negative integer",
        ),
        (
            Settings {
                process_id: text("64"),
                ..enabled()
            },
            "invalid context-first id namespace",
        ),
        (
            Settings {
                connect_timeout_ms: text("0"),
                ..unset()
            },
            "DYN_SIDECAR_CONNECT_TIMEOUT_MS must be greater than zero",
        ),
        (
            Settings {
                read_timeout_ms: text(" 5"),
                ..unset()
            },
            "DYN_SIDECAR_READ_TIMEOUT_MS must be a valid duration in milliseconds",
        ),
        (
            Settings {
                drain_timeout_ms: RawSetting::NotUnicode,
                ..unset()
            },
            "DYN_SIDECAR_DRAIN_TIMEOUT_MS must be valid UTF-8",
        ),
    ] {
        assert_eq!(refusal(&settings), message);
    }
    assert!(matches!(
        Config::from_settings(&Settings {
            node_id: text("256"),
            ..enabled()
        }),
        Err(SettingError::Namespace {
            source: IdError::NodeIdOutOfRange(256)
        })
    ));
}

#[test]
fn the_other_setting_errors_are_written_out() {
    assert_eq!(
        SettingError::DecodeEngineUrl.message(),
        "failed to construct local decode-engine URL"
    );
    assert_eq!(
        SettingError::Limits {
            source: ConfigError::Deadline
        }
        .message(),
        "invalid context-first limits"
    );
}

#[test]
fn the_settings_of_an_adapter_that_is_off_are_not_looked_at() {
    let settings = Settings {
        context_engine_url: RawSetting::NotUnicode,
        request_bytes: text("none"),
        node_id: text("999"),
        ..unset()
    };
    assert!(Config::from_settings(&settings).is_ok());
}

#[test]
fn the_first_wrong_setting_is_reported() {
    let settings = Settings {
        sidecar_port: text("x"),
        adapter_mode: text("x"),
        drain_timeout_ms: text("x"),
        ..enabled()
    };
    assert_eq!(
        refusal(&settings),
        "DYN_SIDECAR_PORT must be a valid TCP port"
    );
    let settings = Settings {
        node_id: text("256"),
        context_deadline_ms: text("9999999"),
        connect_timeout_ms: text("x"),
        ..enabled()
    };
    assert_eq!(
        refusal(&settings),
        "context-first leg deadlines must not exceed 3600s"
    );
}

#[test]
fn the_adapter_that_is_configured_is_planned() {
    let config = Config::from_settings(&unset()).unwrap();
    assert!(matches!(
        plan_adapter(&config),
        Ok(AdapterPlan::Unavailable)
    ));

    let config = Config::from_settings(&enabled()).unwrap();
    let Ok(AdapterPlan::ContextFirst(plan)) = plan_adapter(&config) else {
        panic!("the context-first adapter must be planned")
    };
    assert_eq!(plan.context_base.as_str(), "http://context:8000/");
    assert_eq!(plan.generation_base.as_str(), "http://localhost:8001/");
    assert_eq!(plan.client_body_timeout, Duration::from_secs(30));
    assert_eq!(plan.read_timeout, config.read_timeout);
    let transport = plan.transport(reqwest::Client::new());
    assert_eq!(transport.max_response_bytes(), 16_777_216);
    assert_eq!(
        transport.url("v1/x", Leg::Generation).unwrap().as_str(),
        "http://localhost:8001/v1/x"
    );

    let inconsistent = Config {
        context_first: None,
        ..config
    };
    let error = plan_adapter(&inconsistent).expect_err("must be refused");
    assert_eq!(error, StartupError::MissingSettings);
    assert_eq!(
        error.message(),
        "adapter mode trtllm-context-first requires its settings"
    );
}

#[test]
fn exactly_one_endpoint_selects_the_adapter() {
    assert_eq!(select_route(&vec![]), Ok(Route::Decode));
    for endpoint in ["10.0.0.7:8000", "prefill-0.internal:80", "[::1]:9"] {
        assert_eq!(
            select_route(&vec![Some(endpoint.to_string())]),
            Ok(Route::Adapter {
                endpoint: endpoint.to_string()
            })
        );
    }
    for values in [
        vec![Some(String::new())],
        vec![Some("10.0.0.7".to_string())],
        vec![Some("a:1,b:2".to_string())],
        vec![Some("user@a:1".to_string())],
        vec![Some("http://a:1/".to_string())],
        vec![Some("a:1".to_string()), Some("a:1".to_string())],
        vec![None],
    ] {
        let error = select_route(&values).expect_err("must be refused");
        assert_eq!((error.status(), error.code()), (502, "invalid_epp_metadata"));
    }
}
