use hula_ws::backoff::compute_backoff_delay;
use hula_ws::commands::{merged_config, SuccessResponse, UpdateConfigParams};
use hula_ws::configuration::Environment;
use hula_ws::dto::{
    get_file_type_from_message_type, parse_message_type, parse_sort_order, SortOrder,
};
use hula_ws::splash;
use hula_ws::timeout_config::TimeoutConfig;
use hula_ws::types::{ErrorReason, ReconnectConfig, WebSocketConfig};
use hula_ws::webview_helper::{KeyboardAdjustment, KeyboardHandlingMode};

#[test]
fn backoff_doubles_then_caps() {
    assert_eq!(compute_backoff_delay(1, 1000), 1000);
    assert_eq!(compute_backoff_delay(2, 1000), 2000);
    assert_eq!(compute_backoff_delay(3, 1000), 4000);
    assert_eq!(compute_backoff_delay(4, 1000), 8000);
    assert_eq!(compute_backoff_delay(5, 1000), 15000);
    assert_eq!(compute_backoff_delay(100, 1000), 15000);
    assert_eq!(compute_backoff_delay(u32::MAX, 1000), 15000);
}

#[test]
fn backoff_is_monotonic_and_bounded() {
    for base in [1u64, 250, 1000, 14999, 15000, 1_000_000] {
        let mut previous = 0u64;
        for attempts in 0..40u32 {
            let delay = compute_backoff_delay(attempts, base);
            assert!(delay >= previous, "base {} attempts {}", base, attempts);
            assert!(delay <= 15000);
            previous = delay;
        }
    }
}

#[test]
fn backoff_small_bases_stay_exact() {
    assert_eq!(compute_backoff_delay(1, 100), 100);
    assert_eq!(compute_backoff_delay(8, 100), 12800);
    assert_eq!(compute_backoff_delay(9, 100), 15000);
    assert_eq!(compute_backoff_delay(0, 100), 100);
    assert_eq!(compute_backoff_delay(1, 20000), 15000);
}

#[test]
fn default_config_matches_the_protocol_defaults() {
    let config = WebSocketConfig::default();
    assert_eq!(config.server_url, "");
    assert_eq!(config.client_id, "");
    assert_eq!(config.token, "");
    assert_eq!(config.heartbeat_interval, 30000);
    assert_eq!(config.heartbeat_timeout, 10000);
    assert_eq!(config.max_reconnect_attempts, 10);
    assert_eq!(config.reconnect_delay_ms, 1000);

    let reconnect = ReconnectConfig::default();
    assert_eq!(reconnect.initial_delay, 1000);
    assert_eq!(reconnect.max_delay, 60000);
    assert_eq!(reconnect.max_attempts, 10);
}

#[test]
fn merged_config_overrides_only_what_is_given() {
    let params = UpdateConfigParams {
        heartbeat_interval: Some(5000),
        heartbeat_timeout: None,
        max_reconnect_attempts: Some(0),
        reconnect_delay_ms: None,
    };
    let config = merged_config(&params);
    assert_eq!(config.heartbeat_interval, 5000);
    assert_eq!(config.heartbeat_timeout, 10000);
    assert_eq!(config.max_reconnect_attempts, 0);
    assert_eq!(config.reconnect_delay_ms, 1000);
}

#[test]
fn success_response_is_a_bare_success() {
    let response = SuccessResponse::new();
    assert!(response.success);
    assert!(response.message.is_none());
}

#[test]
fn error_reasons_spell_their_message() {
    assert_eq!(
        ErrorReason::TooManyConnectionFailures.text(),
        "Too many connection failures, stopping retry"
    );
}

#[test]
fn environment_names_are_lowercase() {
    assert_eq!(Environment::Local.as_str(), "local");
    assert_eq!(Environment::Production.as_str(), "production");
}

#[test]
fn environment_parses_case_insensitively() {
    assert!(matches!(Environment::try_from("local".to_owned()), Ok(Environment::Local)));
    assert!(matches!(Environment::try_from("LOCAL".to_owned()), Ok(Environment::Local)));
    assert!(matches!(
        Environment::try_from("Production".to_owned()),
        Ok(Environment::Production)
    ));
    match Environment::try_from("Staging".to_owned()) {
        Ok(_) => panic!("staging is not a supported environment"),
        Err(name) => assert_eq!(name, "staging"),
    }
}

#[test]
fn message_type_filters_parse() {
    assert_eq!(parse_message_type(&Some("image".to_owned())), Some(vec![3, 6]));
    assert_eq!(parse_message_type(&Some("file".to_owned())), Some(vec![4]));
    assert_eq!(parse_message_type(&Some("all".to_owned())), None);
    assert_eq!(parse_message_type(&Some("video".to_owned())), None);
    assert_eq!(parse_message_type(&None), None);
}

#[test]
fn sort_orders_parse_with_desc_default() {
    assert_eq!(parse_sort_order(&Some("asc".to_owned())), SortOrder::Asc);
    assert_eq!(parse_sort_order(&Some("desc".to_owned())), SortOrder::Desc);
    assert_eq!(parse_sort_order(&Some("upward".to_owned())), SortOrder::Desc);
    assert_eq!(parse_sort_order(&None), SortOrder::Desc);
}

#[test]
fn file_types_follow_message_types() {
    assert_eq!(get_file_type_from_message_type(4), "file");
    assert_eq!(get_file_type_from_message_type(6), "video");
    assert_eq!(get_file_type_from_message_type(3), "unknown");
    assert_eq!(get_file_type_from_message_type(0), "unknown");
}

#[test]
fn keyboard_adjustment_drives_the_mode() {
    let mut keyboard = KeyboardAdjustment::new();
    assert!(!keyboard.should_adjust());
    assert_eq!(keyboard.desired_mode(), KeyboardHandlingMode::Lock);
    keyboard.set_keyboard_adjustment(true);
    assert!(keyboard.should_adjust());
    assert_eq!(keyboard.desired_mode(), KeyboardHandlingMode::Adjust);
    keyboard.set_keyboard_adjustment(false);
    assert_eq!(keyboard.desired_mode(), KeyboardHandlingMode::Lock);
}

#[test]
fn splash_is_inert_on_desktop() {
    splash::show();
    splash::dismiss();
}

#[test]
fn timeout_budget_is_in_milliseconds() {
    assert_eq!(TimeoutConfig::DATABASE_CONNECT_TIMEOUT, 30_000);
    assert_eq!(TimeoutConfig::DATABASE_OPERATION_TIMEOUT, 120_000);
    assert_eq!(TimeoutConfig::HTTP_REQUEST_TIMEOUT, 60_000);
    assert_eq!(TimeoutConfig::HTTP_CONNECT_TIMEOUT, 10_000);
    assert_eq!(TimeoutConfig::LOCK_ACQUIRE_TIMEOUT, 100);
}
