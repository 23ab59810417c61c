//! The log filter and the listen address.

use example_hello_world::settings::{log_filter, DEFAULT_LOG_FILTER, LISTEN_HOST, LISTEN_PORT};

#[test]
fn default_filter_is_debug_for_service_and_middleware() {
    assert_eq!(DEFAULT_LOG_FILTER, "example_hello_world=debug,tower_http=debug");
}

#[test]
fn filter_defaults_when_none_is_configured() {
    assert_eq!(
        log_filter(None),
        "example_hello_world=debug,tower_http=debug"
    );
}

#[test]
fn configured_filter_is_taken_as_it_is() {
    assert_eq!(log_filter(Some("info".to_string())), "info");
    assert_eq!(
        log_filter(Some("appname=debug,httpmiddleware=debug".to_string())),
        "appname=debug,httpmiddleware=debug"
    );
    assert_eq!(log_filter(Some(" warn ".to_string())), " warn ");
}

#[test]
fn empty_configured_filter_is_not_replaced() {
    assert_eq!(log_filter(Some(String::new())), "");
}

#[test]
fn configured_default_is_unchanged() {
    assert_eq!(
        log_filter(Some(DEFAULT_LOG_FILTER.to_string())),
        log_filter(None)
    );
}

#[test]
fn chosen_filter_is_accepted_by_the_subscriber() {
    let filter = tracing_subscriber::EnvFilter::new(log_filter(None));
    assert_eq!(
        filter.to_string(),
        "example_hello_world=debug,tower_http=debug"
    );
    assert_eq!(
        filter.max_level_hint(),
        Some(tracing_subscriber::filter::LevelFilter::DEBUG)
    );
}

#[test]
fn listens_on_every_interface_at_port_3000() {
    assert_eq!(LISTEN_HOST, "0.0.0.0");
    assert_eq!(LISTEN_PORT, 3000);
}
