use pool_config::Config;
use pool_config::Duration;
use pool_config::ErrorHandler;
use pool_config::NoopErrorHandler;

#[test]
fn default_values() {
    let c: Config<String, NoopErrorHandler> = Config::default();
    assert_eq!(c.pool_size(), 10);
    assert_eq!(c.helper_threads(), 3);
    assert!(c.test_on_check_out());
    assert!(c.initialization_fail_fast());
    assert_eq!(c.connection_timeout(), Duration::seconds(30));
}

#[test]
fn builder_without_setters_builds_defaults() {
    let c: Config<String, NoopErrorHandler> = Config::builder().build();
    assert_eq!(c.pool_size(), 10);
    assert_eq!(c.helper_threads(), 3);
    assert!(c.test_on_check_out());
    assert!(c.initialization_fail_fast());
    assert_eq!(c.connection_timeout().whole_seconds(), 30);
    assert_eq!(c.connection_timeout().subsec_nanoseconds(), 0);
}

#[test]
fn default_handler_discards_errors() {
    let c: Config<String, NoopErrorHandler> = Config::default();
    let handler = c.error_handler();
    handler.handle_error(String::from("connection refused"));
    handler.handle_error(String::from("timed out"));
}

#[test]
fn default_debug_string() {
    let c: Config<u32, NoopErrorHandler> = Config::default();
    assert_eq!(
        c.debug_string(),
        "Config { pool_size: 10, helper_threads: 3, test_on_check_out: true, \
         initialization_fail_fast: true, connection_timeout: \
         Duration { secs: 30, nanos: 0 } }"
    );
}

#[test]
fn debug_string_tracks_setters() {
    let c: Config<u32, NoopErrorHandler> = Config::builder()
        .pool_size(4294967295)
        .helper_threads(1)
        .test_on_check_out(false)
        .connection_timeout(Duration::new(1234567890, 890))
        .build();
    assert_eq!(
        c.debug_string(),
        "Config { pool_size: 4294967295, helper_threads: 1, test_on_check_out: false, \
         initialization_fail_fast: true, connection_timeout: \
         Duration { secs: 1234567890, nanos: 890 } }"
    );
}
