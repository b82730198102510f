use std::cell::Cell;
use std::rc::Rc;

use pool_config::Config;
use pool_config::ErrorHandler;
use pool_config::NoopErrorHandler;

/// A test handler that counts how often it is invoked, through a counter
/// shared with the test body.
struct CountingHandler {
    invocations: Rc<Cell<u32>>,
}

impl ErrorHandler<String> for CountingHandler {
    fn handle_error(&self, _error: String) {
        self.invocations.set(self.invocations.get() + 1);
    }
}

#[test]
fn replacing_the_handler_installs_it() {
    let count = Rc::new(Cell::new(0));
    let handler = CountingHandler {
        invocations: Rc::clone(&count),
    };
    let c: Config<String, CountingHandler> = Config::builder().error_handler(handler).build();
    c.error_handler().handle_error(String::from("boom"));
    assert_eq!(count.get(), 1);
}

#[test]
fn replaced_handler_is_never_invoked() {
    let first_count = Rc::new(Cell::new(0));
    let second_count = Rc::new(Cell::new(0));
    let first = CountingHandler {
        invocations: Rc::clone(&first_count),
    };
    let second = CountingHandler {
        invocations: Rc::clone(&second_count),
    };
    let c: Config<String, CountingHandler> = Config::builder()
        .error_handler(first)
        .error_handler(second)
        .build();
    c.error_handler().handle_error(String::from("boom"));
    assert_eq!(first_count.get(), 0);
    assert_eq!(second_count.get(), 1);
}

#[test]
fn replacing_the_handler_keeps_scalar_parameters() {
    let count = Rc::new(Cell::new(0));
    let handler = CountingHandler {
        invocations: Rc::clone(&count),
    };
    let c: Config<String, CountingHandler> = Config::builder()
        .pool_size(2)
        .error_handler(handler)
        .helper_threads(4)
        .build();
    assert_eq!(c.pool_size(), 2);
    assert_eq!(c.helper_threads(), 4);
    assert!(c.test_on_check_out());
}

#[test]
fn noop_handler_handles_any_error_type() {
    let handler = NoopErrorHandler;
    ErrorHandler::<u64>::handle_error(&handler, 7);
    ErrorHandler::<&str>::handle_error(&handler, "ignored");
}
