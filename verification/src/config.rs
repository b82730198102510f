//! The immutable pool configuration and the validating builder that
//! constructs it.

use vstd::prelude::*;

use core::marker::PhantomData;

use crate::duration::Duration;
use crate::handler::ErrorHandler;
use crate::handler::NoopErrorHandler;
use crate::render;

verus! {

/// The runtime configuration of a resource pool: validated tuning parameters
/// plus one owned error-handling capability.
///
/// A value is immutable once constructed: it exposes read accessors only, and
/// every value satisfies [`Config::wf`] because the [`Builder`] validates each
/// parameter at the moment it is set. `E` is the pool's operational error
/// type; `H` is the concrete handler for it.
pub struct Config<E, H: ErrorHandler<E>> {
    pool_size: u32,
    helper_threads: u32,
    test_on_check_out: bool,
    initialization_fail_fast: bool,
    connection_timeout: Duration,
    error_handler: H,
    marker: PhantomData<E>,
}

impl<E, H: ErrorHandler<E>> Config<E, H> {
    /// The stored `pool_size`, as a mathematical value.
    pub closed spec fn spec_pool_size(self) -> u32 {
        self.pool_size
    }

    /// The stored `helper_threads`, as a mathematical value.
    pub closed spec fn spec_helper_threads(self) -> u32 {
        self.helper_threads
    }

    /// The stored `test_on_check_out` flag, as a mathematical value.
    pub closed spec fn spec_test_on_check_out(self) -> bool {
        self.test_on_check_out
    }

    /// The stored `initialization_fail_fast` flag, as a mathematical value.
    pub closed spec fn spec_initialization_fail_fast(self) -> bool {
        self.initialization_fail_fast
    }

    /// The stored `connection_timeout`, as a mathematical value.
    pub closed spec fn spec_connection_timeout(self) -> Duration {
        self.connection_timeout
    }

    /// The stored error handler, as a mathematical value.
    pub closed spec fn spec_error_handler(self) -> H {
        self.error_handler
    }

    /// The configuration invariant: the pool manages at least one connection,
    /// runs at least one helper thread, and waits a strictly positive time
    /// for a connection. Every constructed configuration satisfies it.
    pub open spec fn wf(self) -> bool {
        &&& self.spec_pool_size() >= 1
        &&& self.spec_helper_threads() >= 1
        &&& self.spec_connection_timeout().wf()
        &&& self.spec_connection_timeout().as_nanos() > 0
    }

    /// The configuration with `pool_size` replaced by `n`.
    pub closed spec fn with_pool_size(self, n: u32) -> Config<E, H> {
        Config { pool_size: n, ..self }
    }

    /// The configuration with `helper_threads` replaced by `n`.
    pub closed spec fn with_helper_threads(self, n: u32) -> Config<E, H> {
        Config { helper_threads: n, ..self }
    }

    /// The configuration with `test_on_check_out` replaced by `b`.
    pub closed spec fn with_test_on_check_out(self, b: bool) -> Config<E, H> {
        Config { test_on_check_out: b, ..self }
    }

    /// The configuration with `initialization_fail_fast` replaced by `b`.
    pub closed spec fn with_initialization_fail_fast(self, b: bool) -> Config<E, H> {
        Config { initialization_fail_fast: b, ..self }
    }

    /// The configuration with `connection_timeout` replaced by `d`.
    pub closed spec fn with_connection_timeout(self, d: Duration) -> Config<E, H> {
        Config { connection_timeout: d, ..self }
    }

    /// The configuration with the error handler replaced by `h`; every other
    /// parameter is kept.
    pub closed spec fn with_error_handler<H2: ErrorHandler<E>>(self, h: H2) -> Config<E, H2> {
        Config {
            pool_size: self.pool_size,
            helper_threads: self.helper_threads,
            test_on_check_out: self.test_on_check_out,
            initialization_fail_fast: self.initialization_fail_fast,
            connection_timeout: self.connection_timeout,
            error_handler: h,
            marker: self.marker,
        }
    }

    /// The number of connections managed by the pool. Defaults to 10.
    pub fn pool_size(&self) -> (r: u32)
        ensures
            r == self.spec_pool_size(),
    {
        self.pool_size
    }

    /// The number of threads the pool uses for asynchronous work such as
    /// connection creation and health checks. Defaults to 3.
    pub fn helper_threads(&self) -> (r: u32)
        ensures
            r == self.spec_helper_threads(),
    {
        self.helper_threads
    }

    /// Whether a connection's health is verified before it is checked out of
    /// the pool. Defaults to true.
    pub fn test_on_check_out(&self) -> (r: bool)
        ensures
            r == self.spec_test_on_check_out(),
    {
        self.test_on_check_out
    }

    /// Whether the pool initializes its connections synchronously, reporting
    /// an error if they could not be created. Defaults to true.
    pub fn initialization_fail_fast(&self) -> (r: bool)
        ensures
            r == self.spec_initialization_fail_fast(),
    {
        self.initialization_fail_fast
    }

    /// How long a caller waits for a connection to become available before
    /// giving up. Defaults to 30 seconds.
    pub fn connection_timeout(&self) -> (r: Duration)
        ensures
            r == self.spec_connection_timeout(),
    {
        self.connection_timeout
    }

    /// The handler to which the pool reports operational errors. Defaults to
    /// [`NoopErrorHandler`].
    pub fn error_handler(&self) -> (r: &H)
        ensures
            *r == self.spec_error_handler(),
    {
        &self.error_handler
    }

    /// The diagnostic rendering: every scalar parameter by name. The error
    /// handler is deliberately left out, since a handler need not be
    /// printable.
    pub open spec fn spec_debug(self) -> Seq<char> {
        "Config { pool_size: "@ + render::spec_u64_digits(self.spec_pool_size() as int)
            + ", helper_threads: "@ + render::spec_u64_digits(self.spec_helper_threads() as int)
            + ", test_on_check_out: "@ + render::spec_bool(self.spec_test_on_check_out())
            + ", initialization_fail_fast: "@ + render::spec_bool(
            self.spec_initialization_fail_fast(),
        ) + ", connection_timeout: "@ + self.spec_connection_timeout().spec_debug() + " }"@
    }

    /// Renders the configuration for diagnostics, surfacing every scalar
    /// parameter by name and excluding the error handler.
    pub fn debug_string(&self) -> (r: String)
        ensures
            r@ == self.spec_debug(),
    {
        let mut out = String::new();
        render::append_str(&mut out, "Config { pool_size: ");
        render::append_u64(&mut out, self.pool_size as u64);
        render::append_str(&mut out, ", helper_threads: ");
        render::append_u64(&mut out, self.helper_threads as u64);
        render::append_str(&mut out, ", test_on_check_out: ");
        render::append_bool(&mut out, self.test_on_check_out);
        render::append_str(&mut out, ", initialization_fail_fast: ");
        render::append_bool(&mut out, self.initialization_fail_fast);
        render::append_str(&mut out, ", connection_timeout: ");
        self.connection_timeout.append_debug(&mut out);
        render::append_str(&mut out, " }");
        proof {
            assert(out@ =~= self.spec_debug());
        }
        out
    }
}

impl<E> Config<E, NoopErrorHandler> {
    /// Whether every parameter holds its documented default value: a pool of
    /// 10 connections, 3 helper threads, both checks on, a 30 second
    /// connection timeout, and the no-op error handler.
    pub open spec fn is_default(self) -> bool {
        &&& self.spec_pool_size() == 10
        &&& self.spec_helper_threads() == 3
        &&& self.spec_test_on_check_out() == true
        &&& self.spec_initialization_fail_fast() == true
        &&& self.spec_connection_timeout().spec_secs() == 30
        &&& self.spec_connection_timeout().spec_nanos() == 0
        &&& self.spec_error_handler() == NoopErrorHandler
    }

    /// A fresh builder whose parameters hold their default values.
    pub fn builder() -> (b: Builder<E, NoopErrorHandler>)
        ensures
            b.wf(),
            b.staged().is_default(),
    {
        Builder::new()
    }
}

impl<E> Default for Config<E, NoopErrorHandler> {
    /// The default configuration: pool_size 10, helper_threads 3,
    /// test_on_check_out true, initialization_fail_fast true, a 30 second
    /// connection timeout, and the no-op error handler. Construction cannot
    /// fail.
    fn default() -> (c: Self)
        ensures
            c.wf(),
            c.is_default(),
    {
        Config {
            pool_size: 10,
            helper_threads: 3,
            test_on_check_out: true,
            initialization_fail_fast: true,
            connection_timeout: Duration::seconds(30),
            error_handler: NoopErrorHandler,
            marker: PhantomData,
        }
    }
}

/// Why a builder rejected a parameter value.
#[derive(Clone, Copy, Debug, PartialEq, Eq, Structural)]
pub enum ConfigError {
    /// `pool_size` must be at least 1.
    ZeroPoolSize,
    /// `helper_threads` must be at least 1.
    ZeroHelperThreads,
    /// `connection_timeout` must be strictly longer than zero.
    NonPositiveConnectionTimeout,
}

/// A builder for [`Config`].
///
/// The builder wraps exactly one configuration being staged, seeded with the
/// default values. Each setter validates its argument before it touches the
/// staged value, so the staged configuration is well formed at every point
/// and [`Builder::build`] cannot fail. Every setter consumes and returns the
/// builder, enabling fluent chains; `build` consumes it for good.
pub struct Builder<E, H: ErrorHandler<E>> {
    c: Config<E, H>,
}

impl<E> Builder<E, NoopErrorHandler> {
    /// A builder whose parameters hold their default values.
    pub fn new() -> (b: Builder<E, NoopErrorHandler>)
        ensures
            b.wf(),
            b.staged().is_default(),
    {
        Builder { c: Config::default() }
    }
}

impl<E, H: ErrorHandler<E>> Builder<E, H> {
    /// The configuration staged so far.
    pub closed spec fn staged(self) -> Config<E, H> {
        self.c
    }

    /// The builder invariant: the staged configuration is well formed.
    pub open spec fn wf(self) -> bool {
        self.staged().wf()
    }

    /// Sets `pool_size`, the number of connections the pool manages. A pool
    /// must manage at least one connection, so zero is not a permitted
    /// argument; [`Builder::try_pool_size`] rejects it at run time instead.
    pub fn pool_size(self, pool_size: u32) -> (r: Builder<E, H>)
        requires
            self.wf(),
            pool_size >= 1,
        ensures
            r.wf(),
            r.staged() == self.staged().with_pool_size(pool_size),
            r.staged().spec_pool_size() == pool_size,
            r.staged().spec_helper_threads() == self.staged().spec_helper_threads(),
            r.staged().spec_test_on_check_out() == self.staged().spec_test_on_check_out(),
            r.staged().spec_initialization_fail_fast() == self.staged().spec_initialization_fail_fast(),
            r.staged().spec_connection_timeout() == self.staged().spec_connection_timeout(),
            r.staged().spec_error_handler() == self.staged().spec_error_handler(),
    {
        let mut b = self;
        b.c.pool_size = pool_size;
        b
    }

    /// Sets `pool_size` if the value is permitted: returns the updated
    /// builder for any `pool_size >= 1` and rejects exactly `pool_size == 0`,
    /// leaving no configuration behind.
    pub fn try_pool_size(self, pool_size: u32) -> (r: Result<Builder<E, H>, ConfigError>)
        requires
            self.wf(),
        ensures
            pool_size >= 1 <==> r is Ok,
            (r matches Ok(b) ==> b.wf() && b.staged() == self.staged().with_pool_size(pool_size)),
            (r matches Err(e) ==> e == ConfigError::ZeroPoolSize),
    {
        if pool_size == 0 {
            Err(ConfigError::ZeroPoolSize)
        } else {
            Ok(self.pool_size(pool_size))
        }
    }

    /// Sets `helper_threads`, the number of threads for asynchronous pool
    /// work. A pool needs at least one, so zero is not a permitted argument;
    /// [`Builder::try_helper_threads`] rejects it at run time instead.
    pub fn helper_threads(self, helper_threads: u32) -> (r: Builder<E, H>)
        requires
            self.wf(),
            helper_threads >= 1,
        ensures
            r.wf(),
            r.staged() == self.staged().with_helper_threads(helper_threads),
            r.staged().spec_helper_threads() == helper_threads,
            r.staged().spec_pool_size() == self.staged().spec_pool_size(),
            r.staged().spec_test_on_check_out() == self.staged().spec_test_on_check_out(),
            r.staged().spec_initialization_fail_fast() == self.staged().spec_initialization_fail_fast(),
            r.staged().spec_connection_timeout() == self.staged().spec_connection_timeout(),
            r.staged().spec_error_handler() == self.staged().spec_error_handler(),
    {
        let mut b = self;
        b.c.helper_threads = helper_threads;
        b
    }

    /// Sets `helper_threads` if the value is permitted: returns the updated
    /// builder for any `helper_threads >= 1` and rejects exactly
    /// `helper_threads == 0`, leaving no configuration behind.
    pub fn try_helper_threads(self, helper_threads: u32) -> (r: Result<
        Builder<E, H>,
        ConfigError,
    >)
        requires
            self.wf(),
        ensures
            helper_threads >= 1 <==> r is Ok,
            (r matches Ok(b) ==> b.wf() && b.staged() == self.staged().with_helper_threads(
                helper_threads,
            )),
            (r matches Err(e) ==> e == ConfigError::ZeroHelperThreads),
    {
        if helper_threads == 0 {
            Err(ConfigError::ZeroHelperThreads)
        } else {
            Ok(self.helper_threads(helper_threads))
        }
    }

    /// Sets `test_on_check_out`. Any value is permitted.
    pub fn test_on_check_out(self, test_on_check_out: bool) -> (r: Builder<E, H>)
        requires
            self.wf(),
        ensures
            r.wf(),
            r.staged() == self.staged().with_test_on_check_out(test_on_check_out),
            r.staged().spec_test_on_check_out() == test_on_check_out,
            r.staged().spec_pool_size() == self.staged().spec_pool_size(),
            r.staged().spec_helper_threads() == self.staged().spec_helper_threads(),
            r.staged().spec_initialization_fail_fast() == self.staged().spec_initialization_fail_fast(),
            r.staged().spec_connection_timeout() == self.staged().spec_connection_timeout(),
            r.staged().spec_error_handler() == self.staged().spec_error_handler(),
    {
        let mut b = self;
        b.c.test_on_check_out = test_on_check_out;
        b
    }

    /// Sets `initialization_fail_fast`. Any value is permitted.
    pub fn initialization_fail_fast(self, initialization_fail_fast: bool) -> (r: Builder<E, H>)
        requires
            self.wf(),
        ensures
            r.wf(),
            r.staged() == self.staged().with_initialization_fail_fast(initialization_fail_fast),
            r.staged().spec_initialization_fail_fast() == initialization_fail_fast,
            r.staged().spec_pool_size() == self.staged().spec_pool_size(),
            r.staged().spec_helper_threads() == self.staged().spec_helper_threads(),
            r.staged().spec_test_on_check_out() == self.staged().spec_test_on_check_out(),
            r.staged().spec_connection_timeout() == self.staged().spec_connection_timeout(),
            r.staged().spec_error_handler() == self.staged().spec_error_handler(),
    {
        let mut b = self;
        b.c.initialization_fail_fast = initialization_fail_fast;
        b
    }

    /// Sets `connection_timeout`, how long a caller waits for a connection.
    /// The wait must be strictly longer than zero, so a zero or negative
    /// duration is not a permitted argument;
    /// [`Builder::try_connection_timeout`] rejects it at run time instead.
    pub fn connection_timeout(self, connection_timeout: Duration) -> (r: Builder<E, H>)
        requires
            self.wf(),
            connection_timeout.wf(),
            connection_timeout.as_nanos() > 0,
        ensures
            r.wf(),
            r.staged() == self.staged().with_connection_timeout(connection_timeout),
            r.staged().spec_connection_timeout() == connection_timeout,
            r.staged().spec_pool_size() == self.staged().spec_pool_size(),
            r.staged().spec_helper_threads() == self.staged().spec_helper_threads(),
            r.staged().spec_test_on_check_out() == self.staged().spec_test_on_check_out(),
            r.staged().spec_initialization_fail_fast() == self.staged().spec_initialization_fail_fast(),
            r.staged().spec_error_handler() == self.staged().spec_error_handler(),
    {
        let mut b = self;
        b.c.connection_timeout = connection_timeout;
        b
    }

    /// Sets `connection_timeout` if the value is permitted: returns the
    /// updated builder for any strictly positive duration and rejects exactly
    /// the zero and negative ones, leaving no configuration behind.
    pub fn try_connection_timeout(self, connection_timeout: Duration) -> (r: Result<
        Builder<E, H>,
        ConfigError,
    >)
        requires
            self.wf(),
            connection_timeout.wf(),
        ensures
            connection_timeout.as_nanos() > 0 <==> r is Ok,
            (r matches Ok(b) ==> b.wf() && b.staged() == self.staged().with_connection_timeout(
                connection_timeout,
            )),
            (r matches Err(e) ==> e == ConfigError::NonPositiveConnectionTimeout),
    {
        if connection_timeout.is_positive() {
            Ok(self.connection_timeout(connection_timeout))
        } else {
            Err(ConfigError::NonPositiveConnectionTimeout)
        }
    }

    /// Replaces the error-handling capability; the previously installed
    /// handler is dropped and can never be invoked through the resulting
    /// configuration. Any handler is permitted.
    pub fn error_handler<H2: ErrorHandler<E>>(self, error_handler: H2) -> (r: Builder<E, H2>)
        requires
            self.wf(),
        ensures
            r.wf(),
            r.staged() == self.staged().with_error_handler(error_handler),
            r.staged().spec_error_handler() == error_handler,
            r.staged().spec_pool_size() == self.staged().spec_pool_size(),
            r.staged().spec_helper_threads() == self.staged().spec_helper_threads(),
            r.staged().spec_test_on_check_out() == self.staged().spec_test_on_check_out(),
            r.staged().spec_initialization_fail_fast() == self.staged().spec_initialization_fail_fast(),
            r.staged().spec_connection_timeout() == self.staged().spec_connection_timeout(),
    {
        Builder {
            c: Config {
                pool_size: self.c.pool_size,
                helper_threads: self.c.helper_threads,
                test_on_check_out: self.c.test_on_check_out,
                initialization_fail_fast: self.c.initialization_fail_fast,
                connection_timeout: self.c.connection_timeout,
                error_handler,
                marker: self.c.marker,
            },
        }
    }

    /// Consumes the builder, yielding the staged configuration. Every setter
    /// validated its argument eagerly, so finalization cannot fail and the
    /// result is well formed.
    pub fn build(self) -> (c: Config<E, H>)
        requires
            self.wf(),
        ensures
            c.wf(),
            c == self.staged(),
    {
        self.c
    }
}

/// One application of a scalar setter: which parameter it targets and the
/// argument handed to it. Used to state laws that hold of every setter
/// uniformly. The error handler is not listed here because replacing it may
/// change the handler type; its laws are stated separately below.
#[derive(Clone, Copy)]
pub enum Setting {
    /// An application of `pool_size`.
    PoolSize(u32),
    /// An application of `helper_threads`.
    HelperThreads(u32),
    /// An application of `test_on_check_out`.
    TestOnCheckOut(bool),
    /// An application of `initialization_fail_fast`.
    InitializationFailFast(bool),
    /// An application of `connection_timeout`.
    ConnectionTimeout(Duration),
}

/// The configuration that one setter application leaves staged.
pub open spec fn apply_setting<E, H: ErrorHandler<E>>(c: Config<E, H>, s: Setting) -> Config<
    E,
    H,
> {
    match s {
        Setting::PoolSize(n) => c.with_pool_size(n),
        Setting::HelperThreads(n) => c.with_helper_threads(n),
        Setting::TestOnCheckOut(b) => c.with_test_on_check_out(b),
        Setting::InitializationFailFast(b) => c.with_initialization_fail_fast(b),
        Setting::ConnectionTimeout(d) => c.with_connection_timeout(d),
    }
}

/// Whether two setter applications target the same parameter.
pub open spec fn same_field(a: Setting, b: Setting) -> bool {
    match (a, b) {
        (Setting::PoolSize(_), Setting::PoolSize(_)) => true,
        (Setting::HelperThreads(_), Setting::HelperThreads(_)) => true,
        (Setting::TestOnCheckOut(_), Setting::TestOnCheckOut(_)) => true,
        (Setting::InitializationFailFast(_), Setting::InitializationFailFast(_)) => true,
        (Setting::ConnectionTimeout(_), Setting::ConnectionTimeout(_)) => true,
        _ => false,
    }
}

/// Whether a setter application carries a permitted argument: a positive
/// pool size, a positive thread count, or a well-formed, strictly positive
/// timeout; the two flags take any value.
pub open spec fn setting_valid(s: Setting) -> bool {
    match s {
        Setting::PoolSize(n) => n >= 1,
        Setting::HelperThreads(n) => n >= 1,
        Setting::TestOnCheckOut(_) => true,
        Setting::InitializationFailFast(_) => true,
        Setting::ConnectionTimeout(d) => d.wf() && d.as_nanos() > 0,
    }
}

/// Eager validation keeps invalid values out of the staged state: applying
/// any setter with a permitted argument to a well-formed configuration
/// leaves a well-formed configuration.
pub proof fn lemma_apply_setting_preserves_wf<E, H: ErrorHandler<E>>(c: Config<E, H>, s: Setting)
    requires
        c.wf(),
        setting_valid(s),
    ensures
        apply_setting(c, s).wf(),
{
}

/// Setting `pool_size` to a positive `n` makes the built configuration
/// report exactly `n` as its pool size.
pub proof fn lemma_pool_size_round_trip<E, H: ErrorHandler<E>>(c: Config<E, H>, n: u32)
    requires
        n >= 1,
    ensures
        c.with_pool_size(n).spec_pool_size() == n,
{
}

/// Setting `helper_threads` to a positive `n` makes the built configuration
/// report exactly `n` as its helper thread count.
pub proof fn lemma_helper_threads_round_trip<E, H: ErrorHandler<E>>(c: Config<E, H>, n: u32)
    requires
        n >= 1,
    ensures
        c.with_helper_threads(n).spec_helper_threads() == n,
{
}

/// Setting `connection_timeout` to a strictly positive duration makes the
/// built configuration report exactly that duration.
pub proof fn lemma_connection_timeout_round_trip<E, H: ErrorHandler<E>>(
    c: Config<E, H>,
    d: Duration,
)
    requires
        d.as_nanos() > 0,
    ensures
        c.with_connection_timeout(d).spec_connection_timeout() == d,
{
}

/// Applying the same setter twice leaves only the last value in effect.
pub proof fn lemma_last_setting_wins<E, H: ErrorHandler<E>>(
    c: Config<E, H>,
    a: Setting,
    b: Setting,
)
    requires
        same_field(a, b),
    ensures
        apply_setting(apply_setting(c, a), b) == apply_setting(c, b),
{
}

/// Setters that target distinct parameters commute: the same final
/// configuration results whichever is applied first.
pub proof fn lemma_settings_commute<E, H: ErrorHandler<E>>(c: Config<E, H>, a: Setting, b: Setting)
    requires
        !same_field(a, b),
    ensures
        apply_setting(apply_setting(c, a), b) == apply_setting(apply_setting(c, b), a),
{
}

/// Replacing the error handler installs exactly the new handler, keeps every
/// other parameter, and preserves well-formedness.
pub proof fn lemma_error_handler_replaced<E, H: ErrorHandler<E>, H2: ErrorHandler<E>>(
    c: Config<E, H>,
    h: H2,
)
    ensures
        c.with_error_handler(h).spec_error_handler() == h,
        c.with_error_handler(h).spec_pool_size() == c.spec_pool_size(),
        c.with_error_handler(h).spec_helper_threads() == c.spec_helper_threads(),
        c.with_error_handler(h).spec_test_on_check_out() == c.spec_test_on_check_out(),
        c.with_error_handler(h).spec_initialization_fail_fast()
            == c.spec_initialization_fail_fast(),
        c.with_error_handler(h).spec_connection_timeout() == c.spec_connection_timeout(),
        c.wf() ==> c.with_error_handler(h).wf(),
{
}

/// Replacing the error handler twice leaves only the last handler installed.
pub proof fn lemma_last_error_handler_wins<
    E,
    H: ErrorHandler<E>,
    H1: ErrorHandler<E>,
    H2: ErrorHandler<E>,
>(c: Config<E, H>, h1: H1, h2: H2)
    ensures
        c.with_error_handler(h1).with_error_handler(h2) == c.with_error_handler(h2),
{
}

/// Replacing the error handler commutes with every scalar setter.
pub proof fn lemma_error_handler_commutes<E, H: ErrorHandler<E>, H2: ErrorHandler<E>>(
    c: Config<E, H>,
    h: H2,
    s: Setting,
)
    ensures
        apply_setting(c, s).with_error_handler(h) == apply_setting(c.with_error_handler(h), s),
{
}

} // verus!
