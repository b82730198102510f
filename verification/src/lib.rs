//! Runtime configuration for a generic resource pool.
//!
//! The crate provides an immutable [`Config`] value holding validated pool
//! tuning parameters, a fluent [`Builder`] that rejects invalid parameter
//! values at the moment they are supplied, and a pluggable [`ErrorHandler`]
//! capability (with a provided no-op implementation) through which a pool
//! runtime reports operational errors.

pub mod config;
pub mod duration;
pub mod handler;
pub mod render;

pub use config::Builder;
pub use config::Config;
pub use config::ConfigError;
pub use config::Setting;
pub use duration::Duration;
pub use handler::ErrorHandler;
pub use handler::NoopErrorHandler;
