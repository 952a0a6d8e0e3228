//! Dynamic-level dispatch against the two logging backends.
//!
//! The `tracing` backend only accepts a severity as a compile-time constant
//! per call site, so its current configuration is handed in as one boolean
//! per level ([`EnabledLevels`]), and a verified dispatcher branches
//! exhaustively over the runtime level to pick the matching one. The `log`
//! backend is consulted directly, through one trusted constant-level check
//! per level and a verified exhaustive dispatcher over them.

use vstd::prelude::*;
use crate::levels::{LogLevel, TracingLevel};

verus! {

/// The timestamp type of the measurement window, opaque to verification.
#[verifier::external_type_specification]
#[verifier::external_body]
pub struct ExInstant(std::time::Instant);

/// The handle of an entered tracing span; dropping it exits the span.
#[verifier::external_type_specification]
#[verifier::external_body]
pub struct ExEnteredSpan(tracing::span::EnteredSpan);

/// Relies on std::time::Instant::now: an opaque timestamp for the start of
/// the measurement window.
#[verifier::external_body]
pub(crate) fn instant_now() -> std::time::Instant {
    std::time::Instant::now()
}

/// Relies on std::time::Instant::elapsed: the time since `start`, as an
/// opaque duration.
#[verifier::external_body]
pub(crate) fn instant_elapsed(start: &std::time::Instant) -> core::time::Duration {
    start.elapsed()
}

/// Relies on core::time::Duration::as_nanos: the duration in whole
/// nanoseconds.
#[verifier::external_body]
pub(crate) fn duration_as_nanos(d: &core::time::Duration) -> u128 {
    d.as_nanos()
}

/// Relies on the drop of tracing::span::EnteredSpan, which exits the span;
/// consuming the handle here makes a second close structurally impossible.
#[verifier::external_body]
pub(crate) fn close_span(span: tracing::span::EnteredSpan) {
    drop(span);
}

/// One backend's current answer, per level, to whether it would process
/// events for the query target: a snapshot of the backend-enabled state,
/// taken with the backend's constant-level checks. Each of the two backends
/// gets a snapshot of its own.
#[derive(Clone, Copy, PartialEq, Eq, Debug, Structural)]
pub struct EnabledLevels {
    pub error: bool,
    pub warn: bool,
    pub info: bool,
    pub debug: bool,
    pub trace: bool,
}

/// The entry of `e` that belongs to the tracing severity `level`.
pub open spec fn enabled_at(e: EnabledLevels, level: TracingLevel) -> bool {
    match level {
        TracingLevel::Error => e.error,
        TracingLevel::Warn => e.warn,
        TracingLevel::Info => e.info,
        TracingLevel::Debug => e.debug,
        TracingLevel::Trace => e.trace,
    }
}

/// Whether the tracing backend accepts events at `level`, read from the
/// snapshot `e`: an exhaustive dispatch from the runtime level to the
/// matching entry, so that no level is ever misrouted.
pub fn tracing_enabled_for(e: &EnabledLevels, level: TracingLevel) -> (b: bool)
    ensures
        b == enabled_at(*e, level),
{
    match level {
        TracingLevel::Error => e.error,
        TracingLevel::Warn => e.warn,
        TracingLevel::Info => e.info,
        TracingLevel::Debug => e.debug,
        TracingLevel::Trace => e.trace,
    }
}

/// The entry of `e` that belongs to the log severity `level`.
pub open spec fn log_enabled_at(e: EnabledLevels, level: LogLevel) -> bool {
    match level {
        LogLevel::Error => e.error,
        LogLevel::Warn => e.warn,
        LogLevel::Info => e.info,
        LogLevel::Debug => e.debug,
        LogLevel::Trace => e.trace,
    }
}

/// Whether the log backend accepts records at `level`, read from the
/// snapshot `e`: an exhaustive dispatch from the runtime level to the
/// matching entry, so that no level is ever misrouted.
pub fn log_enabled_for(e: &EnabledLevels, level: LogLevel) -> (b: bool)
    ensures
        b == log_enabled_at(*e, level),
{
    match level {
        LogLevel::Error => e.error,
        LogLevel::Warn => e.warn,
        LogLevel::Info => e.info,
        LogLevel::Debug => e.debug,
        LogLevel::Trace => e.trace,
    }
}

/// Relies on log::STATIC_MAX_LEVEL, log::max_level and log::Log::enabled,
/// composed as log::log_enabled! expands them, at the constant Error level
/// for the query target.
#[verifier::external_body]
fn log_enabled_error() -> bool {
    let meta = log::Metadata::builder().level(log::Level::Error).target("sqlx::query").build();
    log::Level::Error <= log::STATIC_MAX_LEVEL && log::Level::Error <= log::max_level()
        && log::logger().enabled(&meta)
}

/// Relies on log::STATIC_MAX_LEVEL, log::max_level and log::Log::enabled,
/// composed as log::log_enabled! expands them, at the constant Warn level
/// for the query target.
#[verifier::external_body]
fn log_enabled_warn() -> bool {
    let meta = log::Metadata::builder().level(log::Level::Warn).target("sqlx::query").build();
    log::Level::Warn <= log::STATIC_MAX_LEVEL && log::Level::Warn <= log::max_level()
        && log::logger().enabled(&meta)
}

/// Relies on log::STATIC_MAX_LEVEL, log::max_level and log::Log::enabled,
/// composed as log::log_enabled! expands them, at the constant Info level
/// for the query target.
#[verifier::external_body]
fn log_enabled_info() -> bool {
    let meta = log::Metadata::builder().level(log::Level::Info).target("sqlx::query").build();
    log::Level::Info <= log::STATIC_MAX_LEVEL && log::Level::Info <= log::max_level()
        && log::logger().enabled(&meta)
}

/// Relies on log::STATIC_MAX_LEVEL, log::max_level and log::Log::enabled,
/// composed as log::log_enabled! expands them, at the constant Debug level
/// for the query target.
#[verifier::external_body]
fn log_enabled_debug() -> bool {
    let meta = log::Metadata::builder().level(log::Level::Debug).target("sqlx::query").build();
    log::Level::Debug <= log::STATIC_MAX_LEVEL && log::Level::Debug <= log::max_level()
        && log::logger().enabled(&meta)
}

/// Relies on log::STATIC_MAX_LEVEL, log::max_level and log::Log::enabled,
/// composed as log::log_enabled! expands them, at the constant Trace level
/// for the query target.
#[verifier::external_body]
fn log_enabled_trace() -> bool {
    let meta = log::Metadata::builder().level(log::Level::Trace).target("sqlx::query").build();
    log::Level::Trace <= log::STATIC_MAX_LEVEL && log::Level::Trace <= log::max_level()
        && log::logger().enabled(&meta)
}

/// Whether the log backend currently accepts records at `level` for the
/// query target: an exhaustive dispatch from the runtime level to the
/// matching constant-level check.
pub fn log_dynamic_enabled(level: LogLevel) -> bool {
    match level {
        LogLevel::Error => log_enabled_error(),
        LogLevel::Warn => log_enabled_warn(),
        LogLevel::Info => log_enabled_info(),
        LogLevel::Debug => log_enabled_debug(),
        LogLevel::Trace => log_enabled_trace(),
    }
}

/// A snapshot of the log backend's current enabled state for the query
/// target, one constant-level check per severity. The matching snapshot of
/// the tracing backend must come from the caller, whose macro call sites
/// hold that backend's constant-level checks.
pub fn probe_log_enabled() -> EnabledLevels {
    EnabledLevels {
        error: log_dynamic_enabled(LogLevel::Error),
        warn: log_dynamic_enabled(LogLevel::Warn),
        info: log_dynamic_enabled(LogLevel::Info),
        debug: log_dynamic_enabled(LogLevel::Debug),
        trace: log_dynamic_enabled(LogLevel::Trace),
    }
}

} // verus!
