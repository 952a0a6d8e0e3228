//! Scoped instrumentation for a single database query.
//!
//! A [`QueryLogger`] measures one query execution and reports it to two
//! structured-logging backends (`log` and `tracing`) at a severity level
//! chosen at runtime from a [`LogSettings`] configuration: it holds a
//! tracing span open for the duration of the query when the configured span
//! level is active, accumulates row counters, and on finalization classifies
//! the query as slow or normal and decides on at most one terminal event.
//!
//! The tracing backend accepts a severity only as a compile-time constant
//! per macro call site, so the macro layer stays with the caller: it hands
//! in a per-level snapshot of each backend's enabled state
//! ([`EnabledLevels`], with the log backend's one available from
//! [`probe_log_enabled`]) and an opened span handle, and performs the one
//! [`EventCommand`] that finalization returns. Everything the command holds
//! (the severity, the slow classification, the summary and statement fields,
//! the counters) is pinned by the contracts here.

mod dispatch;
mod levels;
mod logger;
mod summary;

pub use dispatch::{
    EnabledLevels, enabled_at, log_dynamic_enabled, log_enabled_at, log_enabled_for,
    probe_log_enabled, tracing_enabled_for,
};
pub use levels::{
    LogLevel, SeverityFilter, TracingLevel, filter_rank, lemma_levels_correspond,
    levels_of_filter, log_rank, private_level_filter_to_levels, tracing_rank,
};
pub use logger::{
    EventCommand, LogSettings, QueryLogger, build_display_fields, classify_slow, event_owed,
    formatted_of, lemma_slow_message_contains_marker, select_level, should_emit, slow_message,
    span_level_to_open, span_open_spec,
};
pub use summary::{
    all_good, first_n, good_token, is_ws, join_sp, lemma_summary_idempotent,
    lemma_summary_long_input, lemma_summary_normalized_fixpoint, lemma_summary_short_input,
    non_ws_len, parse_query_summary, summary_spec, tokens,
};
