//! Severity filters and their translation into the native severity values of
//! the two logging backends.

use vstd::prelude::*;

verus! {

/// A verbosity filter as configured by the user: five active levels, ordered
/// from most restrictive (`Error`) to most verbose (`Trace`), plus `Off`,
/// which disables the corresponding output entirely.
#[derive(Clone, Copy, PartialEq, Eq, Debug, Structural)]
pub enum SeverityFilter {
    Off,
    Error,
    Warn,
    Info,
    Debug,
    Trace,
}

/// A severity level of the `tracing` backend. Mirrors `tracing::Level`,
/// which has no `Off` value.
#[derive(Clone, Copy, PartialEq, Eq, Debug, Structural)]
pub enum TracingLevel {
    Error,
    Warn,
    Info,
    Debug,
    Trace,
}

/// A severity level of the `log` backend. Mirrors `log::Level`,
/// which has no `Off` value.
#[derive(Clone, Copy, PartialEq, Eq, Debug, Structural)]
pub enum LogLevel {
    Error,
    Warn,
    Info,
    Debug,
    Trace,
}

/// The position of a filter in the verbosity order; `Off` has rank 0 and
/// `Trace`, the most verbose, has rank 5.
pub open spec fn filter_rank(f: SeverityFilter) -> nat {
    match f {
        SeverityFilter::Off => 0,
        SeverityFilter::Error => 1,
        SeverityFilter::Warn => 2,
        SeverityFilter::Info => 3,
        SeverityFilter::Debug => 4,
        SeverityFilter::Trace => 5,
    }
}

/// The rank of a `tracing` level on the same scale as [`filter_rank`].
pub open spec fn tracing_rank(l: TracingLevel) -> nat {
    match l {
        TracingLevel::Error => 1,
        TracingLevel::Warn => 2,
        TracingLevel::Info => 3,
        TracingLevel::Debug => 4,
        TracingLevel::Trace => 5,
    }
}

/// The rank of a `log` level on the same scale as [`filter_rank`].
pub open spec fn log_rank(l: LogLevel) -> nat {
    match l {
        LogLevel::Error => 1,
        LogLevel::Warn => 2,
        LogLevel::Info => 3,
        LogLevel::Debug => 4,
        LogLevel::Trace => 5,
    }
}

/// What [`private_level_filter_to_levels`] returns: `None` exactly for `Off`,
/// and otherwise the pair of native severities at the same named level.
pub open spec fn levels_of_filter(filter: SeverityFilter) -> Option<(TracingLevel, LogLevel)> {
    match filter {
        SeverityFilter::Off => None,
        SeverityFilter::Error => Some((TracingLevel::Error, LogLevel::Error)),
        SeverityFilter::Warn => Some((TracingLevel::Warn, LogLevel::Warn)),
        SeverityFilter::Info => Some((TracingLevel::Info, LogLevel::Info)),
        SeverityFilter::Debug => Some((TracingLevel::Debug, LogLevel::Debug)),
        SeverityFilter::Trace => Some((TracingLevel::Trace, LogLevel::Trace)),
    }
}

/// Translates one configured verbosity filter into the pair of native
/// severities required by the two backends, or `None` when the filter
/// disables output.
pub fn private_level_filter_to_levels(filter: SeverityFilter) -> (r: Option<
    (TracingLevel, LogLevel),
>)
    ensures
        r == levels_of_filter(filter),
        r is None <==> filter == SeverityFilter::Off,
{
    match filter {
        SeverityFilter::Off => None,
        SeverityFilter::Error => Some((TracingLevel::Error, LogLevel::Error)),
        SeverityFilter::Warn => Some((TracingLevel::Warn, LogLevel::Warn)),
        SeverityFilter::Info => Some((TracingLevel::Info, LogLevel::Info)),
        SeverityFilter::Debug => Some((TracingLevel::Debug, LogLevel::Debug)),
        SeverityFilter::Trace => Some((TracingLevel::Trace, LogLevel::Trace)),
    }
}

/// The filter-to-levels mapping returns `None` exactly for `Off`, and for
/// every active filter both native severities sit at the same named level
/// as the filter itself.
pub proof fn lemma_levels_correspond(filter: SeverityFilter)
    ensures
        levels_of_filter(filter) is None <==> filter == SeverityFilter::Off,
        levels_of_filter(filter) matches Some(pair) ==> tracing_rank(pair.0) == filter_rank(
            filter,
        ) && log_rank(pair.1) == filter_rank(filter),
{
}

} // verus!
