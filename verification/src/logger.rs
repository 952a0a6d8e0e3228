//! The scoped query logger: owns the measurement window, the optional open
//! region, and the row counters, and on finalization decides the one
//! terminal event to emit.

use vstd::prelude::*;
use vstd::string::StringExecFns;
use crate::dispatch::{
    EnabledLevels, close_span, duration_as_nanos, enabled_at, instant_elapsed, instant_now,
    log_enabled_at, log_enabled_for, tracing_enabled_for,
};
use crate::levels::{SeverityFilter, TracingLevel, levels_of_filter, private_level_filter_to_levels};
use crate::summary::{parse_query_summary, summary_spec};

verus! {

/// The logging configuration for one query: four independent settings, fixed
/// for the lifetime of one logger instance. The duration is in nanoseconds.
#[derive(Clone, Copy, PartialEq, Eq, Debug, Structural)]
pub struct LogSettings {
    /// The severity of the terminal event of a normal query.
    pub statements_level: SeverityFilter,
    /// The severity of the terminal event of a slow query.
    pub slow_statements_level: SeverityFilter,
    /// The execution time, in nanoseconds, at and above which a query counts
    /// as slow.
    pub slow_statements_duration_nanos: u64,
    /// The severity of the span that is held open for the duration of the
    /// query.
    pub statements_trace_level: SeverityFilter,
}

/// Whether the measured time classifies the query as slow: at or above the
/// configured threshold.
pub fn classify_slow(elapsed_nanos: u128, threshold_nanos: u64) -> (b: bool)
    ensures
        b == (elapsed_nanos >= threshold_nanos as u128),
{
    elapsed_nanos >= threshold_nanos as u128
}

/// The severity filter that governs the terminal event: the slow-statement
/// level for a slow query, the baseline statement level otherwise.
pub fn select_level(settings: &LogSettings, was_slow: bool) -> (l: SeverityFilter)
    ensures
        l == if was_slow {
            settings.slow_statements_level
        } else {
            settings.statements_level
        },
{
    if was_slow {
        settings.slow_statements_level
    } else {
        settings.statements_level
    }
}

/// Either backend independently accepting the level is sufficient cause to
/// emit the terminal event: the two backends may be configured independently
/// by different consumers.
pub fn should_emit(log_enabled: bool, tracing_enabled: bool) -> (b: bool)
    ensures
        b == (log_enabled || tracing_enabled),
{
    log_enabled || tracing_enabled
}

/// Whether an event or region is owed at the severity `filter`, given a
/// snapshot of each backend's enabled state: the filter must map to a native
/// pair, and at least one backend must accept its side of the pair.
pub open spec fn event_owed(
    filter: SeverityFilter,
    tracing_enabled: EnabledLevels,
    log_enabled: EnabledLevels,
) -> bool {
    match levels_of_filter(filter) {
        None => false,
        Some(pair) => enabled_at(tracing_enabled, pair.0) || log_enabled_at(log_enabled, pair.1),
    }
}

/// What sqlformat::format returns for a statement, with no parameter
/// substitution and default options: a function of the statement text alone.
pub uninterp spec fn formatted_of(s: Seq<char>) -> Seq<char>;

/// Relies on sqlformat::format with sqlformat::QueryParams::None and default
/// options: a pretty-printed form of the statement, depending on the
/// statement text alone.
#[verifier::external_body]
fn format_sql(sql: &str) -> (r: String)
    ensures
        r@ == formatted_of(sql@),
{
    sqlformat::format(sql, &sqlformat::QueryParams::None, sqlformat::FormatOptions::default())
}

/// The two display fields of the terminal event. The first is the preview
/// label: the summary, with an ellipsis marker appended when it elides
/// anything. The second is the full-statement field: the pretty-formatted
/// statement framed by blank lines, or empty when the summary already shows
/// the whole statement.
pub fn build_display_fields(sql: &str) -> (r: (String, String))
    ensures
        summary_spec(sql@) == sql@ ==> r.0@ == sql@ && r.1@ == Seq::<char>::empty(),
        summary_spec(sql@) != sql@ ==> r.0@ == summary_spec(sql@) + seq![' ', '…'] && r.1@
            == seq!['\n', '\n'] + formatted_of(sql@) + seq!['\n'],
{
    let mut summary = parse_query_summary(sql);
    let sql_owned: String = sql.to_owned();
    if summary == sql_owned {
        (summary, String::new())
    } else {
        proof {
            reveal_strlit(" …");
            assert(" …"@ =~= seq![' ', '…']);
            reveal_strlit("\n\n");
            reveal_strlit("\n");
            assert("\n\n"@ =~= seq!['\n', '\n']);
            assert("\n"@ =~= seq!['\n']);
        }
        summary.append(" …");
        let formatted = format_sql(sql);
        let mut statement = String::new();
        statement.append("\n\n");
        statement.append(formatted.as_str());
        statement.append("\n");
        proof {
            assert(statement@ =~= seq!['\n', '\n'] + formatted_of(sql@) + seq!['\n']);
        }
        (summary, statement)
    }
}

/// The message text of a slow query's terminal event; it contains the word
/// "slow", which is what people will grep for.
pub open spec fn slow_message() -> Seq<char> {
    "slow statement: execution time exceeded alert threshold"@
}

/// The slow-statement message does carry the word "slow": it opens with it.
pub proof fn lemma_slow_message_contains_marker()
    ensures
        slow_message().len() >= 4,
        slow_message().subrange(0, 4) == "slow"@,
{
    reveal_strlit("slow statement: execution time exceeded alert threshold");
    reveal_strlit("slow");
    assert(slow_message().subrange(0, 4) =~= "slow"@);
}

/// The one terminal event that finalization asks its caller to emit against
/// the tracing backend: the severity, the slow classification, and the full
/// field set.
pub struct EventCommand {
    /// The native severity of the event.
    pub tracing_level: TracingLevel,
    /// Whether the query was classified as slow.
    pub was_slow: bool,
    /// The preview label of the statement.
    pub summary: String,
    /// The full-statement field; empty when the summary already shows the
    /// whole statement.
    pub statement: String,
    /// The message text: the slow-statement marker for a slow query, empty
    /// otherwise.
    pub message: String,
    /// The count of affected rows.
    pub rows_affected: u64,
    /// The count of returned rows.
    pub rows_returned: u64,
    /// The measured execution time, for human-readable display.
    pub elapsed: core::time::Duration,
    /// The configured slow threshold in nanoseconds; meaningful only for a
    /// slow query, whose event carries it as a field.
    pub threshold_nanos: u64,
}

/// The span level at which a region should be opened for a query with the
/// given configuration and backend state: the span setting's native tracing
/// severity, when that setting is active and at least one of the two
/// backends accepts it.
pub open spec fn span_open_spec(
    settings: LogSettings,
    tracing_enabled: EnabledLevels,
    log_enabled: EnabledLevels,
) -> Option<TracingLevel> {
    match levels_of_filter(settings.statements_trace_level) {
        None => None,
        Some(pair) => if enabled_at(tracing_enabled, pair.0) || log_enabled_at(
            log_enabled,
            pair.1,
        ) {
            Some(pair.0)
        } else {
            None
        },
    }
}

/// Decides whether a region should be opened for a query, and at which
/// severity: the configured span level must be active, and either backend
/// currently accepting it is sufficient cause. A span level of `Off` never
/// opens a region.
pub fn span_level_to_open(
    settings: &LogSettings,
    tracing_enabled: &EnabledLevels,
    log_enabled: &EnabledLevels,
) -> (r: Option<TracingLevel>)
    ensures
        r == span_open_spec(*settings, *tracing_enabled, *log_enabled),
        r is Some <==> event_owed(settings.statements_trace_level, *tracing_enabled, *log_enabled),
        settings.statements_trace_level == SeverityFilter::Off ==> r is None,
{
    match private_level_filter_to_levels(settings.statements_trace_level) {
        Some((tracing_level, log_level)) => {
            let log_is_enabled = log_enabled_for(log_enabled, log_level);
            let tracing_is_enabled = tracing_enabled_for(tracing_enabled, tracing_level);
            if should_emit(log_is_enabled, tracing_is_enabled) {
                Some(tracing_level)
            } else {
                None
            }
        },
        None => None,
    }
}

/// The live instrumentation of one query execution. Created when the query
/// starts, fed with row counts while it runs, and finalized exactly once,
/// which closes the open region (if any) strictly before deciding on the
/// one terminal event.
pub struct QueryLogger<'q> {
    sql: &'q str,
    rows_returned: u64,
    rows_affected: u64,
    start: std::time::Instant,
    settings: LogSettings,
    span: Option<tracing::span::EnteredSpan>,
    finished: bool,
}

impl<'q> QueryLogger<'q> {
    /// The statement text under measurement.
    pub closed spec fn sql_spec(&self) -> Seq<char> {
        self.sql@
    }

    /// The count of rows returned so far.
    pub closed spec fn rows_returned_spec(&self) -> u64 {
        self.rows_returned
    }

    /// The count of rows affected so far.
    pub closed spec fn rows_affected_spec(&self) -> u64 {
        self.rows_affected
    }

    /// The configuration the logger was created with.
    pub closed spec fn settings_spec(&self) -> LogSettings {
        self.settings
    }

    /// Whether a region handle is currently held open.
    pub closed spec fn has_span(&self) -> bool {
        self.span is Some
    }

    /// Whether the logger has been finalized.
    pub closed spec fn finished_spec(&self) -> bool {
        self.finished
    }

    /// Starts measuring one query: records the start time and takes
    /// ownership of the region handle that the caller opened for the span
    /// level that [`span_level_to_open`] decided, or `None` when no region
    /// is to be held. A span level of `Off` admits no region at all.
    pub fn new(sql: &'q str, settings: LogSettings, span: Option<
        tracing::span::EnteredSpan,
    >) -> (r: Self)
        requires
            settings.statements_trace_level == SeverityFilter::Off ==> span is None,
        ensures
            r.sql_spec() == sql@,
            r.rows_returned_spec() == 0,
            r.rows_affected_spec() == 0,
            r.settings_spec() == settings,
            !r.finished_spec(),
            r.has_span() == (span is Some),
            settings.statements_trace_level == SeverityFilter::Off ==> !r.has_span(),
    {
        QueryLogger {
            sql,
            rows_returned: 0,
            rows_affected: 0,
            start: instant_now(),
            settings,
            span,
            finished: false,
        }
    }

    /// Whether a region handle is currently held open.
    pub fn has_open_span(&self) -> (b: bool)
        ensures
            b == self.has_span(),
    {
        self.span.is_some()
    }

    /// Whether the logger has been finalized.
    pub fn is_finished(&self) -> (b: bool)
        ensures
            b == self.finished_spec(),
    {
        self.finished
    }

    /// The count of rows returned so far.
    pub fn rows_returned_count(&self) -> (n: u64)
        ensures
            n == self.rows_returned_spec(),
    {
        self.rows_returned
    }

    /// The count of rows affected so far.
    pub fn rows_affected_count(&self) -> (n: u64)
        ensures
            n == self.rows_affected_spec(),
    {
        self.rows_affected
    }

    /// Records one more returned row.
    pub fn increment_rows_returned(&mut self)
        requires
            old(self).rows_returned_spec() < u64::MAX,
        ensures
            final(self).rows_returned_spec() == old(self).rows_returned_spec() + 1,
            final(self).rows_affected_spec() == old(self).rows_affected_spec(),
            final(self).sql_spec() == old(self).sql_spec(),
            final(self).settings_spec() == old(self).settings_spec(),
            final(self).has_span() == old(self).has_span(),
            final(self).finished_spec() == old(self).finished_spec(),
    {
        self.rows_returned = self.rows_returned + 1;
    }

    /// Records `n` more affected rows.
    pub fn increase_rows_affected(&mut self, n: u64)
        requires
            old(self).rows_affected_spec() + n <= u64::MAX,
        ensures
            final(self).rows_affected_spec() == old(self).rows_affected_spec() + n,
            final(self).rows_returned_spec() == old(self).rows_returned_spec(),
            final(self).sql_spec() == old(self).sql_spec(),
            final(self).settings_spec() == old(self).settings_spec(),
            final(self).has_span() == old(self).has_span(),
            final(self).finished_spec() == old(self).finished_spec(),
    {
        self.rows_affected = self.rows_affected + n;
    }

    /// Consumes and closes the open region, if any; afterwards none is held,
    /// and a second close finds nothing to do.
    fn close_region(&mut self)
        ensures
            !final(self).has_span(),
            final(self).finished_spec() == old(self).finished_spec(),
            final(self).rows_returned_spec() == old(self).rows_returned_spec(),
            final(self).rows_affected_spec() == old(self).rows_affected_spec(),
            final(self).sql_spec() == old(self).sql_spec(),
            final(self).settings_spec() == old(self).settings_spec(),
    {
        if let Some(guard) = self.span.take() {
            close_span(guard);
        }
    }

    /// Finalizes the logger with a caller-supplied measurement of the
    /// elapsed time and a snapshot of each backend's enabled state. Closes
    /// the open region first, strictly before any event is decided;
    /// classifies the query as slow or normal; selects the governing
    /// severity; and returns the one terminal event for the caller to emit
    /// exactly when that severity is active and at least one backend
    /// accepts it. A second call finds the logger already finalized and
    /// asks for nothing.
    pub fn finish_with_elapsed(
        &mut self,
        elapsed: core::time::Duration,
        elapsed_nanos: u128,
        tracing_enabled: &EnabledLevels,
        log_enabled: &EnabledLevels,
    ) -> (r: Option<EventCommand>)
        ensures
            !final(self).has_span(),
            final(self).finished_spec(),
            final(self).rows_returned_spec() == old(self).rows_returned_spec(),
            final(self).rows_affected_spec() == old(self).rows_affected_spec(),
            final(self).sql_spec() == old(self).sql_spec(),
            final(self).settings_spec() == old(self).settings_spec(),
            old(self).finished_spec() ==> r is None,
            ({
                let settings = old(self).settings_spec();
                let slow = elapsed_nanos >= settings.slow_statements_duration_nanos as u128;
                let lvl = if slow {
                    settings.slow_statements_level
                } else {
                    settings.statements_level
                };
                &&& (r is Some <==> !old(self).finished_spec() && event_owed(
                    lvl,
                    *tracing_enabled,
                    *log_enabled,
                ))
                &&& (r matches Some(cmd) ==> {
                    &&& !old(self).finished_spec()
                    &&& levels_of_filter(lvl) matches Some(pair) && cmd.tracing_level == pair.0
                    &&& cmd.was_slow == slow
                    &&& cmd.rows_affected == old(self).rows_affected_spec()
                    &&& cmd.rows_returned == old(self).rows_returned_spec()
                    &&& cmd.threshold_nanos == settings.slow_statements_duration_nanos
                    &&& cmd.elapsed == elapsed
                    &&& (summary_spec(old(self).sql_spec()) == old(self).sql_spec()
                        ==> cmd.summary@ == old(self).sql_spec() && cmd.statement@
                        == Seq::<char>::empty())
                    &&& (summary_spec(old(self).sql_spec()) != old(self).sql_spec()
                        ==> cmd.summary@ == summary_spec(old(self).sql_spec()) + seq![' ', '…']
                        && cmd.statement@ == seq!['\n', '\n'] + formatted_of(old(self).sql_spec())
                        + seq!['\n'])
                    &&& (slow ==> cmd.message@ == slow_message())
                    &&& (!slow ==> cmd.message@ == Seq::<char>::empty())
                })
            }),
    {
        self.close_region();
        if self.finished {
            return None;
        }
        self.finished = true;
        let was_slow = classify_slow(elapsed_nanos, self.settings.slow_statements_duration_nanos);
        let lvl = select_level(&self.settings, was_slow);
        if let Some((tracing_level, log_level)) = private_level_filter_to_levels(lvl) {
            let log_is_enabled = log_enabled_for(log_enabled, log_level);
            let tracing_is_enabled = tracing_enabled_for(tracing_enabled, tracing_level);
            if should_emit(log_is_enabled, tracing_is_enabled) {
                let fields = build_display_fields(self.sql);
                let message = if was_slow {
                    String::from_str("slow statement: execution time exceeded alert threshold")
                } else {
                    String::new()
                };
                Some(
                    EventCommand {
                        tracing_level,
                        was_slow,
                        summary: fields.0,
                        statement: fields.1,
                        message,
                        rows_affected: self.rows_affected,
                        rows_returned: self.rows_returned,
                        elapsed,
                        threshold_nanos: self.settings.slow_statements_duration_nanos,
                    },
                )
            } else {
                None
            }
        } else {
            None
        }
    }

    /// Finalizes the logger, measuring the elapsed time since construction
    /// itself; otherwise exactly [`Self::finish_with_elapsed`]. The measured
    /// time only picks which of the two configured severities governs, so an
    /// event is owed whenever both are active and accepted, and none can
    /// come when neither is.
    pub fn finish(
        &mut self,
        tracing_enabled: &EnabledLevels,
        log_enabled: &EnabledLevels,
    ) -> (r: Option<EventCommand>)
        ensures
            !final(self).has_span(),
            final(self).finished_spec(),
            final(self).rows_returned_spec() == old(self).rows_returned_spec(),
            final(self).rows_affected_spec() == old(self).rows_affected_spec(),
            final(self).sql_spec() == old(self).sql_spec(),
            final(self).settings_spec() == old(self).settings_spec(),
            old(self).finished_spec() ==> r is None,
            !event_owed(old(self).settings_spec().statements_level, *tracing_enabled, *log_enabled)
                && !event_owed(
                old(self).settings_spec().slow_statements_level,
                *tracing_enabled,
                *log_enabled,
            ) ==> r is None,
            !old(self).finished_spec() && event_owed(
                old(self).settings_spec().statements_level,
                *tracing_enabled,
                *log_enabled,
            ) && event_owed(
                old(self).settings_spec().slow_statements_level,
                *tracing_enabled,
                *log_enabled,
            ) ==> r is Some,
            r matches Some(cmd) ==> {
                let settings = old(self).settings_spec();
                let lvl = if cmd.was_slow {
                    settings.slow_statements_level
                } else {
                    settings.statements_level
                };
                &&& !old(self).finished_spec()
                &&& event_owed(lvl, *tracing_enabled, *log_enabled)
                &&& levels_of_filter(lvl) matches Some(pair) && cmd.tracing_level == pair.0
                &&& cmd.rows_affected == old(self).rows_affected_spec()
                &&& cmd.rows_returned == old(self).rows_returned_spec()
                &&& cmd.threshold_nanos == settings.slow_statements_duration_nanos
                &&& (summary_spec(old(self).sql_spec()) == old(self).sql_spec() ==> cmd.summary@
                    == old(self).sql_spec() && cmd.statement@ == Seq::<char>::empty())
                &&& (summary_spec(old(self).sql_spec()) != old(self).sql_spec() ==> cmd.summary@
                    == summary_spec(old(self).sql_spec()) + seq![' ', '…'] && cmd.statement@
                    == seq!['\n', '\n'] + formatted_of(old(self).sql_spec()) + seq!['\n'])
                &&& (cmd.was_slow ==> cmd.message@ == slow_message())
                &&& (!cmd.was_slow ==> cmd.message@ == Seq::<char>::empty())
            },
    {
        self.close_region();
        let elapsed: core::time::Duration = instant_elapsed(&self.start);
        let elapsed_nanos: u128 = duration_as_nanos(&elapsed);
        self.finish_with_elapsed(elapsed, elapsed_nanos, tracing_enabled, log_enabled)
    }
}

} // verus!
