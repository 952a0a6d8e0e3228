use query_logger::{
    EnabledLevels, LogLevel, LogSettings, QueryLogger, SeverityFilter, TracingLevel,
    build_display_fields, classify_slow, parse_query_summary, private_level_filter_to_levels,
    select_level, should_emit, span_level_to_open, tracing_enabled_for,
};
use std::time::Duration;

fn all_enabled() -> EnabledLevels {
    EnabledLevels { error: true, warn: true, info: true, debug: true, trace: true }
}

fn none_enabled() -> EnabledLevels {
    EnabledLevels { error: false, warn: false, info: false, debug: false, trace: false }
}

fn scenario_settings() -> LogSettings {
    LogSettings {
        statements_level: SeverityFilter::Info,
        slow_statements_level: SeverityFilter::Warn,
        slow_statements_duration_nanos: 100_000_000,
        statements_trace_level: SeverityFilter::Off,
    }
}

#[test]
fn map_returns_none_exactly_for_off() {
    assert_eq!(private_level_filter_to_levels(SeverityFilter::Off), None);
    assert_eq!(
        private_level_filter_to_levels(SeverityFilter::Error),
        Some((TracingLevel::Error, LogLevel::Error))
    );
    assert_eq!(
        private_level_filter_to_levels(SeverityFilter::Warn),
        Some((TracingLevel::Warn, LogLevel::Warn))
    );
    assert_eq!(
        private_level_filter_to_levels(SeverityFilter::Info),
        Some((TracingLevel::Info, LogLevel::Info))
    );
    assert_eq!(
        private_level_filter_to_levels(SeverityFilter::Debug),
        Some((TracingLevel::Debug, LogLevel::Debug))
    );
    assert_eq!(
        private_level_filter_to_levels(SeverityFilter::Trace),
        Some((TracingLevel::Trace, LogLevel::Trace))
    );
}

#[test]
fn enabled_dispatch_routes_each_level_to_its_own_entry() {
    let levels = [
        TracingLevel::Error,
        TracingLevel::Warn,
        TracingLevel::Info,
        TracingLevel::Debug,
        TracingLevel::Trace,
    ];
    for (i, probe) in levels.iter().enumerate() {
        let state = EnabledLevels {
            error: i == 0,
            warn: i == 1,
            info: i == 2,
            debug: i == 3,
            trace: i == 4,
        };
        for (j, level) in levels.iter().enumerate() {
            assert_eq!(tracing_enabled_for(&state, *level), i == j, "probe {probe:?}");
        }
    }
}

#[test]
fn summarize_takes_first_four_tokens() {
    assert_eq!(parse_query_summary("SELECT * FROM users WHERE id = 1"), "SELECT * FROM users");
}

#[test]
fn summarize_keeps_short_input() {
    assert_eq!(parse_query_summary("COMMIT"), "COMMIT");
    assert_eq!(parse_query_summary("SELECT 1"), "SELECT 1");
    assert_eq!(parse_query_summary(""), "");
    assert_eq!(parse_query_summary("   "), "");
}

#[test]
fn summarize_normalizes_whitespace() {
    assert_eq!(parse_query_summary("a\t b\n  c"), "a b c");
    assert_eq!(parse_query_summary("  UPDATE   t  SET x "), "UPDATE t SET x");
}

#[test]
fn summarize_splits_on_unicode_whitespace() {
    assert_eq!(parse_query_summary("a\u{a0}b\u{2003}c"), "a b c");
    assert_eq!(parse_query_summary("SELECT\u{85}*\u{3000}FROM t WHERE x"), "SELECT * FROM t");
}

#[test]
fn summarize_is_idempotent() {
    for sql in [
        "SELECT * FROM users WHERE id = 1",
        "COMMIT",
        "",
        "  a  b\tc\nd e f  ",
        "INSERT INTO t VALUES (1, 2, 3)",
    ] {
        let once = parse_query_summary(sql);
        let twice = parse_query_summary(&once);
        assert_eq!(once, twice, "input {sql:?}");
    }
}

#[test]
fn summarize_long_input_has_exactly_four_tokens() {
    let s = parse_query_summary("one two three four five six");
    assert_eq!(s.split_whitespace().count(), 4);
    assert_eq!(s, "one two three four");
}

#[test]
fn classify_slow_compares_against_threshold() {
    assert!(!classify_slow(5_000_000, 100_000_000));
    assert!(classify_slow(150_000_000, 100_000_000));
    assert!(classify_slow(100_000_000, 100_000_000));
    assert!(classify_slow(0, 0));
}

#[test]
fn select_level_picks_slow_level_only_when_slow() {
    let settings = scenario_settings();
    assert_eq!(select_level(&settings, false), SeverityFilter::Info);
    assert_eq!(select_level(&settings, true), SeverityFilter::Warn);
}

#[test]
fn should_emit_is_the_or_of_both_backends() {
    assert!(!should_emit(false, false));
    assert!(should_emit(true, false));
    assert!(should_emit(false, true));
    assert!(should_emit(true, true));
}

#[test]
fn span_level_off_never_opens_a_region() {
    let settings = scenario_settings();
    assert_eq!(span_level_to_open(&settings, &all_enabled(), &all_enabled()), None);
    let logger = QueryLogger::new("SELECT 1", settings, None);
    assert!(!logger.has_open_span());
}

#[test]
fn span_level_needs_acceptance_by_either_backend() {
    let mut settings = scenario_settings();
    settings.statements_trace_level = SeverityFilter::Debug;
    assert_eq!(
        span_level_to_open(&settings, &all_enabled(), &all_enabled()),
        Some(TracingLevel::Debug)
    );
    assert_eq!(span_level_to_open(&settings, &none_enabled(), &none_enabled()), None);
    let only_debug = EnabledLevels { error: false, warn: false, info: false, debug: true, trace: false };
    // The tracing backend alone accepting the level suffices.
    assert_eq!(
        span_level_to_open(&settings, &only_debug, &none_enabled()),
        Some(TracingLevel::Debug)
    );
    // The log backend alone accepting the level suffices too.
    assert_eq!(
        span_level_to_open(&settings, &none_enabled(), &only_debug),
        Some(TracingLevel::Debug)
    );
    let without_debug = EnabledLevels { error: true, warn: true, info: true, debug: false, trace: true };
    assert_eq!(span_level_to_open(&settings, &without_debug, &without_debug), None);
}

#[test]
fn build_display_fields_short_statement_has_empty_full_field() {
    let (summary, statement) = build_display_fields("COMMIT");
    assert_eq!(summary, "COMMIT");
    assert_eq!(statement, "");
}

#[test]
fn build_display_fields_long_statement_is_reformatted() {
    let sql = "SELECT * FROM users WHERE id = 1";
    let (summary, statement) = build_display_fields(sql);
    assert_eq!(summary, "SELECT * FROM users …");
    assert!(statement.starts_with("\n\n"));
    assert!(statement.ends_with('\n'));
    assert!(statement.contains("FROM"));
    // The full-statement field holds a pretty-printed form, not the raw text.
    assert_ne!(statement, format!("\n\n{}\n", sql));
}

#[test]
fn scenario_normal_query_emits_one_info_event() {
    let sql = "SELECT * FROM users WHERE id = 1";
    let mut logger = QueryLogger::new(sql, scenario_settings(), None);
    logger.increment_rows_returned();
    let cmd = logger
        .finish_with_elapsed(Duration::from_millis(5), 5_000_000, &all_enabled(), &none_enabled())
        .expect("an event is owed when the backend accepts the level");
    assert_eq!(cmd.tracing_level, TracingLevel::Info);
    assert!(!cmd.was_slow);
    assert_eq!(cmd.summary, "SELECT * FROM users …");
    assert!(!cmd.statement.is_empty());
    assert_eq!(cmd.rows_returned, 1);
    assert_eq!(cmd.rows_affected, 0);
    assert_eq!(cmd.message, "");
    assert!(!cmd.message.contains("slow"));
}

#[test]
fn scenario_slow_query_emits_one_warn_event_with_marker() {
    let sql = "SELECT * FROM users WHERE id = 1";
    let mut logger = QueryLogger::new(sql, scenario_settings(), None);
    let cmd = logger
        .finish_with_elapsed(Duration::from_millis(150), 150_000_000, &all_enabled(), &none_enabled())
        .expect("an event is owed when the backend accepts the level");
    assert_eq!(cmd.tracing_level, TracingLevel::Warn);
    assert!(cmd.was_slow);
    assert!(cmd.message.contains("slow"));
    assert_eq!(cmd.threshold_nanos, 100_000_000);
    assert_eq!(cmd.elapsed, Duration::from_millis(150));
}

#[test]
fn scenario_both_levels_off_emits_nothing() {
    let settings = LogSettings {
        statements_level: SeverityFilter::Off,
        slow_statements_level: SeverityFilter::Off,
        slow_statements_duration_nanos: 100_000_000,
        statements_trace_level: SeverityFilter::Off,
    };
    let mut fast = QueryLogger::new("SELECT 1", settings, None);
    assert!(fast.finish_with_elapsed(Duration::from_millis(5), 5_000_000, &all_enabled(), &none_enabled()).is_none());
    let mut slow = QueryLogger::new("SELECT 1", settings, None);
    assert!(
        slow.finish_with_elapsed(Duration::from_secs(10), 10_000_000_000, &all_enabled(), &all_enabled()).is_none()
    );
}

#[test]
fn scenario_short_statement_has_empty_statement_field() {
    let mut logger = QueryLogger::new("COMMIT", scenario_settings(), None);
    let cmd = logger
        .finish_with_elapsed(Duration::from_millis(5), 5_000_000, &all_enabled(), &none_enabled())
        .expect("an event is owed when the backend accepts the level");
    assert_eq!(cmd.summary, "COMMIT");
    assert_eq!(cmd.statement, "");
}

#[test]
fn backend_rejection_on_both_sides_suppresses_the_event() {
    let mut logger = QueryLogger::new("SELECT 1", scenario_settings(), None);
    assert!(
        logger.finish_with_elapsed(Duration::from_millis(5), 5_000_000, &none_enabled(), &none_enabled()).is_none()
    );
}

#[test]
fn log_backend_acceptance_alone_forces_the_event() {
    let mut logger = QueryLogger::new("SELECT * FROM users WHERE id = 1", scenario_settings(), None);
    let cmd = logger
        .finish_with_elapsed(Duration::from_millis(5), 5_000_000, &none_enabled(), &all_enabled())
        .expect("the log backend alone accepting the level is sufficient cause");
    assert_eq!(cmd.tracing_level, TracingLevel::Info);
    assert!(!cmd.was_slow);
}

#[test]
fn second_finalization_is_a_no_op() {
    let mut logger = QueryLogger::new("SELECT 1", scenario_settings(), None);
    assert!(!logger.is_finished());
    let first = logger.finish_with_elapsed(Duration::from_millis(5), 5_000_000, &all_enabled(), &none_enabled());
    assert!(first.is_some());
    assert!(logger.is_finished());
    assert!(!logger.has_open_span());
    let second = logger.finish_with_elapsed(Duration::from_millis(5), 5_000_000, &all_enabled(), &none_enabled());
    assert!(second.is_none());
    let third = logger.finish(&all_enabled(), &none_enabled());
    assert!(third.is_none());
}

#[test]
fn counters_accumulate_independently() {
    let mut logger = QueryLogger::new("SELECT 1", scenario_settings(), None);
    logger.increment_rows_returned();
    logger.increment_rows_returned();
    logger.increase_rows_affected(5);
    logger.increment_rows_returned();
    logger.increase_rows_affected(2);
    assert_eq!(logger.rows_returned_count(), 3);
    assert_eq!(logger.rows_affected_count(), 7);
    let cmd = logger
        .finish_with_elapsed(Duration::from_millis(1), 1_000_000, &all_enabled(), &none_enabled())
        .expect("an event is owed when the backend accepts the level");
    assert_eq!(cmd.rows_returned, 3);
    assert_eq!(cmd.rows_affected, 7);
}

#[test]
fn finish_measures_time_itself() {
    let settings = LogSettings {
        statements_level: SeverityFilter::Debug,
        slow_statements_level: SeverityFilter::Error,
        slow_statements_duration_nanos: 0,
        statements_trace_level: SeverityFilter::Off,
    };
    let mut logger = QueryLogger::new("SELECT 1", settings, None);
    let cmd = logger.finish(&all_enabled(), &none_enabled()).expect("threshold zero classifies every query slow");
    assert!(cmd.was_slow);
    assert_eq!(cmd.tracing_level, TracingLevel::Error);
    assert!(cmd.message.contains("slow"));
    assert_eq!(cmd.threshold_nanos, 0);
}
