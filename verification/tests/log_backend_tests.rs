//! Exercises the log-backend enabled checks against a real installed logger.
//! These live in their own file because a process can install a logger only
//! once.

use query_logger::{EnabledLevels, LogLevel, log_dynamic_enabled, log_enabled_for, probe_log_enabled};

struct AcceptAll;

impl log::Log for AcceptAll {
    fn enabled(&self, _metadata: &log::Metadata) -> bool {
        true
    }

    fn log(&self, _record: &log::Record) {}

    fn flush(&self) {}
}

#[test]
fn log_backend_dispatch_follows_the_global_max_level() {
    // Before any logger is installed every level is rejected.
    assert!(!log_dynamic_enabled(LogLevel::Error));
    assert!(!log_dynamic_enabled(LogLevel::Trace));

    log::set_logger(Box::leak(Box::new(AcceptAll))).expect("first and only installation");
    log::set_max_level(log::LevelFilter::Warn);

    assert!(log_dynamic_enabled(LogLevel::Error));
    assert!(log_dynamic_enabled(LogLevel::Warn));
    assert!(!log_dynamic_enabled(LogLevel::Info));
    assert!(!log_dynamic_enabled(LogLevel::Debug));
    assert!(!log_dynamic_enabled(LogLevel::Trace));
    assert_eq!(
        probe_log_enabled(),
        EnabledLevels { error: true, warn: true, info: false, debug: false, trace: false }
    );

    log::set_max_level(log::LevelFilter::Trace);
    assert!(log_dynamic_enabled(LogLevel::Trace));

    log::set_max_level(log::LevelFilter::Off);
    assert!(!log_dynamic_enabled(LogLevel::Error));
}

#[test]
fn log_dispatch_routes_each_level_to_its_own_entry() {
    let levels = [
        LogLevel::Error,
        LogLevel::Warn,
        LogLevel::Info,
        LogLevel::Debug,
        LogLevel::Trace,
    ];
    for (i, probe) in levels.iter().enumerate() {
        let state = EnabledLevels {
            error: i == 0,
            warn: i == 1,
            info: i == 2,
            debug: i == 3,
            trace: i == 4,
        };
        for (j, level) in levels.iter().enumerate() {
            assert_eq!(log_enabled_for(&state, *level), i == j, "probe {probe:?}");
        }
    }
}
