use mailbackup::arguments::{LevelFilter, Verbosity};
use mailbackup::time_delta::TimeDelta;

#[test]
fn can_format_time_delta() {
    let elapsed = TimeDelta::seconds(14249).format();

    assert_eq!("03:57:29", elapsed);
}

#[test]
fn formats_zero_seconds() {
    assert_eq!("00:00:00", TimeDelta::seconds(0).format());
}

#[test]
fn formats_unbounded_hours() {
    // 123 hours, 1 minute, 5 seconds: hours keep all their digits.
    let total = 123 * 3600 + 60 + 5;
    assert_eq!("123:01:05", TimeDelta::seconds(total).format());
}

#[test]
fn reports_seconds_back() {
    assert_eq!(14249, TimeDelta::seconds(14249).num_seconds());
}

#[test]
fn verbosity_picks_trace_for_debug() {
    let verbosity = Verbosity { debug: true, verbose: true, quiet: true };
    assert_eq!(LevelFilter::Trace, verbosity.to_filter());
}

#[test]
fn verbosity_picks_debug_for_verbose() {
    let verbosity = Verbosity { debug: false, verbose: true, quiet: false };
    assert_eq!(LevelFilter::Debug, verbosity.to_filter());
}

#[test]
fn verbosity_picks_warn_for_quiet() {
    let verbosity = Verbosity { debug: false, verbose: false, quiet: true };
    assert_eq!(LevelFilter::Warn, verbosity.to_filter());
}

#[test]
fn verbosity_defaults_to_info() {
    let verbosity = Verbosity { debug: false, verbose: false, quiet: false };
    assert_eq!(LevelFilter::Info, verbosity.to_filter());
}
