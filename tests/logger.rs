use engine::logger::compose_log_line;
use engine::logger::format_log_entry;
use engine::logger::LogSeverity;
use engine::logger::LOG_TIME_PATTERN;

#[test]
fn log_line_layout() {
    assert_eq!(
        "[2024-01-01 00:00:00.000000000 UTC] Critical: Test log message\n",
        compose_log_line("2024-01-01 00:00:00.000000000 UTC", LogSeverity::Critical, "Test log message")
    );
    assert_eq!("[] Debug: \n", compose_log_line("", LogSeverity::Debug, ""));
}

#[test]
fn log_entry_carries_utc_timestamp() {
    assert_eq!(
        Some(String::from("[1970-01-01 00:00:00.000000000 UTC] Info: Game started\n")),
        format_log_entry(0, LogSeverity::Info, "Game started")
    );
    assert_eq!(
        Some(String::from("[2001-09-09 01:46:40.000000001 UTC] Warning: w\n")),
        format_log_entry(1_000_000_000_000_000_001, LogSeverity::Warning, "w")
    );
    assert_eq!(
        Some(String::from("[1969-12-31 23:59:59.999999999 UTC] Error: e\n")),
        format_log_entry(-1, LogSeverity::Error, "e")
    );
}

#[test]
fn severity_names() {
    assert_eq!("Debug", LogSeverity::Debug.name());
    assert_eq!("Info", LogSeverity::Info.name());
    assert_eq!("Warning", LogSeverity::Warning.name());
    assert_eq!("Error", LogSeverity::Error.name());
    assert_eq!("Critical", LogSeverity::Critical.name());
}

#[test]
fn log_time_pattern_is_date_time_and_zone() {
    assert_eq!("%Y-%m-%d %H:%M:%S%.9f %Z", LOG_TIME_PATTERN);
}
