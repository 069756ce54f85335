use profile_backend::logging::{file_log_line, log_level_from_env, log_line, parse_level_filter, LevelFilter};
use profile_backend::text::{
    int_to_text, lowercase_equals, message_with_id, normalize_optional_string_change,
    normalize_optional_text, text_equals, trim, trim_to_string,
};

#[test]
fn int_to_text_matches_decimal_formatting() {
    assert_eq!(int_to_text(0), "0");
    assert_eq!(int_to_text(42), "42");
    assert_eq!(int_to_text(-7), "-7");
    assert_eq!(int_to_text(999999), "999999");
    assert_eq!(int_to_text(i32::MAX), "2147483647");
    assert_eq!(int_to_text(i32::MIN), "-2147483648");
}

#[test]
fn message_with_id_inserts_the_id() {
    assert_eq!(
        message_with_id("Resume with id ", 999999, " not found"),
        "Resume with id 999999 not found"
    );
}

#[test]
fn trim_removes_unicode_white_space_on_both_ends() {
    assert_eq!(trim("  hello \t\n"), "hello");
    assert_eq!(trim("\u{3000}x y\u{a0}"), "x y");
    assert_eq!(trim("   "), "");
    assert_eq!(trim(""), "");
    assert_eq!(trim_to_string(" Rust "), "Rust".to_string());
}

#[test]
fn normalize_optional_text_drops_blank_values() {
    assert_eq!(normalize_optional_text(None), None);
    assert_eq!(normalize_optional_text(Some("   ".to_string())), None);
    assert_eq!(
        normalize_optional_text(Some("  Example Corp ".to_string())),
        Some("Example Corp".to_string())
    );
}

#[test]
fn normalize_optional_string_change_keeps_the_three_cases_apart() {
    assert_eq!(normalize_optional_string_change(None), None);
    assert_eq!(normalize_optional_string_change(Some(None)), Some(None));
    assert_eq!(
        normalize_optional_string_change(Some(Some(" \t".to_string()))),
        Some(None)
    );
    assert_eq!(
        normalize_optional_string_change(Some(Some(" Did things ".to_string()))),
        Some(Some("Did things".to_string()))
    );
}

#[test]
fn text_comparisons() {
    assert!(text_equals("subscribe", "subscribe"));
    assert!(!text_equals("subscribe", "Subscribe"));
    assert!(lowercase_equals("WaRn", "warn"));
    assert!(!lowercase_equals("warns", "warn"));
}

#[test]
fn parse_level_filter_names() {
    assert_eq!(parse_level_filter("off"), LevelFilter::Off);
    assert_eq!(parse_level_filter(" ERROR "), LevelFilter::Error);
    assert_eq!(parse_level_filter("warning"), LevelFilter::Warn);
    assert_eq!(parse_level_filter("Critical"), LevelFilter::Warn);
    assert_eq!(parse_level_filter("normal"), LevelFilter::Info);
    assert_eq!(parse_level_filter("debug"), LevelFilter::Debug);
    assert_eq!(parse_level_filter("TRACE"), LevelFilter::Trace);
    assert_eq!(parse_level_filter("verbose"), LevelFilter::Info);
    assert_eq!(parse_level_filter(""), LevelFilter::Info);
}

#[test]
fn log_level_prefers_rust_log_then_rocket_log_level() {
    assert_eq!(log_level_from_env(Some("debug"), Some("off")), LevelFilter::Debug);
    assert_eq!(log_level_from_env(None, Some("off")), LevelFilter::Off);
    assert_eq!(log_level_from_env(None, Some("CRITICAL")), LevelFilter::Warn);
    assert_eq!(log_level_from_env(None, Some("trace")), LevelFilter::Info);
    assert_eq!(log_level_from_env(None, Some(" debug")), LevelFilter::Info);
    assert_eq!(log_level_from_env(None, None), LevelFilter::Info);
}

#[test]
fn log_lines() {
    assert_eq!(log_line("2024-01-01T00:00:00Z", "INFO", "started"), "[2024-01-01T00:00:00Z INFO] started");
    assert_eq!(
        file_log_line("2024-01-01T00:00:00Z", "WARN", "\u{1b}[31mred\u{1b}[0m alert"),
        "[2024-01-01T00:00:00Z WARN] red alert"
    );
    assert_eq!(file_log_line("t", "INFO", "plain"), "[t INFO] plain");
}
