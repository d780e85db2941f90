use llmtrain_monitor::config::{
    accept_pattern, compile_metric_pattern, require_capture_group, ConfigError, Configuration,
};
use llmtrain_monitor::logtail::{extract_metrics, select_recent, METRIC_CAP};

fn lines(texts: &[&str]) -> Vec<String> {
    texts.iter().map(|t| t.to_string()).collect()
}

fn configured(pattern: &str) -> Configuration {
    Configuration::new(
        "trainer".to_string(),
        1,
        Some("train.log".to_string()),
        Some(pattern.to_string()),
    )
    .unwrap()
}

#[test]
fn extracts_matching_lines_most_recent_first() {
    let pattern = compile_metric_pattern(r"a=(\d)").unwrap();
    let got = extract_metrics(&lines(&["a=1", "b=2", "a=3"]), &pattern);
    assert_eq!(got, vec!["3".to_string(), "1".to_string()]);
}

#[test]
fn log_report_extracts_through_the_configuration() {
    let config = configured(r"a=(\d)");
    let report = config.log_report(Some(&lines(&["a=1", "b=2", "a=3"])));
    assert_eq!(report.metrics, vec!["3".to_string(), "1".to_string()]);
    assert!(!report.open_failed);
}

#[test]
fn unopenable_log_is_reported_and_empty() {
    let config = configured(r"a=(\d)");
    let report = config.log_report(None);
    assert!(report.metrics.is_empty());
    assert!(report.open_failed);
}

#[test]
fn empty_file_gives_nothing_and_no_report() {
    let config = configured(r"loss=(\S+)");
    let report = config.log_report(Some(&Vec::new()));
    assert!(report.metrics.is_empty());
    assert!(!report.open_failed);
}

#[test]
fn extraction_stops_after_ten_matches() {
    let mut all = Vec::new();
    for i in 0..15 {
        all.push(format!("step {} loss={}", i, i * 2));
        all.push("noise".to_string());
    }
    let pattern = compile_metric_pattern(r"loss=(\d+)").unwrap();
    let got = extract_metrics(&all, &pattern);
    assert_eq!(got.len(), METRIC_CAP);
    let want: Vec<String> = (5..15).rev().map(|i| format!("{}", i * 2)).collect();
    assert_eq!(got, want);
}

#[test]
fn lines_without_a_match_are_passed_over() {
    let pattern = compile_metric_pattern(r"loss=(\d+)").unwrap();
    let got = extract_metrics(&lines(&["hello", "world"]), &pattern);
    assert!(got.is_empty());
}

#[test]
fn first_group_is_taken_not_the_whole_match() {
    let pattern = compile_metric_pattern(r"loss=(\d+) acc=(\d+)").unwrap();
    let got = extract_metrics(&lines(&["loss=12 acc=99"]), &pattern);
    assert_eq!(got, vec!["12".to_string()]);
}

#[test]
fn group_that_took_no_part_gives_empty_text() {
    let pattern = compile_metric_pattern(r"x(\d)?y").unwrap();
    let got = extract_metrics(&lines(&["x1y", "xy"]), &pattern);
    assert_eq!(got, vec!["".to_string(), "1".to_string()]);
}

#[test]
fn path_without_pattern_is_inert() {
    let config =
        Configuration::new("trainer".to_string(), 1, Some("train.log".to_string()), None).unwrap();
    assert_eq!(config.log_target(), None);
    let report = config.log_report(None);
    assert!(report.metrics.is_empty());
    assert!(!report.open_failed);
    let report = config.log_report(Some(&lines(&["a=1"])));
    assert!(report.metrics.is_empty());
}

#[test]
fn pattern_without_path_is_inert() {
    let config =
        Configuration::new("trainer".to_string(), 1, None, Some(r"a=(\d)".to_string())).unwrap();
    assert_eq!(config.log_target(), None);
    let report = config.log_report(Some(&lines(&["a=1"])));
    assert!(report.metrics.is_empty());
    assert!(!report.open_failed);
}

#[test]
fn log_target_is_the_path_when_both_are_given() {
    let config = configured(r"a=(\d)");
    assert_eq!(config.log_target(), Some("train.log"));
}

#[test]
fn select_recent_keeps_the_latest_up_to_the_cap() {
    let found = vec![
        Some("1".to_string()),
        None,
        Some("2".to_string()),
        Some("3".to_string()),
        None,
    ];
    assert_eq!(select_recent(&found, 2), vec!["3".to_string(), "2".to_string()]);
    assert_eq!(
        select_recent(&found, 10),
        vec!["3".to_string(), "2".to_string(), "1".to_string()]
    );
    assert!(select_recent(&found, 0).is_empty());
    assert!(select_recent(&Vec::new(), 3).is_empty());
}

#[test]
fn zero_interval_is_refused() {
    let r = Configuration::new("trainer".to_string(), 0, None, None);
    assert_eq!(r.err(), Some(ConfigError::InvalidInterval));
}

#[test]
fn zero_interval_is_judged_before_the_pattern() {
    let r = Configuration::new("trainer".to_string(), 0, None, Some("(".to_string()));
    assert_eq!(r.err(), Some(ConfigError::InvalidInterval));
}

#[test]
fn pattern_that_does_not_compile_is_refused() {
    let r = Configuration::new("trainer".to_string(), 1, None, Some("a=(".to_string()));
    assert_eq!(r.err(), Some(ConfigError::InvalidPattern));
}

#[test]
fn pattern_without_capture_group_is_refused() {
    let r = Configuration::new("trainer".to_string(), 1, None, Some(r"a=\d".to_string()));
    assert_eq!(r.err(), Some(ConfigError::MissingCaptureGroup));
    let r = Configuration::new("trainer".to_string(), 1, None, Some(r"a=(?:\d)".to_string()));
    assert_eq!(r.err(), Some(ConfigError::MissingCaptureGroup));
}

#[test]
fn capture_group_requirement_counts_the_implicit_group() {
    assert_eq!(require_capture_group(0), Err(ConfigError::MissingCaptureGroup));
    assert_eq!(require_capture_group(1), Err(ConfigError::MissingCaptureGroup));
    assert_eq!(require_capture_group(2), Ok(()));
    assert_eq!(require_capture_group(5), Ok(()));
}

#[test]
fn compiled_metric_pattern_matches_as_written() {
    let pattern = compile_metric_pattern(r"loss=(\d+)").unwrap();
    assert_eq!(pattern.source(), r"loss=(\d+)");
    assert_eq!(extract_metrics(&lines(&["loss=3"]), &pattern), vec!["3".to_string()]);
    assert!(extract_metrics(&lines(&[r"loss=(\d+)"]), &pattern).is_empty());
}

#[test]
fn configuration_keeps_its_values() {
    let config = Configuration::new(
        "sleep".to_string(),
        7,
        Some("/var/log/x.log".to_string()),
        Some(r"v=(\w+)".to_string()),
    )
    .unwrap();
    assert_eq!(config.process_name(), "sleep");
    assert_eq!(config.tick_interval_secs(), 7);
    assert_eq!(config.log_target(), Some("/var/log/x.log"));
}

#[test]
fn pattern_that_did_not_compile_is_judged_invalid() {
    let failure = regex::Regex::new("a=(").unwrap_err();
    assert_eq!(accept_pattern(Err(failure)).err(), Some(ConfigError::InvalidPattern));
}

#[test]
fn configuration_is_assembled_from_the_compile_outcome() {
    let failure = regex::Regex::new("a=(").unwrap_err();
    let r = Configuration::assemble("trainer".to_string(), 1, None, Some(Err(failure.clone())));
    assert_eq!(r.err(), Some(ConfigError::InvalidPattern));
    let r = Configuration::assemble("trainer".to_string(), 0, None, Some(Err(failure)));
    assert_eq!(r.err(), Some(ConfigError::InvalidInterval));
    let r = Configuration::assemble("trainer".to_string(), 0, None, None);
    assert_eq!(r.err(), Some(ConfigError::InvalidInterval));
    let config =
        Configuration::assemble("trainer".to_string(), 3, Some("x.log".to_string()), None).unwrap();
    assert_eq!(config.tick_interval_secs(), 3);
    assert_eq!(config.log_target(), None);
}
