use tallr::notify::{
    alert_state, should_notify, should_send_enhanced_notification, threshold_for,
    DEFAULT_THRESHOLD_BITS, INFINITY_BITS, NETWORK_THRESHOLD_BITS, PATTERN_THRESHOLD_BITS,
    SESSION_FILE_THRESHOLD_BITS,
};
use tallr::types::{Confidence, EnhancedStateContext};

fn score(value: f64) -> Option<Confidence> {
    Some(Confidence { bits: value.to_bits() })
}

fn context(method: &str, value: f64) -> EnhancedStateContext {
    EnhancedStateContext {
        network: None,
        session: None,
        detection_method: method.to_string(),
        confidence: Confidence { bits: value.to_bits() },
        confidence_percent: format!("{:.1}", value * 100.0),
        confidence_percent_rounded: format!("{:.0}", value * 100.0),
        timestamp: 0,
        raw_data: None,
    }
}

#[test]
fn session_file_below_threshold_is_silent() {
    assert!(!should_notify("PENDING", "session-file", score(0.80)));
}

#[test]
fn session_file_above_threshold_notifies() {
    assert!(should_notify("PENDING", "session-file", score(0.90)));
}

#[test]
fn working_never_notifies() {
    assert!(!should_notify("WORKING", "network", score(0.99)));
}

#[test]
fn thresholds_are_the_bit_patterns_of_the_documented_scores() {
    assert_eq!(NETWORK_THRESHOLD_BITS, 0.8f64.to_bits());
    assert_eq!(SESSION_FILE_THRESHOLD_BITS, 0.85f64.to_bits());
    assert_eq!(PATTERN_THRESHOLD_BITS, 0.7f64.to_bits());
    assert_eq!(DEFAULT_THRESHOLD_BITS, 0.75f64.to_bits());
    assert_eq!(INFINITY_BITS, f64::INFINITY.to_bits());
}

#[test]
fn each_method_has_its_threshold() {
    assert_eq!(threshold_for("network"), 0.8f64.to_bits());
    assert_eq!(threshold_for("session-file"), 0.85f64.to_bits());
    assert_eq!(threshold_for("pattern"), 0.7f64.to_bits());
    assert_eq!(threshold_for("unknown"), 0.75f64.to_bits());
    assert_eq!(threshold_for(""), 0.75f64.to_bits());
    assert_eq!(threshold_for("hooks"), 0.75f64.to_bits());
}

#[test]
fn a_score_at_the_threshold_notifies() {
    assert!(should_notify("PENDING", "network", score(0.8)));
    assert!(should_notify("ERROR", "session-file", score(0.85)));
    assert!(should_notify("ERROR", "pattern", score(0.7)));
    assert!(should_notify("PENDING", "something-else", score(0.75)));
}

#[test]
fn a_score_just_below_the_threshold_is_silent() {
    let below = |t: f64| Some(Confidence { bits: t.to_bits() - 1 });
    assert!(!should_notify("PENDING", "network", below(0.8)));
    assert!(!should_notify("ERROR", "session-file", below(0.85)));
    assert!(!should_notify("ERROR", "pattern", below(0.7)));
    assert!(!should_notify("PENDING", "something-else", below(0.75)));
}

#[test]
fn the_decision_agrees_with_the_comparison_of_the_doubles() {
    let samples = [
        0.0,
        -0.0,
        0.1,
        0.5,
        0.69,
        0.7,
        0.74,
        0.75,
        0.79999,
        0.8,
        0.84999,
        0.85,
        0.9,
        1.0,
        2.5,
        -0.9,
        -1.0,
        f64::MIN_POSITIVE,
        f64::MAX,
        f64::MIN,
        f64::INFINITY,
        f64::NEG_INFINITY,
        f64::NAN,
        -f64::NAN,
    ];
    let methods = [("network", 0.8), ("session-file", 0.85), ("pattern", 0.7), ("other", 0.75)];
    for value in samples {
        for (method, threshold) in methods {
            assert_eq!(
                should_notify("PENDING", method, score(value)),
                value >= threshold,
                "{value} against {method}"
            );
        }
    }
}

#[test]
fn without_a_score_every_alert_state_notifies() {
    assert!(should_notify("PENDING", "network", None));
    assert!(should_notify("ERROR", "session-file", None));
    assert!(should_notify("PENDING", "unknown", None));
    assert!(!should_notify("WORKING", "network", None));
    assert!(!should_notify("IDLE", "network", None));
    assert!(!should_notify("DONE", "network", None));
    assert!(!should_notify("pending", "network", None));
    assert!(!should_notify("", "network", None));
}

#[test]
fn only_pending_and_error_are_alert_states() {
    assert!(alert_state("PENDING"));
    assert!(alert_state("ERROR"));
    assert!(!alert_state("WORKING"));
    assert!(!alert_state("IDLE"));
    assert!(!alert_state("DONE"));
    assert!(!alert_state("PENDING "));
    assert!(!alert_state("WAITING_USER"));
}

#[test]
fn a_report_with_context_follows_the_same_policy() {
    assert!(!should_send_enhanced_notification("PENDING", &context("session-file", 0.80), "WORKING"));
    assert!(should_send_enhanced_notification("PENDING", &context("session-file", 0.90), "WORKING"));
    assert!(!should_send_enhanced_notification("WORKING", &context("network", 0.99), "IDLE"));
    assert!(should_send_enhanced_notification("ERROR", &context("network", 0.8), "ERROR"));
    assert!(!should_send_enhanced_notification("ERROR", &context("network", f64::NAN), "IDLE"));
}
