use rv::render::push_decimal;
use rv::{decide, DisplayOptions, SampleDecision, Sampler};

fn plain() -> DisplayOptions {
    DisplayOptions {
        size_hint: None,
        progress_bar: false,
        show_timer: false,
        show_eta: false,
        show_rate: false,
        numeric_only: false,
        quiet: false,
    }
}

#[test]
fn decide_stops_on_completion() {
    assert_eq!(decide(true, 0), SampleDecision::Stop);
    assert_eq!(decide(true, 5), SampleDecision::Stop);
    assert_eq!(decide(false, 0), SampleDecision::Wait);
    assert_eq!(decide(false, 1), SampleDecision::Sample);
    assert_eq!(decide(false, 3), SampleDecision::Sample);
}

#[test]
fn slow_producer_reports_zero_rate() {
    let mut s = Sampler::new();
    assert_eq!(s.record(400_000), Some(0));
    assert_eq!(s.record(999_999), Some(0));
    assert_eq!(s.total(), 0);
    assert_eq!(s.bytes(), 1_399_999);
    assert_eq!(decide(false, 1), SampleDecision::Sample);
}

#[test]
fn total_accumulates_rates() {
    let mut s = Sampler::new();
    assert_eq!(s.record(2_500_000), Some(2));
    assert_eq!(s.record(7_000_000), Some(7));
    assert_eq!(s.total(), 9);
    assert_eq!(s.rate(), 7);
    assert_eq!(s.record(0), Some(0));
    assert_eq!(s.total(), 9);
    assert_eq!(s.rate(), 0);
}

#[test]
fn record_refuses_overflow() {
    let mut s = Sampler::new();
    assert_eq!(s.record(u64::MAX), Some(u64::MAX / 1_000_000));
    assert_eq!(s.record(1), None);
    assert_eq!(s.bytes(), u64::MAX);
    assert_eq!(s.total(), u64::MAX / 1_000_000);
}

#[test]
fn status_line_plain() {
    let mut s = Sampler::new();
    assert_eq!(s.status_line(&plain(), 0), "  Total: 0MB -- [MB/s]: 0\r");
    s.record(3_000_000);
    s.record(12_000_000);
    assert_eq!(s.status_line(&plain(), 2), "  Total: 15MB -- [MB/s]: 12\r");
}

#[test]
fn status_line_quiet_is_empty() {
    let mut s = Sampler::new();
    s.record(3_000_000);
    let opts = DisplayOptions { quiet: true, show_timer: true, ..plain() };
    assert_eq!(s.status_line(&opts, 4), "");
}

#[test]
fn status_line_timer_and_percent() {
    let mut s = Sampler::new();
    s.record(25_000_000);
    let opts = DisplayOptions { size_hint: Some(100_000_000), show_timer: true, numeric_only: true, ..plain() };
    assert_eq!(s.status_line(&opts, 7), "  Total: 25MB -- [MB/s]: 25 -- Time: 7s -- 25%\r");
}

#[test]
fn status_line_bar_and_eta() {
    let mut s = Sampler::new();
    s.record(50_000_000);
    let opts = DisplayOptions { size_hint: Some(100_000_000), progress_bar: true, show_eta: true, ..plain() };
    assert_eq!(
        s.status_line(&opts, 1),
        "  Total: 50MB -- [MB/s]: 50 [##########----------] -- ETA: 1s\r"
    );
}

#[test]
fn status_line_eta_unknown_and_done() {
    let mut s = Sampler::new();
    s.record(0);
    let opts = DisplayOptions { size_hint: Some(10), show_eta: true, ..plain() };
    assert_eq!(s.status_line(&opts, 1), "  Total: 0MB -- [MB/s]: 0 -- ETA: ?\r");
    s.record(20);
    let opts = DisplayOptions { size_hint: Some(10), show_eta: true, numeric_only: true, ..plain() };
    assert_eq!(s.status_line(&opts, 2), "  Total: 0MB -- [MB/s]: 0 -- 100% -- ETA: 0s\r");
}

#[test]
fn decimal_digits() {
    let mut out = String::from("n=");
    push_decimal(&mut out, 0);
    assert_eq!(out, "n=0");
    let mut out = String::new();
    push_decimal(&mut out, 1090);
    assert_eq!(out, "1090");
    let mut out = String::new();
    push_decimal(&mut out, u64::MAX);
    assert_eq!(out, "18446744073709551615");
}
