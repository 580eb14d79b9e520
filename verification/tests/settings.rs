use v2ray_maid::settings::{default_loglevel, default_program, AppSettings};
use v2ray_maid::utils::{port_step, PortStep, RETRY_DELAY_MILLIS};

fn settings(concurrency: Option<usize>) -> AppSettings {
    AppSettings {
        sub_url: "https://example.org/feed".to_string(),
        loglevel: default_loglevel(),
        program: default_program(),
        ping_times: None,
        proxies: None,
        concurrency,
    }
}

#[test]
fn defaults_of_the_settings() {
    assert_eq!(default_loglevel(), "info");
    assert_eq!(default_program(), "v2ray");
}

#[test]
fn samples_default_to_five() {
    let mut s = settings(None);
    assert_eq!(s.samples(), 5);
    s.ping_times = Some(3);
    assert_eq!(s.samples(), 3);
}

#[test]
fn configured_concurrency_of_at_least_one_is_kept() {
    let mut s = settings(Some(3));
    s.settle_concurrency(8);
    assert_eq!(s.concurrency, Some(3));
    let mut s = settings(Some(1));
    s.settle_concurrency(8);
    assert_eq!(s.concurrency, Some(1));
}

#[test]
fn missing_or_zero_concurrency_becomes_the_processor_count() {
    let mut s = settings(None);
    s.settle_concurrency(8);
    assert_eq!(s.concurrency, Some(8));
    let mut s = settings(Some(0));
    s.settle_concurrency(6);
    assert_eq!(s.concurrency, Some(6));
    assert_eq!(s.sub_url, "https://example.org/feed");
}

#[test]
fn concurrency_settled_on_this_machine() {
    let mut s = settings(Some(4));
    s.settle_concurrency_here();
    assert_eq!(s.concurrency, Some(4));
    let mut s = settings(None);
    s.settle_concurrency_here();
    assert!(s.concurrency.is_some());
}

#[test]
fn port_is_leased_when_the_bind_succeeds() {
    assert_eq!(port_step(Some(51234)), PortStep::Leased(51234));
    assert_eq!(port_step(Some(0)), PortStep::Leased(0));
}

#[test]
fn failed_bind_is_retried_after_a_short_delay() {
    assert_eq!(RETRY_DELAY_MILLIS, 100);
    assert_eq!(port_step(None), PortStep::RetryAfter(100));
    // However often the bind fails, the answer is to try again.
    for _ in 0..1000 {
        assert_eq!(port_step(None), PortStep::RetryAfter(100));
    }
}
