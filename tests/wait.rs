use web_sys_ec::span::TimeSpan;
use web_sys_ec::wait_options::WaitOptions;
use web_sys_ec::Wait;

#[test]
fn waiter_from_seconds() {
    let waiter = Wait(10);

    assert_eq!(waiter.options.duration.as_millis(), 10000);
    assert_eq!(waiter.options.poll_frecuency.as_millis(), 200);

    let waiter = Wait(2);

    assert_eq!(waiter.options.duration.as_millis(), 2000);
    assert_eq!(waiter.options.poll_frecuency.as_millis(), 40);
}

#[test]
fn waiter_from_tuple() {
    let waiter = Wait((10, 2));

    assert_eq!(waiter.options.duration.as_millis(), 10000);
    assert_eq!(waiter.options.poll_frecuency.as_millis(), 2000);

    let waiter = Wait((2, 1));

    assert_eq!(waiter.options.duration.as_millis(), 2000);
    assert_eq!(waiter.options.poll_frecuency.as_millis(), 1000);
}

#[test]
fn waiter_from_duration_takes_a_twentieth() {
    let waiter = Wait(TimeSpan::from_millis(200));
    assert_eq!(waiter.options.duration.as_millis(), 200);
    assert_eq!(waiter.options.poll_frecuency.as_millis(), 10);

    let waiter = Wait(TimeSpan::new(1, 999_999));
    assert_eq!(waiter.options.poll_frecuency.as_nanos(), 50_049_999);
    assert_eq!(waiter.options.poll_frecuency.as_millis(), 50);

    let waiter = Wait(TimeSpan::from_millis(1));
    assert_eq!(waiter.options.poll_frecuency.as_nanos(), 50_000);
}

#[test]
fn waiter_from_mixed_pairs() {
    let waiter = Wait((TimeSpan::from_secs(3), 7));
    assert_eq!(waiter.options.duration.as_millis(), 3000);
    assert_eq!(waiter.options.poll_frecuency.as_millis(), 7000);

    let waiter = Wait((2, TimeSpan::from_millis(30)));
    assert_eq!(waiter.options.duration.as_millis(), 2000);
    assert_eq!(waiter.options.poll_frecuency.as_millis(), 30);

    let waiter = Wait((TimeSpan::from_secs(4), TimeSpan::from_millis(8)));
    assert_eq!(waiter.options.duration.as_millis(), 4000);
    assert_eq!(waiter.options.poll_frecuency.as_millis(), 8);
}

#[test]
fn waiter_from_largest_seconds() {
    let waiter = Wait(u64::MAX);
    assert_eq!(waiter.options.duration.as_secs(), u64::MAX);
    assert_eq!(waiter.options.duration.as_millis(), u64::MAX as u128 * 1000);
    assert_eq!(waiter.options.poll_frecuency.as_millis(), u64::MAX as u128 * 20);
}

#[test]
fn options_default_new_and_builders() {
    let options = WaitOptions::default();
    assert_eq!(options.duration().as_millis(), 10000);
    assert_eq!(options.poll_frecuency().as_millis(), 20);

    let options = WaitOptions::new(TimeSpan::from_secs(1), TimeSpan::from_millis(5));
    assert_eq!(options.duration().as_millis(), 1000);
    assert_eq!(options.poll_frecuency().as_millis(), 5);

    let options = options.with_duration(TimeSpan::from_millis(300));
    assert_eq!(options.duration().as_millis(), 300);
    assert_eq!(options.poll_frecuency().as_millis(), 5);

    let options = options.with_poll_frecuency(TimeSpan::from_millis(9));
    assert_eq!(options.duration().as_millis(), 300);
    assert_eq!(options.poll_frecuency().as_millis(), 9);
}

#[test]
fn time_span_parts() {
    let span = TimeSpan::from_millis(1500);
    assert_eq!(span.as_secs(), 1);
    assert_eq!(span.subsec_nanos(), 500_000_000);
    assert_eq!(span.as_nanos(), 1_500_000_000);

    let span = TimeSpan::new(2, 3_000_000_001);
    assert_eq!(span.as_secs(), 5);
    assert_eq!(span.subsec_nanos(), 1);
    assert_eq!(span.as_millis(), 5000);
}

#[test]
fn time_span_debug_text() {
    assert_eq!(TimeSpan::from_millis(1500).debug_text(), "1.5s");
    assert_eq!(TimeSpan::from_millis(20).debug_text(), "20ms");
    assert_eq!(TimeSpan::from_secs(10).debug_text(), "10s");
}

#[test]
fn options_from_millis_poll_a_fiftieth() {
    let options = WaitOptions::from_millis(200);
    assert_eq!(options.duration.as_millis(), 200);
    assert_eq!(options.poll_frecuency.as_millis(), 4);

    let options = WaitOptions::from_millis(49);
    assert_eq!(options.poll_frecuency.as_millis(), 0);
}
