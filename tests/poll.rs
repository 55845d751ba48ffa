use web_sys_ec::by;
use web_sys_ec::condition::Misuse;
use web_sys_ec::ec;
use web_sys_ec::poll::{is_met, Poll, Sample, Step, Wake};
use web_sys_ec::span::TimeSpan;
use web_sys_ec::{Condition, Wait};

/// How a simulated wait ended.
#[derive(Debug, PartialEq)]
enum End {
    Met { attempts: u64, sleeps: u64 },
    TimedOut { attempts: u64, elapsed: u64, message: String },
}

/// Runs a wait against a clock that only moves while sleeping. Look `i` finds
/// `looks(i)`.
fn drive(mut poll: Poll, looks: impl Fn(u64) -> Sample) -> End {
    let start: u64 = 1_000;
    let mut now = start;
    let mut sleeps = 0;
    let mut i = 0;
    loop {
        match poll.look(&looks(i)) {
            Step::Met => {
                return End::Met {
                    attempts: poll.attempts(),
                    sleeps,
                }
            }
            Step::Sleep(span) => {
                now += span.as_millis() as u64;
                sleeps += 1;
            }
        }
        i += 1;
        match poll.wake(now) {
            Wake::Look => {}
            Wake::TimedOut => {
                return End::TimedOut {
                    attempts: poll.attempts(),
                    elapsed: now - start,
                    message: poll.failure_message(),
                }
            }
        }
    }
}

fn start(condition: impl Into<Condition>, wait: web_sys_ec::wait::Wait, negative: bool) -> Poll {
    Poll::start(condition.into(), wait.options, negative, 1_000).unwrap()
}

fn found(text: &str) -> Sample {
    Sample::Found(Some(text.to_string()))
}

#[test]
fn until_met_at_first_look_does_not_sleep() {
    let poll = start(
        (by::TagName("p"), ec::InnerTextContains("language")),
        Wait(1),
        false,
    );
    assert_eq!(
        drive(poll, |_| found("Select a language:")),
        End::Met { attempts: 1, sleeps: 0 }
    );
}

#[test]
fn element_created_after_a_few_looks_is_found() {
    let poll = start(by::Id("x"), Wait(TimeSpan::from_millis(200)), false);
    let end = drive(poll, |i| if i < 3 { Sample::Missing } else { Sample::Found(None) });
    assert_eq!(end, End::Met { attempts: 4, sleeps: 3 });
}

#[test]
fn missing_element_times_out_with_a_report() {
    let poll = start(by::Id("missing"), Wait(TimeSpan::from_millis(100)), false);
    match drive(poll, |_| Sample::Missing) {
        End::TimedOut {
            attempts,
            elapsed,
            message,
        } => {
            assert_eq!(attempts, 20);
            assert!(attempts > 1);
            assert!(elapsed >= 100);
            assert!(message.contains("missing"));
            assert_eq!(
                message,
                "\nExpected condition has not been met in the given time:\n  - Selector: HTML element with id 'missing' (`By::Id(\"missing\")`)\n  - Duration: 100ms\n  - Poll frecuency: 5ms\n  - Number of attempts: 20\n"
            );
        }
        other => panic!("expected a timeout, got {:?}", other),
    }
}

#[test]
fn timeout_report_counts_every_look() {
    let poll = start(
        (by::TagName("html"), ec::AttributeValueIs("lang", "es")),
        Wait((TimeSpan::from_secs(1), TimeSpan::from_millis(20))),
        false,
    );
    match drive(poll, |_| found("en")) {
        End::TimedOut {
            attempts, message, ..
        } => {
            assert_eq!(attempts, 50);
            assert_eq!(
                message,
                "\nExpected condition has not been met in the given time:\n  - Selector: HTML element with tag name 'html' (`By::TagName(\"html\")`)\n  - Condition: HTML element attribute \"lang\" value is equal to \"es\" (`Ec::AttributeValueIs(\"lang\", \"es\")`)\n  - Duration: 1s\n  - Poll frecuency: 20ms\n  - Number of attempts: 50\n"
            );
        }
        other => panic!("expected a timeout, got {:?}", other),
    }
}

#[test]
fn interval_longer_than_duration_still_looks_once() {
    let poll = start(by::Id("x"), Wait((1, 5)), false);
    match drive(poll, |_| Sample::Missing) {
        End::TimedOut { attempts, .. } => assert_eq!(attempts, 1),
        other => panic!("expected a timeout, got {:?}", other),
    }
}

#[test]
fn zero_duration_still_looks_once() {
    let poll = start(by::Id("x"), Wait(0), false);
    match drive(poll, |_| Sample::Missing) {
        End::TimedOut { attempts, .. } => assert_eq!(attempts, 1),
        other => panic!("expected a timeout, got {:?}", other),
    }
    let poll = start(by::Id("x"), Wait(0), false);
    assert_eq!(
        drive(poll, |_| Sample::Found(None)),
        End::Met { attempts: 1, sleeps: 0 }
    );
}

#[test]
fn storage_value_set_then_removed() {
    let poll = start(
        ec::LocalStorageAttributeValueIs("language", "es"),
        Wait(TimeSpan::from_millis(200)),
        false,
    );
    let end = drive(poll, |i| if i < 2 { Sample::Found(None) } else { found("es") });
    assert_eq!(end, End::Met { attempts: 3, sleeps: 2 });

    let poll = start(
        ec::LocalStorageAttributeValueIs("language", "es"),
        Wait(TimeSpan::from_millis(300)),
        true,
    );
    let end = drive(poll, |i| if i < 2 { found("es") } else { Sample::Found(None) });
    assert_eq!(end, End::Met { attempts: 3, sleeps: 2 });
}

#[test]
fn until_not_missing_object_is_met_at_once() {
    let poll = start("#gone", Wait(TimeSpan::from_millis(300)), true);
    assert_eq!(
        drive(poll, |_| Sample::Missing),
        End::Met { attempts: 1, sleeps: 0 }
    );
    let poll = start(
        ("attribute_value_is", ec::AttributeValueIs("lang", "es")),
        Wait(TimeSpan::from_millis(300)),
        true,
    );
    assert_eq!(
        drive(poll, |_| Sample::Missing),
        End::Met { attempts: 1, sleeps: 0 }
    );
}

#[test]
fn until_not_sees_attribute_change() {
    let poll = start(
        ("attribute_value_is", ec::AttributeValueIs("lang", "es")),
        Wait(TimeSpan::from_millis(300)),
        true,
    );
    let end = drive(poll, |i| if i < 1 { found("es") } else { found("es1") });
    assert_eq!(end, End::Met { attempts: 2, sleeps: 1 });
}

#[test]
fn until_not_present_element_times_out() {
    let poll = start(by::Id("stays"), Wait(TimeSpan::from_millis(100)), true);
    match drive(poll, |_| Sample::Found(None)) {
        End::TimedOut { attempts, .. } => assert_eq!(attempts, 20),
        other => panic!("expected a timeout, got {:?}", other),
    }
}

#[test]
fn clock_going_back_counts_as_no_time() {
    let mut poll = start(by::Id("x"), Wait(1), false);
    assert!(matches!(poll.look(&Sample::Missing), Step::Sleep(_)));
    assert_eq!(poll.wake(10), Wake::Look);
    assert_eq!(poll.wake(1_999), Wake::Look);
    assert_eq!(poll.wake(2_000), Wake::TimedOut);
}

#[test]
fn misuse_is_refused_at_start() {
    let refused = Poll::start(
        Condition::from(ec::InnerTextContains("t")),
        Wait(1).options,
        false,
        0,
    );
    assert!(matches!(refused, Err(Misuse::SelectorRequired)));
    let refused = Poll::start(Condition { by: None, ec: None }, Wait(1).options, true, 0);
    assert!(matches!(refused, Err(Misuse::NothingToWaitFor)));
}

#[test]
fn look_outcomes() {
    let exists = Condition::from(by::Id("x"));
    assert!(is_met(&exists, false, &Sample::Found(None)));
    assert!(!is_met(&exists, false, &Sample::Missing));
    assert!(!is_met(&exists, true, &Sample::Found(None)));
    assert!(is_met(&exists, true, &Sample::Missing));

    let text = Condition::from(("p", ec::InnerTextContains("Select")));
    assert!(is_met(&text, false, &found("Select a language:")));
    assert!(!is_met(&text, true, &found("Select a language:")));
    assert!(is_met(&text, true, &found("Selecciona un idioma:")));
}
