use std::borrow::Cow;
use web_sys_ec::by;
use web_sys_ec::condition::{Misuse, Target};
use web_sys_ec::ec;
use web_sys_ec::text::decimal_text;
use web_sys_ec::{By, Condition, Ec};

#[test]
fn selector_constructors() {
    assert!(matches!(by::Id("a"), By::Id(s) if s == "a"));
    assert!(matches!(by::Class("b"), By::Class(s) if s == "b"));
    assert!(matches!(by::TagName("p"), By::TagName(s) if s == "p"));
    assert!(matches!(by::QuerySelector("p#x"), By::QuerySelector(s) if s == "p#x"));
}

#[test]
fn selector_descriptions() {
    assert_eq!(by::Id("x").description(), "HTML element with id 'x' (`By::Id(\"x\")`)");
    assert_eq!(
        by::Class("c").description(),
        "HTML element with class 'c' (`By::Class(\"c\")`)"
    );
    assert_eq!(
        by::TagName("html").description(),
        "HTML element with tag name 'html' (`By::TagName(\"html\")`)"
    );
    assert_eq!(
        by::QuerySelector("p#foo").description(),
        "HTML element queried with selector 'p#foo' (`By::QuerySelector(\"p#foo\")`)"
    );
    assert_eq!(by::Id("a\"b").code(), "By::Id(\"a\\\"b\")");
}

#[test]
fn predicate_constructors() {
    assert!(matches!(ec::InnerTextContains("t"), Ec::InnerTextContains(s) if s == "t"));
    assert!(
        matches!(ec::AttributeValueIs("lang", "es"), Ec::AttributeValueIs(a, v) if a == "lang" && v == "es")
    );
    assert!(matches!(
        ec::LocalStorageAttributeValueIs("k", "v"),
        Ec::LocalStorageAttributeValueIs(a, v) if a == "k" && v == "v"
    ));
    assert!(matches!(ec::LocationSearchIs("?a=b"), Ec::LocationSearchIs(s) if s == "?a=b"));
}

#[test]
fn predicate_descriptions() {
    assert_eq!(
        ec::AttributeValueIs("lang", "es").description(),
        "HTML element attribute \"lang\" value is equal to \"es\" (`Ec::AttributeValueIs(\"lang\", \"es\")`)"
    );
    assert_eq!(
        ec::InnerTextContains("Select").description(),
        "HTML element innerText contains the text \"Select\" (`Ec::InnerTextContains(\"Select\")`)"
    );
    assert_eq!(
        ec::LocalStorageAttributeValueIs("language", "es").description(),
        "localStorage attribute \"language\" value is equal to \"es\" (`Ec::LocalStorageAttributeValueIs(\"language\", \"es\")`)"
    );
    assert_eq!(
        ec::LocationSearchIs("?key=value").description(),
        "window.location.search is equal to \"?key=value\" (`Ec::LocationSearchIs(\"?key=value\")`)"
    );
}

#[test]
fn predicate_evaluation() {
    let text = ec::InnerTextContains("a language");
    assert!(text.holds(&Some("Select a language:".to_string())));
    assert!(!text.holds(&Some("Select A Language:".to_string())));
    assert!(!text.holds(&None));
    assert!(ec::InnerTextContains("").holds(&Some(String::new())));

    let attr = ec::AttributeValueIs("lang", "es");
    assert!(attr.holds(&Some("es".to_string())));
    assert!(!attr.holds(&Some("es1".to_string())));
    assert!(!attr.holds(&Some("ES".to_string())));
    assert!(!attr.holds(&None));

    let item = ec::LocalStorageAttributeValueIs("language", "es");
    assert!(item.holds(&Some("es".to_string())));
    assert!(!item.holds(&None));

    let search = ec::LocationSearchIs("?key=value");
    assert!(search.holds(&Some("?key=value".to_string())));
    assert!(!search.holds(&Some("?key=value2".to_string())));
}

#[test]
fn condition_conversions() {
    let c = Condition::from("p#foo");
    assert!(matches!(c.by, Some(By::QuerySelector(ref s)) if s == "p#foo"));
    assert!(c.ec.is_none());

    let c = Condition::from(("p", ec::InnerTextContains("x")));
    assert!(matches!(c.by, Some(By::QuerySelector(ref s)) if s == "p"));
    assert!(matches!(c.ec, Some(Ec::InnerTextContains(_))));

    let c = Condition::from(String::from("div"));
    assert!(matches!(c.by, Some(By::QuerySelector(ref s)) if s == "div"));

    let c = Condition::from((String::from("div"), ec::LocationSearchIs("?")));
    assert!(matches!(c.ec, Some(Ec::LocationSearchIs(_))));

    let c = Condition::from(ec::LocationSearchIs("?a"));
    assert!(c.by.is_none());

    let c = Condition::from(by::Id("x"));
    assert!(matches!(c.by, Some(By::Id(_))) && c.ec.is_none());

    let c = Condition::from((by::TagName("html"), ec::AttributeValueIs("lang", "es")));
    assert!(matches!(c.by, Some(By::TagName(_))) && matches!(c.ec, Some(Ec::AttributeValueIs(_, _))));
}

#[test]
fn condition_targets() {
    assert_eq!(Condition::from(by::Id("x")).target(), Ok(Target::Node));
    assert_eq!(
        Condition::from((by::Id("x"), ec::InnerTextContains("t"))).target(),
        Ok(Target::HtmlElement)
    );
    assert_eq!(
        Condition::from((by::Id("x"), ec::AttributeValueIs("a", "b"))).target(),
        Ok(Target::Element)
    );
    assert_eq!(
        Condition::from(ec::LocalStorageAttributeValueIs("k", "v")).target(),
        Ok(Target::Storage)
    );
    assert_eq!(Condition::from(ec::LocationSearchIs("?")).target(), Ok(Target::Location));
    assert_eq!(
        Condition::from(ec::AttributeValueIs("a", "b")).target(),
        Err(Misuse::SelectorRequired)
    );
    assert_eq!(
        Condition::from(ec::InnerTextContains("t")).target(),
        Err(Misuse::SelectorRequired)
    );
    assert_eq!(Condition { by: None, ec: None }.target(), Err(Misuse::NothingToWaitFor));
    assert_eq!(Misuse::NothingToWaitFor.message(), "Expected condition is not set");
}

#[test]
fn text_helpers() {
    let text = |t: &str, s: &str| ec::InnerTextContains(t).holds(&Some(s.to_string()));
    assert!(text("cde", "abcdef"));
    assert!(!text("ced", "abcdef"));
    assert!(text("", "abc"));
    assert!(!text("a", ""));
    assert_eq!(ec::LocationSearchIs("a\"b").code(), "Ec::LocationSearchIs(\"a\\\"b\")");
    assert_eq!(ec::LocationSearchIs("plain").code(), "Ec::LocationSearchIs(\"plain\")");
    assert_eq!(decimal_text(0), "0");
    assert_eq!(decimal_text(7), "7");
    assert_eq!(decimal_text(51), "51");
    assert_eq!(decimal_text(u64::MAX), "18446744073709551615");
}

#[test]
fn condition_from_cow() {
    let c = Condition::from(Cow::Borrowed("p.a"));
    assert!(matches!(c.by, Some(By::QuerySelector(ref s)) if s == "p.a"));
    assert!(c.ec.is_none());
    let c = Condition::from((Cow::Owned::<str>(String::from("div")), ec::InnerTextContains("t")));
    assert!(matches!(c.by, Some(By::QuerySelector(ref s)) if s == "div"));
    assert!(matches!(c.ec, Some(Ec::InnerTextContains(_))));
}
