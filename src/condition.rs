//! Conditions: a selector, a predicate, or both, and the kind of object that a
//! condition is about.
use crate::by::By;
use crate::ec::Ec;
use vstd::prelude::*;
use std::borrow::Cow;
use vstd::string::StringExecFns;

verus! {

/// What a wait is about: how to find the object, and what must hold of it.
///
/// A selector alone asks only that a matching element exists. A predicate on
/// the local storage or the location needs no selector.
pub struct Condition {
    pub by: Option<By>,
    pub ec: Option<Ec>,
}

/// The kind of object that a condition reads.
#[derive(PartialEq, Eq, Structural, Clone, Copy, Debug)]
pub enum Target {
    /// Any node of the document.
    Node,
    /// An HTML element, which has an inner text.
    HtmlElement,
    /// An element, which has attributes.
    Element,
    /// The local storage of the window.
    Storage,
    /// The location of the window.
    Location,
}

/// A condition that no wait can be made of.
#[derive(PartialEq, Eq, Structural, Clone, Copy, Debug)]
pub enum Misuse {
    /// Neither a selector nor a predicate.
    NothingToWaitFor,
    /// A predicate about an element, without a selector to find it.
    SelectorRequired,
}

impl Target {
    /// The object is the window's only one of its kind, found without a selector.
    pub open spec fn is_global(self) -> bool {
        self == Target::Storage || self == Target::Location
    }
}

impl Misuse {
    /// The message that a failed wait reports.
    pub open spec fn message_view(self) -> Seq<char> {
        match self {
            Misuse::NothingToWaitFor => "Expected condition is not set"@,
            Misuse::SelectorRequired => "Expected condition needs a selector to find an HTML element"@,
        }
    }

    /// The message that a failed wait reports.
    pub fn message(&self) -> (r: String)
        ensures
            r@ == self.message_view(),
    {
        match self {
            Misuse::NothingToWaitFor => String::from_str("Expected condition is not set"),
            Misuse::SelectorRequired => String::from_str(
                "Expected condition needs a selector to find an HTML element",
            ),
        }
    }
}

/// The kind of object that a predicate reads; a fixed table.
pub open spec fn ec_target(ec: Ec) -> Target {
    match ec {
        Ec::InnerTextContains(_) => Target::HtmlElement,
        Ec::AttributeValueIs(_, _) => Target::Element,
        Ec::LocalStorageAttributeValueIs(_, _) => Target::Storage,
        Ec::LocationSearchIs(_) => Target::Location,
    }
}

impl Condition {
    /// The kind of object to look for: the one that the predicate reads, or any
    /// node where there is only a selector. `None` where there is neither.
    pub open spec fn target_view(&self) -> Option<Target> {
        match self.ec {
            Some(ec) => Some(ec_target(ec)),
            None => if self.by is Some {
                Some(Target::Node)
            } else {
                None
            },
        }
    }

    /// Why no wait can be made of the condition, if that is so.
    pub open spec fn misuse_view(&self) -> Option<Misuse> {
        match self.target_view() {
            None => Some(Misuse::NothingToWaitFor),
            Some(t) => if self.by is None && !t.is_global() {
                Some(Misuse::SelectorRequired)
            } else {
                None
            },
        }
    }

    /// The kind of object that the condition reads, or why it cannot be waited
    /// for.
    pub fn target(&self) -> (r: Result<Target, Misuse>)
        ensures
            match self.misuse_view() {
                Some(m) => r == Err::<Target, Misuse>(m),
                None => r == Ok::<Target, Misuse>(self.target_view()->0),
            },
    {
        let t = match &self.ec {
            Some(Ec::InnerTextContains(_)) => Target::HtmlElement,
            Some(Ec::AttributeValueIs(_, _)) => Target::Element,
            Some(Ec::LocalStorageAttributeValueIs(_, _)) => Target::Storage,
            Some(Ec::LocationSearchIs(_)) => Target::Location,
            None => {
                if self.by.is_none() {
                    return Err(Misuse::NothingToWaitFor);
                }
                Target::Node
            },
        };
        if self.by.is_none() && t != Target::Storage && t != Target::Location {
            return Err(Misuse::SelectorRequired);
        }
        Ok(t)
    }
}

impl From<(By, Ec)> for Condition {
    fn from(v: (By, Ec)) -> (r: Condition) {
        Condition { by: Some(v.0), ec: Some(v.1) }
    }
}

impl vstd::std_specs::convert::FromSpecImpl<(By, Ec)> for Condition {
    open spec fn obeys_from_spec() -> bool {
        true
    }

    open spec fn from_spec(v: (By, Ec)) -> Condition {
        Condition { by: Some(v.0), ec: Some(v.1) }
    }
}

impl From<Ec> for Condition {
    fn from(ec: Ec) -> (r: Condition) {
        Condition { by: None, ec: Some(ec) }
    }
}

impl vstd::std_specs::convert::FromSpecImpl<Ec> for Condition {
    open spec fn obeys_from_spec() -> bool {
        true
    }

    open spec fn from_spec(ec: Ec) -> Condition {
        Condition { by: None, ec: Some(ec) }
    }
}

impl From<By> for Condition {
    fn from(by: By) -> (r: Condition) {
        Condition { by: Some(by), ec: None }
    }
}

impl vstd::std_specs::convert::FromSpecImpl<By> for Condition {
    open spec fn obeys_from_spec() -> bool {
        true
    }

    open spec fn from_spec(by: By) -> Condition {
        Condition { by: Some(by), ec: None }
    }
}

impl From<String> for Condition {
    fn from(selector: String) -> (r: Condition) {
        Condition { by: Some(By::QuerySelector(selector)), ec: None }
    }
}

impl vstd::std_specs::convert::FromSpecImpl<String> for Condition {
    open spec fn obeys_from_spec() -> bool {
        true
    }

    open spec fn from_spec(selector: String) -> Condition {
        Condition { by: Some(By::QuerySelector(selector)), ec: None }
    }
}

impl From<(String, Ec)> for Condition {
    fn from(v: (String, Ec)) -> (r: Condition) {
        Condition { by: Some(By::QuerySelector(v.0)), ec: Some(v.1) }
    }
}

impl vstd::std_specs::convert::FromSpecImpl<(String, Ec)> for Condition {
    open spec fn obeys_from_spec() -> bool {
        true
    }

    open spec fn from_spec(v: (String, Ec)) -> Condition {
        Condition { by: Some(By::QuerySelector(v.0)), ec: Some(v.1) }
    }
}

impl<'a> From<&'a str> for Condition {
    fn from(selector: &'a str) -> (r: Condition)
        ensures
            r.by is Some && r.by->0 is QuerySelector && r.by->0->QuerySelector_0@ == selector@,
            r.ec is None,
    {
        Condition { by: Some(By::QuerySelector(String::from_str(selector))), ec: None }
    }
}

impl<'a> From<(&'a str, Ec)> for Condition {
    fn from(v: (&'a str, Ec)) -> (r: Condition)
        ensures
            r.by is Some && r.by->0 is QuerySelector && r.by->0->QuerySelector_0@ == v.0@,
            r.ec == Some(v.1),
    {
        Condition { by: Some(By::QuerySelector(String::from_str(v.0))), ec: Some(v.1) }
    }
}

// A `String` made of a `&str` or a `Cow` is known by its view only, so the
// conversions from them state their result in their own `ensures`.

/// The owned text of a possibly borrowed string.
fn owned_text<'a>(s: Cow<'a, str>) -> (r: String)
    ensures
        r@ == s@,
{
    match s {
        Cow::Borrowed(b) => String::from_str(b),
        Cow::Owned(o) => o,
    }
}

impl<'a> From<Cow<'a, str>> for Condition {
    fn from(selector: Cow<'a, str>) -> (r: Condition)
        ensures
            r.by is Some && r.by->0 is QuerySelector && r.by->0->QuerySelector_0@ == selector@,
            r.ec is None,
    {
        Condition { by: Some(By::QuerySelector(owned_text(selector))), ec: None }
    }
}

impl<'a> From<(Cow<'a, str>, Ec)> for Condition {
    fn from(v: (Cow<'a, str>, Ec)) -> (r: Condition)
        ensures
            r.by is Some && r.by->0 is QuerySelector && r.by->0->QuerySelector_0@ == v.0@,
            r.ec == Some(v.1),
    {
        Condition { by: Some(By::QuerySelector(owned_text(v.0))), ec: Some(v.1) }
    }
}

impl<'a> vstd::std_specs::convert::FromSpecImpl<Cow<'a, str>> for Condition {
    open spec fn obeys_from_spec() -> bool {
        false
    }

    open spec fn from_spec(selector: Cow<'a, str>) -> Condition {
        Condition { by: None, ec: None }
    }
}

impl<'a> vstd::std_specs::convert::FromSpecImpl<(Cow<'a, str>, Ec)> for Condition {
    open spec fn obeys_from_spec() -> bool {
        false
    }

    open spec fn from_spec(v: (Cow<'a, str>, Ec)) -> Condition {
        Condition { by: None, ec: Some(v.1) }
    }
}

impl<'a> vstd::std_specs::convert::FromSpecImpl<&'a str> for Condition {
    open spec fn obeys_from_spec() -> bool {
        false
    }

    open spec fn from_spec(selector: &'a str) -> Condition {
        Condition { by: None, ec: None }
    }
}

impl<'a> vstd::std_specs::convert::FromSpecImpl<(&'a str, Ec)> for Condition {
    open spec fn obeys_from_spec() -> bool {
        false
    }

    open spec fn from_spec(v: (&'a str, Ec)) -> Condition {
        Condition { by: None, ec: Some(v.1) }
    }
}

} // verus!
