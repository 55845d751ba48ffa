//! Expected conditions: what must hold of the object that a condition is about.
use crate::text::{contains, debug_quoted, quoted, seq_contains};
use vstd::prelude::*;
use vstd::string::StringExecFns;

verus! {

/// What must hold of an element, of the local storage or of the location.
pub enum Ec {
    /// The element's `innerText` contains this text.
    InnerTextContains(String),
    /// The element's attribute (first) has the value (second).
    AttributeValueIs(String, String),
    /// The local storage's entry under the key (first) has the value (second).
    LocalStorageAttributeValueIs(String, String),
    /// `window.location.search` is this text.
    LocationSearchIs(String),
}

/// The property `innerText` of an element contains the given text.
#[allow(non_snake_case)]
pub fn InnerTextContains(text: &str) -> (r: Ec)
    ensures
        r is InnerTextContains && r->InnerTextContains_0@ == text@,
{
    Ec::InnerTextContains(String::from_str(text))
}

/// The attribute value of an element is equal to the given value.
#[allow(non_snake_case)]
pub fn AttributeValueIs(attr: &str, value: &str) -> (r: Ec)
    ensures
        r is AttributeValueIs && r->AttributeValueIs_0@ == attr@ && r->AttributeValueIs_1@
            == value@,
{
    Ec::AttributeValueIs(String::from_str(attr), String::from_str(value))
}

/// The local storage entry under the given key is equal to the given value.
#[allow(non_snake_case)]
pub fn LocalStorageAttributeValueIs(attr: &str, value: &str) -> (r: Ec)
    ensures
        r is LocalStorageAttributeValueIs && r->LocalStorageAttributeValueIs_0@ == attr@
            && r->LocalStorageAttributeValueIs_1@ == value@,
{
    Ec::LocalStorageAttributeValueIs(String::from_str(attr), String::from_str(value))
}

/// `window.location.search` is equal to the given value.
#[allow(non_snake_case)]
pub fn LocationSearchIs(value: &str) -> (r: Ec)
    ensures
        r is LocationSearchIs && r->LocationSearchIs_0@ == value@,
{
    Ec::LocationSearchIs(String::from_str(value))
}

impl Ec {
    /// The condition holds of `reading`, the text that it reads of the object:
    /// the inner text, the attribute's value, the storage entry or the search
    /// string. Nothing holds of an absent reading. The comparisons are exact
    /// and case-sensitive.
    pub open spec fn holds_of(&self, reading: Option<String>) -> bool {
        match reading {
            None => false,
            Some(s) => match self {
                Ec::InnerTextContains(t) => seq_contains(s@, t@),
                Ec::AttributeValueIs(_, v) => s@ == v@,
                Ec::LocalStorageAttributeValueIs(_, v) => s@ == v@,
                Ec::LocationSearchIs(v) => s@ == v@,
            },
        }
    }

    /// Whether the condition holds of `reading` (see `holds_of`).
    pub fn holds(&self, reading: &Option<String>) -> (r: bool)
        ensures
            r == self.holds_of(*reading),
    {
        match reading {
            None => false,
            Some(s) => match self {
                Ec::InnerTextContains(t) => contains(s.as_str(), t.as_str()),
                Ec::AttributeValueIs(_, v) => s.eq(v),
                Ec::LocalStorageAttributeValueIs(_, v) => s.eq(v),
                Ec::LocationSearchIs(v) => s.eq(v),
            },
        }
    }

    /// The condition written as the expression that builds it.
    pub open spec fn code_view(&self) -> Seq<char> {
        match self {
            Ec::InnerTextContains(t) => "Ec::InnerTextContains("@ + debug_quoted(t@) + ")"@,
            Ec::AttributeValueIs(a, v) => "Ec::AttributeValueIs("@ + debug_quoted(a@) + ", "@
                + debug_quoted(v@) + ")"@,
            Ec::LocalStorageAttributeValueIs(a, v) => "Ec::LocalStorageAttributeValueIs("@
                + debug_quoted(a@) + ", "@ + debug_quoted(v@) + ")"@,
            Ec::LocationSearchIs(v) => "Ec::LocationSearchIs("@ + debug_quoted(v@) + ")"@,
        }
    }

    /// A sentence that says what the condition asks for.
    pub open spec fn description_view(&self) -> Seq<char> {
        match self {
            Ec::InnerTextContains(t) => "HTML element innerText contains the text "@
                + debug_quoted(t@) + " (`"@ + self.code_view() + "`)"@,
            Ec::AttributeValueIs(a, v) => "HTML element attribute "@ + debug_quoted(a@)
                + " value is equal to "@ + debug_quoted(v@) + " (`"@ + self.code_view()
                + "`)"@,
            Ec::LocalStorageAttributeValueIs(a, v) => "localStorage attribute "@ + debug_quoted(
                a@,
            ) + " value is equal to "@ + debug_quoted(v@) + " (`"@ + self.code_view() + "`)"@,
            Ec::LocationSearchIs(v) => "window.location.search is equal to "@ + debug_quoted(v@)
                + " (`"@ + self.code_view() + "`)"@,
        }
    }

    /// The condition written as the expression that builds it, such as
    /// `Ec::LocationSearchIs("?a=b")`.
    pub fn code(&self) -> (r: String)
        ensures
            r@ == self.code_view(),
    {
        match self {
            Ec::InnerTextContains(t) => {
                let mut r = String::from_str("Ec::InnerTextContains(");
                r.append(quoted(t.as_str()).as_str());
                r.append(")");
                r
            },
            Ec::AttributeValueIs(a, v) => {
                let mut r = String::from_str("Ec::AttributeValueIs(");
                r.append(quoted(a.as_str()).as_str());
                r.append(", ");
                r.append(quoted(v.as_str()).as_str());
                r.append(")");
                r
            },
            Ec::LocalStorageAttributeValueIs(a, v) => {
                let mut r = String::from_str("Ec::LocalStorageAttributeValueIs(");
                r.append(quoted(a.as_str()).as_str());
                r.append(", ");
                r.append(quoted(v.as_str()).as_str());
                r.append(")");
                r
            },
            Ec::LocationSearchIs(v) => {
                let mut r = String::from_str("Ec::LocationSearchIs(");
                r.append(quoted(v.as_str()).as_str());
                r.append(")");
                r
            },
        }
    }

    /// A sentence that says what the condition asks for, as failure reports
    /// print it.
    pub fn description(&self) -> (r: String)
        ensures
            r@ == self.description_view(),
    {
        let mut r = match self {
            Ec::InnerTextContains(t) => {
                let mut r = String::from_str("HTML element innerText contains the text ");
                r.append(quoted(t.as_str()).as_str());
                r
            },
            Ec::AttributeValueIs(a, v) => {
                let mut r = String::from_str("HTML element attribute ");
                r.append(quoted(a.as_str()).as_str());
                r.append(" value is equal to ");
                r.append(quoted(v.as_str()).as_str());
                r
            },
            Ec::LocalStorageAttributeValueIs(a, v) => {
                let mut r = String::from_str("localStorage attribute ");
                r.append(quoted(a.as_str()).as_str());
                r.append(" value is equal to ");
                r.append(quoted(v.as_str()).as_str());
                r
            },
            Ec::LocationSearchIs(v) => {
                let mut r = String::from_str("window.location.search is equal to ");
                r.append(quoted(v.as_str()).as_str());
                r
            },
        };
        r.append(" (`");
        r.append(self.code().as_str());
        r.append("`)");
        r
    }
}

} // verus!
