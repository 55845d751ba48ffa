//! Selectors: how to find the element that a condition is about.
use crate::text::{debug_quoted, quoted};
use vstd::prelude::*;
use vstd::string::StringExecFns;

verus! {

/// How to find an element in the document.
pub enum By {
    /// The element with this identifier.
    Id(String),
    /// The first element with this class.
    Class(String),
    /// The first element with this tag name.
    TagName(String),
    /// The first element that this CSS selector matches.
    QuerySelector(String),
}

/// Selects an element by its identifier.
#[allow(non_snake_case)]
pub fn Id(id: &str) -> (r: By)
    ensures
        r is Id && r->Id_0@ == id@,
{
    By::Id(String::from_str(id))
}

/// Selects an element by its class name.
#[allow(non_snake_case)]
pub fn Class(class: &str) -> (r: By)
    ensures
        r is Class && r->Class_0@ == class@,
{
    By::Class(String::from_str(class))
}

/// Selects an element by its tag name.
#[allow(non_snake_case)]
pub fn TagName(tag_name: &str) -> (r: By)
    ensures
        r is TagName && r->TagName_0@ == tag_name@,
{
    By::TagName(String::from_str(tag_name))
}

/// Selects an element by a CSS selector.
#[allow(non_snake_case)]
pub fn QuerySelector(selector: &str) -> (r: By)
    ensures
        r is QuerySelector && r->QuerySelector_0@ == selector@,
{
    By::QuerySelector(String::from_str(selector))
}

impl By {
    /// The selector written as the expression that builds it.
    pub open spec fn code_view(&self) -> Seq<char> {
        match self {
            By::Id(s) => "By::Id("@ + debug_quoted(s@) + ")"@,
            By::Class(s) => "By::Class("@ + debug_quoted(s@) + ")"@,
            By::TagName(s) => "By::TagName("@ + debug_quoted(s@) + ")"@,
            By::QuerySelector(s) => "By::QuerySelector("@ + debug_quoted(s@) + ")"@,
        }
    }

    /// A sentence that says which element the selector finds.
    pub open spec fn description_view(&self) -> Seq<char> {
        match self {
            By::Id(s) => "HTML element with id '"@ + s@ + "' (`"@ + self.code_view() + "`)"@,
            By::Class(s) => "HTML element with class '"@ + s@ + "' (`"@ + self.code_view()
                + "`)"@,
            By::TagName(s) => "HTML element with tag name '"@ + s@ + "' (`"@ + self.code_view()
                + "`)"@,
            By::QuerySelector(s) => "HTML element queried with selector '"@ + s@ + "' (`"@
                + self.code_view() + "`)"@,
        }
    }

    /// The selector written as the expression that builds it, such as
    /// `By::Id("x")`.
    pub fn code(&self) -> (r: String)
        ensures
            r@ == self.code_view(),
    {
        let (head, value) = match self {
            By::Id(s) => ("By::Id(", s),
            By::Class(s) => ("By::Class(", s),
            By::TagName(s) => ("By::TagName(", s),
            By::QuerySelector(s) => ("By::QuerySelector(", s),
        };
        let mut r = String::from_str(head);
        r.append(quoted(value.as_str()).as_str());
        r.append(")");
        r
    }

    /// A sentence that says which element the selector finds, as failure
    /// reports print it.
    pub fn description(&self) -> (r: String)
        ensures
            r@ == self.description_view(),
    {
        let (head, value) = match self {
            By::Id(s) => ("HTML element with id '", s),
            By::Class(s) => ("HTML element with class '", s),
            By::TagName(s) => ("HTML element with tag name '", s),
            By::QuerySelector(s) => ("HTML element queried with selector '", s),
        };
        let mut r = String::from_str(head);
        r.append(value.as_str());
        r.append("' (`");
        r.append(self.code().as_str());
        r.append("`)");
        r
    }
}

} // verus!
