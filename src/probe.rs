//! One look at the browser: find the object that a condition is about and read
//! what its predicate needs, through `web_sys`.
//!
//! `probe_plan` decides, for a condition, which lookup a look makes and what it
//! reads; `sample` carries that plan out. What a look finds depends on the page
//! at that moment, so the calls into `web_sys` promise nothing of their results.
//!
//! This module works on the wasm target only: elsewhere every `web_sys` call
//! panics.
use crate::by::By;
use crate::condition::Condition;
use crate::ec::Ec;
use crate::poll::Sample;
use vstd::prelude::*;
use web_sys::wasm_bindgen::JsCast;

verus! {

#[verifier::external_type_specification]
#[verifier::external_body]
pub struct ExWindow(web_sys::Window);

#[verifier::external_type_specification]
#[verifier::external_body]
pub struct ExDocument(web_sys::Document);

#[verifier::external_type_specification]
#[verifier::external_body]
pub struct ExElement(web_sys::Element);

#[verifier::external_type_specification]
#[verifier::external_body]
pub struct ExHtmlElement(web_sys::HtmlElement);

#[verifier::external_type_specification]
#[verifier::external_body]
pub struct ExHtmlCollection(web_sys::HtmlCollection);

#[verifier::external_type_specification]
#[verifier::external_body]
pub struct ExStorage(web_sys::Storage);

#[verifier::external_type_specification]
#[verifier::external_body]
pub struct ExLocation(web_sys::Location);

/// Relies on `web_sys::window`: the global window, where there is one.
#[verifier::external_body]
fn browser_window() -> (r: Option<web_sys::Window>) {
    web_sys::window()
}

/// Relies on `Window::document`: the window's document, where it has one.
#[verifier::external_body]
fn window_document(window: &web_sys::Window) -> (r: Option<web_sys::Document>) {
    window.document()
}

/// Relies on `Document::get_element_by_id`: the element with that identifier.
#[verifier::external_body]
fn element_by_id(document: &web_sys::Document, id: &str) -> (r: Option<web_sys::Element>) {
    document.get_element_by_id(id)
}

/// Relies on `Document::get_elements_by_class_name`: the elements with that class.
#[verifier::external_body]
fn elements_by_class(document: &web_sys::Document, class: &str) -> (r: web_sys::HtmlCollection) {
    document.get_elements_by_class_name(class)
}

/// Relies on `Document::get_elements_by_tag_name`: the elements with that tag.
#[verifier::external_body]
fn elements_by_tag(document: &web_sys::Document, tag: &str) -> (r: web_sys::HtmlCollection) {
    document.get_elements_by_tag_name(tag)
}

/// Relies on `HtmlCollection::item`: the first element of the collection.
#[verifier::external_body]
fn first_item(collection: &web_sys::HtmlCollection) -> (r: Option<web_sys::Element>) {
    collection.item(0)
}

/// Relies on `Document::query_selector`: the first element that the selector
/// matches; a selector that the browser refuses gives `None`.
#[verifier::external_body]
fn query_first(document: &web_sys::Document, selector: &str) -> (r: Option<web_sys::Element>) {
    document.query_selector(selector).ok().flatten()
}

/// Relies on `JsCast::dyn_into`: the element as an HTML element, where it is one.
#[verifier::external_body]
fn as_html_element(element: web_sys::Element) -> (r: Option<web_sys::HtmlElement>) {
    element.dyn_into::<web_sys::HtmlElement>().ok()
}

/// Relies on `HtmlElement::inner_text`: the element's rendered text.
#[verifier::external_body]
fn inner_text(element: &web_sys::HtmlElement) -> (r: String) {
    element.inner_text()
}

/// Relies on `Element::get_attribute`: the attribute's value, where it is set.
#[verifier::external_body]
fn attribute(element: &web_sys::Element, name: &str) -> (r: Option<String>) {
    element.get_attribute(name)
}

/// Relies on `Window::local_storage`: the window's local storage; an error
/// gives `None`.
#[verifier::external_body]
fn local_storage(window: &web_sys::Window) -> (r: Option<web_sys::Storage>) {
    window.local_storage().ok().flatten()
}

/// Relies on `Storage::get_item`: the entry under the key; an error gives `None`.
#[verifier::external_body]
fn storage_item(storage: &web_sys::Storage, key: &str) -> (r: Option<String>) {
    storage.get_item(key).ok().flatten()
}

/// Relies on `Window::location`: the window's location.
#[verifier::external_body]
fn window_location(window: &web_sys::Window) -> (r: web_sys::Location) {
    window.location()
}

/// Relies on `Location::search`: the query string of the location; an error
/// gives `None`.
#[verifier::external_body]
fn location_search(location: &web_sys::Location) -> (r: Option<String>) {
    location.search().ok()
}

/// Where a look finds an element.
pub enum Lookup {
    /// The element with this identifier.
    ById(String),
    /// The first element with this class.
    FirstByClass(String),
    /// The first element with this tag name.
    FirstByTag(String),
    /// The first element that this CSS selector matches; a selector that the
    /// browser refuses finds nothing.
    FirstByQuery(String),
}

/// What a look reads of the element it found.
pub enum Reading {
    /// Nothing: that the element exists is enough.
    Exists,
    /// The inner text, which only an HTML element has.
    InnerText,
    /// The value of the attribute with this name.
    Attribute(String),
}

/// What one look does.
pub enum Probe {
    /// Nothing to look for: the condition is misused, or its predicate reads
    /// the storage or the location while its selector finds an element, which
    /// is never one of them.
    Nothing,
    /// Find an element of the window's document and read it.
    Element(Lookup, Reading),
    /// Read the entry under this key of the window's local storage.
    StorageItem(String),
    /// Read the query string of the window's location.
    Search,
}

/// The lookup that a selector makes, with its text as it stands.
pub open spec fn lookup_of(by: By) -> Lookup {
    match by {
        By::Id(s) => Lookup::ById(s),
        By::Class(s) => Lookup::FirstByClass(s),
        By::TagName(s) => Lookup::FirstByTag(s),
        By::QuerySelector(s) => Lookup::FirstByQuery(s),
    }
}

/// What a look for condition `c` does.
pub open spec fn plan_of(c: Condition) -> Probe {
    match c.by {
        Some(by) => match c.ec {
            None => Probe::Element(lookup_of(by), Reading::Exists),
            Some(Ec::InnerTextContains(_)) => Probe::Element(lookup_of(by), Reading::InnerText),
            Some(Ec::AttributeValueIs(a, _)) => Probe::Element(lookup_of(by), Reading::Attribute(a)),
            Some(Ec::LocalStorageAttributeValueIs(_, _)) => Probe::Nothing,
            Some(Ec::LocationSearchIs(_)) => Probe::Nothing,
        },
        None => match c.ec {
            Some(Ec::LocalStorageAttributeValueIs(k, _)) => Probe::StorageItem(k),
            Some(Ec::LocationSearchIs(_)) => Probe::Search,
            _ => Probe::Nothing,
        },
    }
}

/// What a look for `condition` does (see `plan_of`).
pub fn probe_plan(condition: &Condition) -> (r: Probe)
    ensures
        r == plan_of(*condition),
{
    match &condition.by {
        Some(by) => {
            let lookup = match by {
                By::Id(s) => Lookup::ById(s.clone()),
                By::Class(s) => Lookup::FirstByClass(s.clone()),
                By::TagName(s) => Lookup::FirstByTag(s.clone()),
                By::QuerySelector(s) => Lookup::FirstByQuery(s.clone()),
            };
            match &condition.ec {
                None => Probe::Element(lookup, Reading::Exists),
                Some(Ec::InnerTextContains(_)) => Probe::Element(lookup, Reading::InnerText),
                Some(Ec::AttributeValueIs(a, _)) => Probe::Element(lookup, Reading::Attribute(a.clone())),
                Some(Ec::LocalStorageAttributeValueIs(_, _)) => Probe::Nothing,
                Some(Ec::LocationSearchIs(_)) => Probe::Nothing,
            }
        },
        None => match &condition.ec {
            Some(Ec::LocalStorageAttributeValueIs(k, _)) => Probe::StorageItem(k.clone()),
            Some(Ec::LocationSearchIs(_)) => Probe::Search,
            _ => Probe::Nothing,
        },
    }
}

/// The element that `lookup` finds in the window's document, if any.
fn find(window: &web_sys::Window, lookup: &Lookup) -> (r: Option<web_sys::Element>) {
    let document = match window_document(window) {
        Some(d) => d,
        None => return None,
    };
    match lookup {
        Lookup::ById(id) => element_by_id(&document, id.as_str()),
        Lookup::FirstByClass(class) => first_item(&elements_by_class(&document, class.as_str())),
        Lookup::FirstByTag(tag) => first_item(&elements_by_tag(&document, tag.as_str())),
        Lookup::FirstByQuery(selector) => query_first(&document, selector.as_str()),
    }
}

/// Takes one look for `condition`, following `plan_of(condition)`: makes its
/// lookup and reads what it names. No window, no document, no element, no
/// HTML element where the inner text is read, or no local storage gives
/// `Missing`.
pub fn sample(condition: &Condition) -> (r: Sample)
    ensures
        plan_of(*condition) is Nothing ==> r is Missing,
        plan_of(*condition) matches Probe::Element(_, reading) ==> match reading {
            Reading::Exists => r is Missing || r == Sample::Found(None),
            Reading::InnerText => r is Missing || (r is Found && r->Found_0 is Some),
            Reading::Attribute(_) => true,
        },
{
    let plan = probe_plan(condition);
    let window = match browser_window() {
        Some(w) => w,
        None => return Sample::Missing,
    };
    match plan {
        Probe::Nothing => Sample::Missing,
        Probe::Element(lookup, reading) => {
            let element = match find(&window, &lookup) {
                Some(e) => e,
                None => return Sample::Missing,
            };
            match reading {
                Reading::Exists => Sample::Found(None),
                Reading::InnerText => match as_html_element(element) {
                    Some(h) => Sample::Found(Some(inner_text(&h))),
                    None => Sample::Missing,
                },
                Reading::Attribute(name) => Sample::Found(attribute(&element, name.as_str())),
            }
        },
        Probe::StorageItem(key) => match local_storage(&window) {
            Some(storage) => Sample::Found(storage_item(&storage, key.as_str())),
            None => Sample::Missing,
        },
        Probe::Search => Sample::Found(location_search(&window_location(&window))),
    }
}

} // verus!
