//! The markup-query capability: parsed HTML documents, CSS-like selectors and
//! element handles, consumed as a black box.
//!
//! Documents and elements are opaque to the verifier; everything the crate's
//! logic reads out of them (texts, attribute values) comes back as plain
//! strings, and all decisions over those strings are made by verified code.

use vstd::prelude::*;

use crate::error::ParseError;

verus! {

#[verifier::external_type_specification]
#[verifier::external_body]
pub struct ExHtml(scraper::Html);

#[verifier::external_type_specification]
#[verifier::external_body]
pub struct ExSelector(scraper::Selector);

#[verifier::external_type_specification]
#[verifier::external_body]
pub struct ExElementRef<'a>(scraper::ElementRef<'a>);

/// Relies on scraper::Html::parse_document: parses an HTML string into a
/// document tree, never failing (bad markup yields a best-effort tree).
#[verifier::external_body]
pub(crate) fn parse_document(text: &str) -> scraper::Html {
    scraper::Html::parse_document(text)
}

/// Relies on scraper::Selector::parse: compiles a CSS-like selector; `None`
/// when the selector text is not valid.
#[verifier::external_body]
fn parse_selector(selector: &str) -> Option<scraper::Selector> {
    match scraper::Selector::parse(selector) {
        Ok(s) => Some(s),
        Err(_) => None,
    }
}

/// Relies on the traversal behind scraper::Html::root_element — the tree
/// root's first element child, taken through scraper::ElementRef::wrap —
/// but answers `None` where the outside function would panic: on a document
/// that holds no element at all (documents parsed by `parse_document` always
/// hold one; an empty `scraper::Html` does not).
#[verifier::external_body]
fn root_element<'a>(html: &'a scraper::Html) -> Option<scraper::ElementRef<'a>> {
    html.tree.root().children().find_map(scraper::ElementRef::wrap)
}

/// The document's root element; an error on a document without one, which no
/// parsed page is.
pub fn document_root<'a>(page: &'a scraper::Html) -> (r: Result<
    scraper::ElementRef<'a>,
    ParseError,
>)
    ensures
        r matches Err(e) ==> e.expected@ == "a root element in the document"@,
{
    match root_element(page) {
        Some(el) => Ok(el),
        None => Err(ParseError::new("a root element in the document")),
    }
}

/// Relies on scraper::ElementRef::select: all elements below `el` that match
/// the selector, in document order.
#[verifier::external_body]
fn select_elements<'a>(el: &scraper::ElementRef<'a>, selector: &scraper::Selector) -> Vec<
    scraper::ElementRef<'a>,
> {
    el.select(selector).collect()
}

/// Relies on scraper::ElementRef::text: the concatenated text of all text
/// nodes below `el`.
#[verifier::external_body]
pub(crate) fn element_text(el: &scraper::ElementRef<'_>) -> String {
    el.text().collect()
}

/// Relies on scraper::ElementRef::attr: the value of the named attribute on
/// `el` itself, if the attribute is present.
#[verifier::external_body]
pub(crate) fn element_attr(el: &scraper::ElementRef<'_>, name: &str) -> Option<String> {
    el.attr(name).map(|v| v.to_string())
}

/// Relies on scraper::ElementRef::child_elements: the direct element children
/// of `el`, in document order.
#[verifier::external_body]
pub(crate) fn child_elements<'a>(el: &scraper::ElementRef<'a>) -> Vec<scraper::ElementRef<'a>> {
    el.child_elements().collect()
}

/// All elements below `el` matching `selector`; fails when the selector text
/// itself is invalid.
pub fn select_in<'a>(el: &scraper::ElementRef<'a>, selector: &str) -> (r: Result<
    Vec<scraper::ElementRef<'a>>,
    ParseError,
>)
    ensures
        r matches Err(e) ==> e.expected@ == selector@,
{
    match parse_selector(selector) {
        Some(sel) => Ok(select_elements(el, &sel)),
        None => Err(ParseError { expected: selector.to_owned() }),
    }
}

/// The first element below `el` matching `selector`, if any.
pub fn first_in<'a>(el: &scraper::ElementRef<'a>, selector: &str) -> (r: Result<
    Option<scraper::ElementRef<'a>>,
    ParseError,
>)
    ensures
        r matches Err(e) ==> e.expected@ == selector@,
{
    let mut all = select_in(el, selector)?;
    if all.len() == 0 {
        Ok(None)
    } else {
        let first = all.remove(0);
        Ok(Some(first))
    }
}

/// The text of the first element matching `selector`, if such an element
/// exists.
pub fn first_text(el: &scraper::ElementRef<'_>, selector: &str) -> (r: Result<
    Option<String>,
    ParseError,
>)
    ensures
        r matches Err(e) ==> e.expected@ == selector@,
{
    match first_in(el, selector)? {
        Some(found) => Ok(Some(element_text(&found))),
        None => Ok(None),
    }
}

/// The named attribute of the first element matching `selector`: `None` when
/// no element matches or the element carries no such attribute.
pub fn first_attr(el: &scraper::ElementRef<'_>, selector: &str, name: &str) -> (r: Result<
    Option<String>,
    ParseError,
>)
    ensures
        r matches Err(e) ==> e.expected@ == selector@,
{
    match first_in(el, selector)? {
        Some(found) => Ok(element_attr(&found, name)),
        None => Ok(None),
    }
}

/// The texts of all elements matching `selector`, in document order.
pub fn all_texts(el: &scraper::ElementRef<'_>, selector: &str) -> (r: Result<
    Vec<String>,
    ParseError,
>)
    ensures
        r matches Err(e) ==> e.expected@ == selector@,
{
    let all = select_in(el, selector)?;
    let mut texts: Vec<String> = Vec::new();
    let mut i: usize = 0;
    while i < all.len()
        decreases all.len() - i,
    {
        texts.push(element_text(&all[i]));
        i += 1;
    }
    Ok(texts)
}

/// The named attribute of every element matching `selector` that carries it,
/// in document order.
pub fn all_attrs(el: &scraper::ElementRef<'_>, selector: &str, name: &str) -> (r: Result<
    Vec<String>,
    ParseError,
>)
    ensures
        r matches Err(e) ==> e.expected@ == selector@,
{
    let all = select_in(el, selector)?;
    let mut values: Vec<String> = Vec::new();
    let mut i: usize = 0;
    while i < all.len()
        decreases all.len() - i,
    {
        match element_attr(&all[i], name) {
            Some(v) => values.push(v),
            None => (),
        }
        i += 1;
    }
    Ok(values)
}

} // verus!
