//! Layout containers.

use vstd::prelude::*;

verus! {

/// The HTML elements a layout container can be rendered as.
#[derive(Debug, Clone, Copy, PartialEq, Eq, Structural)]
pub enum LayoutTag {
    /// `<div>`
    Div,
    /// `<main>`
    Main,
    /// `<aside>`
    Aside,
    /// `<section>`
    Section,
    /// `<article>`
    Article,
}

impl LayoutTag {
    /// The name of the element.
    pub open spec fn spec_element(self) -> Seq<char> {
        match self {
            LayoutTag::Div => "div"@,
            LayoutTag::Main => "main"@,
            LayoutTag::Aside => "aside"@,
            LayoutTag::Section => "section"@,
            LayoutTag::Article => "article"@,
        }
    }

    /// The name of the element the container is rendered as.
    pub fn element(&self) -> (name: &'static str)
        ensures
            name@ == self.spec_element(),
    {
        match self {
            LayoutTag::Div => "div",
            LayoutTag::Main => "main",
            LayoutTag::Aside => "aside",
            LayoutTag::Section => "section",
            LayoutTag::Article => "article",
        }
    }
}

impl Default for LayoutTag {
    /// A container is a `<div>` unless told otherwise.
    fn default() -> (tag: LayoutTag)
        ensures
            tag == LayoutTag::Div,
    {
        LayoutTag::Div
    }
}

} // verus!
