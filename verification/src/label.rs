//! Text labels.

use vstd::prelude::*;

verus! {

/// The HTML elements a label can be rendered as.
#[derive(Debug, Clone, Copy, PartialEq, Eq, Structural)]
pub enum LabelTag {
    /// `<h1>`
    H1,
    /// `<h2>`
    H2,
    /// `<h3>`
    H3,
    /// `<p>`
    P,
    /// `<span>`
    Span,
}

impl LabelTag {
    /// The name of the element.
    pub open spec fn spec_element(self) -> Seq<char> {
        match self {
            LabelTag::H1 => "h1"@,
            LabelTag::H2 => "h2"@,
            LabelTag::H3 => "h3"@,
            LabelTag::P => "p"@,
            LabelTag::Span => "span"@,
        }
    }

    /// The name of the element the label is rendered as.
    pub fn element(&self) -> (name: &'static str)
        ensures
            name@ == self.spec_element(),
    {
        match self {
            LabelTag::H1 => "h1",
            LabelTag::H2 => "h2",
            LabelTag::H3 => "h3",
            LabelTag::P => "p",
            LabelTag::Span => "span",
        }
    }
}

impl Default for LabelTag {
    /// A label is a paragraph unless told otherwise.
    fn default() -> (tag: LabelTag)
        ensures
            tag == LabelTag::P,
    {
        LabelTag::P
    }
}

} // verus!
