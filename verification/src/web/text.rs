//! Text on a web page.
use crate::web::dom::{self, Markup};
use dodrio::Node as VirtualNode;
use dodrio::bumpalo::Bump;
use vstd::prelude::*;

verus! {

/// A piece of text.
#[derive(Debug)]
pub struct Text {
    /// What the text says.
    pub content: String,
}

impl Text {
    /// Creates a text that says `label`.
    pub fn new(label: &str) -> (text: Text)
        ensures
            text.content@ == label@,
    {
        Text { content: label.to_owned() }
    }

    /// Makes the node of the text in the arena `bump`.
    pub fn node<'b>(&self, bump: &'b Bump) -> (node: VirtualNode<'b>)
        ensures
            dom::markup(node) == Markup::Text(self.content@),
    {
        dom::text(bump, self.content.as_str())
    }
}

} // verus!
