//! Nodes of the virtual document.
use dodrio::Node as VirtualNode;
use dodrio::bumpalo::Bump;
use vstd::prelude::*;

verus! {

/// The arena in which the nodes of a virtual document live,
/// `bumpalo::Bump`.
#[verifier::external_type_specification]
#[verifier::external_body]
pub struct ExBump(Bump);

/// A node of a virtual document, `dodrio::Node`, under a name that tells it
/// from the nodes of a layout.
#[verifier::external_type_specification]
#[verifier::external_body]
pub struct ExVirtualNode<'a>(VirtualNode<'a>);

/// What a node of a virtual document holds.
pub enum Markup {
    /// A piece of text.
    Text(Seq<char>),
    /// An element.
    Element {
        /// The tag name.
        tag: Seq<char>,
        /// The attributes, each a name and a value.
        attributes: Seq<(Seq<char>, Seq<char>)>,
        /// The children.
        children: Seq<Markup>,
    },
}

/// What `node` holds: its text, or its tag name, its attributes and its
/// children, each in the order in which they were given.
pub uninterp spec fn markup(node: VirtualNode<'_>) -> Markup;

/// What each of `nodes` holds.
pub open spec fn markups(nodes: Seq<VirtualNode<'_>>) -> Seq<Markup> {
    Seq::new(nodes.len(), |i: int| markup(nodes[i]))
}

/// Makes a text node with `dodrio::builder::text`, from a copy of `content`
/// in the arena. The node holds that text.
#[verifier::external_body]
pub(crate) fn text<'b>(bump: &'b Bump, content: &str) -> (node: VirtualNode<'b>)
    ensures
        markup(node) == Markup::Text(content@),
{
    let content = dodrio::bumpalo::collections::String::from_str_in(content, bump);
    dodrio::builder::text(content.into_bump_str())
}

/// Makes a `div` element with `dodrio::builder::div`: the builder gets the
/// attribute `first`, then the attribute `second`, each a name and a value
/// of which copies are made in the arena, then the children, and is
/// finished. The node holds the tag name `div`, these two attributes in this
/// order, and the children in their order.
#[verifier::external_body]
pub(crate) fn div<'b>(
    bump: &'b Bump,
    first: (&str, &str),
    second: (&str, &str),
    children: Vec<VirtualNode<'b>>,
) -> (node: VirtualNode<'b>)
    ensures
        markup(node) == (Markup::Element {
            tag: "div"@,
            attributes: seq![(first.0@, first.1@), (second.0@, second.1@)],
            children: markups(children@),
        }),
{
    let first_name = dodrio::bumpalo::collections::String::from_str_in(first.0, bump);
    let first_value = dodrio::bumpalo::collections::String::from_str_in(first.1, bump);
    let second_name = dodrio::bumpalo::collections::String::from_str_in(second.0, bump);
    let second_value = dodrio::bumpalo::collections::String::from_str_in(second.1, bump);
    dodrio::builder::div(bump).attr(
        first_name.into_bump_str(),
        first_value.into_bump_str(),
    ).attr(second_name.into_bump_str(), second_value.into_bump_str()).children(children).finish()
}

} // verus!
