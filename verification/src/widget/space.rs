//! Empty space.
use crate::hasher::{self, Hasher};
use crate::layout::limits::Limits;
use crate::layout::node::{Node, NodeView};
use crate::layout::{Layout, LayoutView};
use crate::length::Length;
use crate::renderer::Renderer;
use crate::size::Size;
use vstd::prelude::*;

verus! {

/// An amount of empty space.
#[derive(Debug, Clone, Copy, PartialEq, Eq, Structural)]
pub struct Space {
    /// The sizing policy for the width.
    pub width: Length,
    /// The sizing policy for the height.
    pub height: Length,
}

impl Space {
    /// Creates an amount of empty space with the given sizing policies.
    pub fn new(width: Length, height: Length) -> (space: Space)
        ensures
            space == (Space { width, height }),
    {
        Space { width, height }
    }

    /// The layout of the space under `limits`: as small as the limits and
    /// the sizing policies allow.
    pub open spec fn spec_layout(&self, limits: Limits) -> NodeView {
        NodeView::leaf(limits.width(self.width).height(self.height).resolve(Size::zero()))
    }

    /// Computes the layout of the space under `limits`.
    pub fn layout<R: Renderer>(&self, renderer: &R, limits: &Limits) -> (node: Node)
        ensures
            node@ == self.spec_layout(*limits),
    {
        let limits = limits.width(self.width).height(self.height);
        Node::new(limits.resolve(Size::zero()))
    }

    /// The digest of the space: one chunk with its kind and its two sizing
    /// policies.
    pub open spec fn spec_digest(&self) -> Seq<Seq<u8>> {
        seq![seq![hasher::SPACE] + self.width.spec_bytes() + self.height.spec_bytes()]
    }

    /// Writes the digest of the space to `state`.
    pub fn hash_layout(&self, state: &mut Hasher)
        ensures
            final(state)@ == old(state)@ + self.spec_digest(),
    {
        let mut chunk: Vec<u8> = Vec::new();
        chunk.push(hasher::SPACE);
        self.width.push_bytes(&mut chunk);
        self.height.push_bytes(&mut chunk);
        assert(chunk@ =~= self.spec_digest()[0]);
        hasher::write_chunk(state, &chunk);
        assert(state@ =~= old(state)@ + self.spec_digest());
    }

    /// What a renderer of type `R` draws for the space.
    pub open spec fn spec_drawn<R: Renderer>(&self, layout: LayoutView) -> R::Output {
        R::space_output(layout.bounds())
    }

    /// Draws the space.
    pub fn draw<R: Renderer>(&self, renderer: &mut R, layout: Layout<'_>) -> (output: R::Output)
        ensures
            output == self.spec_drawn::<R>(layout@),
    {
        renderer.draw_space(layout.bounds())
    }
}

/// The digest of a space tells the space.
pub proof fn lemma_digest(first: Space, second: Space)
    requires
        first.spec_digest()[0] == second.spec_digest()[0],
    ensures
        first == second,
{
    crate::length::lemma_bytes(first.width, second.width);
    crate::length::lemma_bytes(first.height, second.height);
    hasher::lemma_split(
        seq![hasher::SPACE] + first.width.spec_bytes(),
        first.height.spec_bytes(),
        seq![hasher::SPACE] + second.width.spec_bytes(),
        second.height.spec_bytes(),
    );
    hasher::lemma_split(
        seq![hasher::SPACE],
        first.width.spec_bytes(),
        seq![hasher::SPACE],
        second.width.spec_bytes(),
    );
}

} // verus!
