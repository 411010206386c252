//! Paragraphs of text.
use crate::hasher::{self, Hasher};
use crate::layout::limits::Limits;
use crate::layout::node::{Node, NodeView};
use crate::layout::{Layout, LayoutView};
use crate::length::Length;
use crate::renderer::Renderer;
use vstd::prelude::*;
use vstd::utf8::encode_utf8;

verus! {

/// A paragraph of text.
#[derive(Debug)]
pub struct Text {
    /// What the text says.
    pub content: String,
    /// The size of the text, if it is not the renderer's default.
    pub size: Option<u16>,
    /// The sizing policy for the width.
    pub width: Length,
    /// The sizing policy for the height.
    pub height: Length,
}

/// What a [`Text`] holds, as a mathematical value.
pub struct TextView {
    /// What the text says.
    pub content: Seq<char>,
    /// The size of the text, if it is not the renderer's default.
    pub size: Option<u16>,
    /// The sizing policy for the width.
    pub width: Length,
    /// The sizing policy for the height.
    pub height: Length,
}

impl TextView {
    /// The size at which a renderer of type `R` shows the text.
    pub open spec fn shown_size<R: Renderer>(self) -> u16 {
        match self.size {
            Some(size) => size,
            None => R::spec_default_size(),
        }
    }

    /// The layout of the text under `limits`: what the renderer measures
    /// within the greatest size, brought into the limits.
    pub open spec fn layout<R: Renderer>(self, renderer: &R, limits: Limits) -> NodeView {
        let limits = limits.width(self.width).height(self.height);
        NodeView::leaf(
            limits.resolve(renderer.spec_measure(self.content, self.shown_size::<R>(), limits.max)),
        )
    }
}

impl TextView {
    /// What a renderer of type `R` draws for the text.
    pub open spec fn drawn<R: Renderer>(self, layout: LayoutView) -> R::Output {
        R::text_output(layout.bounds(), self.content, self.shown_size::<R>())
    }

    /// The bytes that stand for the size of the text in a digest.
    pub open spec fn size_bytes(self) -> Seq<u8> {
        match self.size {
            Some(size) => seq![1u8] + hasher::u16_bytes(size),
            None => seq![0u8] + hasher::u16_bytes(0),
        }
    }

    /// The digest of the text: a chunk with its kind, its size and its two
    /// sizing policies, and a chunk with what it says.
    pub open spec fn digest(self) -> Seq<Seq<u8>> {
        seq![
            seq![hasher::TEXT] + self.size_bytes() + self.width.spec_bytes()
                + self.height.spec_bytes(),
            encode_utf8(self.content),
        ]
    }
}

impl Text {
    /// What this text holds.
    pub open spec fn view(&self) -> TextView {
        TextView {
            content: self.content@,
            size: self.size,
            width: self.width,
            height: self.height,
        }
    }

    /// Creates a text that says `label`, of the renderer's default size, as
    /// wide and as high as it needs to be.
    pub fn new(label: &str) -> (text: Text)
        ensures
            text@ == (TextView {
                content: label@,
                size: None,
                width: Length::Shrink,
                height: Length::Shrink,
            }),
    {
        Text {
            content: label.to_owned(),
            size: None,
            width: Length::Shrink,
            height: Length::Shrink,
        }
    }

    /// Sets the size of the text.
    pub fn size(self, size: u16) -> (text: Text)
        ensures
            text@ == (TextView { size: Some(size), ..self@ }),
    {
        let mut text = self;
        text.size = Some(size);
        text
    }

    /// Sets the sizing policy for the width.
    pub fn width(self, width: Length) -> (text: Text)
        ensures
            text@ == (TextView { width, ..self@ }),
    {
        let mut text = self;
        text.width = width;
        text
    }

    /// Sets the sizing policy for the height.
    pub fn height(self, height: Length) -> (text: Text)
        ensures
            text@ == (TextView { height, ..self@ }),
    {
        let mut text = self;
        text.height = height;
        text
    }

    /// Computes the layout of the text under `limits`.
    pub fn layout<R: Renderer>(&self, renderer: &R, limits: &Limits) -> (node: Node)
        ensures
            node@ == self@.layout(renderer, *limits),
    {
        let limits = limits.width(self.width).height(self.height);
        let size = match self.size {
            Some(size) => size,
            None => renderer.default_size(),
        };
        let measured = renderer.measure(self.content.as_str(), size, limits.max());
        Node::new(limits.resolve(measured))
    }

    /// Writes the digest of the text to `state`.
    pub fn hash_layout(&self, state: &mut Hasher)
        ensures
            final(state)@ == old(state)@ + self@.digest(),
    {
        let mut chunk: Vec<u8> = Vec::new();
        chunk.push(hasher::TEXT);
        match self.size {
            Some(size) => {
                chunk.push(1);
                hasher::push_u16(&mut chunk, size);
            },
            None => {
                chunk.push(0);
                hasher::push_u16(&mut chunk, 0);
            },
        }
        self.width.push_bytes(&mut chunk);
        self.height.push_bytes(&mut chunk);
        assert(chunk@ =~= self@.digest()[0]);
        hasher::write_chunk(state, &chunk);
        hasher::write_bytes(state, self.content.as_str().as_bytes());
        assert(state@ =~= old(state)@ + self@.digest());
    }

    /// Draws the text.
    pub fn draw<R: Renderer>(&self, renderer: &mut R, layout: Layout<'_>) -> (output: R::Output)
        ensures
            output == self@.drawn::<R>(layout@),
    {
        let size = match self.size {
            Some(size) => size,
            None => renderer.default_size(),
        };
        renderer.draw_text(layout.bounds(), self.content.as_str(), size)
    }
}

/// The digest of a text tells the text.
pub proof fn lemma_digest(first: TextView, second: TextView)
    requires
        first.digest()[0] == second.digest()[0],
        first.digest()[1] == second.digest()[1],
    ensures
        first == second,
{
    crate::length::lemma_bytes(first.width, second.width);
    crate::length::lemma_bytes(first.height, second.height);
    let number = |size: Option<u16>|
        match size {
            Some(size) => size,
            None => 0u16,
        };
    hasher::lemma_u16_bytes(number(first.size), number(second.size));
    hasher::lemma_split(
        seq![hasher::TEXT] + first.size_bytes() + first.width.spec_bytes(),
        first.height.spec_bytes(),
        seq![hasher::TEXT] + second.size_bytes() + second.width.spec_bytes(),
        second.height.spec_bytes(),
    );
    hasher::lemma_split(
        seq![hasher::TEXT] + first.size_bytes(),
        first.width.spec_bytes(),
        seq![hasher::TEXT] + second.size_bytes(),
        second.width.spec_bytes(),
    );
    hasher::lemma_split(
        seq![hasher::TEXT],
        first.size_bytes(),
        seq![hasher::TEXT],
        second.size_bytes(),
    );
    assert(first.size_bytes()[0] == second.size_bytes()[0]);
    assert(first.size_bytes().subrange(1, 3) =~= hasher::u16_bytes(number(first.size)));
    assert(second.size_bytes().subrange(1, 3) =~= hasher::u16_bytes(number(second.size)));
    vstd::utf8::encode_utf8_decode_utf8(first.content);
    vstd::utf8::encode_utf8_decode_utf8(second.content);
}

} // verus!
