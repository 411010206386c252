//! Decorate content and apply alignment.
use crate::align::Align;
use crate::element::{Element, ElementView};
use crate::event::Event;
use crate::hasher::{self, Hasher};
use crate::layout::limits::Limits;
use crate::layout::node::{Node, NodeView};
use crate::layout::{Layout, LayoutView};
use crate::length::Length;
use crate::point::Point;
use crate::renderer::Renderer;
use crate::size::Size;
use crate::units;
use vstd::prelude::*;

verus! {

/// An element decorating some content.
///
/// It is normally used for alignment purposes.
#[derive(Debug)]
pub struct Container<Message> {
    /// The sizing policy for the width.
    pub width: Length,
    /// The sizing policy for the height.
    pub height: Length,
    /// The greatest width.
    pub max_width: u32,
    /// The greatest height.
    pub max_height: u32,
    /// Where the content is put from left to right.
    pub horizontal_alignment: Align,
    /// Where the content is put from top to bottom.
    pub vertical_alignment: Align,
    /// The content.
    pub content: Box<Element<Message>>,
}

/// What a [`Container`] holds, as a mathematical value.
pub struct ContainerView<Message> {
    /// The sizing policy for the width.
    pub width: Length,
    /// The sizing policy for the height.
    pub height: Length,
    /// The greatest width.
    pub max_width: u32,
    /// The greatest height.
    pub max_height: u32,
    /// Where the content is put from left to right.
    pub horizontal_alignment: Align,
    /// Where the content is put from top to bottom.
    pub vertical_alignment: Align,
    /// The content.
    pub content: Box<ElementView<Message>>,
}

impl<Message> ContainerView<Message> {
    /// The limits of the container itself under `limits`: the limits as
    /// they are given, within the greatest width and height of the
    /// container, and under its sizing policies.
    pub open spec fn own_limits(self, limits: Limits) -> Limits {
        limits.max_width(self.max_width).max_height(self.max_height).width(self.width).height(
            self.height,
        )
    }

    /// The layout of the container under `limits`: the content is laid out
    /// under the container's own limits without their least size; the
    /// container takes the size of the content, brought into its own limits,
    /// and the content is aligned in that size.
    pub open spec fn layout<R: Renderer>(self, renderer: &R, limits: Limits) -> NodeView
        decreases self,
    {
        let limits = self.own_limits(limits);
        let content = self.content.layout(renderer, limits.loose());
        let size = limits.resolve(content.size());
        NodeView::with_children(
            size,
            seq![content.aligned(self.horizontal_alignment, self.vertical_alignment, size)],
        )
    }
}

impl<Message> ContainerView<Message> {
    /// What a renderer of type `R` draws for the container: its drawing of
    /// the content, with the layout of the first child.
    pub open spec fn drawn<R: Renderer>(
        self,
        layout: LayoutView,
        cursor_position: Point,
    ) -> R::Output
        decreases self,
    {
        self.content.drawn::<R>(layout.first_child(), cursor_position)
    }

    /// The first chunk of the digest of the container: its kind, its two
    /// sizing policies, and its greatest width and height. Where the
    /// container puts its content is not part of it.
    pub open spec fn header(self) -> Seq<u8> {
        seq![hasher::CONTAINER] + self.width.spec_bytes() + self.height.spec_bytes()
            + hasher::u32_bytes(self.max_width) + hasher::u32_bytes(self.max_height)
    }

    /// The digest of the container: its first chunk, then the digest of its
    /// content.
    pub open spec fn digest(self) -> Seq<Seq<u8>>
        decreases self,
    {
        seq![self.header()] + self.content.digest()
    }
}

impl<Message> ContainerView<Message> {
    /// The container after `event`: its content has handled the event with
    /// the layout of the first child. Where the layout has no child, nothing
    /// changes.
    pub open spec fn after_event(
        self,
        event: Event,
        layout: LayoutView,
        cursor_position: Point,
    ) -> ContainerView<Message>
        decreases self,
    {
        if layout.len() > 0 {
            ContainerView {
                content: Box::new(
                    self.content.after_event(event, layout.child(0), cursor_position),
                ),
                ..self
            }
        } else {
            self
        }
    }

    /// The messages that the container produces on `event`: those of its
    /// content.
    pub open spec fn emitted(
        self,
        event: Event,
        layout: LayoutView,
        cursor_position: Point,
    ) -> Seq<Message>
        decreases self,
    {
        if layout.len() > 0 {
            self.content.emitted(event, layout.child(0), cursor_position)
        } else {
            Seq::empty()
        }
    }
}

impl<Message> Container<Message> {
    /// What this container holds.
    pub open spec fn view(&self) -> ContainerView<Message>
        decreases self,
    {
        ContainerView {
            width: self.width,
            height: self.height,
            max_width: self.max_width,
            max_height: self.max_height,
            horizontal_alignment: self.horizontal_alignment,
            vertical_alignment: self.vertical_alignment,
            content: Box::new(self.content.view()),
        }
    }

    /// Creates a container around `content` that is as large as its content,
    /// without a greatest size, with the content at its top-left corner.
    pub fn new(content: Element<Message>) -> (container: Container<Message>)
        ensures
            container@ == (ContainerView {
                width: Length::Shrink,
                height: Length::Shrink,
                max_width: units::UNBOUNDED,
                max_height: units::UNBOUNDED,
                horizontal_alignment: Align::Start,
                vertical_alignment: Align::Start,
                content: Box::new(content@),
            }),
    {
        Container {
            width: Length::Shrink,
            height: Length::Shrink,
            max_width: units::UNBOUNDED,
            max_height: units::UNBOUNDED,
            horizontal_alignment: Align::Start,
            vertical_alignment: Align::Start,
            content: Box::new(content),
        }
    }

    /// Sets the width of the [`Container`].
    pub fn width(self, width: Length) -> (container: Container<Message>)
        ensures
            container@ == (ContainerView { width, ..self@ }),
    {
        let mut container = self;
        container.width = width;
        container
    }

    /// Sets the height of the [`Container`].
    pub fn height(self, height: Length) -> (container: Container<Message>)
        ensures
            container@ == (ContainerView { height, ..self@ }),
    {
        let mut container = self;
        container.height = height;
        container
    }

    /// Sets the maximum width of the [`Container`].
    pub fn max_width(self, max_width: u32) -> (container: Container<Message>)
        ensures
            container@ == (ContainerView { max_width, ..self@ }),
    {
        let mut container = self;
        container.max_width = max_width;
        container
    }

    /// Sets the maximum height of the [`Container`] in pixels.
    pub fn max_height(self, max_height: u32) -> (container: Container<Message>)
        ensures
            container@ == (ContainerView { max_height, ..self@ }),
    {
        let mut container = self;
        container.max_height = max_height;
        container
    }

    /// Centers the contents in the horizontal axis of the [`Container`].
    pub fn center_x(self) -> (container: Container<Message>)
        ensures
            container@ == (ContainerView { horizontal_alignment: Align::Center, ..self@ }),
    {
        let mut container = self;
        container.horizontal_alignment = Align::Center;
        container
    }

    /// Centers the contents in the vertical axis of the [`Container`].
    pub fn center_y(self) -> (container: Container<Message>)
        ensures
            container@ == (ContainerView { vertical_alignment: Align::Center, ..self@ }),
    {
        let mut container = self;
        container.vertical_alignment = Align::Center;
        container
    }

    /// Computes the layout of the container under `limits`. The container
    /// is never smaller than the least size and never larger than the
    /// greatest size of valid limits, whatever the size of its content.
    pub fn layout<R: Renderer>(&self, renderer: &R, limits: &Limits) -> (node: Node)
        ensures
            node@ == self@.layout(renderer, *limits),
            limits.is_valid() ==> self@.own_limits(*limits).is_valid(),
            limits.is_valid() ==> limits.min.width <= self@.own_limits(*limits).min.width
                <= node@.size().width <= self@.own_limits(*limits).max.width <= limits.max.width,
            limits.is_valid() ==> limits.min.height <= self@.own_limits(*limits).min.height
                <= node@.size().height <= self@.own_limits(*limits).max.height
                <= limits.max.height,
        decreases self,
    {
        let limits = limits.max_width(self.max_width).max_height(self.max_height).width(
            self.width,
        ).height(self.height);
        let mut content = self.content.layout(renderer, &limits.loose());
        let size = limits.resolve(content.size());
        content.align(self.horizontal_alignment, self.vertical_alignment, size);
        let mut children: Vec<Node> = Vec::new();
        children.push(content);
        let node = Node::with_children(size, children);
        assert(node@.children =~= seq![content@]);
        node
    }

    /// Writes the digest of the container to `state`.
    pub fn hash_layout(&self, state: &mut Hasher)
        ensures
            final(state)@ == old(state)@ + self@.digest(),
        decreases self,
    {
        let mut chunk: Vec<u8> = Vec::new();
        chunk.push(hasher::CONTAINER);
        self.width.push_bytes(&mut chunk);
        self.height.push_bytes(&mut chunk);
        hasher::push_u32(&mut chunk, self.max_width);
        hasher::push_u32(&mut chunk, self.max_height);
        assert(chunk@ =~= self@.header());
        hasher::write_chunk(state, &chunk);
        self.content.hash_layout(state);
        assert(state@ =~= old(state)@ + self@.digest());
    }

    /// Handles `event` by handing it to the content.
    pub fn on_event<R: Renderer>(
        &mut self,
        event: Event,
        layout: Layout<'_>,
        cursor_position: Point,
        messages: &mut Vec<Message>,
        renderer: &R,
    ) where Message: Copy
        ensures
            final(self)@ == old(self)@.after_event(event, layout@, cursor_position),
            final(messages)@ == old(messages)@ + old(self)@.emitted(
                event,
                layout@,
                cursor_position,
            ),
        decreases *old(self),
    {
        if layout.len() > 0 {
            self.content.on_event(event, layout.child(0), cursor_position, messages, renderer);
        } else {
            assert(messages@ =~= old(messages)@ + Seq::empty());
        }
    }

    /// Draws the container.
    pub fn draw<R: Renderer>(
        &self,
        renderer: &mut R,
        layout: Layout<'_>,
        cursor_position: Point,
    ) -> (output: R::Output)
        ensures
            output == self@.drawn::<R>(layout@, cursor_position),
        decreases self,
    {
        let empty = Node::new(Size::zero());
        self.content.draw(renderer, layout.first_child_or(&empty), cursor_position)
    }
}

/// The first chunk of the digest of a container tells its sizing policies
/// and its greatest width and height.
pub proof fn lemma_header<Message>(first: ContainerView<Message>, second: ContainerView<Message>)
    requires
        first.header() == second.header(),
    ensures
        first.width == second.width,
        first.height == second.height,
        first.max_width == second.max_width,
        first.max_height == second.max_height,
{
    crate::length::lemma_bytes(first.width, second.width);
    crate::length::lemma_bytes(first.height, second.height);
    hasher::lemma_u32_bytes(first.max_width, second.max_width);
    hasher::lemma_u32_bytes(first.max_height, second.max_height);
    let kind = seq![hasher::CONTAINER];
    hasher::lemma_split(
        kind + first.width.spec_bytes() + first.height.spec_bytes() + hasher::u32_bytes(
            first.max_width,
        ),
        hasher::u32_bytes(first.max_height),
        kind + second.width.spec_bytes() + second.height.spec_bytes() + hasher::u32_bytes(
            second.max_width,
        ),
        hasher::u32_bytes(second.max_height),
    );
    hasher::lemma_split(
        kind + first.width.spec_bytes() + first.height.spec_bytes(),
        hasher::u32_bytes(first.max_width),
        kind + second.width.spec_bytes() + second.height.spec_bytes(),
        hasher::u32_bytes(second.max_width),
    );
    hasher::lemma_split(
        kind + first.width.spec_bytes(),
        first.height.spec_bytes(),
        kind + second.width.spec_bytes(),
        second.height.spec_bytes(),
    );
    hasher::lemma_split(kind, first.width.spec_bytes(), kind, second.width.spec_bytes());
}

/// The container's own limits lie within valid limits that it is given, and
/// so does the size of its layout, whatever the size of its content.
pub proof fn lemma_layout_within_limits<Message, R: Renderer>(
    container: ContainerView<Message>,
    renderer: &R,
    limits: Limits,
)
    requires
        limits.is_valid(),
    ensures
        container.own_limits(limits).is_valid(),
        limits.min.width <= container.own_limits(limits).min.width <= container.layout(
            renderer,
            limits,
        ).size().width <= container.own_limits(limits).max.width <= limits.max.width,
        limits.min.height <= container.own_limits(limits).min.height <= container.layout(
            renderer,
            limits,
        ).size().height <= container.own_limits(limits).max.height <= limits.max.height,
{
}

} // verus!
