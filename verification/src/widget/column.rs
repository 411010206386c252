//! Distribute content vertically.
use crate::align::Align;
use crate::element::{self, Element, ElementView};
use crate::event::Event;
use crate::hasher::{self, Hasher};
use crate::layout::flex::{self, Axis, Flex};
use crate::layout::limits::Limits;
use crate::layout::node::{Node, NodeView};
use crate::layout::{Layout, LayoutView};
use crate::length::Length;
use crate::point::Point;
use crate::renderer::Renderer;
use crate::units;
use vstd::prelude::*;

verus! {

/// A container that distributes its contents vertically.
#[derive(Debug)]
pub struct Column<Message> {
    /// The space between two children.
    pub spacing: u16,
    /// The space between the edge of the column and its children.
    pub padding: u16,
    /// The sizing policy for the width.
    pub width: Length,
    /// The sizing policy for the height.
    pub height: Length,
    /// The greatest width.
    pub max_width: u32,
    /// The greatest height.
    pub max_height: u32,
    /// Where the children are put from left to right.
    pub align_items: Align,
    /// The children, from top to bottom.
    pub children: Vec<Element<Message>>,
}

/// What a [`Column`] holds, as a mathematical value.
pub struct ColumnView<Message> {
    /// The space between two children.
    pub spacing: u16,
    /// The space between the edge of the column and its children.
    pub padding: u16,
    /// The sizing policy for the width.
    pub width: Length,
    /// The sizing policy for the height.
    pub height: Length,
    /// The greatest width.
    pub max_width: u32,
    /// The greatest height.
    pub max_height: u32,
    /// Where the children are put from left to right.
    pub align_items: Align,
    /// The children, from top to bottom.
    pub children: Seq<ElementView<Message>>,
}

impl<Message> ColumnView<Message> {
    /// The flex layout that the column asks for under `limits`.
    pub open spec fn flex(self, limits: Limits) -> Flex<Message> {
        Flex {
            axis: Axis::Vertical,
            limits: limits.max_width(self.max_width).max_height(self.max_height).width(
                self.width,
            ).height(self.height),
            padding: self.padding,
            spacing: self.spacing,
            align_items: self.align_items,
            items: self.children,
        }
    }

    /// The layout of the column under `limits`.
    pub open spec fn layout<R: Renderer>(self, renderer: &R, limits: Limits) -> NodeView
        decreases self,
    {
        self.flex(limits).node(renderer)
    }
}

impl<Message> ColumnView<Message> {
    /// What a renderer of type `R` draws for the column: its drawing of a column
    /// of what it draws for the children.
    pub open spec fn drawn<R: Renderer>(
        self,
        layout: LayoutView,
        cursor_position: Point,
    ) -> R::Output
        decreases self,
    {
        R::column_output(
            layout.bounds(),
            element::all_drawn::<Message, R>(self.children, layout, cursor_position),
        )
    }

    /// The first chunk of the digest of the column: its kind, its two sizing
    /// policies, its greatest width and height, its alignment, its spacing
    /// and its padding.
    pub open spec fn header(self) -> Seq<u8> {
        seq![hasher::COLUMN] + self.width.spec_bytes() + self.height.spec_bytes()
            + hasher::u32_bytes(self.max_width) + hasher::u32_bytes(self.max_height)
            + seq![self.align_items.spec_byte()] + hasher::u16_bytes(self.spacing)
            + hasher::u16_bytes(self.padding)
    }

    /// The digest of the column: its first chunk, then the digests of its
    /// children, in order, then a chunk that closes the column.
    pub open spec fn digest(self) -> Seq<Seq<u8>>
        decreases self,
    {
        seq![self.header()] + element::digests(self.children, self.children.len() as int)
            + seq![seq![hasher::END]]
    }
}

impl<Message> ColumnView<Message> {
    /// The column after `event`: each child has handled the event with the
    /// layout of the child at its own place.
    pub open spec fn after_event(
        self,
        event: Event,
        layout: LayoutView,
        cursor_position: Point,
    ) -> ColumnView<Message>
        decreases self,
    {
        ColumnView {
            children: element::all_after_event(self.children, event, layout, cursor_position),
            ..self
        }
    }

    /// The messages that the column produces on `event`: those of its
    /// children, in the order of the children.
    pub open spec fn emitted(
        self,
        event: Event,
        layout: LayoutView,
        cursor_position: Point,
    ) -> Seq<Message>
        decreases self,
    {
        element::all_emitted(
            self.children,
            event,
            layout,
            cursor_position,
            self.children.len() as int,
        )
    }
}

impl<Message> Column<Message> {
    /// What this column holds.
    pub open spec fn view(&self) -> ColumnView<Message>
        decreases self,
    {
        ColumnView {
            spacing: self.spacing,
            padding: self.padding,
            width: self.width,
            height: self.height,
            max_width: self.max_width,
            max_height: self.max_height,
            align_items: self.align_items,
            children: element::views(self.children@),
        }
    }

    /// Creates an empty column that fills the width it is given, is as high as
    /// its children, and has no spacing, no padding and no greatest size.
    pub fn new() -> (column: Column<Message>)
        ensures
            column@ == (ColumnView::<Message> {
                spacing: 0,
                padding: 0,
                width: Length::Fill,
                height: Length::Shrink,
                max_width: units::UNBOUNDED,
                max_height: units::UNBOUNDED,
                align_items: Align::Start,
                children: Seq::empty(),
            }),
    {
        let column = Column {
            spacing: 0,
            padding: 0,
            width: Length::Fill,
            height: Length::Shrink,
            max_width: units::UNBOUNDED,
            max_height: units::UNBOUNDED,
            align_items: Align::Start,
            children: Vec::new(),
        };
        assert(column@.children =~= Seq::empty());
        column
    }

    /// Sets the vertical spacing _between_ elements.
    ///
    /// Elements have no margins of their own. This keeps the spacing
    /// between elements consistent.
    pub fn spacing(self, units: u16) -> (column: Column<Message>)
        ensures
            column@ == (ColumnView { spacing: units, ..self@ }),
    {
        let mut column = self;
        column.spacing = units;
        column
    }

    /// Sets the padding of the [`Column`].
    pub fn padding(self, units: u16) -> (column: Column<Message>)
        ensures
            column@ == (ColumnView { padding: units, ..self@ }),
    {
        let mut column = self;
        column.padding = units;
        column
    }

    /// Sets the width of the [`Column`].
    pub fn width(self, width: Length) -> (column: Column<Message>)
        ensures
            column@ == (ColumnView { width, ..self@ }),
    {
        let mut column = self;
        column.width = width;
        column
    }

    /// Sets the height of the [`Column`].
    pub fn height(self, height: Length) -> (column: Column<Message>)
        ensures
            column@ == (ColumnView { height, ..self@ }),
    {
        let mut column = self;
        column.height = height;
        column
    }

    /// Sets the maximum width of the [`Column`].
    pub fn max_width(self, max_width: u32) -> (column: Column<Message>)
        ensures
            column@ == (ColumnView { max_width, ..self@ }),
    {
        let mut column = self;
        column.max_width = max_width;
        column
    }

    /// Sets the maximum height of the [`Column`].
    pub fn max_height(self, max_height: u32) -> (column: Column<Message>)
        ensures
            column@ == (ColumnView { max_height, ..self@ }),
    {
        let mut column = self;
        column.max_height = max_height;
        column
    }

    /// Sets the horizontal alignment of the contents of the [`Column`] .
    pub fn align_items(self, align: Align) -> (column: Column<Message>)
        ensures
            column@ == (ColumnView { align_items: align, ..self@ }),
    {
        let mut column = self;
        column.align_items = align;
        column
    }

    /// Adds an [`Element`] to the [`Column`], behind the others.
    pub fn push(self, child: Element<Message>) -> (column: Column<Message>)
        ensures
            column@ == (ColumnView { children: self@.children.push(child@), ..self@ }),
    {
        let mut column = self;
        column.children.push(child);
        assert(column@.children =~= self@.children.push(child@));
        column
    }

    /// Computes the layout of the column under `limits`.
    pub fn layout<R: Renderer>(&self, renderer: &R, limits: &Limits) -> (node: Node)
        ensures
            node@ == self@.layout(renderer, *limits),
        decreases self,
    {
        let limits = limits.max_width(self.max_width).max_height(self.max_height).width(
            self.width,
        ).height(self.height);
        flex::resolve(
            Axis::Vertical,
            renderer,
            &limits,
            self.padding,
            self.spacing,
            self.align_items,
            self.children.as_slice(),
        )
    }

    /// Writes the digest of the column to `state`.
    pub fn hash_layout(&self, state: &mut Hasher)
        ensures
            final(state)@ == old(state)@ + self@.digest(),
        decreases self,
    {
        let mut chunk: Vec<u8> = Vec::new();
        chunk.push(hasher::COLUMN);
        self.width.push_bytes(&mut chunk);
        self.height.push_bytes(&mut chunk);
        hasher::push_u32(&mut chunk, self.max_width);
        hasher::push_u32(&mut chunk, self.max_height);
        chunk.push(self.align_items.byte());
        hasher::push_u16(&mut chunk, self.spacing);
        hasher::push_u16(&mut chunk, self.padding);
        assert(chunk@ =~= self@.header());
        hasher::write_chunk(state, &chunk);
        element::hash_all(self.children.as_slice(), state);
        let mut end: Vec<u8> = Vec::new();
        end.push(hasher::END);
        hasher::write_chunk(state, &end);
        assert(end@ =~= seq![hasher::END]);
        assert(state@ =~= old(state)@ + self@.digest());
    }

    /// Handles `event` by handing it to each child in turn.
    pub fn on_event<R: Renderer>(
        &mut self,
        event: Event,
        layout: Layout<'_>,
        cursor_position: Point,
        messages: &mut Vec<Message>,
        renderer: &R,
    ) where Message: Copy
        ensures
            final(self)@ == old(self)@.after_event(event, layout@, cursor_position),
            final(messages)@ == old(messages)@ + old(self)@.emitted(
                event,
                layout@,
                cursor_position,
            ),
        decreases *old(self),
    {
        element::dispatch(&mut self.children, event, layout, cursor_position, messages, renderer);
    }

    /// Draws the column.
    pub fn draw<R: Renderer>(
        &self,
        renderer: &mut R,
        layout: Layout<'_>,
        cursor_position: Point,
    ) -> (output: R::Output)
        ensures
            output == self@.drawn::<R>(layout@, cursor_position),
        decreases self,
    {
        let children = element::draw_all(
            self.children.as_slice(),
            renderer,
            layout,
            cursor_position,
        );
        renderer.draw_column(layout.bounds(), children)
    }
}

/// The first chunk of the digest of a column tells its sizing policies, its
/// greatest width and height, its alignment, its spacing and its padding.
pub proof fn lemma_header<Message>(first: ColumnView<Message>, second: ColumnView<Message>)
    requires
        first.header() == second.header(),
    ensures
        first.width == second.width,
        first.height == second.height,
        first.max_width == second.max_width,
        first.max_height == second.max_height,
        first.align_items == second.align_items,
        first.spacing == second.spacing,
        first.padding == second.padding,
{
    crate::length::lemma_bytes(first.width, second.width);
    crate::length::lemma_bytes(first.height, second.height);
    hasher::lemma_u32_bytes(first.max_width, second.max_width);
    hasher::lemma_u32_bytes(first.max_height, second.max_height);
    hasher::lemma_u16_bytes(first.spacing, second.spacing);
    hasher::lemma_u16_bytes(first.padding, second.padding);
    let kind = seq![hasher::COLUMN];
    let our_sizes = kind + first.width.spec_bytes() + first.height.spec_bytes()
        + hasher::u32_bytes(first.max_width) + hasher::u32_bytes(first.max_height);
    let their_sizes = kind + second.width.spec_bytes() + second.height.spec_bytes()
        + hasher::u32_bytes(second.max_width) + hasher::u32_bytes(second.max_height);
    let our_alignment = seq![first.align_items.spec_byte()];
    let their_alignment = seq![second.align_items.spec_byte()];
    hasher::lemma_split(
        our_sizes + our_alignment + hasher::u16_bytes(first.spacing),
        hasher::u16_bytes(first.padding),
        their_sizes + their_alignment + hasher::u16_bytes(second.spacing),
        hasher::u16_bytes(second.padding),
    );
    hasher::lemma_split(
        our_sizes + our_alignment,
        hasher::u16_bytes(first.spacing),
        their_sizes + their_alignment,
        hasher::u16_bytes(second.spacing),
    );
    hasher::lemma_split(our_sizes, our_alignment, their_sizes, their_alignment);
    assert(our_alignment[0] == their_alignment[0]);
    hasher::lemma_split(
        kind + first.width.spec_bytes() + first.height.spec_bytes() + hasher::u32_bytes(
            first.max_width,
        ),
        hasher::u32_bytes(first.max_height),
        kind + second.width.spec_bytes() + second.height.spec_bytes() + hasher::u32_bytes(
            second.max_width,
        ),
        hasher::u32_bytes(second.max_height),
    );
    hasher::lemma_split(
        kind + first.width.spec_bytes() + first.height.spec_bytes(),
        hasher::u32_bytes(first.max_width),
        kind + second.width.spec_bytes() + second.height.spec_bytes(),
        hasher::u32_bytes(second.max_width),
    );
    hasher::lemma_split(
        kind + first.width.spec_bytes(),
        first.height.spec_bytes(),
        kind + second.width.spec_bytes(),
        second.height.spec_bytes(),
    );
    hasher::lemma_split(kind, first.width.spec_bytes(), kind, second.width.spec_bytes());
}

} // verus!
