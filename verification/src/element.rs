//! The tree of widgets.
use crate::event::Event;
use crate::hasher::Hasher;
use crate::layout::limits::Limits;
use crate::layout::node::{Node, NodeView};
use crate::layout::{Layout, LayoutView};
use crate::length::Length;
use crate::point::Point;
use crate::renderer::Renderer;
use crate::widget::button::{Button, ButtonView};
use crate::widget::column::{Column, ColumnView};
use crate::widget::container::{Container, ContainerView};
use crate::widget::row::{Row, RowView};
use crate::widget::space::Space;
use crate::widget::text::{Text, TextView};
use vstd::prelude::*;

verus! {

/// A widget of any kind, with the widgets inside it.
///
/// An element owns its widget, and a widget owns the elements inside it, so
/// the elements of a user interface form a tree.
#[derive(Debug)]
pub enum Element<Message> {
    /// Empty space.
    Space(Space),
    /// A paragraph of text.
    Text(Text),
    /// A button.
    Button(Button<Message>),
    /// A container around one element.
    Container(Container<Message>),
    /// A row of elements.
    Row(Row<Message>),
    /// A column of elements.
    Column(Column<Message>),
}

/// What an [`Element`] holds, as a mathematical tree.
pub enum ElementView<Message> {
    /// Empty space.
    Space(Space),
    /// A paragraph of text.
    Text(TextView),
    /// A button.
    Button(ButtonView<Message>),
    /// A container around one element.
    Container(ContainerView<Message>),
    /// A row of elements.
    Row(RowView<Message>),
    /// A column of elements.
    Column(ColumnView<Message>),
}

impl<Message> ElementView<Message> {
    /// The sizing policy for the width.
    pub open spec fn width(self) -> Length {
        match self {
            ElementView::Space(space) => space.width,
            ElementView::Text(text) => text.width,
            ElementView::Button(button) => button.width,
            ElementView::Container(container) => container.width,
            ElementView::Row(row) => row.width,
            ElementView::Column(column) => column.width,
        }
    }

    /// The sizing policy for the height.
    pub open spec fn height(self) -> Length {
        match self {
            ElementView::Space(space) => space.height,
            ElementView::Text(text) => text.height,
            ElementView::Button(_) => Length::Shrink,
            ElementView::Container(container) => container.height,
            ElementView::Row(row) => row.height,
            ElementView::Column(column) => column.height,
        }
    }

    /// The layout of the element under `limits`, with text measured by
    /// `renderer`.
    pub open spec fn layout<R: Renderer>(self, renderer: &R, limits: Limits) -> NodeView
        decreases self,
    {
        match self {
            ElementView::Space(space) => space.spec_layout(limits),
            ElementView::Text(text) => text.layout(renderer, limits),
            ElementView::Button(button) => button.layout(renderer, limits),
            ElementView::Container(container) => container.layout(renderer, limits),
            ElementView::Row(row) => row.layout(renderer, limits),
            ElementView::Column(column) => column.layout(renderer, limits),
        }
    }

    /// The digest of the element: the chunks of bytes that its structure and
    /// its sizing are written as. What an element holds for the handling of
    /// events is not part of it.
    pub open spec fn digest(self) -> Seq<Seq<u8>>
        decreases self,
    {
        match self {
            ElementView::Space(space) => space.spec_digest(),
            ElementView::Text(text) => text.digest(),
            ElementView::Button(button) => button.digest(),
            ElementView::Container(container) => container.digest(),
            ElementView::Row(row) => row.digest(),
            ElementView::Column(column) => column.digest(),
        }
    }

    /// The element after `event`, which it handles with its `layout` while
    /// the cursor is at `cursor_position`.
    pub open spec fn after_event(
        self,
        event: Event,
        layout: LayoutView,
        cursor_position: Point,
    ) -> ElementView<Message>
        decreases self,
    {
        match self {
            ElementView::Space(_) => self,
            ElementView::Text(_) => self,
            ElementView::Button(button) => ElementView::Button(
                button.after_event(event, layout, cursor_position),
            ),
            ElementView::Container(container) => ElementView::Container(
                container.after_event(event, layout, cursor_position),
            ),
            ElementView::Row(row) => ElementView::Row(
                row.after_event(event, layout, cursor_position),
            ),
            ElementView::Column(column) => ElementView::Column(
                column.after_event(event, layout, cursor_position),
            ),
        }
    }

    /// The messages that the element produces on `event`, which it handles
    /// with its `layout` while the cursor is at `cursor_position`.
    pub open spec fn emitted(
        self,
        event: Event,
        layout: LayoutView,
        cursor_position: Point,
    ) -> Seq<Message>
        decreases self,
    {
        match self {
            ElementView::Space(_) => Seq::empty(),
            ElementView::Text(_) => Seq::empty(),
            ElementView::Button(button) => button.emitted(event, layout, cursor_position),
            ElementView::Container(container) => container.emitted(
                event,
                layout,
                cursor_position,
            ),
            ElementView::Row(row) => row.emitted(event, layout, cursor_position),
            ElementView::Column(column) => column.emitted(event, layout, cursor_position),
        }
    }

    /// What a renderer of type `R` draws for the element with its `layout`
    /// while the cursor is at `cursor_position`.
    pub open spec fn drawn<R: Renderer>(
        self,
        layout: LayoutView,
        cursor_position: Point,
    ) -> R::Output
        decreases self,
    {
        match self {
            ElementView::Space(space) => space.spec_drawn::<R>(layout),
            ElementView::Text(text) => text.drawn::<R>(layout),
            ElementView::Button(button) => button.drawn::<R>(layout, cursor_position),
            ElementView::Container(container) => container.drawn::<R>(layout, cursor_position),
            ElementView::Row(row) => row.drawn::<R>(layout, cursor_position),
            ElementView::Column(column) => column.drawn::<R>(layout, cursor_position),
        }
    }
}

/// What a renderer of type `R` draws for those of `elements` that have a
/// child of `layout` at their own place, in the order of the elements.
pub open spec fn all_drawn<Message, R: Renderer>(
    elements: Seq<ElementView<Message>>,
    layout: LayoutView,
    cursor_position: Point,
) -> Seq<R::Output>
    decreases elements,
{
    Seq::new(
        if layout.len() < elements.len() {
            layout.len()
        } else {
            elements.len()
        },
        |i: int|
            if 0 <= i < elements.len() {
                elements[i].drawn::<R>(layout.child(i), cursor_position)
            } else {
                arbitrary()
            },
    )
}

/// Draws those of `elements` that have a child of `layout` at their own
/// place, in the order of the elements.
pub fn draw_all<Message, R: Renderer>(
    elements: &[Element<Message>],
    renderer: &mut R,
    layout: Layout<'_>,
    cursor_position: Point,
) -> (outputs: Vec<R::Output>)
    ensures
        outputs@ == all_drawn::<Message, R>(views(elements@), layout@, cursor_position),
    decreases elements@,
{
    let count = if layout.len() < elements.len() {
        layout.len()
    } else {
        elements.len()
    };
    let mut outputs: Vec<R::Output> = Vec::new();
    let mut index: usize = 0;
    while index < count
        invariant
            index <= count <= elements@.len(),
            count <= layout@.len(),
            outputs@.len() == index,
            forall|i: int|
                0 <= i < index ==> #[trigger] outputs@[i] == views(elements@)[i].drawn::<R>(
                    layout@.child(i),
                    cursor_position,
                ),
        decreases count - index,
    {
        let output = elements[index].draw(renderer, layout.child(index), cursor_position);
        outputs.push(output);
        index = index + 1;
    }
    assert(outputs@ =~= all_drawn::<Message, R>(views(elements@), layout@, cursor_position));
    outputs
}

/// The `elements` after `event`: each one that has a child of `layout` at
/// its own place has handled the event with it, and the others are as they
/// were.
pub open spec fn all_after_event<Message>(
    elements: Seq<ElementView<Message>>,
    event: Event,
    layout: LayoutView,
    cursor_position: Point,
) -> Seq<ElementView<Message>>
    decreases elements,
{
    Seq::new(
        elements.len(),
        |i: int|
            if 0 <= i < elements.len() && i < layout.len() {
                elements[i].after_event(event, layout.child(i), cursor_position)
            } else {
                elements[i]
            },
    )
}

/// The messages that the first `count` of `elements` produce on `event`,
/// each one with the child of `layout` at its own place, in the order of the
/// elements. One that has no such child produces none.
pub open spec fn all_emitted<Message>(
    elements: Seq<ElementView<Message>>,
    event: Event,
    layout: LayoutView,
    cursor_position: Point,
    count: int,
) -> Seq<Message>
    decreases elements, count,
{
    if count <= 0 || count > elements.len() {
        Seq::empty()
    } else {
        all_emitted(elements, event, layout, cursor_position, count - 1) + if count - 1
            < layout.len() {
            elements[count - 1].emitted(event, layout.child(count - 1), cursor_position)
        } else {
            Seq::empty()
        }
    }
}

/// Hands `event` to each of `elements` in turn, with the child of `layout`
/// at its own place.
pub fn dispatch<Message: Copy, R: Renderer>(
    elements: &mut Vec<Element<Message>>,
    event: Event,
    layout: Layout<'_>,
    cursor_position: Point,
    messages: &mut Vec<Message>,
    renderer: &R,
)
    ensures
        views(final(elements)@) == all_after_event(
            views(old(elements)@),
            event,
            layout@,
            cursor_position,
        ),
        final(messages)@ == old(messages)@ + all_emitted(
            views(old(elements)@),
            event,
            layout@,
            cursor_position,
            old(elements)@.len() as int,
        ),
    decreases old(elements)@,
{
    let count = elements.len();
    let with_layout = if layout.len() < count {
        layout.len()
    } else {
        count
    };
    let mut index: usize = 0;
    assert(messages@ =~= old(messages)@ + all_emitted(
        views(old(elements)@),
        event,
        layout@,
        cursor_position,
        0,
    ));
    while index < with_layout
        invariant
            index <= with_layout <= count == elements@.len() == old(elements)@.len(),
            with_layout <= layout@.len(),
            with_layout == count || with_layout == layout@.len(),
            forall|i: int|
                0 <= i < index ==> (#[trigger] elements@[i])@ == old(elements)@[i]@.after_event(
                    event,
                    layout@.child(i),
                    cursor_position,
                ),
            forall|i: int| index <= i < count ==> #[trigger] elements@[i] == old(elements)@[i],
            messages@ == old(messages)@ + all_emitted(
                views(old(elements)@),
                event,
                layout@,
                cursor_position,
                index as int,
            ),
        decreases with_layout - index,
    {
        let element = &mut elements[index];
        element.on_event(event, layout.child(index), cursor_position, messages, renderer);
        assert(messages@ =~= old(messages)@ + all_emitted(
            views(old(elements)@),
            event,
            layout@,
            cursor_position,
            index + 1,
        ));
        index = index + 1;
    }
    proof {
        if layout@.len() <= count {
            lemma_all_emitted_without_layout(
                views(old(elements)@),
                event,
                layout@,
                cursor_position,
                count as int,
            );
        }
        assert(views(elements@) =~= all_after_event(
            views(old(elements)@),
            event,
            layout@,
            cursor_position,
        ));
    }
}

/// The elements that have no child of the layout at their place produce no
/// message.
pub proof fn lemma_all_emitted_without_layout<Message>(
    elements: Seq<ElementView<Message>>,
    event: Event,
    layout: LayoutView,
    cursor_position: Point,
    count: int,
)
    requires
        layout.len() <= count <= elements.len(),
    ensures
        all_emitted(elements, event, layout, cursor_position, count) == all_emitted(
            elements,
            event,
            layout,
            cursor_position,
            layout.len() as int,
        ),
    decreases count,
{
    if count > layout.len() {
        lemma_all_emitted_without_layout(elements, event, layout, cursor_position, count - 1);
        assert(all_emitted(elements, event, layout, cursor_position, count) =~= all_emitted(
            elements,
            event,
            layout,
            cursor_position,
            count - 1,
        ));
    }
}

/// The digests of the first `count` of `elements`, one after the other.
pub open spec fn digests<Message>(elements: Seq<ElementView<Message>>, count: int) -> Seq<Seq<u8>>
    decreases elements, count,
{
    if count <= 0 || count > elements.len() {
        Seq::empty()
    } else {
        digests(elements, count - 1) + elements[count - 1].digest()
    }
}

/// Writes the digests of `elements` to `state`, one after the other.
pub fn hash_all<Message>(elements: &[Element<Message>], state: &mut Hasher)
    ensures
        final(state)@ == old(state)@ + digests(views(elements@), elements@.len() as int),
    decreases elements@,
{
    let mut index: usize = 0;
    assert(state@ =~= old(state)@ + digests(views(elements@), 0));
    while index < elements.len()
        invariant
            index <= elements@.len(),
            state@ == old(state)@ + digests(views(elements@), index as int),
        decreases elements@.len() - index,
    {
        elements[index].hash_layout(state);
        assert(state@ =~= old(state)@ + digests(views(elements@), index + 1));
        index = index + 1;
    }
}

/// The trees of a sequence of elements.
pub open spec fn views<Message>(elements: Seq<Element<Message>>) -> Seq<ElementView<Message>>
    decreases elements,
{
    Seq::new(
        elements.len(),
        |i: int|
            if 0 <= i < elements.len() {
                elements[i].view()
            } else {
                arbitrary()
            },
    )
}

impl<Message> Element<Message> {
    /// The tree that this element holds.
    pub open spec fn view(&self) -> ElementView<Message>
        decreases self,
    {
        match self {
            Element::Space(space) => ElementView::Space(*space),
            Element::Text(text) => ElementView::Text(text.view()),
            Element::Button(button) => ElementView::Button(button.view()),
            Element::Container(container) => ElementView::Container(container.view()),
            Element::Row(row) => ElementView::Row(row.view()),
            Element::Column(column) => ElementView::Column(column.view()),
        }
    }

    /// Returns the sizing policy for the width.
    pub fn width(&self) -> (width: Length)
        ensures
            width == self@.width(),
    {
        match self {
            Element::Space(space) => space.width,
            Element::Text(text) => text.width,
            Element::Button(button) => button.width,
            Element::Container(container) => container.width,
            Element::Row(row) => row.width,
            Element::Column(column) => column.width,
        }
    }

    /// Returns the sizing policy for the height.
    pub fn height(&self) -> (height: Length)
        ensures
            height == self@.height(),
    {
        match self {
            Element::Space(space) => space.height,
            Element::Text(text) => text.height,
            Element::Button(_) => Length::Shrink,
            Element::Container(container) => container.height,
            Element::Row(row) => row.height,
            Element::Column(column) => column.height,
        }
    }

    /// Computes the layout of the element under `limits`.
    pub fn layout<R: Renderer>(&self, renderer: &R, limits: &Limits) -> (node: Node)
        ensures
            node@ == self@.layout(renderer, *limits),
        decreases self,
    {
        match self {
            Element::Space(space) => space.layout(renderer, limits),
            Element::Text(text) => text.layout(renderer, limits),
            Element::Button(button) => button.layout(renderer, limits),
            Element::Container(container) => container.layout(renderer, limits),
            Element::Row(row) => row.layout(renderer, limits),
            Element::Column(column) => column.layout(renderer, limits),
        }
    }

    /// Writes the digest of the element to `state`.
    pub fn hash_layout(&self, state: &mut Hasher)
        ensures
            final(state)@ == old(state)@ + self@.digest(),
        decreases self,
    {
        match self {
            Element::Space(space) => space.hash_layout(state),
            Element::Text(text) => text.hash_layout(state),
            Element::Button(button) => button.hash_layout(state),
            Element::Container(container) => container.hash_layout(state),
            Element::Row(row) => row.hash_layout(state),
            Element::Column(column) => column.hash_layout(state),
        }
    }

    /// Handles `event` with the element's `layout` while the cursor is at
    /// `cursor_position`, and appends to `messages` what the element
    /// produces.
    pub fn on_event<R: Renderer>(
        &mut self,
        event: Event,
        layout: Layout<'_>,
        cursor_position: Point,
        messages: &mut Vec<Message>,
        renderer: &R,
    ) where Message: Copy
        ensures
            final(self)@ == old(self)@.after_event(event, layout@, cursor_position),
            final(messages)@ == old(messages)@ + old(self)@.emitted(
                event,
                layout@,
                cursor_position,
            ),
        decreases *old(self),
    {
        match self {
            Element::Space(_) => {
                assert(messages@ =~= old(messages)@ + Seq::empty());
            },
            Element::Text(_) => {
                assert(messages@ =~= old(messages)@ + Seq::empty());
            },
            Element::Button(button) => button.on_event(
                event,
                layout,
                cursor_position,
                messages,
                renderer,
            ),
            Element::Container(container) => container.on_event(
                event,
                layout,
                cursor_position,
                messages,
                renderer,
            ),
            Element::Row(row) => row.on_event(event, layout, cursor_position, messages, renderer),
            Element::Column(column) => column.on_event(
                event,
                layout,
                cursor_position,
                messages,
                renderer,
            ),
        }
    }

    /// Draws the element with its `layout` while the cursor is at
    /// `cursor_position`.
    pub fn draw<R: Renderer>(
        &self,
        renderer: &mut R,
        layout: Layout<'_>,
        cursor_position: Point,
    ) -> (output: R::Output)
        ensures
            output == self@.drawn::<R>(layout@, cursor_position),
        decreases self,
    {
        match self {
            Element::Space(space) => space.draw(renderer, layout),
            Element::Text(text) => text.draw(renderer, layout),
            Element::Button(button) => button.draw(renderer, layout, cursor_position),
            Element::Container(container) => container.draw(renderer, layout, cursor_position),
            Element::Row(row) => row.draw(renderer, layout, cursor_position),
            Element::Column(column) => column.draw(renderer, layout, cursor_position),
        }
    }
}

impl<Message> From<Space> for Element<Message> {
    fn from(space: Space) -> (element: Element<Message>) {
        Element::Space(space)
    }
}

impl<Message> vstd::std_specs::convert::FromSpecImpl<Space> for Element<Message> {
    open spec fn obeys_from_spec() -> bool {
        true
    }

    open spec fn from_spec(space: Space) -> Element<Message> {
        Element::Space(space)
    }
}

impl<Message> From<Text> for Element<Message> {
    fn from(text: Text) -> (element: Element<Message>) {
        Element::Text(text)
    }
}

impl<Message> vstd::std_specs::convert::FromSpecImpl<Text> for Element<Message> {
    open spec fn obeys_from_spec() -> bool {
        true
    }

    open spec fn from_spec(text: Text) -> Element<Message> {
        Element::Text(text)
    }
}

impl<Message> From<Button<Message>> for Element<Message> {
    fn from(button: Button<Message>) -> (element: Element<Message>) {
        Element::Button(button)
    }
}

impl<Message> vstd::std_specs::convert::FromSpecImpl<Button<Message>> for Element<Message> {
    open spec fn obeys_from_spec() -> bool {
        true
    }

    open spec fn from_spec(button: Button<Message>) -> Element<Message> {
        Element::Button(button)
    }
}

impl<Message> From<Container<Message>> for Element<Message> {
    fn from(container: Container<Message>) -> (element: Element<Message>) {
        Element::Container(container)
    }
}

impl<Message> vstd::std_specs::convert::FromSpecImpl<Container<Message>> for Element<Message> {
    open spec fn obeys_from_spec() -> bool {
        true
    }

    open spec fn from_spec(container: Container<Message>) -> Element<Message> {
        Element::Container(container)
    }
}

impl<Message> From<Row<Message>> for Element<Message> {
    fn from(row: Row<Message>) -> (element: Element<Message>) {
        Element::Row(row)
    }
}

impl<Message> vstd::std_specs::convert::FromSpecImpl<Row<Message>> for Element<Message> {
    open spec fn obeys_from_spec() -> bool {
        true
    }

    open spec fn from_spec(row: Row<Message>) -> Element<Message> {
        Element::Row(row)
    }
}

impl<Message> From<Column<Message>> for Element<Message> {
    fn from(column: Column<Message>) -> (element: Element<Message>) {
        Element::Column(column)
    }
}

impl<Message> vstd::std_specs::convert::FromSpecImpl<Column<Message>> for Element<Message> {
    open spec fn obeys_from_spec() -> bool {
        true
    }

    open spec fn from_spec(column: Column<Message>) -> Element<Message> {
        Element::Column(column)
    }
}

} // verus!
