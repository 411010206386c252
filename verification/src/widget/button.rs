//! Buttons.
use crate::background::Background;
use crate::element::{Element, ElementView};
use crate::event::Event;
use crate::hasher::{self, Hasher};
use crate::input::ButtonState;
use crate::input::mouse;
use crate::layout::limits::Limits;
use crate::layout::node::{Node, NodeView};
use crate::layout::{Layout, LayoutView};
use crate::length::Length;
use crate::point::Point;
use crate::renderer::Renderer;
use crate::size::Size;
use vstd::prelude::*;

verus! {

/// A widget that produces a message when it is clicked.
#[derive(Debug)]
pub struct Button<Message> {
    /// Whether the button is held down.
    pub is_pressed: bool,
    /// What the button shows.
    pub content: Box<Element<Message>>,
    /// The message that a click produces, if the button is enabled.
    pub on_press: Option<Message>,
    /// The sizing policy for the width.
    pub width: Length,
    /// The space between the edge of the button and its content.
    pub padding: u16,
    /// The background of the button.
    pub background: Option<Background>,
    /// The radius of the corners of the button.
    pub border_radius: u16,
}

/// What a [`Button`] holds, as a mathematical value.
pub struct ButtonView<Message> {
    /// Whether the button is held down.
    pub is_pressed: bool,
    /// What the button shows.
    pub content: Box<ElementView<Message>>,
    /// The message that a click produces, if the button is enabled.
    pub on_press: Option<Message>,
    /// The sizing policy for the width.
    pub width: Length,
    /// The space between the edge of the button and its content.
    pub padding: u16,
    /// The background of the button.
    pub background: Option<Background>,
    /// The radius of the corners of the button.
    pub border_radius: u16,
}

impl<Message> ButtonView<Message> {
    /// The layout of the button under `limits`: the content is laid out in
    /// what the padding leaves of the limits and put behind the padding, and
    /// the button takes the size of the content, brought into what the
    /// padding leaves, with the padding around it.
    pub open spec fn layout<R: Renderer>(self, renderer: &R, limits: Limits) -> NodeView
        decreases self,
    {
        let limits = limits.width(self.width).pad(self.padding);
        let content = self.content.layout(renderer, limits).at(
            self.padding as i64,
            self.padding as i64,
        );
        NodeView::with_children(limits.resolve(content.size()).spec_pad(self.padding), seq![content])
    }
}

impl<Message> ButtonView<Message> {
    /// What a renderer of type `R` draws for the button: its drawing of a
    /// button around that of the content, which is drawn with the layout of
    /// the first child.
    pub open spec fn drawn<R: Renderer>(
        self,
        layout: LayoutView,
        cursor_position: Point,
    ) -> R::Output
        decreases self,
    {
        R::button_output(
            layout.bounds(),
            cursor_position,
            self.is_pressed,
            self.background,
            self.border_radius,
            self.content.drawn::<R>(layout.first_child(), cursor_position),
        )
    }

    /// The first chunk of the digest of the button: its kind, the sizing
    /// policy for its width and its padding.
    pub open spec fn header(self) -> Seq<u8> {
        seq![hasher::BUTTON] + self.width.spec_bytes() + hasher::u16_bytes(self.padding)
    }

    /// The digest of the button: its first chunk, then the digest of its
    /// content.
    pub open spec fn digest(self) -> Seq<Seq<u8>>
        decreases self,
    {
        seq![self.header()] + self.content.digest()
    }
}

/// The new state of the left mouse button, if that is what `event` tells.
pub open spec fn spec_left_button(event: Event) -> Option<ButtonState> {
    match event {
        Event::Mouse(mouse::Event::Input { state, button: mouse::Button::Left }) => Some(state),
        _ => None,
    }
}

/// Returns the new state of the left mouse button, if that is what `event`
/// tells.
pub fn left_button(event: Event) -> (state: Option<ButtonState>)
    ensures
        state == spec_left_button(event),
{
    match event {
        Event::Mouse(mouse::Event::Input { state, button: mouse::Button::Left }) => Some(state),
        _ => None,
    }
}

impl<Message> ButtonView<Message> {
    /// Whether the button is held down after `event`. A button that
    /// produces no message takes no notice of events. Of the others, one on
    /// which the left mouse button goes down is held down, and none is once
    /// the left mouse button has gone up.
    pub open spec fn pressed_after(
        self,
        event: Event,
        layout: LayoutView,
        cursor_position: Point,
    ) -> bool {
        match (self.on_press, spec_left_button(event)) {
            (Some(_), Some(ButtonState::Pressed)) => layout.bounds().spec_contains(
                cursor_position,
            ),
            (Some(_), Some(ButtonState::Released)) => false,
            _ => self.is_pressed,
        }
    }

    /// The button after `event`.
    pub open spec fn after_event(
        self,
        event: Event,
        layout: LayoutView,
        cursor_position: Point,
    ) -> ButtonView<Message> {
        ButtonView { is_pressed: self.pressed_after(event, layout, cursor_position), ..self }
    }

    /// The messages that the button produces on `event`: its message, once,
    /// if the left mouse button goes up on it while it is held down.
    pub open spec fn emitted(
        self,
        event: Event,
        layout: LayoutView,
        cursor_position: Point,
    ) -> Seq<Message> {
        match (self.on_press, spec_left_button(event)) {
            (Some(message), Some(ButtonState::Released)) => if self.is_pressed
                && layout.bounds().spec_contains(cursor_position) {
                seq![message]
            } else {
                Seq::empty()
            },
            _ => Seq::empty(),
        }
    }
}

impl<Message> Button<Message> {
    /// What this button holds.
    pub open spec fn view(&self) -> ButtonView<Message>
        decreases self,
    {
        ButtonView {
            is_pressed: self.is_pressed,
            content: Box::new(self.content.view()),
            on_press: self.on_press,
            width: self.width,
            padding: self.padding,
            background: self.background,
            border_radius: self.border_radius,
        }
    }

    /// Creates a button around `content` that is not held down, produces no
    /// message, is as wide as its content, and has no padding, no background
    /// and square corners.
    pub fn new(content: Element<Message>) -> (button: Button<Message>)
        ensures
            button@ == (ButtonView {
                is_pressed: false,
                content: Box::new(content@),
                on_press: None,
                width: Length::Shrink,
                padding: 0,
                background: None,
                border_radius: 0,
            }),
    {
        Button {
            is_pressed: false,
            content: Box::new(content),
            on_press: None,
            width: Length::Shrink,
            padding: 0,
            background: None,
            border_radius: 0,
        }
    }

    /// Sets the message that a click on the [`Button`] produces.
    pub fn on_press(self, message: Message) -> (button: Button<Message>)
        ensures
            button@ == (ButtonView { on_press: Some(message), ..self@ }),
    {
        let mut button = self;
        button.on_press = Some(message);
        button
    }

    /// Sets the width of the [`Button`].
    pub fn width(self, width: Length) -> (button: Button<Message>)
        ensures
            button@ == (ButtonView { width, ..self@ }),
    {
        let mut button = self;
        button.width = width;
        button
    }

    /// Sets the padding of the [`Button`].
    pub fn padding(self, padding: u16) -> (button: Button<Message>)
        ensures
            button@ == (ButtonView { padding, ..self@ }),
    {
        let mut button = self;
        button.padding = padding;
        button
    }

    /// Sets the background of the [`Button`].
    pub fn background(self, background: Background) -> (button: Button<Message>)
        ensures
            button@ == (ButtonView { background: Some(background), ..self@ }),
    {
        let mut button = self;
        button.background = Some(background);
        button
    }

    /// Sets the radius of the corners of the [`Button`].
    pub fn border_radius(self, border_radius: u16) -> (button: Button<Message>)
        ensures
            button@ == (ButtonView { border_radius, ..self@ }),
    {
        let mut button = self;
        button.border_radius = border_radius;
        button
    }

    /// Computes the layout of the button under `limits`.
    pub fn layout<R: Renderer>(&self, renderer: &R, limits: &Limits) -> (node: Node)
        ensures
            node@ == self@.layout(renderer, *limits),
        decreases self,
    {
        let limits = limits.width(self.width).pad(self.padding);
        let mut content = self.content.layout(renderer, &limits);
        content.move_to(self.padding as i64, self.padding as i64);
        let size = limits.resolve(content.size()).pad(self.padding);
        let mut children: Vec<Node> = Vec::new();
        children.push(content);
        let node = Node::with_children(size, children);
        assert(node@.children =~= seq![content@]);
        node
    }

    /// Writes the digest of the button to `state`.
    pub fn hash_layout(&self, state: &mut Hasher)
        ensures
            final(state)@ == old(state)@ + self@.digest(),
        decreases self,
    {
        let mut chunk: Vec<u8> = Vec::new();
        chunk.push(hasher::BUTTON);
        self.width.push_bytes(&mut chunk);
        hasher::push_u16(&mut chunk, self.padding);
        hasher::write_chunk(state, &chunk);
        self.content.hash_layout(state);
        assert(state@ =~= old(state)@ + self@.digest());
    }

    /// Handles `event`: presses and releases the button, and appends to
    /// `messages` the message of a click.
    pub fn on_event<R: Renderer>(
        &mut self,
        event: Event,
        layout: Layout<'_>,
        cursor_position: Point,
        messages: &mut Vec<Message>,
        renderer: &R,
    ) where Message: Copy
        ensures
            final(self)@ == old(self)@.after_event(event, layout@, cursor_position),
            final(messages)@ == old(messages)@ + old(self)@.emitted(
                event,
                layout@,
                cursor_position,
            ),
    {
        if let Some(on_press) = self.on_press {
            match left_button(event) {
                Some(ButtonState::Pressed) => {
                    self.is_pressed = layout.bounds().contains(cursor_position);
                },
                Some(ButtonState::Released) => {
                    let is_clicked = self.is_pressed && layout.bounds().contains(cursor_position);
                    self.is_pressed = false;
                    if is_clicked {
                        messages.push(on_press);
                    }
                },
                None => {},
            }
        }
        assert(messages@ =~= old(messages)@ + old(self)@.emitted(event, layout@, cursor_position));
    }

    /// Draws the button.
    pub fn draw<R: Renderer>(
        &self,
        renderer: &mut R,
        layout: Layout<'_>,
        cursor_position: Point,
    ) -> (output: R::Output)
        ensures
            output == self@.drawn::<R>(layout@, cursor_position),
        decreases self,
    {
        let empty = Node::new(Size::zero());
        let content = self.content.draw(renderer, layout.first_child_or(&empty), cursor_position);
        renderer.draw_button(
            layout.bounds(),
            cursor_position,
            self.is_pressed,
            self.background,
            self.border_radius,
            content,
        )
    }
}

/// The first chunk of the digest of a button tells the sizing policy for its
/// width and its padding.
pub proof fn lemma_header<Message>(first: ButtonView<Message>, second: ButtonView<Message>)
    requires
        first.header() == second.header(),
    ensures
        first.width == second.width,
        first.padding == second.padding,
{
    crate::length::lemma_bytes(first.width, second.width);
    hasher::lemma_u16_bytes(first.padding, second.padding);
    hasher::lemma_split(
        seq![hasher::BUTTON] + first.width.spec_bytes(),
        hasher::u16_bytes(first.padding),
        seq![hasher::BUTTON] + second.width.spec_bytes(),
        hasher::u16_bytes(second.padding),
    );
    hasher::lemma_split(
        seq![hasher::BUTTON],
        first.width.spec_bytes(),
        seq![hasher::BUTTON],
        second.width.spec_bytes(),
    );
}

} // verus!
