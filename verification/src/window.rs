//! The frames of a window.
//!
//! A window shows one tree of widgets at a time, as large as the window. In
//! each frame the tree handles the events that have come in. If that
//! produces no message, the tree is drawn. If it does, the application has
//! to handle the messages first and to describe its widgets anew, and what
//! is drawn is the new tree.
use crate::element::{Element, ElementView};
use crate::event::Event;
use crate::length::Length;
use crate::renderer::Renderer;
use crate::user_interface::{Cache, CacheView, UserInterface, UserInterfaceView};
use crate::widget::container::Container;
use vstd::prelude::*;

verus! {

/// How a frame went on after its events were handled.
#[derive(Debug)]
pub enum Frame<Message, Output> {
    /// There was no message, and the tree was drawn.
    Drawn {
        /// What the renderer made of the tree.
        output: Output,
        /// The cache for the next frame.
        cache: Cache,
    },
    /// There are messages for the application, and nothing was drawn.
    Pending {
        /// The messages, in the order in which they were produced.
        messages: Vec<Message>,
        /// The cache for the tree that the application describes next.
        cache: Cache,
    },
}

/// The tree of a window: `view` in a container that is exactly as large as
/// the window.
pub open spec fn spec_document<Message>(
    view: ElementView<Message>,
    width: u16,
    height: u16,
) -> ElementView<Message> {
    ElementView::Container(
        crate::widget::container::ContainerView {
            width: Length::Units(width),
            height: Length::Units(height),
            max_width: crate::units::UNBOUNDED,
            max_height: crate::units::UNBOUNDED,
            horizontal_alignment: crate::align::Align::Start,
            vertical_alignment: crate::align::Align::Start,
            content: Box::new(view),
        },
    )
}

/// Puts `view` in a container that is exactly as large as the window.
pub fn document<Message>(view: Element<Message>, width: u16, height: u16) -> (root: Element<
    Message,
>)
    ensures
        root@ == spec_document(view@, width, height),
{
    Element::Container(
        Container::new(view).width(Length::Units(width)).height(Length::Units(height)),
    )
}

/// The messages of a frame: those that the tree produces on `events`, then
/// those that came from elsewhere.
pub open spec fn spec_messages<Message>(
    ui: UserInterfaceView<Message>,
    events: Seq<Event>,
    external: Seq<Message>,
) -> Seq<Message> {
    ui.all_emitted(events) + external
}

/// Whether `frame` is how the frame of the session `ui` goes on after
/// `events` and the messages `external` from elsewhere: drawn if there is no
/// message at all, pending with all the messages if there is one; in both
/// cases with the cache that the session leaves behind after the events.
pub open spec fn spec_frame<Message, R: Renderer>(
    ui: UserInterfaceView<Message>,
    events: Seq<Event>,
    external: Seq<Message>,
    frame: Frame<Message, R::Output>,
) -> bool {
    match frame {
        Frame::Drawn { output, cache } => {
            &&& spec_messages(ui, events, external).len() == 0
            &&& output == ui.after_events(events).drawn::<R>()
            &&& cache@ == ui.after_events(events).cache()
        },
        Frame::Pending { messages, cache } => {
            &&& spec_messages(ui, events, external).len() > 0
            &&& messages@ == spec_messages(ui, events, external)
            &&& cache@ == ui.after_events(events).cache()
        },
    }
}

/// Runs one frame: builds a session for `root` from `cache`, has it handle
/// `events`, and draws it unless there are messages, be it from the tree or
/// from elsewhere.
pub fn frame<Message: Copy, R: Renderer>(
    root: Element<Message>,
    cache: Cache,
    renderer: &mut R,
    events: Vec<Event>,
    external: Vec<Message>,
) -> (frame: Frame<Message, R::Output>)
    ensures
        spec_frame::<Message, R>(
            UserInterfaceView::built(root@, cache@, &*old(renderer)),
            events@,
            external@,
            frame,
        ),
{
    let mut user_interface = UserInterface::build(root, cache, renderer);
    let mut messages = user_interface.update(&*renderer, events);
    let mut external = external;
    messages.append(&mut external);
    if messages.len() == 0 {
        let output = user_interface.draw(renderer);
        Frame::Drawn { output, cache: user_interface.into_cache() }
    } else {
        Frame::Pending { messages, cache: user_interface.into_cache() }
    }
}

/// Draws the tree that the application described once it had handled the
/// messages of a frame: builds a session for `root` from `cache`, draws it,
/// and returns what was drawn with the cache for the next frame.
pub fn redraw<Message, R: Renderer>(
    root: Element<Message>,
    cache: Cache,
    renderer: &mut R,
) -> (drawn: (R::Output, Cache))
    ensures
        drawn.0 == UserInterfaceView::built(root@, cache@, &*old(renderer)).drawn::<R>(),
        drawn.1@ == UserInterfaceView::built(root@, cache@, &*old(renderer)).cache(),
{
    let user_interface = UserInterface::build(root, cache, renderer);
    let output = user_interface.draw(renderer);
    (output, user_interface.into_cache())
}

} // verus!
