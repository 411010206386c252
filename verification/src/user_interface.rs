//! Sessions over a tree of widgets.
use crate::element::{Element, ElementView};
use crate::event::Event;
use crate::hasher::{self, Hasher};
use crate::layout::limits::Limits;
use crate::layout::node::{Node, NodeView};
use crate::layout::{Layout, LayoutView};
use crate::point::Point;
use crate::renderer::Renderer;
use crate::size::Size;
use crate::structure;
use vstd::prelude::*;

verus! {

/// A set of interactive graphical elements with a specific layout.
///
/// It can be updated and drawn. A user interface lasts for one frame: it is
/// built from the tree of elements of that frame and from the [`Cache`] of the
/// frame before, and it ends as the [`Cache`] for the frame after.
#[derive(Debug)]
pub struct UserInterface<Message> {
    hash: u64,
    root: Element<Message>,
    layout: Node,
    cursor_position: Point,
}

/// What a [`UserInterface`] holds, as a mathematical value.
pub struct UserInterfaceView<Message> {
    /// The hash of the digest of the tree.
    pub hash: u64,
    /// The tree of elements.
    pub root: ElementView<Message>,
    /// The layout of the tree.
    pub layout: NodeView,
    /// Where the cursor is.
    pub cursor_position: Point,
}

/// Reusable data of a specific [`UserInterface`].
#[derive(Debug)]
pub struct Cache {
    hash: u64,
    layout: Node,
    cursor_position: Point,
}

/// What a [`Cache`] holds, as a mathematical value.
pub struct CacheView {
    /// The hash of the digest of the tree that the layout was computed for.
    pub hash: u64,
    /// The layout.
    pub layout: NodeView,
    /// Where the cursor is.
    pub cursor_position: Point,
}

impl CacheView {
    /// What an empty cache holds: the hash zero, an empty layout, and a
    /// cursor outside of every window.
    pub open spec fn empty() -> CacheView {
        CacheView {
            hash: 0,
            layout: NodeView::leaf(Size::zero()),
            cursor_position: Point { x: -1i64, y: -1i64 },
        }
    }
}

impl<Message> UserInterfaceView<Message> {
    /// The user interface that is built for the tree `root` from `cache`:
    /// where the hash of the digest of the tree is the hash of the cache, the
    /// layout is that of the cache; where it is not, the layout is computed
    /// for the tree without limits. The cursor is where the cache has it.
    pub open spec fn built<R: Renderer>(
        root: ElementView<Message>,
        cache: CacheView,
        renderer: &R,
    ) -> UserInterfaceView<Message> {
        let hash = hasher::spec_hash_of(root.digest());
        UserInterfaceView {
            hash,
            root,
            layout: if hash == cache.hash {
                cache.layout
            } else {
                root.layout(renderer, Limits::none())
            },
            cursor_position: cache.cursor_position,
        }
    }

    /// The user interface after `event`: first the cursor is where the event
    /// puts it, then the tree handles the event with the layout and with that
    /// position of the cursor.
    pub open spec fn after_event(self, event: Event) -> UserInterfaceView<Message> {
        let cursor_position = event.spec_cursor_after(self.cursor_position);
        UserInterfaceView {
            root: self.root.after_event(event, LayoutView::root(self.layout), cursor_position),
            cursor_position,
            ..self
        }
    }

    /// The messages that the tree produces on `event`.
    pub open spec fn emitted(self, event: Event) -> Seq<Message> {
        self.root.emitted(
            event,
            LayoutView::root(self.layout),
            event.spec_cursor_after(self.cursor_position),
        )
    }

    /// The user interface after all of `events`, in order.
    pub open spec fn after_events(self, events: Seq<Event>) -> UserInterfaceView<Message>
        decreases events.len(),
    {
        if events.len() == 0 {
            self
        } else {
            self.after_events(events.drop_last()).after_event(events.last())
        }
    }

    /// The messages that the tree produces on all of `events`: those of the
    /// first event, then those of the second, and so on.
    pub open spec fn all_emitted(self, events: Seq<Event>) -> Seq<Message>
        decreases events.len(),
    {
        if events.len() == 0 {
            Seq::empty()
        } else {
            self.all_emitted(events.drop_last()) + self.after_events(events.drop_last()).emitted(
                events.last(),
            )
        }
    }

    /// What a renderer of type `R` draws for the user interface.
    pub open spec fn drawn<R: Renderer>(self) -> R::Output {
        self.root.drawn::<R>(LayoutView::root(self.layout), self.cursor_position)
    }

    /// Whether the hash is that of the digest of the tree, and the layout
    /// that of the tree, computed without limits with `renderer`.
    pub open spec fn is_faithful<R: Renderer>(self, renderer: &R) -> bool {
        &&& self.hash == hasher::spec_hash_of(self.root.digest())
        &&& self.layout == self.root.layout(renderer, Limits::none())
    }

    /// The cache that the user interface leaves behind.
    pub open spec fn cache(self) -> CacheView {
        CacheView { hash: self.hash, layout: self.layout, cursor_position: self.cursor_position }
    }
}

impl<Message> UserInterface<Message> {
    /// What this user interface holds.
    pub closed spec fn view(&self) -> UserInterfaceView<Message> {
        UserInterfaceView {
            hash: self.hash,
            root: self.root@,
            layout: self.layout@,
            cursor_position: self.cursor_position,
        }
    }

    /// Builds a user interface for an [`Element`].
    ///
    /// It is able to avoid expensive computations when using a [`Cache`]
    /// obtained from a previous instance of a [`UserInterface`]: the layout
    /// of the cache is taken over as it is where the hash of the tree has not
    /// changed, and computed anew for the whole tree where it has.
    pub fn build<R: Renderer>(root: Element<Message>, cache: Cache, renderer: &mut R) -> (ui:
        UserInterface<Message>)
        ensures
            ui@ == UserInterfaceView::built(root@, cache@, &*old(renderer)),
            *final(renderer) == *old(renderer),
    {
        let mut state = Hasher::new();
        root.hash_layout(&mut state);
        let hash = hasher::finish(&state);
        assert(state@ =~= root@.digest());
        let layout = if hash == cache.hash {
            cache.layout
        } else {
            root.layout(&*renderer, &Limits::none())
        };
        UserInterface { hash, root, layout, cursor_position: cache.cursor_position }
    }

    /// Updates the [`UserInterface`] by processing each provided [`Event`].
    ///
    /// It returns the messages that may have been produced as a result of
    /// user interactions, in the order of the events that caused them. An
    /// event that moves the cursor does so before the tree handles it.
    pub fn update<R: Renderer>(&mut self, renderer: &R, events: Vec<Event>) -> (messages: Vec<
        Message,
    >) where Message: Copy
        ensures
            final(self)@ == old(self)@.after_events(events@),
            messages@ == old(self)@.all_emitted(events@),
    {
        let mut messages: Vec<Message> = Vec::new();
        let mut index: usize = 0;
        assert(events@.take(0) =~= Seq::empty());
        while index < events.len()
            invariant
                index <= events@.len(),
                self@ == old(self)@.after_events(events@.take(index as int)),
                messages@ == old(self)@.all_emitted(events@.take(index as int)),
            decreases events@.len() - index,
        {
            let event = events[index];
            let ghost before = self@;
            let ghost emitted = messages@;
            self.cursor_position = event.cursor_after(self.cursor_position);
            self.root.on_event(
                event,
                Layout::new(&self.layout),
                self.cursor_position,
                &mut messages,
                renderer,
            );
            proof {
                let taken = events@.take(index + 1);
                assert(taken.drop_last() =~= events@.take(index as int));
                assert(taken.last() == event);
                assert(self@ == before.after_event(event));
                assert(messages@ == emitted + before.emitted(event));
            }
            index = index + 1;
        }
        assert(events@.take(index as int) =~= events@);
        messages
    }

    /// Draws the [`UserInterface`] with the provided [`Renderer`].
    ///
    /// What comes out depends on the tree, on the layout and on the position
    /// of the cursor alone, so that drawing again gives the same.
    pub fn draw<R: Renderer>(&self, renderer: &mut R) -> (output: R::Output)
        ensures
            output == self@.drawn::<R>(),
    {
        self.root.draw(renderer, Layout::new(&self.layout), self.cursor_position)
    }

    /// Extract the [`Cache`] of the [`UserInterface`], consuming it in the
    /// process.
    pub fn into_cache(self) -> (cache: Cache)
        ensures
            cache@ == self@.cache(),
    {
        Cache { hash: self.hash, layout: self.layout, cursor_position: self.cursor_position }
    }

    /// Returns the hash of the digest of the tree.
    pub fn hash(&self) -> (hash: u64)
        ensures
            hash == self@.hash,
    {
        self.hash
    }

    /// Returns the tree of elements.
    pub fn root(&self) -> (root: &Element<Message>)
        ensures
            root@ == self@.root,
    {
        &self.root
    }

    /// Returns the layout of the tree.
    pub fn layout(&self) -> (layout: &Node)
        ensures
            layout@ == self@.layout,
    {
        &self.layout
    }

    /// Returns where the cursor is.
    pub fn cursor_position(&self) -> (position: Point)
        ensures
            position == self@.cursor_position,
    {
        self.cursor_position
    }
}

impl Cache {
    /// What this cache holds.
    pub closed spec fn view(&self) -> CacheView {
        CacheView {
            hash: self.hash,
            layout: self.layout@,
            cursor_position: self.cursor_position,
        }
    }

    /// Creates an empty [`Cache`].
    ///
    /// You should use this to initialize a [`Cache`] before building your
    /// first [`UserInterface`].
    pub fn new() -> (cache: Cache)
        ensures
            cache@ == CacheView::empty(),
    {
        Cache { hash: 0, layout: Node::new(Size::new(0, 0)), cursor_position: Point::new(-1, -1) }
    }

    /// Returns the hash of the digest of the tree that the layout was
    /// computed for.
    pub fn hash(&self) -> (hash: u64)
        ensures
            hash == self@.hash,
    {
        self.hash
    }

    /// Returns the layout.
    pub fn layout(&self) -> (layout: &Node)
        ensures
            layout@ == self@.layout,
    {
        &self.layout
    }

    /// Returns where the cursor is.
    pub fn cursor_position(&self) -> (position: Point)
        ensures
            position == self@.cursor_position,
    {
        self.cursor_position
    }
}

impl Default for Cache {
    fn default() -> (cache: Cache)
        ensures
            cache@ == CacheView::empty(),
    {
        Cache::new()
    }
}

impl Clone for Cache {
    fn clone(&self) -> (cache: Cache)
        ensures
            cache@ == self@,
    {
        Cache {
            hash: self.hash,
            layout: self.layout.duplicate(),
            cursor_position: self.cursor_position,
        }
    }
}

impl PartialEq for Cache {
    fn eq(&self, other: &Cache) -> (equal: bool) {
        self.hash == other.hash && self.cursor_position.x == other.cursor_position.x
            && self.cursor_position.y == other.cursor_position.y
    }
}

impl vstd::std_specs::cmp::PartialEqSpecImpl for Cache {
    open spec fn obeys_eq_spec() -> bool {
        true
    }

    open spec fn eq_spec(&self, other: &Cache) -> bool {
        self@.hash == other@.hash && self@.cursor_position == other@.cursor_position
    }
}

impl Eq for Cache {

}

/// Where the digest of the tree hashes to the hash of the cache, the session
/// takes the layout of the cache as it is; where it does not, the layout is
/// that of the tree, computed without limits.
pub proof fn lemma_layout_reused_on_equal_hash<Message, R: Renderer>(
    root: ElementView<Message>,
    cache: CacheView,
    renderer: &R,
)
    ensures
        hasher::spec_hash_of(root.digest()) == cache.hash ==> UserInterfaceView::built(
            root,
            cache,
            renderer,
        ).layout == cache.layout,
        hasher::spec_hash_of(root.digest()) != cache.hash ==> UserInterfaceView::built(
            root,
            cache,
            renderer,
        ).layout == root.layout(renderer, Limits::none()),
{
}

/// A session that is built from the cache of a session on a tree with the
/// same hash has the layout of that session.
pub proof fn lemma_equal_hashes_share_layout<Message, R: Renderer>(
    first: ElementView<Message>,
    second: ElementView<Message>,
    cache: CacheView,
    renderer: &R,
)
    requires
        hasher::spec_hash_of(first.digest()) == hasher::spec_hash_of(second.digest()),
    ensures
        UserInterfaceView::built(
            second,
            UserInterfaceView::built(first, cache, renderer).cache(),
            renderer,
        ).layout == UserInterfaceView::built(first, cache, renderer).layout,
{
}

/// Handling events changes neither the hash nor the layout of a session.
pub proof fn lemma_events_keep_layout<Message>(
    ui: UserInterfaceView<Message>,
    events: Seq<Event>,
)
    ensures
        ui.after_events(events).hash == ui.hash,
        ui.after_events(events).layout == ui.layout,
    decreases events.len(),
{
    if events.len() > 0 {
        lemma_events_keep_layout(ui, events.drop_last());
    }
}

/// The messages of a sequence of events begin with the messages of each
/// sequence of events that it begins with: handling more events only adds
/// messages behind those that are there.
pub proof fn lemma_messages_append_only<Message>(
    ui: UserInterfaceView<Message>,
    events: Seq<Event>,
    more: Seq<Event>,
)
    ensures
        ui.after_events(events + more) == ui.after_events(events).after_events(more),
        ui.all_emitted(events + more) == ui.all_emitted(events) + ui.after_events(
            events,
        ).all_emitted(more),
    decreases more.len(),
{
    if more.len() == 0 {
        assert(events + more =~= events);
        assert(ui.all_emitted(events) + Seq::<Message>::empty() =~= ui.all_emitted(events));
    } else {
        lemma_messages_append_only(ui, events, more.drop_last());
        assert((events + more).drop_last() =~= events + more.drop_last());
        assert((events + more).last() == more.last());
        assert(ui.all_emitted(events + more) =~= ui.all_emitted(events) + ui.after_events(
            events,
        ).all_emitted(more));
    }
}

/// A session that is built from the cache of a faithful session has the
/// layout of its own tree in two cases: where the hash of its tree is not
/// that of the other tree, and where the two trees have the same digest and
/// their containers put their contents at the same places. The layout of the
/// cache is taken over wrongly only where two different digests have the
/// same hash, or where a container was given another alignment and nothing
/// else has changed: the alignment of a container is not in its digest.
pub proof fn lemma_built_is_faithful<Message, R: Renderer>(
    root: ElementView<Message>,
    previous: UserInterfaceView<Message>,
    renderer: &R,
)
    requires
        previous.is_faithful(renderer),
        (root.digest() == previous.root.digest() && root.puts_alike(previous.root))
            || hasher::spec_hash_of(root.digest()) != previous.hash,
    ensures
        UserInterfaceView::built(root, previous.cache(), renderer).is_faithful(renderer),
{
    if root.digest() == previous.root.digest() {
        structure::lemma_equal_digests_equal_layouts(
            root,
            previous.root,
            renderer,
            Limits::none(),
        );
    }
}

/// The first session, which is built from the empty cache, has the layout of
/// its own tree, unless the digest of its tree hashes to zero.
pub proof fn lemma_first_is_faithful<Message, R: Renderer>(
    root: ElementView<Message>,
    renderer: &R,
)
    requires
        hasher::spec_hash_of(root.digest()) != 0,
    ensures
        UserInterfaceView::built(root, CacheView::empty(), renderer).is_faithful(renderer),
{
}

/// A faithful session stays faithful when it handles an event: the tree
/// keeps its digest and its layout.
pub proof fn lemma_event_keeps_faithful<Message, R: Renderer>(
    ui: UserInterfaceView<Message>,
    event: Event,
    renderer: &R,
)
    requires
        ui.is_faithful(renderer),
    ensures
        ui.after_event(event).is_faithful(renderer),
{
    structure::lemma_event_keeps_layout_and_digest(
        ui.root,
        event,
        LayoutView::root(ui.layout),
        event.spec_cursor_after(ui.cursor_position),
        renderer,
        Limits::none(),
    );
}

/// The layout of a faithful session has the shape of its tree, so that
/// every widget handles events and is drawn with its own node.
pub proof fn lemma_faithful_layout_has_the_shape<Message, R: Renderer>(
    ui: UserInterfaceView<Message>,
    renderer: &R,
)
    requires
        ui.is_faithful(renderer),
    ensures
        ui.root.shapes(ui.layout),
{
    structure::lemma_layout_has_the_shape(ui.root, renderer, Limits::none());
}

/// A session that is built from the cache of another session on the same
/// tree has the layout of that session.
pub proof fn lemma_cache_round_trip<Message, R: Renderer>(
    root: ElementView<Message>,
    cache: CacheView,
    renderer: &R,
)
    ensures
        UserInterfaceView::built(
            root,
            UserInterfaceView::built(root, cache, renderer).cache(),
            renderer,
        ) == UserInterfaceView::built(root, cache, renderer),
{
}

} // verus!
