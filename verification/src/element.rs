//! The element protocol and the capabilities an element may expose.
//!
//! An element goes through three passes in each frame, in this order:
//! `initialize` recovers or makes its state, `layout` submits its style to
//! the layout solver, and `paint` issues its draw calls within the bounds
//! that the solver resolved.
//!
//! Whether an element has a stable identity is part of its type. Only an
//! element of the [`Identified`] kind can take a click listener or a style
//! for the pressed state: [`Click`] and [`Active`] are implemented for no
//! other kind.

use crate::context::{LayoutId, ViewContext};
use crate::geometry::{
    relative, AbsoluteLength, Bounds, DefiniteLength, Length, Pixels,
};
use crate::style::{Display, FlexDirection, Hsla, StyleRefinement};
use vstd::prelude::*;

verus! {

/// A token by which the caller tells an element from its siblings across
/// frames.
#[derive(Clone, Copy, Debug, PartialEq, Eq, Structural)]
pub struct ElementId(pub u64);

/// The identity kind of an element.
pub trait ElementIdentity {
    spec fn identity(&self) -> Option<ElementId>;

    fn id(&self) -> (r: Option<ElementId>)
        ensures
            r == self.identity(),
    ;
}

/// The kind of an element without identity.
#[derive(Clone, Copy, Debug, PartialEq, Eq)]
pub struct Anonymous;

/// The kind of an element that carries a token. Only the identity upgrade
/// of an element makes a value of it.
#[derive(Clone, Copy, Debug, PartialEq, Eq)]
pub struct Identified(ElementId);

/// The kind of an element whose kind is no longer part of its type, as it
/// stands among the children of a container.
#[derive(Clone, Copy, Debug, PartialEq, Eq)]
pub struct Erased(pub Option<ElementId>);

impl ElementIdentity for Anonymous {
    open spec fn identity(&self) -> Option<ElementId> {
        None
    }

    fn id(&self) -> (r: Option<ElementId>) {
        None
    }
}

impl Identified {
    /// The token that the element was given.
    pub closed spec fn token(&self) -> ElementId {
        self.0
    }

    pub(crate) fn new(id: ElementId) -> (r: Identified)
        ensures
            r.token() == id,
    {
        Identified(id)
    }
}

impl ElementIdentity for Identified {
    open spec fn identity(&self) -> Option<ElementId> {
        Some(self.token())
    }

    fn id(&self) -> (r: Option<ElementId>) {
        Some(self.0)
    }
}

impl ElementIdentity for Erased {
    open spec fn identity(&self) -> Option<ElementId> {
        self.0
    }

    fn id(&self) -> (r: Option<ElementId>) {
        self.0
    }
}

/// The kinds of event a listener may be registered for.
#[derive(Clone, Copy, Debug, PartialEq, Eq, Structural)]
pub enum EventKind {
    MouseDown,
    MouseUp,
    MouseMove,
    HoverEnter,
    HoverExit,
    Click,
}

/// A callback, by the token under which the host holds it.
#[derive(Clone, Copy, Debug, PartialEq, Eq, Structural)]
pub struct Callback(pub u64);

/// A callback and the kind of event it listens for.
#[derive(Clone, Copy, Debug, PartialEq, Eq, Structural)]
pub struct Listener {
    pub kind: EventKind,
    pub callback: Callback,
}

/// The listeners of an element, in the order in which they were added.
/// Listeners can be added and read, not removed.
#[derive(Debug, PartialEq, Eq)]
pub struct EventListeners {
    entries: Vec<Listener>,
}

/// The callbacks among `entries` that listen for `kind`, in order.
pub open spec fn callbacks_for(entries: Seq<Listener>, kind: EventKind) -> Seq<Callback>
    decreases entries.len(),
{
    if entries.len() == 0 {
        Seq::empty()
    } else if entries.last().kind == kind {
        callbacks_for(entries.drop_last(), kind).push(entries.last().callback)
    } else {
        callbacks_for(entries.drop_last(), kind)
    }
}

impl View for EventListeners {
    type V = Seq<Listener>;

    closed spec fn view(&self) -> Seq<Listener> {
        self.entries@
    }
}

impl EventListeners {
    /// No listeners.
    pub fn new() -> (r: EventListeners)
        ensures
            r@ == Seq::<Listener>::empty(),
    {
        EventListeners { entries: Vec::new() }
    }

    /// Adds a listener after those that are there.
    pub fn push(&mut self, kind: EventKind, callback: Callback)
        ensures
            final(self)@ == old(self)@.push(Listener { kind, callback }),
    {
        self.entries.push(Listener { kind, callback });
    }

    /// How many listeners were added.
    pub fn len(&self) -> (r: usize)
        ensures
            r == self@.len(),
    {
        self.entries.len()
    }

    /// The listener that was added as the `index`-th, counting from zero.
    pub fn get(&self, index: usize) -> (r: Option<Listener>)
        ensures
            r == (if index < self@.len() {
                Some(self@[index as int])
            } else {
                None
            }),
    {
        if index < self.entries.len() {
            Some(self.entries[index])
        } else {
            None
        }
    }

    /// The callbacks to invoke for an event of the given kind, in the order
    /// in which they were added.
    pub fn for_kind(&self, kind: EventKind) -> (r: Vec<Callback>)
        ensures
            r@ == callbacks_for(self@, kind),
    {
        let mut found: Vec<Callback> = Vec::new();
        let mut i: usize = 0;
        while i < self.entries.len()
            invariant
                i <= self.entries.len(),
                found@ == callbacks_for(self@.take(i as int), kind),
            decreases self.entries.len() - i,
        {
            proof {
                assert(self@.take(i + 1).drop_last() =~= self@.take(i as int));
            }
            let listener = self.entries[i];
            if listener.kind == kind {
                found.push(listener.callback);
            }
            i += 1;
        }
        assert(self@.take(i as int) =~= self@);
        found
    }
}

/// The state of a container that survives from frame to frame.
#[derive(Clone, Copy, Debug, PartialEq, Eq, Structural)]
pub struct DivState {
    /// Whether the element is the pressed target.
    pub active: bool,
}

impl DivState {
    /// The state of an element that was not there in the last frame.
    pub open spec fn initial() -> DivState {
        DivState { active: false }
    }

    /// A fresh state.
    pub fn new() -> (r: DivState)
        ensures
            r == DivState::initial(),
    {
        DivState { active: false }
    }

    /// The state that `initialize` hands on: the state of the last frame
    /// where there is one, a fresh one otherwise.
    pub open spec fn recovered(prior: Option<DivState>) -> DivState {
        match prior {
            Some(state) => state,
            None => DivState::initial(),
        }
    }

    /// Takes a press of the pointer at `position`: the element becomes the
    /// pressed target if the position is within its bounds.
    pub fn mouse_down(&mut self, bounds: &Bounds<Pixels>, position: crate::geometry::Point<Pixels>)
        ensures
            final(self).active == (old(self).active || bounds.holds(position)),
    {
        if bounds.contains_point(position) {
            self.active = true;
        }
    }

    /// Takes the release of the pointer: no element stays pressed.
    pub fn mouse_up(&mut self)
        ensures
            *final(self) == DivState::initial(),
    {
        self.active = false;
    }
}

/// The lifecycle of a node of the tree, for a view state of type `V` that
/// the enclosing view owns.
pub trait Element<V> {
    /// What the node keeps from frame to frame.
    type ElementState;

    spec fn element_id(&self) -> Option<ElementId>;

    /// The identity of the node; none for a node of the anonymous kind.
    fn id(&self) -> (r: Option<ElementId>)
        ensures
            r == self.element_id(),
    ;

    /// Recovers the state of the last frame, or makes a fresh one.
    fn initialize(
        &mut self,
        view_state: &mut V,
        element_state: Option<Self::ElementState>,
        cx: &mut ViewContext,
    ) -> (r: Self::ElementState)
        ensures
            final(self).element_id() == old(self).element_id(),
    ;

    /// Submits what the node asks of the layout solver. Nothing is drawn.
    fn layout(
        &mut self,
        view_state: &mut V,
        element_state: &mut Self::ElementState,
        cx: &mut ViewContext,
    ) -> (r: LayoutId)
        ensures
            final(self).element_id() == old(self).element_id(),
            final(cx)@.scene == old(cx)@.scene,
    ;

    /// Draws the node within the bounds that the solver resolved.
    fn paint(
        &mut self,
        bounds: Bounds<Pixels>,
        view_state: &mut V,
        element_state: &mut Self::ElementState,
        cx: &mut ViewContext,
    )
        ensures
            final(self).element_id() == old(self).element_id(),
    ;
}

/// An element that has a style to refine.
pub trait Styled: Sized {
    /// The base refinement of the element.
    spec fn base_style(&self) -> StyleRefinement;

    /// The element with its base refinement replaced.
    spec fn restyled(self, style: StyleRefinement) -> Self;

    fn style(&mut self) -> (r: &mut StyleRefinement)
        ensures
            *r == old(self).base_style(),
            *final(self) == old(self).restyled(*final(r)),
    ;

    /// Lays the element's children out as flex items.
    fn flex(self) -> (r: Self)
        ensures
            r == self.restyled(
                StyleRefinement { display: Some(Display::Flex), ..self.base_style() },
            ),
    {
        let mut this = self;
        let style = this.style();
        style.display = Some(Display::Flex);
        this
    }

    /// Makes the column the main axis.
    fn flex_col(self) -> (r: Self)
        ensures
            r == self.restyled(
                StyleRefinement {
                    flex_direction: Some(FlexDirection::Column),
                    ..self.base_style()
                },
            ),
    {
        let mut this = self;
        let style = this.style();
        style.flex_direction = Some(FlexDirection::Column);
        this
    }

    /// Makes the row the main axis.
    fn flex_row(self) -> (r: Self)
        ensures
            r == self.restyled(
                StyleRefinement { flex_direction: Some(FlexDirection::Row), ..self.base_style() },
            ),
    {
        let mut this = self;
        let style = this.style();
        style.flex_direction = Some(FlexDirection::Row);
        this
    }

    /// Lets the element grow and shrink from a basis of nothing.
    fn flex_1(self) -> (r: Self)
        ensures
            r == self.restyled(
                StyleRefinement {
                    flex_grow: Some(1),
                    flex_shrink: Some(1),
                    flex_basis: Some(Length::Definite(DefiniteLength::Fraction(0))),
                    ..self.base_style()
                },
            ),
    {
        let mut this = self;
        let style = this.style();
        style.flex_grow = Some(1);
        style.flex_shrink = Some(1);
        style.flex_basis = Some(relative(0));
        this
    }

    /// Lets the element shrink from its own size, and not grow.
    fn flex_initial(self) -> (r: Self)
        ensures
            r == self.restyled(
                StyleRefinement {
                    flex_grow: Some(0),
                    flex_shrink: Some(1),
                    flex_basis: Some(Length::Auto),
                    ..self.base_style()
                },
            ),
    {
        let mut this = self;
        let style = this.style();
        style.flex_grow = Some(0);
        style.flex_shrink = Some(1);
        style.flex_basis = Some(Length::Auto);
        this
    }

    /// Sets a gap of one pixel between the children.
    fn gap_px(self) -> (r: Self)
        ensures
            r == self.restyled(
                StyleRefinement {
                    gap: Some(DefiniteLength::Absolute(AbsoluteLength::Pixels(Pixels(1)))),
                    ..self.base_style()
                },
            ),
    {
        let mut this = self;
        let style = this.style();
        style.gap = Some(DefiniteLength::Absolute(AbsoluteLength::Pixels(Pixels(1))));
        this
    }

    fn w(self, width: Length) -> (r: Self)
        ensures
            r == self.restyled(StyleRefinement { width: Some(width), ..self.base_style() }),
    {
        let mut this = self;
        let style = this.style();
        style.width = Some(width);
        this
    }

    fn h(self, height: Length) -> (r: Self)
        ensures
            r == self.restyled(StyleRefinement { height: Some(height), ..self.base_style() }),
    {
        let mut this = self;
        let style = this.style();
        style.height = Some(height);
        this
    }

    /// Takes the full width of the parent.
    fn w_full(self) -> (r: Self)
        ensures
            r == self.restyled(
                StyleRefinement {
                    width: Some(Length::Definite(DefiniteLength::Fraction(1000))),
                    ..self.base_style()
                },
            ),
    {
        let mut this = self;
        let style = this.style();
        style.width = Some(relative(1000));
        this
    }

    /// Takes the full height of the parent.
    fn h_full(self) -> (r: Self)
        ensures
            r == self.restyled(
                StyleRefinement {
                    height: Some(Length::Definite(DefiniteLength::Fraction(1000))),
                    ..self.base_style()
                },
            ),
    {
        let mut this = self;
        let style = this.style();
        style.height = Some(relative(1000));
        this
    }

    /// Takes the full width and height of the parent.
    fn size_full(self) -> (r: Self)
        ensures
            r == self.restyled(
                StyleRefinement {
                    width: Some(Length::Definite(DefiniteLength::Fraction(1000))),
                    height: Some(Length::Definite(DefiniteLength::Fraction(1000))),
                    ..self.base_style()
                },
            ),
    {
        let mut this = self;
        let style = this.style();
        style.width = Some(relative(1000));
        style.height = Some(relative(1000));
        this
    }

    /// Sets the background.
    fn bg(self, fill: Hsla) -> (r: Self)
        ensures
            r == self.restyled(StyleRefinement { fill: Some(fill), ..self.base_style() }),
    {
        let mut this = self;
        let style = this.style();
        style.fill = Some(fill);
        this
    }

    /// Rounds all four corners by `radius`.
    fn rounded(self, radius: AbsoluteLength) -> (r: Self)
        ensures
            r == self.restyled(
                StyleRefinement {
                    corner_radii: crate::geometry::Corners {
                        top_left: Some(radius),
                        top_right: Some(radius),
                        bottom_right: Some(radius),
                        bottom_left: Some(radius),
                    },
                    ..self.base_style()
                },
            ),
    {
        let mut this = self;
        let style = this.style();
        style.corner_radii.top_left = Some(radius);
        style.corner_radii.top_right = Some(radius);
        style.corner_radii.bottom_right = Some(radius);
        style.corner_radii.bottom_left = Some(radius);
        this
    }
}

/// An element that takes listeners, with or without identity.
pub trait Interactive: Sized {
    spec fn listener_entries(&self) -> Seq<Listener>;

    /// Whether this element is `before` with `entries` for its listeners.
    spec fn listening(&self, before: Self, entries: Seq<Listener>) -> bool;

    fn listeners(&mut self) -> (r: &mut EventListeners)
        ensures
            r@ == old(self).listener_entries(),
            final(self).listening(*old(self), final(r)@),
    ;

    /// Adds a listener for events of the given kind.
    fn on(self, kind: EventKind, callback: Callback) -> (r: Self)
        ensures
            r.listening(self, self.listener_entries().push(Listener { kind, callback })),
    {
        let mut this = self;
        let listeners = this.listeners();
        listeners.push(kind, callback);
        this
    }
}

/// The view of an optional name.
pub open spec fn name_model(name: Option<String>) -> Option<Seq<char>> {
    match name {
        Some(n) => Some(n@),
        None => None,
    }
}

/// An element that takes a style for when the pointer is over it, or over
/// the group it names.
pub trait Hover: Sized {
    /// Whether this element is `before` with its hover slot filled with
    /// `style` for `group`.
    spec fn hovering(&self, before: Self, group: Option<Seq<char>>, style: StyleRefinement) -> bool;

    fn set_hover_style(&mut self, group: Option<String>, style: StyleRefinement)
        ensures
            final(self).hovering(*old(self), name_model(group), style),
    ;

    /// Sets the style for when the pointer is over the element.
    fn hover(self, style: StyleRefinement) -> (r: Self)
        ensures
            r.hovering(self, None, style),
    {
        let mut this = self;
        this.set_hover_style(None, style);
        this
    }
}

/// An element that takes a style for when it is pressed. Only an identified
/// element is one.
pub trait Active: Sized {
    /// Whether this element is `before` with its active slot filled with
    /// `style` for `group`.
    spec fn pressing(&self, before: Self, group: Option<Seq<char>>, style: StyleRefinement) -> bool;

    fn set_active_style(&mut self, group: Option<String>, style: StyleRefinement)
        ensures
            final(self).pressing(*old(self), name_model(group), style),
    ;

    /// Sets the style for when the element is pressed.
    fn active(self, style: StyleRefinement) -> (r: Self)
        ensures
            r.pressing(self, None, style),
    {
        let mut this = self;
        this.set_active_style(None, style);
        this
    }
}

/// An element that takes click listeners. Only an identified element is one.
pub trait Click: Interactive {
    fn on_click(self, callback: Callback) -> (r: Self)
        ensures
            r.listening(
                self,
                self.listener_entries().push(Listener { kind: EventKind::Click, callback }),
            ),
    {
        self.on(EventKind::Click, callback)
    }
}

} // verus!
