//! Styles, partial styles and their composition.
//!
//! A [`StyleRefinement`] leaves any field unset. Refinements compose by
//! overlay: the later layer wins wherever it sets a field, and an unset field
//! lets the earlier layer show through. A [`Style`] is what remains once a
//! stack of refinements has been laid over the defaults.

use crate::geometry::{AbsoluteLength, Corners, DefiniteLength, Length, Pixels};
use vstd::prelude::*;

verus! {

/// A color, each component in thousandths of its full range.
#[derive(Clone, Copy, Debug, PartialEq, Eq, Structural)]
pub struct Hsla {
    pub h: u16,
    pub s: u16,
    pub l: u16,
    pub a: u16,
}

/// The colors that the theme supplies.
#[derive(Clone, Copy, Debug, PartialEq, Eq, Structural)]
pub struct Theme {
    /// The background of the lowest layer.
    pub background: Hsla,
}

/// How an element lays out its children.
#[derive(Clone, Copy, Debug, PartialEq, Eq, Structural)]
pub enum Display {
    Block,
    Flex,
}

/// The main axis of a flex container.
#[derive(Clone, Copy, Debug, PartialEq, Eq, Structural)]
pub enum FlexDirection {
    Row,
    Column,
}

/// What happens to content that does not fit.
#[derive(Clone, Copy, Debug, PartialEq, Eq, Structural)]
pub enum Overflow {
    Visible,
    Hidden,
    Scroll,
}

/// A partial style: every field may be unset.
#[derive(Clone, Copy, Debug, PartialEq, Eq)]
pub struct StyleRefinement {
    pub display: Option<Display>,
    pub flex_direction: Option<FlexDirection>,
    pub flex_grow: Option<u32>,
    pub flex_shrink: Option<u32>,
    pub flex_basis: Option<Length>,
    pub width: Option<Length>,
    pub height: Option<Length>,
    pub gap: Option<DefiniteLength>,
    pub overflow_x: Option<Overflow>,
    pub overflow_y: Option<Overflow>,
    pub fill: Option<Hsla>,
    pub corner_radii: Corners<Option<AbsoluteLength>>,
}

/// A complete style, as the layout solver and the painter consume it.
#[derive(Clone, Copy, Debug, PartialEq, Eq)]
pub struct Style {
    pub display: Display,
    pub flex_direction: FlexDirection,
    pub flex_grow: u32,
    pub flex_shrink: u32,
    pub flex_basis: Length,
    pub width: Length,
    pub height: Length,
    pub gap: DefiniteLength,
    pub overflow_x: Overflow,
    pub overflow_y: Overflow,
    pub fill: Option<Hsla>,
    pub corner_radii: Corners<AbsoluteLength>,
}

/// The value of a field after `over` has been laid on `base`.
pub open spec fn overlay_field<T>(base: Option<T>, over: Option<T>) -> Option<T> {
    if over is Some {
        over
    } else {
        base
    }
}

/// The value of a complete field after `over` has been laid on it.
pub open spec fn refine_field<T>(base: T, over: Option<T>) -> T {
    match over {
        Some(v) => v,
        None => base,
    }
}

/// A component of a color, held to at most one thousand.
pub open spec fn capped(component: u16) -> u16 {
    if component > 1000 {
        1000
    } else {
        component
    }
}

fn cap(component: u16) -> (r: u16)
    ensures
        r == capped(component),
{
    if component > 1000 {
        1000
    } else {
        component
    }
}

/// The color with the given components, each held to at most one thousand.
pub fn hsla(h: u16, s: u16, l: u16, a: u16) -> (r: Hsla)
    ensures
        r == (Hsla { h: capped(h), s: capped(s), l: capped(l), a: capped(a) }),
{
    Hsla { h: cap(h), s: cap(s), l: cap(l), a: cap(a) }
}

fn overlay<T: Copy>(base: Option<T>, over: Option<T>) -> (r: Option<T>)
    ensures
        r == overlay_field(base, over),
{
    match over {
        Some(_) => over,
        None => base,
    }
}

fn refine<T: Copy>(base: T, over: Option<T>) -> (r: T)
    ensures
        r == refine_field(base, over),
{
    match over {
        Some(v) => v,
        None => base,
    }
}

impl StyleRefinement {
    /// The refinement that sets nothing.
    pub open spec fn unset() -> StyleRefinement {
        StyleRefinement {
            display: None,
            flex_direction: None,
            flex_grow: None,
            flex_shrink: None,
            flex_basis: None,
            width: None,
            height: None,
            gap: None,
            overflow_x: None,
            overflow_y: None,
            fill: None,
            corner_radii: Corners {
                top_left: None,
                top_right: None,
                bottom_right: None,
                bottom_left: None,
            },
        }
    }

    /// This refinement with `over` laid on it, field by field.
    pub open spec fn overlaid(self, over: StyleRefinement) -> StyleRefinement {
        StyleRefinement {
            display: overlay_field(self.display, over.display),
            flex_direction: overlay_field(self.flex_direction, over.flex_direction),
            flex_grow: overlay_field(self.flex_grow, over.flex_grow),
            flex_shrink: overlay_field(self.flex_shrink, over.flex_shrink),
            flex_basis: overlay_field(self.flex_basis, over.flex_basis),
            width: overlay_field(self.width, over.width),
            height: overlay_field(self.height, over.height),
            gap: overlay_field(self.gap, over.gap),
            overflow_x: overlay_field(self.overflow_x, over.overflow_x),
            overflow_y: overlay_field(self.overflow_y, over.overflow_y),
            fill: overlay_field(self.fill, over.fill),
            corner_radii: Corners {
                top_left: overlay_field(self.corner_radii.top_left, over.corner_radii.top_left),
                top_right: overlay_field(
                    self.corner_radii.top_right,
                    over.corner_radii.top_right,
                ),
                bottom_right: overlay_field(
                    self.corner_radii.bottom_right,
                    over.corner_radii.bottom_right,
                ),
                bottom_left: overlay_field(
                    self.corner_radii.bottom_left,
                    over.corner_radii.bottom_left,
                ),
            },
        }
    }

    /// This refinement with `over` laid on it only where `applies` holds.
    pub open spec fn overlaid_if(self, applies: bool, over: StyleRefinement) -> StyleRefinement {
        if applies {
            self.overlaid(over)
        } else {
            self
        }
    }

    /// The refinement that sets nothing.
    pub fn new() -> (r: StyleRefinement)
        ensures
            r == StyleRefinement::unset(),
    {
        StyleRefinement {
            display: None,
            flex_direction: None,
            flex_grow: None,
            flex_shrink: None,
            flex_basis: None,
            width: None,
            height: None,
            gap: None,
            overflow_x: None,
            overflow_y: None,
            fill: None,
            corner_radii: Corners {
                top_left: None,
                top_right: None,
                bottom_right: None,
                bottom_left: None,
            },
        }
    }

    /// Lays `over` on this refinement.
    pub fn refine(&mut self, over: &StyleRefinement)
        ensures
            *final(self) == old(self).overlaid(*over),
    {
        self.display = overlay(self.display, over.display);
        self.flex_direction = overlay(self.flex_direction, over.flex_direction);
        self.flex_grow = overlay(self.flex_grow, over.flex_grow);
        self.flex_shrink = overlay(self.flex_shrink, over.flex_shrink);
        self.flex_basis = overlay(self.flex_basis, over.flex_basis);
        self.width = overlay(self.width, over.width);
        self.height = overlay(self.height, over.height);
        self.gap = overlay(self.gap, over.gap);
        self.overflow_x = overlay(self.overflow_x, over.overflow_x);
        self.overflow_y = overlay(self.overflow_y, over.overflow_y);
        self.fill = overlay(self.fill, over.fill);
        self.corner_radii.top_left = overlay(
            self.corner_radii.top_left,
            over.corner_radii.top_left,
        );
        self.corner_radii.top_right = overlay(
            self.corner_radii.top_right,
            over.corner_radii.top_right,
        );
        self.corner_radii.bottom_right = overlay(
            self.corner_radii.bottom_right,
            over.corner_radii.bottom_right,
        );
        self.corner_radii.bottom_left = overlay(
            self.corner_radii.bottom_left,
            over.corner_radii.bottom_left,
        );
    }

    /// This refinement with `over` laid on it.
    pub fn refined(self, over: &StyleRefinement) -> (r: StyleRefinement)
        ensures
            r == self.overlaid(*over),
    {
        let mut result = self;
        result.refine(over);
        result
    }
}

impl Style {
    /// The style of an element that states nothing.
    pub open spec fn initial() -> Style {
        Style {
            display: Display::Block,
            flex_direction: FlexDirection::Row,
            flex_grow: 0,
            flex_shrink: 1,
            flex_basis: Length::Auto,
            width: Length::Auto,
            height: Length::Auto,
            gap: DefiniteLength::Absolute(AbsoluteLength::Pixels(Pixels(0))),
            overflow_x: Overflow::Visible,
            overflow_y: Overflow::Visible,
            fill: None,
            corner_radii: Corners {
                top_left: AbsoluteLength::Pixels(Pixels(0)),
                top_right: AbsoluteLength::Pixels(Pixels(0)),
                bottom_right: AbsoluteLength::Pixels(Pixels(0)),
                bottom_left: AbsoluteLength::Pixels(Pixels(0)),
            },
        }
    }

    /// This style with `over` laid on it, field by field.
    pub open spec fn overlaid(self, over: StyleRefinement) -> Style {
        Style {
            display: refine_field(self.display, over.display),
            flex_direction: refine_field(self.flex_direction, over.flex_direction),
            flex_grow: refine_field(self.flex_grow, over.flex_grow),
            flex_shrink: refine_field(self.flex_shrink, over.flex_shrink),
            flex_basis: refine_field(self.flex_basis, over.flex_basis),
            width: refine_field(self.width, over.width),
            height: refine_field(self.height, over.height),
            gap: refine_field(self.gap, over.gap),
            overflow_x: refine_field(self.overflow_x, over.overflow_x),
            overflow_y: refine_field(self.overflow_y, over.overflow_y),
            fill: overlay_field(self.fill, over.fill),
            corner_radii: Corners {
                top_left: refine_field(self.corner_radii.top_left, over.corner_radii.top_left),
                top_right: refine_field(self.corner_radii.top_right, over.corner_radii.top_right),
                bottom_right: refine_field(
                    self.corner_radii.bottom_right,
                    over.corner_radii.bottom_right,
                ),
                bottom_left: refine_field(
                    self.corner_radii.bottom_left,
                    over.corner_radii.bottom_left,
                ),
            },
        }
    }

    /// The style of an element that states nothing.
    pub fn new() -> (r: Style)
        ensures
            r == Style::initial(),
    {
        let no_radius = AbsoluteLength::Pixels(Pixels(0));
        Style {
            display: Display::Block,
            flex_direction: FlexDirection::Row,
            flex_grow: 0,
            flex_shrink: 1,
            flex_basis: Length::Auto,
            width: Length::Auto,
            height: Length::Auto,
            gap: DefiniteLength::Absolute(AbsoluteLength::Pixels(Pixels(0))),
            overflow_x: Overflow::Visible,
            overflow_y: Overflow::Visible,
            fill: None,
            corner_radii: Corners {
                top_left: no_radius,
                top_right: no_radius,
                bottom_right: no_radius,
                bottom_left: no_radius,
            },
        }
    }

    /// Lays `over` on this style.
    pub fn refine(&mut self, over: &StyleRefinement)
        ensures
            *final(self) == old(self).overlaid(*over),
    {
        self.display = refine(self.display, over.display);
        self.flex_direction = refine(self.flex_direction, over.flex_direction);
        self.flex_grow = refine(self.flex_grow, over.flex_grow);
        self.flex_shrink = refine(self.flex_shrink, over.flex_shrink);
        self.flex_basis = refine(self.flex_basis, over.flex_basis);
        self.width = refine(self.width, over.width);
        self.height = refine(self.height, over.height);
        self.gap = refine(self.gap, over.gap);
        self.overflow_x = refine(self.overflow_x, over.overflow_x);
        self.overflow_y = refine(self.overflow_y, over.overflow_y);
        self.fill = overlay(self.fill, over.fill);
        self.corner_radii.top_left = refine(
            self.corner_radii.top_left,
            over.corner_radii.top_left,
        );
        self.corner_radii.top_right = refine(
            self.corner_radii.top_right,
            over.corner_radii.top_right,
        );
        self.corner_radii.bottom_right = refine(
            self.corner_radii.bottom_right,
            over.corner_radii.bottom_right,
        );
        self.corner_radii.bottom_left = refine(
            self.corner_radii.bottom_left,
            over.corner_radii.bottom_left,
        );
    }

    /// The style that `refinement` gives when laid on the defaults.
    pub fn from_refinement(refinement: &StyleRefinement) -> (r: Style)
        ensures
            r == Style::initial().overlaid(*refinement),
    {
        let mut style = Style::new();
        style.refine(refinement);
        style
    }
}

/// Composing refinements by overlay is deterministic field by field: after
/// laying `over` on `base`, every field holds the value of `over` where
/// `over` sets it and the value of `base` elsewhere. This covers the cases
/// where only `base` sets the field and where neither does.
pub proof fn lemma_overlay_field_by_field(base: StyleRefinement, over: StyleRefinement)
    ensures
        ({
            let r = base.overlaid(over);
            &&& r.display == if over.display is Some { over.display } else { base.display }
            &&& r.flex_direction == if over.flex_direction is Some {
                over.flex_direction
            } else {
                base.flex_direction
            }
            &&& r.flex_grow == if over.flex_grow is Some { over.flex_grow } else { base.flex_grow }
            &&& r.flex_shrink == if over.flex_shrink is Some {
                over.flex_shrink
            } else {
                base.flex_shrink
            }
            &&& r.flex_basis == if over.flex_basis is Some {
                over.flex_basis
            } else {
                base.flex_basis
            }
            &&& r.width == if over.width is Some { over.width } else { base.width }
            &&& r.height == if over.height is Some { over.height } else { base.height }
            &&& r.gap == if over.gap is Some { over.gap } else { base.gap }
            &&& r.overflow_x == if over.overflow_x is Some {
                over.overflow_x
            } else {
                base.overflow_x
            }
            &&& r.overflow_y == if over.overflow_y is Some {
                over.overflow_y
            } else {
                base.overflow_y
            }
            &&& r.fill == if over.fill is Some { over.fill } else { base.fill }
            &&& r.corner_radii.top_left == if over.corner_radii.top_left is Some {
                over.corner_radii.top_left
            } else {
                base.corner_radii.top_left
            }
            &&& r.corner_radii.top_right == if over.corner_radii.top_right is Some {
                over.corner_radii.top_right
            } else {
                base.corner_radii.top_right
            }
            &&& r.corner_radii.bottom_right == if over.corner_radii.bottom_right is Some {
                over.corner_radii.bottom_right
            } else {
                base.corner_radii.bottom_right
            }
            &&& r.corner_radii.bottom_left == if over.corner_radii.bottom_left is Some {
                over.corner_radii.bottom_left
            } else {
                base.corner_radii.bottom_left
            }
        }),
{
}

/// Laying the empty refinement on a refinement, or a refinement on the empty
/// one, changes nothing.
pub proof fn lemma_overlay_unset(r: StyleRefinement)
    ensures
        r.overlaid(StyleRefinement::unset()) == r,
        StyleRefinement::unset().overlaid(r) == r,
{
}

proof fn lemma_field_associative<T>(a: Option<T>, b: Option<T>, c: Option<T>)
    ensures
        overlay_field(overlay_field(a, b), c) == overlay_field(a, overlay_field(b, c)),
{
}

proof fn lemma_field_composes<T>(s: T, a: Option<T>, b: Option<T>)
    ensures
        refine_field(refine_field(s, a), b) == refine_field(s, overlay_field(a, b)),
{
}

/// Overlay is associative: only the order of the layers matters, not how
/// they are grouped.
pub proof fn lemma_overlay_associative(a: StyleRefinement, b: StyleRefinement, c: StyleRefinement)
    ensures
        a.overlaid(b).overlaid(c) == a.overlaid(b.overlaid(c)),
{
    lemma_field_associative(a.display, b.display, c.display);
    lemma_field_associative(a.flex_direction, b.flex_direction, c.flex_direction);
    lemma_field_associative(a.flex_grow, b.flex_grow, c.flex_grow);
    lemma_field_associative(a.flex_shrink, b.flex_shrink, c.flex_shrink);
    lemma_field_associative(a.flex_basis, b.flex_basis, c.flex_basis);
    lemma_field_associative(a.width, b.width, c.width);
    lemma_field_associative(a.height, b.height, c.height);
    lemma_field_associative(a.gap, b.gap, c.gap);
    lemma_field_associative(a.overflow_x, b.overflow_x, c.overflow_x);
    lemma_field_associative(a.overflow_y, b.overflow_y, c.overflow_y);
    lemma_field_associative(a.fill, b.fill, c.fill);
    lemma_field_associative(
        a.corner_radii.top_left,
        b.corner_radii.top_left,
        c.corner_radii.top_left,
    );
    lemma_field_associative(
        a.corner_radii.top_right,
        b.corner_radii.top_right,
        c.corner_radii.top_right,
    );
    lemma_field_associative(
        a.corner_radii.bottom_right,
        b.corner_radii.bottom_right,
        c.corner_radii.bottom_right,
    );
    lemma_field_associative(
        a.corner_radii.bottom_left,
        b.corner_radii.bottom_left,
        c.corner_radii.bottom_left,
    );
}

/// Laying a stack of refinements on a complete style one by one gives the
/// style that the composed refinement gives.
pub proof fn lemma_style_overlay_composes(s: Style, a: StyleRefinement, b: StyleRefinement)
    ensures
        s.overlaid(a).overlaid(b) == s.overlaid(a.overlaid(b)),
{
    lemma_field_composes(s.display, a.display, b.display);
    lemma_field_composes(s.flex_direction, a.flex_direction, b.flex_direction);
    lemma_field_composes(s.flex_grow, a.flex_grow, b.flex_grow);
    lemma_field_composes(s.flex_shrink, a.flex_shrink, b.flex_shrink);
    lemma_field_composes(s.flex_basis, a.flex_basis, b.flex_basis);
    lemma_field_composes(s.width, a.width, b.width);
    lemma_field_composes(s.height, a.height, b.height);
    lemma_field_composes(s.gap, a.gap, b.gap);
    lemma_field_composes(s.overflow_x, a.overflow_x, b.overflow_x);
    lemma_field_composes(s.overflow_y, a.overflow_y, b.overflow_y);
    lemma_field_associative(s.fill, a.fill, b.fill);
    lemma_field_composes(s.corner_radii.top_left, a.corner_radii.top_left, b.corner_radii.top_left);
    lemma_field_composes(
        s.corner_radii.top_right,
        a.corner_radii.top_right,
        b.corner_radii.top_right,
    );
    lemma_field_composes(
        s.corner_radii.bottom_right,
        a.corner_radii.bottom_right,
        b.corner_radii.bottom_right,
    );
    lemma_field_composes(
        s.corner_radii.bottom_left,
        a.corner_radii.bottom_left,
        b.corner_radii.bottom_left,
    );
}

} // verus!
