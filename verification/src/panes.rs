//! The pane tree: leaf panes and groups that split their space between panes
//! or between nested groups.

use crate::context::{ScrollState, ViewContext};
use crate::div::{div, element_models, lemma_element_models, AnyElement, Div, IntoAnyElement};
use crate::element::{Anonymous, Styled};
use crate::geometry::{AbsoluteLength, DefiniteLength, Length, Pixels, Size};
use crate::model::{DivModel, ElementModel, NodeModel};
use crate::style::{hsla, Display, FlexDirection, Hsla, Overflow, StyleRefinement};
use smallvec::SmallVec;
use vstd::prelude::*;

verus! {

/// The axis along which a group splits its space.
#[derive(Clone, Copy, Debug, PartialEq, Eq, Structural)]
pub enum SplitDirection {
    Horizontal,
    Vertical,
}

impl Default for SplitDirection {
    fn default() -> (r: SplitDirection)
        ensures
            r == SplitDirection::Horizontal,
    {
        SplitDirection::Horizontal
    }
}

/// The children of a pane, kept in a `SmallVec` that holds two of them
/// inline.
#[verifier::external_body]
#[derive(Debug)]
pub struct PaneChildren {
    items: SmallVec<[AnyElement; 2]>,
}

/// The models of the elements that the `SmallVec` of children holds, in
/// order.
pub uninterp spec fn pane_children(children: PaneChildren) -> Seq<ElementModel>;

/// `SmallVec::new`: a vector that holds nothing.
#[verifier::external_body]
fn children_new() -> (r: PaneChildren)
    ensures
        pane_children(r) == Seq::<ElementModel>::empty(),
{
    PaneChildren { items: SmallVec::new() }
}

/// `SmallVec::push`: the item is appended after those that are there.
#[verifier::external_body]
fn children_push(children: &mut PaneChildren, element: AnyElement)
    ensures
        pane_children(*final(children)) == pane_children(*old(children)).push(element.model()),
{
    children.items.push(element)
}

/// `SmallVec::drain` over the full range: the items are handed out in order
/// and the vector is left empty.
#[verifier::external_body]
fn children_drain(children: &mut PaneChildren) -> (r: Vec<AnyElement>)
    ensures
        element_models(r@) == pane_children(*old(children)),
        pane_children(*final(children)) == Seq::<ElementModel>::empty(),
{
    children.items.drain(..).collect()
}

impl PaneChildren {
    /// Appends a child.
    pub fn push(&mut self, element: AnyElement)
        ensures
            pane_children(*final(self)) == pane_children(*old(self)).push(element.model()),
    {
        children_push(self, element)
    }
}

/// A leaf of the pane tree: a scrollable region of a given size and fill.
#[derive(Debug)]
pub struct Pane {
    scroll_state: ScrollState,
    size: Size<Length>,
    fill: Hsla,
    children: PaneChildren,
}

/// A pane as a value.
pub struct PaneModel {
    pub scroll_state: ScrollState,
    pub size: Size<Length>,
    pub fill: Hsla,
    pub children: Seq<ElementModel>,
}

/// A node of the pane tree: panes or nested groups, never both, and the
/// direction in which they are laid side by side.
#[derive(Debug)]
pub struct PaneGroup {
    groups: Vec<PaneGroup>,
    panes: Vec<Pane>,
    split_direction: SplitDirection,
}

/// A group as a value.
pub struct PaneGroupModel {
    pub groups: Seq<PaneGroupModel>,
    pub panes: Seq<PaneModel>,
    pub split_direction: SplitDirection,
}

/// The fill of a pane that was given none.
pub open spec fn default_fill() -> Hsla {
    Hsla { h: 300, s: 300, l: 300, a: 1000 }
}

/// The style of the container that a group renders to: a flex container
/// that takes all the space there is, with a gap of one pixel between its
/// items. Its main axis is the row for a horizontal split, which is the
/// default of a flex container, and the column for a vertical one.
pub open spec fn group_style(direction: SplitDirection, background: Hsla) -> StyleRefinement {
    StyleRefinement {
        display: Some(Display::Flex),
        flex_direction: match direction {
            SplitDirection::Horizontal => None,
            SplitDirection::Vertical => Some(FlexDirection::Column),
        },
        flex_grow: Some(1),
        flex_shrink: Some(1),
        flex_basis: Some(Length::Definite(DefiniteLength::Fraction(0))),
        width: Some(Length::Definite(DefiniteLength::Fraction(1000))),
        height: Some(Length::Definite(DefiniteLength::Fraction(1000))),
        gap: Some(DefiniteLength::Absolute(AbsoluteLength::Pixels(Pixels(1)))),
        fill: Some(background),
        ..StyleRefinement::unset()
    }
}

/// The panes as children of the container of their group.
pub open spec fn panes_rendered(panes: Seq<PaneModel>) -> Seq<ElementModel> {
    panes.map_values(|p: PaneModel| ElementModel::fresh(NodeModel::Div(p.rendered())))
}

/// The panes after each was rendered.
pub open spec fn panes_drained(panes: Seq<PaneModel>) -> Seq<PaneModel> {
    panes.map_values(|p: PaneModel| p.drained())
}

/// The groups as children of the container of the group they are nested in.
pub open spec fn groups_rendered(groups: Seq<PaneGroupModel>, background: Hsla) -> Seq<
    ElementModel,
>
    decreases groups,
{
    if groups.len() == 0 {
        Seq::empty()
    } else {
        groups_rendered(groups.drop_last(), background).push(
            ElementModel::fresh(NodeModel::Div(groups.last().rendered(background))),
        )
    }
}

/// The groups after each was rendered.
pub open spec fn groups_drained(groups: Seq<PaneGroupModel>) -> Seq<PaneGroupModel>
    decreases groups,
{
    if groups.len() == 0 {
        Seq::empty()
    } else {
        groups_drained(groups.drop_last()).push(groups.last().drained())
    }
}

impl PaneModel {
    /// The container that the pane renders to: a flex item of the pane's
    /// size and fill that neither grows nor refuses to shrink, scrolls
    /// vertically under the pane's scroll handle, and holds the pane's
    /// children.
    pub open spec fn rendered(self) -> DivModel {
        DivModel {
            base_style: StyleRefinement {
                display: Some(Display::Flex),
                flex_grow: Some(0),
                flex_shrink: Some(1),
                flex_basis: Some(Length::Auto),
                width: Some(self.size.width),
                height: Some(self.size.height),
                overflow_y: Some(Overflow::Scroll),
                fill: Some(self.fill),
                ..StyleRefinement::unset()
            },
            scroll: Some(self.scroll_state),
            children: self.children,
            ..DivModel::empty(None)
        }
    }

    /// The pane after it was rendered: its children are gone, the rest is
    /// kept.
    pub open spec fn drained(self) -> PaneModel {
        PaneModel { children: Seq::empty(), ..self }
    }
}

impl PaneGroupModel {
    /// Not both lists hold something.
    pub open spec fn exclusive(self) -> bool {
        self.groups.len() == 0 || self.panes.len() == 0
    }

    /// The group can be rendered: it holds panes, or it holds groups that
    /// can all be rendered.
    pub open spec fn renderable(self) -> bool
        decreases self,
    {
        self.panes.len() > 0 || (self.groups.len() > 0 && forall|i: int|
            0 <= i < self.groups.len() ==> (#[trigger] self.groups[i]).renderable())
    }

    /// The children of the container that the group renders to: its panes if
    /// it holds any, its groups otherwise.
    pub open spec fn rendered_children(self, background: Hsla) -> Seq<ElementModel>
        decreases self, 0nat,
    {
        if self.panes.len() > 0 {
            panes_rendered(self.panes)
        } else {
            groups_rendered(self.groups, background)
        }
    }

    /// The container that the group renders to.
    pub open spec fn rendered(self, background: Hsla) -> DivModel
        decreases self, 1nat,
    {
        DivModel {
            base_style: group_style(self.split_direction, background),
            children: self.rendered_children(background),
            ..DivModel::empty(None)
        }
    }

    /// The group after it was rendered: the children of the panes that went
    /// into the container are gone.
    pub open spec fn drained(self) -> PaneGroupModel
        decreases self,
    {
        if self.panes.len() > 0 {
            PaneGroupModel { panes: panes_drained(self.panes), ..self }
        } else {
            PaneGroupModel { groups: groups_drained(self.groups), ..self }
        }
    }
}

impl View for Pane {
    type V = PaneModel;

    closed spec fn view(&self) -> PaneModel {
        PaneModel {
            scroll_state: self.scroll_state,
            size: self.size,
            fill: self.fill,
            children: pane_children(self.children),
        }
    }
}

/// The models of the given panes, in order.
pub open spec fn pane_models(panes: Seq<Pane>) -> Seq<PaneModel> {
    panes.map_values(|p: Pane| p@)
}

/// The models of the given groups, in order.
pub closed spec fn group_models(groups: Seq<PaneGroup>) -> Seq<PaneGroupModel>
    decreases groups,
{
    if groups.len() == 0 {
        Seq::empty()
    } else {
        group_models(groups.drop_last()).push(groups.last().model())
    }
}

/// The models of a sequence of groups are the models of its groups.
pub proof fn lemma_group_models(groups: Seq<PaneGroup>)
    ensures
        group_models(groups).len() == groups.len(),
        forall|k: int|
            0 <= k < groups.len() ==> (#[trigger] group_models(groups)[k]) == groups[k]@,
    decreases groups.len(),
{
    if groups.len() > 0 {
        lemma_group_models(groups.drop_last());
    }
}

proof fn lemma_groups_rendered(groups: Seq<PaneGroupModel>, background: Hsla)
    ensures
        groups_rendered(groups, background).len() == groups.len(),
        groups_drained(groups).len() == groups.len(),
        forall|k: int|
            0 <= k < groups.len() ==> (#[trigger] groups_drained(groups)[k])
                == groups[k].drained(),
    decreases groups.len(),
{
    if groups.len() > 0 {
        lemma_groups_rendered(groups.drop_last(), background);
    }
}

impl View for PaneGroup {
    type V = PaneGroupModel;

    closed spec fn view(&self) -> PaneGroupModel {
        self.model()
    }
}

impl Pane {
    /// A pane without children, with the default fill.
    pub fn new(scroll_state: ScrollState, size: Size<Length>) -> (r: Pane)
        ensures
            r@ == (PaneModel { scroll_state, size, fill: default_fill(), children: Seq::empty() }),
    {
        Pane { scroll_state, size, fill: hsla(300, 300, 300, 1000), children: children_new() }
    }

    /// Sets the fill.
    pub fn fill(self, fill: Hsla) -> (r: Pane)
        ensures
            r@ == (PaneModel { fill, ..self@ }),
    {
        let mut this = self;
        this.fill = fill;
        this
    }

    /// The children, to add to.
    pub fn children_mut(&mut self) -> (r: &mut PaneChildren)
        ensures
            pane_children(*r) == old(self)@.children,
            final(self)@ == (PaneModel { children: pane_children(*final(r)), ..old(self)@ }),
    {
        &mut self.children
    }

    /// Adds a child after those that are there.
    pub fn child<E: IntoAnyElement>(self, child: E) -> (r: Pane)
        ensures
            r@ == (PaneModel {
                children: self@.children.push(ElementModel::fresh(child.node_model())),
                ..self@
            }),
    {
        let mut this = self;
        let element = child.into_any();
        children_push(&mut this.children, element);
        this
    }

    /// Renders the pane to a container and hands its children over to it.
    pub fn render<S>(&mut self, view: &mut S, cx: &mut ViewContext) -> (r: Div<Anonymous>)
        ensures
            r.model() == old(self)@.rendered(),
            final(self)@ == old(self)@.drained(),
            *final(view) == *old(view),
            final(cx)@ == old(cx)@,
    {
        let children = children_drain(&mut self.children);
        let container = div().flex().flex_initial().bg(self.fill).w(self.size.width).h(
            self.size.height,
        ).overflow_y_scroll(self.scroll_state);
        proof {
            lemma_element_models(children@);
            assert(container.model().children =~= Seq::empty());
        }
        let r = container.children(children);
        assert(r.model().children =~= old(self)@.children);
        r
    }
}

impl PaneGroup {
    #[verifier::type_invariant]
    spec fn never_both(&self) -> bool {
        self.groups@.len() == 0 || self.panes@.len() == 0
    }

    /// The group as a value.
    pub closed spec fn model(&self) -> PaneGroupModel
        decreases self,
    {
        PaneGroupModel {
            groups: group_models(self.groups@),
            panes: pane_models(self.panes@),
            split_direction: self.split_direction,
        }
    }

    /// A group of nested groups. It holds no panes.
    pub fn new_groups(groups: Vec<PaneGroup>, split_direction: SplitDirection) -> (r: PaneGroup)
        ensures
            r@ == (PaneGroupModel {
                groups: group_models(groups@),
                panes: Seq::empty(),
                split_direction,
            }),
            r@.exclusive(),
    {
        let r = PaneGroup { groups, panes: Vec::new(), split_direction };
        assert(r@.panes =~= Seq::empty());
        r
    }

    /// A group of panes. It holds no groups.
    pub fn new_panes(panes: Vec<Pane>, split_direction: SplitDirection) -> (r: PaneGroup)
        ensures
            r@ == (PaneGroupModel {
                groups: Seq::empty(),
                panes: pane_models(panes@),
                split_direction,
            }),
            r@.exclusive(),
    {
        let r = PaneGroup { groups: Vec::new(), panes, split_direction };
        assert(r@.groups =~= Seq::empty());
        r
    }

    /// How many nested groups and how many panes the group holds. One of the
    /// two is zero.
    pub fn counts(&self) -> (r: (usize, usize))
        ensures
            r.0 == self@.groups.len(),
            r.1 == self@.panes.len(),
            self@.exclusive(),
            r.0 == 0 || r.1 == 0,
    {
        proof {
            use_type_invariant(self);
            lemma_group_models(self.groups@);
        }
        (self.groups.len(), self.panes.len())
    }

    /// The direction in which the group splits its space.
    pub fn split_direction(&self) -> (r: SplitDirection)
        ensures
            r == self@.split_direction,
    {
        self.split_direction
    }

    /// Whether the group can be rendered: a group that holds neither panes
    /// nor groups cannot, nor can one that such a group is nested in.
    pub fn is_renderable(&self) -> (r: bool)
        ensures
            r == self@.renderable(),
            self@.exclusive(),
        decreases self,
    {
        proof {
            use_type_invariant(self);
            lemma_group_models(self.groups@);
        }
        if self.panes.len() > 0 {
            return true;
        }
        if self.groups.len() == 0 {
            return false;
        }
        let mut i: usize = 0;
        while i < self.groups.len()
            invariant
                i <= self.groups.len(),
                self@.groups.len() == self.groups@.len(),
                forall|k: int| 0 <= k < self.groups@.len() ==> self@.groups[k] == self.groups@[k]@,
                forall|k: int| 0 <= k < i ==> (#[trigger] self@.groups[k]).renderable(),
                self@.panes.len() == 0,
                self@.groups.len() > 0,
            decreases self.groups.len() - i,
        {
            if !self.groups[i].is_renderable() {
                assert(!self@.groups[i as int].renderable());
                return false;
            }
            i += 1;
        }
        true
    }

    /// Renders the group to a flex container that takes all the space there
    /// is. Its items are the group's panes if it holds any, and its nested
    /// groups otherwise, each rendered in turn; its main axis is the row for
    /// a horizontal split and the column for a vertical one.
    pub fn render<S>(&mut self, view: &mut S, cx: &mut ViewContext) -> (r: Div<Anonymous>)
        requires
            old(self)@.renderable(),
        ensures
            r.model() == old(self)@.rendered(old(cx)@.theme.background),
            final(self)@ == old(self)@.drained(),
            final(self)@.exclusive(),
            *final(view) == *old(view),
            final(cx)@ == old(cx)@,
        decreases *old(self),
    {
        proof {
            use_type_invariant(&*self);
            lemma_group_models(self.groups@);
        }
        let background = cx.theme().background;
        let direction = self.split_direction;
        let ghost before = self@;
        let mut children: Vec<AnyElement> = Vec::new();
        let mut panes: Vec<Pane> = Vec::new();
        std::mem::swap(&mut self.panes, &mut panes);
        if panes.len() > 0 {
            let ghost given = panes@;
            let mut i: usize = 0;
            proof {
                assert(element_models(children@) =~= panes_rendered(before.panes.take(0)));
            }
            while i < panes.len()
                invariant
                    i <= panes.len(),
                    panes@.len() == given.len(),
                    before.panes == pane_models(given),
                    forall|k: int| i <= k < panes@.len() ==> panes@[k] == given[k],
                    forall|k: int| 0 <= k < i ==> (#[trigger] panes@[k])@ == given[k]@.drained(),
                    element_models(children@) == panes_rendered(before.panes.take(i as int)),
                    *view == *old(view),
                    cx@ == old(cx)@,
                decreases panes.len() - i,
            {
                let ghost so_far = children@;
                let rendered = panes[i].render(view, cx);
                let element = rendered.into_any();
                children.push(element);
                proof {
                    assert(children@.drop_last() =~= so_far);
                    assert(element_models(children@) =~= panes_rendered(
                        before.panes.take(i + 1),
                    ));
                }
                i += 1;
            }
            proof {
                assert(before.panes.take(i as int) =~= before.panes);
                assert(pane_models(panes@) =~= panes_drained(before.panes));
            }
            std::mem::swap(&mut self.panes, &mut panes);
            proof {
                assert(before.panes.len() > 0);
                assert(self@.panes == panes_drained(before.panes));
                assert(self@.groups == before.groups);
            }
        } else {
            let mut groups: Vec<PaneGroup> = Vec::new();
            std::mem::swap(&mut self.groups, &mut groups);
            let ghost given = groups@;
            let mut i: usize = 0;
            proof {
                lemma_group_models(given);
                assert(before.groups.take(0) =~= Seq::empty());
            }
            while i < groups.len()
                invariant
                    i <= groups.len(),
                    groups@.len() == given.len(),
                    given == old(self).groups@,
                    before.groups == group_models(given),
                    before.groups.len() == given.len(),
                    forall|k: int|
                        0 <= k < given.len() ==> (#[trigger] before.groups[k]).renderable(),
                    forall|k: int| 0 <= k < given.len() ==> before.groups[k] == given[k]@,
                    forall|k: int| i <= k < groups@.len() ==> groups@[k] == given[k],
                    forall|k: int| 0 <= k < i ==> (#[trigger] groups@[k])@ == given[k]@.drained(),
                    element_models(children@) == groups_rendered(
                        before.groups.take(i as int),
                        background,
                    ),
                    background == old(cx)@.theme.background,
                    *view == *old(view),
                    cx@ == old(cx)@,
                decreases groups.len() - i,
            {
                let ghost so_far = children@;
                assert(before.groups[i as int].renderable());
                let rendered = groups[i].render(view, cx);
                let element = rendered.into_any();
                children.push(element);
                proof {
                    assert(children@.drop_last() =~= so_far);
                    assert(before.groups.take(i + 1).drop_last() =~= before.groups.take(i as int));
                }
                i += 1;
            }
            proof {
                assert(before.groups.take(i as int) =~= before.groups);
                lemma_group_models(groups@);
                lemma_groups_rendered(before.groups, background);
                assert(group_models(groups@) =~= groups_drained(before.groups));
            }
            std::mem::swap(&mut self.groups, &mut groups);
            proof {
                assert(before.panes.len() == 0);
                assert(self@.panes =~= before.panes);
                assert(self@.groups == groups_drained(before.groups));
            }
        }
        let container = div().flex().flex_1().gap_px().w_full().h_full().bg(background);
        let container = match direction {
            SplitDirection::Horizontal => container,
            SplitDirection::Vertical => container.flex_col(),
        };
        proof {
            lemma_element_models(children@);
            assert(container.model().children =~= Seq::empty());
        }
        let r = container.children(children);
        assert(r.model().children =~= before.rendered_children(background));
        r
    }
}

/// The split direction decides the main axis: the container that a group
/// renders to is a flex container over the full width and height of its
/// parent, whose main axis is the row for a horizontal split and the column
/// for a vertical one, and it holds one item for each pane of a group of
/// panes, in order.
pub proof fn lemma_split_direction_layout(group: PaneGroupModel, background: Hsla)
    ensures
        ({
            let style = crate::style::Style::initial().overlaid(
                group.rendered(background).base_style,
            );
            &&& style.display == Display::Flex
            &&& style.flex_direction == match group.split_direction {
                SplitDirection::Horizontal => FlexDirection::Row,
                SplitDirection::Vertical => FlexDirection::Column,
            }
            &&& style.width == Length::Definite(DefiniteLength::Fraction(1000))
            &&& style.height == Length::Definite(DefiniteLength::Fraction(1000))
        }),
        group.panes.len() > 0 ==> group.rendered(background).children.len() == group.panes.len(),
        forall|i: int|
            0 <= i < group.panes.len() ==> (#[trigger] group.rendered(background).children[i])
                == ElementModel::fresh(NodeModel::Div(group.panes[i].rendered())),
{
}

} // verus!
