//! The element tree as a value, and what each pass of a frame makes of it.
//!
//! The contracts of the executable elements are stated over these models:
//! a pass on an element leaves the context in the state that the function of
//! the same name gives here for the element's model.

use crate::context::{no_bounds, no_offset, ContextModel, GroupModel, LayoutId, ScrollState};
use crate::element::{DivState, ElementId, Listener};
use crate::geometry::{nearest_i32, Bounds, Corners, Pixels, Point};
use crate::style::{Style, StyleRefinement};
use vstd::prelude::*;

verus! {

/// A refinement together with the group whose state switches it on; no
/// group stands for the element itself.
pub struct GroupStyleModel {
    pub group: Option<Seq<char>>,
    pub style: StyleRefinement,
}

/// A container as a value.
pub struct DivModel {
    pub id: Option<ElementId>,
    pub group: Option<Seq<char>>,
    pub base_style: StyleRefinement,
    pub hover_style: Option<GroupStyleModel>,
    pub active_style: Option<GroupStyleModel>,
    pub listeners: Seq<Listener>,
    pub scroll: Option<ScrollState>,
    pub children: Seq<ElementModel>,
}

/// An image as a value.
pub struct ImgModel {
    pub base: DivModel,
    pub uri: Option<Seq<char>>,
    pub grayscale: bool,
}

/// A node as a value.
pub enum NodeModel {
    Div(DivModel),
    Img(ImgModel),
}

/// A child of a container: the node, and what it holds between the passes of
/// one frame.
pub struct ElementModel {
    pub node: NodeModel,
    pub state: Option<DivState>,
    pub layout_id: Option<LayoutId>,
}

/// `bounds` moved against the scroll offset, each coordinate held to the
/// range of `i32`.
pub open spec fn scrolled(bounds: Bounds<Pixels>, offset: Point<Pixels>) -> Bounds<Pixels> {
    Bounds {
        origin: Point {
            x: Pixels(nearest_i32(bounds.origin.x.value() - offset.x.value()) as i32),
            y: Pixels(nearest_i32(bounds.origin.y.value() - offset.y.value()) as i32),
        },
        size: bounds.size,
    }
}

/// The layout ids of the given children, in order. A child that was not laid
/// out contributes none.
pub open spec fn layout_ids(children: Seq<ElementModel>) -> Seq<LayoutId>
    decreases children.len(),
{
    if children.len() == 0 {
        Seq::empty()
    } else {
        match children.last().layout_id {
            Some(id) => layout_ids(children.drop_last()).push(id),
            None => layout_ids(children.drop_last()),
        }
    }
}

/// The children after `initialize`.
pub open spec fn children_initialized(children: Seq<ElementModel>, cx: ContextModel) -> Seq<
    ElementModel,
>
    decreases children,
{
    if children.len() == 0 {
        Seq::empty()
    } else {
        children_initialized(children.drop_last(), cx).push(children.last().initialized(cx))
    }
}

/// The children and the context after `layout` of each child in order.
pub open spec fn children_laid_out(children: Seq<ElementModel>, cx: ContextModel) -> (
    Seq<ElementModel>,
    ContextModel,
)
    decreases children,
{
    if children.len() == 0 {
        (Seq::empty(), cx)
    } else {
        let (before, cx1) = children_laid_out(children.drop_last(), cx);
        let (last, cx2) = children.last().laid_out(cx1);
        (before.push(last), cx2)
    }
}

/// The context after `paint` of each child in order, within a parent
/// scrolled by `offset`.
pub open spec fn children_painted(
    children: Seq<ElementModel>,
    offset: Point<Pixels>,
    cx: ContextModel,
) -> ContextModel
    decreases children,
{
    if children.len() == 0 {
        cx
    } else {
        children.last().painted(offset, children_painted(children.drop_last(), offset, cx))
    }
}

impl DivModel {
    /// The container that states nothing and holds nothing.
    pub open spec fn empty(id: Option<ElementId>) -> DivModel {
        DivModel {
            id,
            group: None,
            base_style: StyleRefinement::unset(),
            hover_style: None,
            active_style: None,
            listeners: Seq::empty(),
            scroll: None,
            children: Seq::empty(),
        }
    }

    /// Whether the hover refinement applies: there is one, and the pointer
    /// is in the hit region of the element or, where the slot names a group,
    /// of that group.
    pub open spec fn hover_applies(self, bounds: Bounds<Pixels>, cx: ContextModel) -> bool {
        match self.hover_style {
            Some(slot) => match slot.group {
                Some(name) => match cx.region(name) {
                    Some(region) => cx.pointer_in(region.bounds),
                    None => false,
                },
                None => cx.pointer_in(bounds),
            },
            None => false,
        }
    }

    /// Whether the active refinement applies: there is one, and the element
    /// or, where the slot names a group, that group is the pressed target.
    pub open spec fn active_applies(self, state: DivState, cx: ContextModel) -> bool {
        match self.active_style {
            Some(slot) => match slot.group {
                Some(name) => match cx.region(name) {
                    Some(region) => region.active,
                    None => false,
                },
                None => state.active,
            },
            None => false,
        }
    }

    /// The effective refinement: the base, then the hover refinement where
    /// it applies, then the active refinement where it applies.
    pub open spec fn effective(
        self,
        bounds: Bounds<Pixels>,
        state: DivState,
        cx: ContextModel,
    ) -> StyleRefinement {
        let hovered = match self.hover_style {
            Some(slot) => self.base_style.overlaid_if(self.hover_applies(bounds, cx), slot.style),
            None => self.base_style,
        };
        match self.active_style {
            Some(slot) => hovered.overlaid_if(self.active_applies(state, cx), slot.style),
            None => hovered,
        }
    }

    /// The computed style: the effective refinement over the defaults.
    pub open spec fn computed(
        self,
        bounds: Bounds<Pixels>,
        state: DivState,
        cx: ContextModel,
    ) -> Style {
        Style::initial().overlaid(self.effective(bounds, state, cx))
    }

    /// The corner radii the element is painted with in `bounds`.
    pub open spec fn radii(
        self,
        bounds: Bounds<Pixels>,
        state: DivState,
        cx: ContextModel,
    ) -> Corners<Pixels> {
        self.computed(bounds, state, cx).corner_radii.resolved(bounds.size, cx.rem_size)
    }

    /// The offset by which the content of the container is scrolled.
    pub open spec fn scroll_offset(self, cx: ContextModel) -> Point<Pixels> {
        match self.scroll {
            Some(handle) => cx.scroll_offset(handle),
            None => no_offset(),
        }
    }

    /// The container after `initialize`: its children are initialized.
    pub open spec fn initialized(self, cx: ContextModel) -> DivModel
        decreases self,
    {
        DivModel { children: children_initialized(self.children, cx), ..self }
    }

    /// The container, the context and the container's layout id after
    /// `layout`: the children are laid out first, then the container submits
    /// its computed style with their ids.
    pub open spec fn laid_out(self, state: DivState, cx: ContextModel) -> (
        DivModel,
        ContextModel,
        LayoutId,
    )
        decreases self, 0nat,
    {
        let (children, cx1) = children_laid_out(self.children, cx);
        let style = self.computed(no_bounds(), state, cx1);
        (
            DivModel { children, ..self },
            cx1.layout_requested(style, layout_ids(children)),
            LayoutId(cx1.layout_requests.len() as usize),
        )
    }

    /// The context after the container has painted its own box.
    pub open spec fn box_painted(
        self,
        bounds: Bounds<Pixels>,
        state: DivState,
        cx: ContextModel,
    ) -> ContextModel {
        match self.computed(bounds, state, cx).fill {
            Some(fill) => cx.quad_painted(bounds, fill, self.radii(bounds, state, cx)),
            None => cx,
        }
    }

    /// The context while the children are painted: the group of the
    /// container, if it names one, is entered.
    pub open spec fn within(
        self,
        bounds: Bounds<Pixels>,
        state: DivState,
        cx: ContextModel,
    ) -> ContextModel {
        match self.group {
            Some(name) => cx.group_entered(GroupModel { name, bounds, active: state.active }),
            None => cx,
        }
    }

    /// The context after `paint`: the container's box and its listeners
    /// under stacking index zero, then its children in order under stacking
    /// index one; at the end the stacking index and the groups are as they
    /// were.
    pub open spec fn painted(
        self,
        bounds: Bounds<Pixels>,
        state: DivState,
        cx: ContextModel,
    ) -> ContextModel
        decreases self, 0nat,
    {
        let cx1 = self.box_painted(bounds, state, cx.with_order(0)).listeners_registered(
            bounds,
            self.id,
            self.listeners,
        );
        let cx2 = self.within(bounds, state, cx1).with_order(1);
        let cx3 = children_painted(self.children, self.scroll_offset(cx), cx2);
        let cx4 = if self.group is Some {
            cx3.group_left()
        } else {
            cx3
        };
        cx4.with_order(cx.stacking_order)
    }
}

impl ImgModel {
    /// The image after `initialize`.
    pub open spec fn initialized(self, cx: ContextModel) -> ImgModel
        decreases self,
    {
        ImgModel { base: self.base.initialized(cx), ..self }
    }

    /// The image, the context and the layout id after `layout`: those of its
    /// container.
    pub open spec fn laid_out(self, state: DivState, cx: ContextModel) -> (
        ImgModel,
        ContextModel,
        LayoutId,
    )
        decreases self, 1nat,
    {
        let (base, cx1, id) = self.base.laid_out(state, cx);
        (ImgModel { base, ..self }, cx1, id)
    }

    /// The context after the resource of the element was looked at, given
    /// the context after the container was painted: the URI is requested
    /// from the cache and polled. If the data is there, it is painted under
    /// stacking index one with the element's corner radii; if the fetch has
    /// failed, nothing happens; if it is pending, a watcher is detached.
    pub open spec fn resource_painted(
        self,
        bounds: Bounds<Pixels>,
        state: DivState,
        cx: ContextModel,
    ) -> ContextModel {
        match self.uri {
            None => cx,
            Some(uri) => {
                let handle = cx.cache.slot(uri);
                let requested = cx.with_cache(cx.cache.requested(uri));
                match requested.cache.outcome(handle) {
                    Some(Ok(data)) => requested.with_order(1).image_painted(
                        bounds,
                        self.base.radii(bounds, state, cx),
                        data,
                        self.grayscale,
                    ).with_order(cx.stacking_order),
                    Some(Err(_)) => requested,
                    None => requested.watching(crate::resource::ResourceHandle(handle as usize)),
                }
            },
        }
    }

    /// The context after `paint`: the container first, then the resource.
    pub open spec fn painted(
        self,
        bounds: Bounds<Pixels>,
        state: DivState,
        cx: ContextModel,
    ) -> ContextModel
        decreases self, 1nat,
    {
        self.resource_painted(bounds, state, self.base.painted(bounds, state, cx))
    }
}

impl NodeModel {
    /// The identity of the node, if it has one.
    pub open spec fn id(self) -> Option<ElementId> {
        match self {
            NodeModel::Div(div) => div.id,
            NodeModel::Img(img) => img.base.id,
        }
    }

    /// The node after `initialize`.
    pub open spec fn initialized(self, cx: ContextModel) -> NodeModel
        decreases self,
    {
        match self {
            NodeModel::Div(div) => NodeModel::Div(div.initialized(cx)),
            NodeModel::Img(img) => NodeModel::Img(img.initialized(cx)),
        }
    }

    /// The node, the context and the layout id after `layout`.
    pub open spec fn laid_out(self, state: DivState, cx: ContextModel) -> (
        NodeModel,
        ContextModel,
        LayoutId,
    )
        decreases self, 2nat,
    {
        match self {
            NodeModel::Div(div) => {
                let (div1, cx1, id) = div.laid_out(state, cx);
                (NodeModel::Div(div1), cx1, id)
            },
            NodeModel::Img(img) => {
                let (img1, cx1, id) = img.laid_out(state, cx);
                (NodeModel::Img(img1), cx1, id)
            },
        }
    }

    /// The context after `paint` of the node.
    pub open spec fn painted(
        self,
        bounds: Bounds<Pixels>,
        state: DivState,
        cx: ContextModel,
    ) -> ContextModel
        decreases self, 2nat,
    {
        match self {
            NodeModel::Div(div) => div.painted(bounds, state, cx),
            NodeModel::Img(img) => img.painted(bounds, state, cx),
        }
    }
}

impl ElementModel {
    /// A node that has been through no pass yet.
    pub open spec fn fresh(node: NodeModel) -> ElementModel {
        ElementModel { node, state: None, layout_id: None }
    }

    /// The state with which the element goes through the passes of the
    /// frame: the one it holds; else, for an identified element, the one that
    /// the element of its identity left in the last frame; else a fresh one.
    pub open spec fn recovered(self, cx: ContextModel) -> DivState {
        match self.state {
            Some(state) => state,
            None => match self.node.id() {
                Some(id) => DivState::recovered(cx.prior_state(id)),
                None => DivState::initial(),
            },
        }
    }

    /// The element after `initialize`: it holds its recovered state, and so
    /// do its descendants.
    pub open spec fn initialized(self, cx: ContextModel) -> ElementModel
        decreases self,
    {
        ElementModel {
            node: self.node.initialized(cx),
            state: Some(self.recovered(cx)),
            layout_id: self.layout_id,
        }
    }

    /// The element and the context after `layout`. An element that was not
    /// initialized recovers its state on the way.
    pub open spec fn laid_out(self, cx: ContextModel) -> (ElementModel, ContextModel)
        decreases self, 3nat,
    {
        let state = self.recovered(cx);
        let (node, cx1, id) = self.node.laid_out(state, cx);
        (ElementModel { node, state: Some(state), layout_id: Some(id) }, cx1)
    }

    /// The bounds the element is painted in, within a parent scrolled by
    /// `offset`: those the solver resolved for its layout id.
    pub open spec fn bounds_in(self, offset: Point<Pixels>, cx: ContextModel) -> Bounds<Pixels> {
        match self.layout_id {
            Some(id) => scrolled(cx.bounds_of(id), offset),
            None => no_bounds(),
        }
    }

    /// The context after `paint`: the node is painted, and the state of an
    /// identified element is kept for the next frame. An element that was
    /// not laid out paints nothing and keeps nothing.
    pub open spec fn painted(self, offset: Point<Pixels>, cx: ContextModel) -> ContextModel
        decreases self, 3nat,
    {
        match (self.state, self.layout_id) {
            (Some(state), Some(_)) => self.node.painted(
                self.bounds_in(offset, cx),
                state,
                cx,
            ).state_kept(self.node.id(), state),
            _ => cx,
        }
    }
}

impl ImgModel {
    /// The context after `n` paint passes of the image in a row.
    pub open spec fn painted_times(
        self,
        bounds: Bounds<Pixels>,
        state: DivState,
        cx: ContextModel,
        n: nat,
    ) -> ContextModel
        decreases n,
    {
        if n == 0 {
            cx
        } else {
            self.painted(bounds, state, self.painted_times(bounds, state, cx, (n - 1) as nat))
        }
    }
}

/// The layout pass draws nothing and leaves the identity of the container
/// as it is.
pub proof fn lemma_layout_keeps(div: DivModel, state: DivState, cx: ContextModel)
    ensures
        div.laid_out(state, cx).0.id == div.id,
        div.laid_out(state, cx).1.scene == cx.scene,
        div.laid_out(state, cx).1.cache == cx.cache,
        div.laid_out(state, cx).1.tasks == cx.tasks,
    decreases div,
{
    lemma_children_layout_keeps(div.children, cx);
}

/// The layout pass of a sequence of children draws nothing.
pub proof fn lemma_children_layout_keeps(children: Seq<ElementModel>, cx: ContextModel)
    ensures
        children_laid_out(children, cx).1.scene == cx.scene,
        children_laid_out(children, cx).1.cache == cx.cache,
        children_laid_out(children, cx).1.tasks == cx.tasks,
    decreases children,
{
    if children.len() > 0 {
        lemma_children_layout_keeps(children.drop_last(), cx);
        let mid = children_laid_out(children.drop_last(), cx).1;
        let last = children.last();
        let state = last.recovered(mid);
        assert(children_laid_out(children, cx).1 == last.laid_out(mid).1);
        assert(last.laid_out(mid).1 == last.node.laid_out(state, mid).1);
        match last.node {
            NodeModel::Div(div) => {
                lemma_layout_keeps(div, state, mid);
                assert(last.node.laid_out(state, mid).1 == div.laid_out(state, mid).1);
            },
            NodeModel::Img(img) => {
                lemma_layout_keeps(img.base, state, mid);
                assert(img.laid_out(state, mid).1 == img.base.laid_out(state, mid).1);
                assert(last.node.laid_out(state, mid).1 == img.laid_out(state, mid).1);
            },
        }
    }
}

/// The paint pass asks nothing of the layout solver: whatever the states of
/// hover and press, painting leaves the layout requests and the resolved
/// bounds as they are, and with them the ambient values of the frame.
pub proof fn lemma_paint_keeps_layout(
    div: DivModel,
    bounds: Bounds<Pixels>,
    state: DivState,
    cx: ContextModel,
)
    ensures
        div.painted(bounds, state, cx).layout_requests == cx.layout_requests,
        div.painted(bounds, state, cx).layout_bounds == cx.layout_bounds,
        div.painted(bounds, state, cx).rem_size == cx.rem_size,
        div.painted(bounds, state, cx).mouse_position == cx.mouse_position,
        div.painted(bounds, state, cx).stacking_order == cx.stacking_order,
    decreases div,
{
    let cx1 = div.box_painted(bounds, state, cx.with_order(0)).listeners_registered(
        bounds,
        div.id,
        div.listeners,
    );
    let cx2 = div.within(bounds, state, cx1).with_order(1);
    lemma_children_paint_keeps_layout(div.children, div.scroll_offset(cx), cx2);
}

/// The paint pass of a sequence of children asks nothing of the layout
/// solver.
pub proof fn lemma_children_paint_keeps_layout(
    children: Seq<ElementModel>,
    offset: Point<Pixels>,
    cx: ContextModel,
)
    ensures
        children_painted(children, offset, cx).layout_requests == cx.layout_requests,
        children_painted(children, offset, cx).layout_bounds == cx.layout_bounds,
        children_painted(children, offset, cx).rem_size == cx.rem_size,
        children_painted(children, offset, cx).mouse_position == cx.mouse_position,
        children_painted(children, offset, cx).stacking_order == cx.stacking_order,
    decreases children,
{
    if children.len() > 0 {
        lemma_children_paint_keeps_layout(children.drop_last(), offset, cx);
        let mid = children_painted(children.drop_last(), offset, cx);
        let last = children.last();
        assert(children_painted(children, offset, cx) == last.painted(offset, mid));
        match (last.state, last.layout_id) {
            (Some(state), Some(_)) => {
                let bounds = last.bounds_in(offset, mid);
                match last.node {
                    NodeModel::Div(div) => {
                        lemma_paint_keeps_layout(div, bounds, state, mid);
                        assert(last.node.painted(bounds, state, mid) == div.painted(
                            bounds,
                            state,
                            mid,
                        ));
                    },
                    NodeModel::Img(img) => {
                        lemma_paint_keeps_layout(img.base, bounds, state, mid);
                        assert(last.node.painted(bounds, state, mid) == img.painted(
                            bounds,
                            state,
                            mid,
                        ));
                    },
                }
            },
            _ => {},
        }
    }
}

/// Initializing the children keeps their number and initializes each.
pub proof fn lemma_children_initialized(children: Seq<ElementModel>, cx: ContextModel)
    ensures
        children_initialized(children, cx).len() == children.len(),
        forall|k: int|
            0 <= k < children.len() ==> (#[trigger] children_initialized(children, cx)[k])
                == children[k].initialized(cx),
    decreases children.len(),
{
    if children.len() > 0 {
        lemma_children_initialized(children.drop_last(), cx);
    }
}

/// `initialize` is idempotent: a second pass over an element that was
/// initialized changes nothing.
pub proof fn lemma_initialize_is_idempotent(element: ElementModel, cx: ContextModel)
    ensures
        element.initialized(cx).initialized(cx) == element.initialized(cx),
        element.initialized(cx).node.id() == element.node.id(),
    decreases element,
{
    match element.node {
        NodeModel::Div(div) => lemma_initialize_children_idempotent(div.children, cx),
        NodeModel::Img(img) => lemma_initialize_children_idempotent(img.base.children, cx),
    }
}

proof fn lemma_initialize_children_idempotent(children: Seq<ElementModel>, cx: ContextModel)
    ensures
        children_initialized(children_initialized(children, cx), cx) == children_initialized(
            children,
            cx,
        ),
    decreases children,
{
    let once = children_initialized(children, cx);
    let twice = children_initialized(once, cx);
    lemma_children_initialized(children, cx);
    lemma_children_initialized(once, cx);
    assert forall|k: int| 0 <= k < children.len() implies twice[k] == once[k] by {
        lemma_initialize_is_idempotent(children[k], cx);
    }
    assert(twice =~= once);
}

/// The paint pass of a container without children changes the scene and the
/// registered listeners only: it touches neither the cache nor the watchers,
/// and leaves the ambient values as they are.
pub proof fn lemma_childless_paint(
    div: DivModel,
    bounds: Bounds<Pixels>,
    state: DivState,
    cx: ContextModel,
)
    requires
        div.children.len() == 0,
    ensures
        div.painted(bounds, state, cx) == (ContextModel {
            scene: div.painted(bounds, state, cx).scene,
            registrations: div.painted(bounds, state, cx).registrations,
            ..cx
        }),
        div.painted(bounds, state, cx).scene == div.box_painted(
            bounds,
            state,
            cx.with_order(0),
        ).scene,
{
    let cx1 = div.box_painted(bounds, state, cx.with_order(0)).listeners_registered(
        bounds,
        div.id,
        div.listeners,
    );
    let cx2 = div.within(bounds, state, cx1).with_order(1);
    assert(children_painted(div.children, div.scroll_offset(cx), cx2) == cx2);
    if div.group is Some {
        assert(cx2.group_left().groups =~= cx.groups);
    }
}

/// Painting from a warm cache is synchronous: once the resource of an image
/// is resolved, no number of paint passes detaches a watcher, and the cache
/// stays as it is.
pub proof fn lemma_warm_paint_detaches_nothing(
    img: ImgModel,
    bounds: Bounds<Pixels>,
    state: DivState,
    cx: ContextModel,
    n: nat,
)
    requires
        cx.cache.wf(),
        img.base.children.len() == 0,
        img.uri is Some,
        cx.cache.holds(img.uri->0),
        cx.cache.outcome(cx.cache.slot(img.uri->0)) is Some,
    ensures
        img.painted_times(bounds, state, cx, n).tasks == cx.tasks,
        img.painted_times(bounds, state, cx, n).cache == cx.cache,
        img.painted_times(bounds, state, cx, n).next_frame == cx.next_frame,
    decreases n,
{
    if n > 0 {
        lemma_warm_paint_detaches_nothing(img, bounds, state, cx, (n - 1) as nat);
        let before = img.painted_times(bounds, state, cx, (n - 1) as nat);
        lemma_childless_paint(img.base, bounds, state, before);
    }
}

/// Painting from a cold cache defers: while the resource of an image is not
/// resolved, a paint pass draws no image and detaches exactly one watcher of
/// the resource, and the cache holds exactly one entry for it afterwards.
pub proof fn lemma_cold_paint_defers(
    img: ImgModel,
    bounds: Bounds<Pixels>,
    state: DivState,
    cx: ContextModel,
)
    requires
        cx.cache.wf(),
        img.base.children.len() == 0,
        img.uri is Some,
        cx.cache.outcome(cx.cache.slot(img.uri->0)) is None,
    ensures
        img.painted(bounds, state, cx).tasks == cx.tasks.push(
            crate::resource::ResourceHandle(cx.cache.slot(img.uri->0) as usize),
        ),
        img.painted(bounds, state, cx).scene == img.base.painted(bounds, state, cx).scene,
        img.painted(bounds, state, cx).cache == cx.cache.requested(img.uri->0),
        img.painted(bounds, state, cx).cache.fetch_count(img.uri->0) == 1,
{
    lemma_childless_paint(img.base, bounds, state, cx);
    let uri = img.uri->0;
    let after = cx.cache.requested(uri);
    if !cx.cache.holds(uri) {
        assert(after.uris[cx.cache.uris.len() as int] == uri);
    }
    assert(after.holds(uri));
    crate::resource::lemma_fetch_count(after, uri);
}

} // verus!
