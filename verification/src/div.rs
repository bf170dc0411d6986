//! The container element, and elements as children of a container.

use crate::context::{LayoutId, ScrollState, ViewContext};
use crate::element::{
    name_model, Active, Anonymous, Click, DivState, Element, ElementId, ElementIdentity, Erased,
    EventListeners, Hover, Identified, Interactive, Listener, Styled,
};
use crate::geometry::{Bounds, Pixels, Point, Size};
use crate::img::Img;
use crate::model::{
    children_initialized, children_laid_out, children_painted, layout_ids, lemma_layout_keeps,
    scrolled, DivModel, ElementModel, GroupStyleModel, NodeModel,
};
use crate::style::{Overflow, Style, StyleRefinement};
use vstd::prelude::*;

verus! {

/// A refinement for a state of interaction, and the group whose state
/// switches it on; no group stands for the element itself.
#[derive(Debug, PartialEq, Eq)]
pub struct GroupStyle {
    pub group: Option<String>,
    pub style: StyleRefinement,
}

/// The universal container: a style, slots for the hover and the active
/// refinement, listeners, and children.
#[derive(Debug, PartialEq, Eq)]
pub struct Div<K: ElementIdentity = Anonymous> {
    pub identity: K,
    pub group: Option<String>,
    pub base_style: StyleRefinement,
    pub hover_style: Option<GroupStyle>,
    pub active_style: Option<GroupStyle>,
    pub listeners: EventListeners,
    pub scroll: Option<ScrollState>,
    pub children: Vec<AnyElement>,
}

/// A node whose identity kind is no longer part of its type.
#[derive(Debug, PartialEq, Eq)]
pub enum ElementNode {
    Div(Div<Erased>),
    Img(Img<Erased>),
}

/// An element as a child of a container: the node, and what it holds between
/// the passes of one frame.
#[derive(Debug, PartialEq, Eq)]
pub struct AnyElement {
    pub node: ElementNode,
    pub state: Option<DivState>,
    pub layout_id: Option<LayoutId>,
}

/// The view of a slot for a refinement.
pub open spec fn slot_model(slot: Option<GroupStyle>) -> Option<GroupStyleModel> {
    match slot {
        Some(s) => Some(GroupStyleModel { group: name_model(s.group), style: s.style }),
        None => None,
    }
}

/// The models of the given elements, in order.
pub open spec fn element_models(elements: Seq<AnyElement>) -> Seq<ElementModel>
    decreases elements,
{
    if elements.len() == 0 {
        Seq::empty()
    } else {
        element_models(elements.drop_last()).push(elements.last().model())
    }
}

/// The models of a sequence of elements are the models of its elements.
pub proof fn lemma_element_models(elements: Seq<AnyElement>)
    ensures
        element_models(elements).len() == elements.len(),
        forall|k: int|
            0 <= k < elements.len() ==> (#[trigger] element_models(elements)[k])
                == elements[k].model(),
    decreases elements.len(),
{
    if elements.len() > 0 {
        lemma_element_models(elements.drop_last());
    }
}

impl<K: ElementIdentity> Div<K> {
    /// The container as a value.
    pub open spec fn model(&self) -> DivModel
        decreases self,
    {
        DivModel {
            id: self.identity.identity(),
            group: name_model(self.group),
            base_style: self.base_style,
            hover_style: slot_model(self.hover_style),
            active_style: slot_model(self.active_style),
            listeners: self.listeners@,
            scroll: self.scroll,
            children: element_models(self.children@),
        }
    }
}

impl ElementNode {
    /// The node as a value.
    pub open spec fn model(&self) -> NodeModel
        decreases self,
    {
        match self {
            ElementNode::Div(div) => NodeModel::Div(div.model()),
            ElementNode::Img(img) => NodeModel::Img(img.model()),
        }
    }
}

impl AnyElement {
    /// The element as a value.
    pub open spec fn model(&self) -> ElementModel
        decreases self,
    {
        ElementModel { node: self.node.model(), state: self.state, layout_id: self.layout_id }
    }
}

/// A type of element that can stand among the children of a container.
pub trait IntoAnyElement: Sized {
    spec fn node_model(&self) -> NodeModel;

    /// The element as a child, before any pass.
    fn into_any(self) -> (r: AnyElement)
        ensures
            r.model() == ElementModel::fresh(self.node_model()),
    ;
}

/// An empty container without identity.
pub fn div() -> (r: Div<Anonymous>)
    ensures
        r.model() == DivModel::empty(None),
{
    let r = Div {
        identity: Anonymous,
        group: None,
        base_style: StyleRefinement::new(),
        hover_style: None,
        active_style: None,
        listeners: EventListeners::new(),
        scroll: None,
        children: Vec::new(),
    };
    assert(r.model().children =~= Seq::empty());
    r
}

fn scroll_bounds(bounds: Bounds<Pixels>, offset: Point<Pixels>) -> (r: Bounds<Pixels>)
    ensures
        r == scrolled(bounds, offset),
{
    let x: i64 = bounds.origin.x.0 as i64 - offset.x.0 as i64;
    let y: i64 = bounds.origin.y.0 as i64 - offset.y.0 as i64;
    Bounds { origin: Point { x: Pixels(nearest(x)), y: Pixels(nearest(y)) }, size: bounds.size }
}

fn nearest(v: i64) -> (r: i32)
    ensures
        r == crate::geometry::nearest_i32(v as int),
{
    if v < i32::MIN as i64 {
        i32::MIN
    } else if v > i32::MAX as i64 {
        i32::MAX
    } else {
        v as i32
    }
}

impl Div<Anonymous> {
    /// Gives the container an identity. There is no way back.
    pub fn id(self, id: ElementId) -> (r: Div<Identified>)
        ensures
            r.model() == (DivModel { id: Some(id), ..self.model() }),
    {
        Div {
            identity: Identified::new(id),
            group: self.group,
            base_style: self.base_style,
            hover_style: self.hover_style,
            active_style: self.active_style,
            listeners: self.listeners,
            scroll: self.scroll,
            children: self.children,
        }
    }
}

impl<K: ElementIdentity> Div<K> {
    /// Names the group whose hit region this container is.
    pub fn group(self, name: &str) -> (r: Self)
        ensures
            r.model() == (DivModel { group: Some(name@), ..self.model() }),
    {
        let mut this = self;
        this.group = Some(String::from_str(name));
        this
    }

    /// Lets the content scroll vertically by the offset kept under
    /// `scroll_state`.
    pub fn overflow_y_scroll(self, scroll_state: ScrollState) -> (r: Self)
        ensures
            r.model() == (DivModel {
                base_style: StyleRefinement {
                    overflow_y: Some(Overflow::Scroll),
                    ..self.model().base_style
                },
                scroll: Some(scroll_state),
                ..self.model()
            }),
    {
        let mut this = self;
        this.base_style.overflow_y = Some(Overflow::Scroll);
        this.scroll = Some(scroll_state);
        this
    }

    /// Adds a child after those that are there.
    pub fn child<E: IntoAnyElement>(self, child: E) -> (r: Self)
        ensures
            r.model() == (DivModel {
                children: self.model().children.push(ElementModel::fresh(child.node_model())),
                ..self.model()
            }),
    {
        let mut this = self;
        let element = child.into_any();
        this.children.push(element);
        proof {
            assert(this.children@.drop_last() =~= self.children@);
        }
        this
    }

    /// Adds the given children, in order, after those that are there.
    pub fn children(self, children: Vec<AnyElement>) -> (r: Self)
        ensures
            r.model() == (DivModel {
                children: self.model().children + element_models(children@),
                ..self.model()
            }),
    {
        let mut this = self;
        let mut rest = children;
        let ghost added = rest@;
        this.children.append(&mut rest);
        proof {
            lemma_element_models(self.children@);
            lemma_element_models(added);
            lemma_element_models(this.children@);
            assert(element_models(this.children@) =~= element_models(self.children@)
                + element_models(added));
        }
        this
    }

    /// The style of the container in `bounds`: the base refinement, the
    /// hover refinement if the pointer is over the container or its named
    /// group, and the active refinement if the container or its named group
    /// is pressed, laid over the defaults in this order.
    pub fn compute_style(
        &self,
        bounds: Bounds<Pixels>,
        element_state: &DivState,
        cx: &ViewContext,
    ) -> (r: Style)
        ensures
            r == self.model().computed(bounds, *element_state, cx@),
    {
        let mut refinement = self.base_style;
        match &self.hover_style {
            Some(slot) => {
                let hovered = match &slot.group {
                    Some(name) => match cx.group_region(name) {
                        Some((region, _)) => cx.is_pointer_in(&region),
                        None => false,
                    },
                    None => cx.is_pointer_in(&bounds),
                };
                if hovered {
                    refinement.refine(&slot.style);
                }
            },
            None => {},
        }
        match &self.active_style {
            Some(slot) => {
                let pressed = match &slot.group {
                    Some(name) => match cx.group_region(name) {
                        Some((_, active)) => active,
                        None => false,
                    },
                    None => element_state.active,
                };
                if pressed {
                    refinement.refine(&slot.style);
                }
            },
            None => {},
        }
        Style::from_refinement(&refinement)
    }

    /// Initializes the children, each from the state it holds.
    pub fn initialize_children<V>(&mut self, view_state: &mut V, cx: &mut ViewContext)
        ensures
            final(self).model() == old(self).model().initialized(old(cx)@),
            *final(view_state) == *old(view_state),
            final(cx)@ == old(cx)@,
        decreases *old(self),
    {
        let ghost before = old(self).model().children;
        let mut i: usize = 0;
        proof {
            lemma_element_models(self.children@);
            assert(element_models(self.children@).take(0) =~= Seq::empty());
        }
        while i < self.children.len()
            invariant
                i <= self.children.len(),
                self.children@.len() == old(self).children@.len(),
                before == element_models(old(self).children@),
                forall|k: int| i <= k < self.children@.len() ==> self.children@[k] == old(
                    self,
                ).children@[k],
                element_models(self.children@).take(i as int) == children_initialized(
                    before.take(i as int),
                    cx@,
                ),
                self.identity == old(self).identity,
                self.group == old(self).group,
                self.base_style == old(self).base_style,
                self.hover_style == old(self).hover_style,
                self.active_style == old(self).active_style,
                self.listeners == old(self).listeners,
                self.scroll == old(self).scroll,
                *view_state == *old(view_state),
                cx@ == old(cx)@,
            decreases self.children.len() - i,
        {
            let ghost current = self.children@;
            self.children[i].initialize(view_state, cx);
            proof {
                lemma_element_models(current);
                lemma_element_models(self.children@);
                lemma_element_models(old(self).children@);
                assert(before.take(i + 1).drop_last() =~= before.take(i as int));
                assert(element_models(self.children@).take(i + 1) =~= element_models(
                    current,
                ).take(i as int).push(self.children@[i as int].model()));
            }
            i += 1;
        }
        proof {
            lemma_element_models(self.children@);
            lemma_element_models(old(self).children@);
            assert(before.take(i as int) =~= before);
            assert(element_models(self.children@).take(i as int) =~= element_models(
                self.children@,
            ));
        }
    }

    /// The layout pass of the container: lays the children out in order,
    /// then submits the container's computed style with their ids.
    pub fn layout_node<V>(
        &mut self,
        view_state: &mut V,
        element_state: &DivState,
        cx: &mut ViewContext,
    ) -> (id: LayoutId)
        ensures
            (final(self).model(), final(cx)@, id) == old(self).model().laid_out(
                *element_state,
                old(cx)@,
            ),
            *final(view_state) == *old(view_state),
        decreases *old(self),
    {
        let ghost before = old(self).model().children;
        let ghost start = old(cx)@;
        let mut ids: Vec<LayoutId> = Vec::new();
        let mut i: usize = 0;
        proof {
            lemma_element_models(self.children@);
            assert(element_models(self.children@).take(0) =~= Seq::empty());
            assert(before.take(0) =~= Seq::empty());
        }
        while i < self.children.len()
            invariant
                i <= self.children.len(),
                self.children@.len() == old(self).children@.len(),
                before == element_models(old(self).children@),
                forall|k: int| i <= k < self.children@.len() ==> self.children@[k] == old(
                    self,
                ).children@[k],
                (element_models(self.children@).take(i as int), cx@) == children_laid_out(
                    before.take(i as int),
                    start,
                ),
                ids@ == layout_ids(element_models(self.children@).take(i as int)),
                self.identity == old(self).identity,
                self.group == old(self).group,
                self.base_style == old(self).base_style,
                self.hover_style == old(self).hover_style,
                self.active_style == old(self).active_style,
                self.listeners == old(self).listeners,
                self.scroll == old(self).scroll,
                *view_state == *old(view_state),
            decreases self.children.len() - i,
        {
            let ghost current = self.children@;
            let child_id = self.children[i].layout(view_state, cx);
            ids.push(child_id);
            proof {
                lemma_element_models(current);
                lemma_element_models(self.children@);
                lemma_element_models(old(self).children@);
                assert(before.take(i + 1).drop_last() =~= before.take(i as int));
                assert(element_models(self.children@).take(i + 1) =~= element_models(
                    current,
                ).take(i as int).push(self.children@[i as int].model()));
                assert(element_models(self.children@).take(i + 1).drop_last() =~= element_models(
                    current,
                ).take(i as int));
            }
            i += 1;
        }
        proof {
            lemma_element_models(self.children@);
            lemma_element_models(old(self).children@);
            assert(before.take(i as int) =~= before);
            assert(element_models(self.children@).take(i as int) =~= element_models(
                self.children@,
            ));
        }
        let style = self.compute_style(
            Bounds {
                origin: Point { x: Pixels(0), y: Pixels(0) },
                size: Size { width: Pixels(0), height: Pixels(0) },
            },
            element_state,
            cx,
        );
        cx.request_layout(style, ids)
    }

    /// The paint pass of the container: its own box and its listeners under
    /// stacking index zero, then the children in order under stacking index
    /// one.
    pub fn paint_node<V>(
        &self,
        bounds: Bounds<Pixels>,
        view_state: &mut V,
        element_state: &DivState,
        cx: &mut ViewContext,
    )
        ensures
            final(cx)@ == self.model().painted(bounds, *element_state, old(cx)@),
            *final(view_state) == *old(view_state),
        decreases self,
    {
        let offset = match self.scroll {
            Some(handle) => cx.scroll_offset(handle),
            None => Point { x: Pixels(0), y: Pixels(0) },
        };
        let outer = cx.set_stacking_order(0);
        let style = self.compute_style(bounds, element_state, cx);
        match style.fill {
            Some(fill) => {
                let radii = style.corner_radii.to_pixels(bounds.size, cx.rem_size());
                cx.paint_quad(bounds, fill, radii);
            },
            None => {},
        }
        cx.register_listeners(bounds, self.identity.id(), &self.listeners);
        match &self.group {
            Some(name) => {
                cx.push_group(name.clone(), bounds, element_state.active);
            },
            None => {},
        }
        cx.set_stacking_order(1);
        let ghost inner = cx@;
        let ghost models = element_models(self.children@);
        let mut i: usize = 0;
        proof {
            lemma_element_models(self.children@);
            assert(models.take(0) =~= Seq::empty());
        }
        while i < self.children.len()
            invariant
                i <= self.children.len(),
                models == element_models(self.children@),
                models.len() == self.children@.len(),
                cx@ == children_painted(models.take(i as int), offset, inner),
                *view_state == *old(view_state),
            decreases self.children.len() - i,
        {
            self.children[i].paint(offset, view_state, cx);
            proof {
                lemma_element_models(self.children@);
                assert(models.take(i + 1).drop_last() =~= models.take(i as int));
            }
            i += 1;
        }
        proof {
            assert(models.take(i as int) =~= models);
        }
        if self.group.is_some() {
            cx.pop_group();
        }
        cx.set_stacking_order(outer);
    }
}

impl AnyElement {
    /// The identity of the node, if it has one.
    pub fn id(&self) -> (r: Option<ElementId>)
        ensures
            r == self.model().node.id(),
    {
        match &self.node {
            ElementNode::Div(div) => div.identity.id(),
            ElementNode::Img(img) => img.base.identity.id(),
        }
    }

    fn recover(&self, cx: &ViewContext) -> (r: DivState)
        ensures
            r == self.model().recovered(cx@),
    {
        match self.state {
            Some(state) => state,
            None => match self.id() {
                Some(id) => match cx.element_state(id) {
                    Some(state) => state,
                    None => DivState::new(),
                },
                None => DivState::new(),
            },
        }
    }

    /// The first pass: the element keeps the state it holds or, if it is
    /// identified, recovers the one its identity left in the last frame, or
    /// gets a fresh one; and so do its descendants.
    pub fn initialize<V>(&mut self, view_state: &mut V, cx: &mut ViewContext)
        ensures
            final(self).model() == old(self).model().initialized(old(cx)@),
            *final(view_state) == *old(view_state),
            final(cx)@ == old(cx)@,
        decreases *old(self),
    {
        let state = self.recover(cx);
        match &mut self.node {
            ElementNode::Div(div) => {
                div.initialize_children(view_state, cx);
            },
            ElementNode::Img(img) => {
                img.base.initialize_children(view_state, cx);
            },
        }
        self.state = Some(state);
    }

    /// The second pass: the element submits its style and the ids of its
    /// children to the solver and keeps the id it is given.
    pub fn layout<V>(&mut self, view_state: &mut V, cx: &mut ViewContext) -> (id: LayoutId)
        ensures
            (final(self).model(), final(cx)@) == old(self).model().laid_out(old(cx)@),
            final(self).layout_id == Some(id),
            *final(view_state) == *old(view_state),
        decreases *old(self),
    {
        let state = self.recover(cx);
        let id = match &mut self.node {
            ElementNode::Div(div) => div.layout_node(view_state, &state, cx),
            ElementNode::Img(img) => img.base.layout_node(view_state, &state, cx),
        };
        self.state = Some(state);
        self.layout_id = Some(id);
        id
    }

    /// The third pass: the element draws itself within the bounds that the
    /// solver resolved for it, moved against the scroll offset of its
    /// parent, and leaves its state for the next frame if it is identified.
    /// An element that was not laid out draws nothing.
    pub fn paint<V>(&self, offset: Point<Pixels>, view_state: &mut V, cx: &mut ViewContext)
        ensures
            final(cx)@ == self.model().painted(offset, old(cx)@),
            *final(view_state) == *old(view_state),
        decreases self,
    {
        match (self.state, self.layout_id) {
            (Some(state), Some(id)) => {
                let bounds = scroll_bounds(cx.layout_bounds(id), offset);
                match &self.node {
                    ElementNode::Div(div) => div.paint_node(bounds, view_state, &state, cx),
                    ElementNode::Img(img) => img.paint_node(bounds, view_state, &state, cx),
                }
                cx.keep_element_state(self.id(), state);
            },
            _ => {},
        }
    }
}

impl<K: ElementIdentity> IntoAnyElement for Div<K> {
    open spec fn node_model(&self) -> NodeModel {
        NodeModel::Div(self.model())
    }

    fn into_any(self) -> (r: AnyElement) {
        let id = self.identity.id();
        AnyElement {
            node: ElementNode::Div(
                Div {
                    identity: Erased(id),
                    group: self.group,
                    base_style: self.base_style,
                    hover_style: self.hover_style,
                    active_style: self.active_style,
                    listeners: self.listeners,
                    scroll: self.scroll,
                    children: self.children,
                },
            ),
            state: None,
            layout_id: None,
        }
    }
}

impl<V, K: ElementIdentity> Element<V> for Div<K> {
    type ElementState = DivState;

    open spec fn element_id(&self) -> Option<ElementId> {
        self.identity.identity()
    }

    fn id(&self) -> (r: Option<ElementId>) {
        self.identity.id()
    }

    fn initialize(
        &mut self,
        view_state: &mut V,
        element_state: Option<DivState>,
        cx: &mut ViewContext,
    ) -> (r: DivState)
        ensures
            r == DivState::recovered(element_state),
            final(self).model() == old(self).model().initialized(old(cx)@),
            *final(view_state) == *old(view_state),
            final(cx)@ == old(cx)@,
    {
        self.initialize_children(view_state, cx);
        match element_state {
            Some(state) => state,
            None => DivState::new(),
        }
    }

    fn layout(&mut self, view_state: &mut V, element_state: &mut DivState, cx: &mut ViewContext) -> (r:
        LayoutId)
        ensures
            (final(self).model(), final(cx)@, r) == old(self).model().laid_out(
                *old(element_state),
                old(cx)@,
            ),
            *final(element_state) == *old(element_state),
            *final(view_state) == *old(view_state),
    {
        proof {
            lemma_layout_keeps(old(self).model(), *old(element_state), old(cx)@);
        }
        self.layout_node(view_state, &*element_state, cx)
    }

    fn paint(
        &mut self,
        bounds: Bounds<Pixels>,
        view_state: &mut V,
        element_state: &mut DivState,
        cx: &mut ViewContext,
    )
        ensures
            final(cx)@ == old(self).model().painted(bounds, *old(element_state), old(cx)@),
            *final(self) == *old(self),
            *final(element_state) == *old(element_state),
            *final(view_state) == *old(view_state),
    {
        self.paint_node(bounds, view_state, &*element_state, cx)
    }
}

/// A container of the anonymous kind exposes no identity, whatever it was
/// built with; the only way to one is through [`Div::id`], after which the
/// container exposes the token it was given.
pub proof fn lemma_container_identity_gating<V>(anonymous: Div<Anonymous>, identified: Div<Identified>)
    ensures
        <Div<Anonymous> as Element<V>>::element_id(&anonymous) is None,
        anonymous.model().id is None,
        <Div<Identified> as Element<V>>::element_id(&identified) == Some(
            identified.identity.token(),
        ),
        identified.model().id == Some(identified.identity.token()),
{
}

impl<K: ElementIdentity> Styled for Div<K> {
    open spec fn base_style(&self) -> StyleRefinement {
        self.base_style
    }

    open spec fn restyled(self, style: StyleRefinement) -> Self {
        Div { base_style: style, ..self }
    }

    fn style(&mut self) -> (r: &mut StyleRefinement) {
        &mut self.base_style
    }
}

impl<K: ElementIdentity> Interactive for Div<K> {
    open spec fn listener_entries(&self) -> Seq<Listener> {
        self.listeners@
    }

    open spec fn listening(&self, before: Self, entries: Seq<Listener>) -> bool {
        self.model() == (DivModel { listeners: entries, ..before.model() })
    }

    fn listeners(&mut self) -> (r: &mut EventListeners) {
        &mut self.listeners
    }
}

impl<K: ElementIdentity> Hover for Div<K> {
    open spec fn hovering(
        &self,
        before: Self,
        group: Option<Seq<char>>,
        style: StyleRefinement,
    ) -> bool {
        self.model() == (DivModel {
            hover_style: Some(GroupStyleModel { group, style }),
            ..before.model()
        })
    }

    fn set_hover_style(&mut self, group: Option<String>, style: StyleRefinement) {
        self.hover_style = Some(GroupStyle { group, style });
    }
}

impl Click for Div<Identified> {

}

impl Active for Div<Identified> {
    open spec fn pressing(
        &self,
        before: Self,
        group: Option<Seq<char>>,
        style: StyleRefinement,
    ) -> bool {
        self.model() == (DivModel {
            active_style: Some(GroupStyleModel { group, style }),
            ..before.model()
        })
    }

    fn set_active_style(&mut self, group: Option<String>, style: StyleRefinement) {
        self.active_style = Some(GroupStyle { group, style });
    }
}

} // verus!
