//! The image element: a container that resolves a URI to pixel data through
//! the resource cache and paints it, or defers.

use crate::context::{LayoutId, ViewContext};
use crate::div::{div, AnyElement, Div, ElementNode, IntoAnyElement};
use crate::element::{
    name_model, Active, Anonymous, Click, DivState, Element, ElementId, ElementIdentity, Erased,
    EventListeners, Hover, Identified, Interactive, Listener, Styled,
};
use crate::geometry::{Bounds, Pixels};
use crate::model::{DivModel, GroupStyleModel, ImgModel, NodeModel};
use crate::style::StyleRefinement;
use vstd::prelude::*;

verus! {

/// An image: a container, the URI of the picture to show in it, and
/// whether to show it in grayscale.
#[derive(Debug, PartialEq, Eq)]
pub struct Img<K: ElementIdentity = Anonymous> {
    pub base: Div<K>,
    pub uri: Option<String>,
    pub grayscale: bool,
}

/// An image element without identity, without a URI, in full color.
pub fn img() -> (r: Img<Anonymous>)
    ensures
        r.model() == (ImgModel { base: DivModel::empty(None), uri: None, grayscale: false }),
{
    Img { base: div(), uri: None, grayscale: false }
}

impl<K: ElementIdentity> Img<K> {
    /// The image as a value.
    pub open spec fn model(&self) -> ImgModel
        decreases self,
    {
        ImgModel { base: self.base.model(), uri: name_model(self.uri), grayscale: self.grayscale }
    }

    /// Sets the URI of the image.
    pub fn uri(self, uri: &str) -> (r: Self)
        ensures
            r.model() == (ImgModel { uri: Some(uri@), ..self.model() }),
    {
        let mut this = self;
        this.uri = Some(String::from_str(uri));
        this
    }

    /// Sets whether the image is painted in grayscale.
    pub fn grayscale(self, grayscale: bool) -> (r: Self)
        ensures
            r.model() == (ImgModel { grayscale, ..self.model() }),
    {
        let mut this = self;
        this.grayscale = grayscale;
        this
    }

    /// The paint pass of the image. The container is painted first. Then the
    /// URI, if there is one, is requested from the cache and polled: data
    /// that is there is painted, a fetch that has failed is passed over, and
    /// for a fetch that is pending a watcher is detached, which notifies the
    /// view once the data has arrived.
    pub fn paint_node<V>(
        &self,
        bounds: Bounds<Pixels>,
        view_state: &mut V,
        element_state: &DivState,
        cx: &mut ViewContext,
    )
        ensures
            final(cx)@ == self.model().painted(bounds, *element_state, old(cx)@),
            *final(view_state) == *old(view_state),
        decreases self,
    {
        self.base.paint_node(bounds, view_state, element_state, cx);
        let style = self.base.compute_style(bounds, element_state, cx);
        let corner_radii = style.corner_radii;
        match &self.uri {
            Some(uri) => {
                let ghost painted = cx@;
                let handle = cx.image_cache.get(uri);
                assert(cx@ == painted.with_cache(painted.cache.requested(uri@)));
                match cx.image_cache.poll(handle) {
                    Some(Ok(data)) => {
                        let radii = corner_radii.to_pixels(bounds.size, cx.rem_size());
                        let outer = cx.set_stacking_order(1);
                        let _ = cx.paint_image(bounds, radii, data, self.grayscale);
                        cx.set_stacking_order(outer);
                    },
                    Some(Err(_)) => {},
                    None => {
                        cx.spawn_watch(handle);
                    },
                }
            },
            None => {},
        }
    }
}

impl Img<Anonymous> {
    /// Gives the image an identity. There is no way back.
    pub fn id(self, id: ElementId) -> (r: Img<Identified>)
        ensures
            r.model() == (ImgModel {
                base: DivModel { id: Some(id), ..self.model().base },
                ..self.model()
            }),
    {
        Img { base: self.base.id(id), uri: self.uri, grayscale: self.grayscale }
    }
}

impl<K: ElementIdentity> IntoAnyElement for Img<K> {
    open spec fn node_model(&self) -> NodeModel {
        NodeModel::Img(self.model())
    }

    fn into_any(self) -> (r: AnyElement) {
        let id = self.base.identity.id();
        AnyElement {
            node: ElementNode::Img(
                Img {
                    base: Div {
                        identity: Erased(id),
                        group: self.base.group,
                        base_style: self.base.base_style,
                        hover_style: self.base.hover_style,
                        active_style: self.base.active_style,
                        listeners: self.base.listeners,
                        scroll: self.base.scroll,
                        children: self.base.children,
                    },
                    uri: self.uri,
                    grayscale: self.grayscale,
                },
            ),
            state: None,
            layout_id: None,
        }
    }
}

impl<V, K: ElementIdentity> Element<V> for Img<K> {
    type ElementState = DivState;

    open spec fn element_id(&self) -> Option<ElementId> {
        self.base.identity.identity()
    }

    fn id(&self) -> (r: Option<ElementId>) {
        self.base.identity.id()
    }

    fn initialize(
        &mut self,
        view_state: &mut V,
        element_state: Option<DivState>,
        cx: &mut ViewContext,
    ) -> (r: DivState)
        ensures
            r == DivState::recovered(element_state),
            final(self).model() == old(self).model().initialized(old(cx)@),
            *final(view_state) == *old(view_state),
            final(cx)@ == old(cx)@,
    {
        self.base.initialize_children(view_state, cx);
        match element_state {
            Some(state) => state,
            None => DivState::new(),
        }
    }

    fn layout(&mut self, view_state: &mut V, element_state: &mut DivState, cx: &mut ViewContext) -> (r:
        LayoutId)
        ensures
            (final(self).model(), final(cx)@, r) == old(self).model().laid_out(
                *old(element_state),
                old(cx)@,
            ),
            *final(element_state) == *old(element_state),
            *final(view_state) == *old(view_state),
    {
        proof {
            crate::model::lemma_layout_keeps(
                old(self).model().base,
                *old(element_state),
                old(cx)@,
            );
        }
        self.base.layout_node(view_state, &*element_state, cx)
    }

    fn paint(
        &mut self,
        bounds: Bounds<Pixels>,
        view_state: &mut V,
        element_state: &mut DivState,
        cx: &mut ViewContext,
    )
        ensures
            final(cx)@ == old(self).model().painted(bounds, *old(element_state), old(cx)@),
            *final(self) == *old(self),
            *final(element_state) == *old(element_state),
            *final(view_state) == *old(view_state),
    {
        self.paint_node(bounds, view_state, &*element_state, cx)
    }
}

impl<K: ElementIdentity> Styled for Img<K> {
    open spec fn base_style(&self) -> StyleRefinement {
        self.base.base_style
    }

    open spec fn restyled(self, style: StyleRefinement) -> Self {
        Img { base: Div { base_style: style, ..self.base }, ..self }
    }

    fn style(&mut self) -> (r: &mut StyleRefinement) {
        self.base.style()
    }
}

impl<K: ElementIdentity> Interactive for Img<K> {
    open spec fn listener_entries(&self) -> Seq<Listener> {
        self.base.listeners@
    }

    open spec fn listening(&self, before: Self, entries: Seq<Listener>) -> bool {
        self.model() == (ImgModel {
            base: DivModel { listeners: entries, ..before.model().base },
            ..before.model()
        })
    }

    fn listeners(&mut self) -> (r: &mut EventListeners) {
        self.base.listeners()
    }
}

impl<K: ElementIdentity> Hover for Img<K> {
    open spec fn hovering(
        &self,
        before: Self,
        group: Option<Seq<char>>,
        style: StyleRefinement,
    ) -> bool {
        self.model() == (ImgModel {
            base: DivModel {
                hover_style: Some(GroupStyleModel { group, style }),
                ..before.model().base
            },
            ..before.model()
        })
    }

    fn set_hover_style(&mut self, group: Option<String>, style: StyleRefinement) {
        self.base.set_hover_style(group, style);
    }
}

impl Click for Img<Identified> {

}

impl Active for Img<Identified> {
    open spec fn pressing(
        &self,
        before: Self,
        group: Option<Seq<char>>,
        style: StyleRefinement,
    ) -> bool {
        self.model() == (ImgModel {
            base: DivModel {
                active_style: Some(GroupStyleModel { group, style }),
                ..before.model().base
            },
            ..before.model()
        })
    }

    fn set_active_style(&mut self, group: Option<String>, style: StyleRefinement) {
        self.base.set_active_style(group, style)
    }
}

/// An image of the anonymous kind exposes no identity, whatever it was built
/// with; the only way to one is through [`Img::id`], after which the image
/// exposes the token it was given.
pub proof fn lemma_identity_gating<V>(anonymous: Img<Anonymous>, identified: Img<Identified>)
    ensures
        <Img<Anonymous> as Element<V>>::element_id(&anonymous) is None,
        anonymous.model().base.id is None,
        <Img<Identified> as Element<V>>::element_id(&identified) == Some(identified.base.identity.token()),
        identified.model().base.id == Some(identified.base.identity.token()),
{
}

} // verus!
