use ui_elements::context::{LayoutId, ScrollState, ViewContext};
use ui_elements::div::{div, ElementNode, IntoAnyElement};
use ui_elements::element::{DivState, Element, ElementId, Styled};
use ui_elements::geometry::{px, relative, size, AbsoluteLength, DefiniteLength, Length};
use ui_elements::img::img;
use ui_elements::panes::{Pane, PaneGroup, SplitDirection};
use ui_elements::style::{hsla, Display, FlexDirection, Hsla, Overflow, StyleRefinement, Theme};

fn background() -> Hsla {
    hsla(600, 100, 100, 1000)
}

fn context() -> ViewContext {
    ViewContext::new(px(16), Theme { background: background() })
}

fn pane(handle: u64, width: u32) -> Pane {
    Pane::new(ScrollState(handle), size(relative(width), relative(1000)))
}

fn three_panes(direction: SplitDirection) -> PaneGroup {
    PaneGroup::new_panes(vec![pane(1, 250), pane(2, 500), pane(3, 250)], direction)
}

fn group_style(direction: Option<FlexDirection>) -> StyleRefinement {
    let mut style = StyleRefinement::new();
    style.display = Some(Display::Flex);
    style.flex_direction = direction;
    style.flex_grow = Some(1);
    style.flex_shrink = Some(1);
    style.flex_basis = Some(relative(0));
    style.gap = Some(DefiniteLength::Absolute(AbsoluteLength::Pixels(px(1))));
    style.width = Some(relative(1000));
    style.height = Some(relative(1000));
    style.fill = Some(background());
    style
}

fn pane_style(width: u32, fill: Hsla) -> StyleRefinement {
    let mut style = StyleRefinement::new();
    style.display = Some(Display::Flex);
    style.flex_grow = Some(0);
    style.flex_shrink = Some(1);
    style.flex_basis = Some(Length::Auto);
    style.fill = Some(fill);
    style.width = Some(relative(width));
    style.height = Some(relative(1000));
    style.overflow_y = Some(Overflow::Scroll);
    style
}

#[test]
fn split_direction_defaults_to_horizontal() {
    assert_eq!(SplitDirection::default(), SplitDirection::Horizontal);
    assert_ne!(SplitDirection::Horizontal, SplitDirection::Vertical);
}

#[test]
fn new_panes_holds_no_groups() {
    let group = three_panes(SplitDirection::Vertical);
    assert_eq!(group.counts(), (0, 3));
    assert_eq!(group.split_direction(), SplitDirection::Vertical);
    assert!(group.is_renderable());
}

#[test]
fn new_groups_holds_no_panes() {
    let group = PaneGroup::new_groups(
        vec![three_panes(SplitDirection::Horizontal), three_panes(SplitDirection::Vertical)],
        SplitDirection::Horizontal,
    );
    assert_eq!(group.counts(), (2, 0));
    assert_eq!(group.split_direction(), SplitDirection::Horizontal);
    assert!(group.is_renderable());
}

#[test]
fn a_group_that_holds_nothing_cannot_be_rendered() {
    assert_eq!(PaneGroup::new_panes(vec![], SplitDirection::Horizontal).counts(), (0, 0));
    assert!(!PaneGroup::new_panes(vec![], SplitDirection::Horizontal).is_renderable());
    assert!(!PaneGroup::new_groups(vec![], SplitDirection::Vertical).is_renderable());
    let nested = PaneGroup::new_groups(
        vec![
            three_panes(SplitDirection::Horizontal),
            PaneGroup::new_groups(
                vec![PaneGroup::new_panes(vec![], SplitDirection::Horizontal)],
                SplitDirection::Horizontal,
            ),
        ],
        SplitDirection::Vertical,
    );
    assert!(!nested.is_renderable());
}

#[test]
fn pane_renders_to_a_scrolling_flex_item() {
    let mut cx = context();
    let mut pane = pane(7, 500);
    let rendered = pane.render(&mut (), &mut cx);
    assert_eq!(rendered.base_style, pane_style(500, hsla(300, 300, 300, 1000)));
    assert_eq!(rendered.scroll, Some(ScrollState(7)));
    assert!(rendered.children.is_empty());
    assert_eq!(rendered.group, None);
    assert_eq!(rendered.hover_style, None);
    assert_eq!(rendered.active_style, None);
    assert_eq!(rendered.listeners.len(), 0);
    assert_eq!(Element::<()>::id(&rendered), None);
}

#[test]
fn pane_fill_is_set_by_the_builder() {
    let mut cx = context();
    let mut pane = pane(7, 500).fill(hsla(1, 2, 3, 4)).fill(hsla(5, 6, 7, 2000));
    let rendered = pane.render(&mut (), &mut cx);
    assert_eq!(rendered.base_style.fill, Some(hsla(5, 6, 7, 1000)));
}

#[test]
fn pane_hands_its_children_over_when_rendered() {
    let mut cx = context();
    let mut pane = pane(1, 500).child(img().uri("img://a")).child(div().id(ElementId(4)));
    pane.children_mut().push(img().uri("img://b").into_any());
    let first = pane.render(&mut (), &mut cx);
    assert_eq!(first.children.len(), 3);
    match &first.children[0].node {
        ElementNode::Img(image) => assert_eq!(image.uri, Some("img://a".to_string())),
        ElementNode::Div(_) => panic!("an image was added first"),
    }
    assert_eq!(first.children[1].id(), Some(ElementId(4)));
    match &first.children[2].node {
        ElementNode::Img(image) => assert_eq!(image.uri, Some("img://b".to_string())),
        ElementNode::Div(_) => panic!("an image was added last"),
    }
    let second = pane.render(&mut (), &mut cx);
    assert!(second.children.is_empty());
    assert_eq!(second.base_style, first.base_style);
    assert_eq!(second.scroll, first.scroll);
}

#[test]
fn pane_keeps_more_children_than_fit_inline() {
    let mut cx = context();
    let mut pane = pane(1, 500);
    for i in 0..5 {
        pane = pane.child(div().id(ElementId(i)));
    }
    let rendered = pane.render(&mut (), &mut cx);
    let ids: Vec<Option<ElementId>> = rendered.children.iter().map(|c| c.id()).collect();
    assert_eq!(
        ids,
        vec![
            Some(ElementId(0)),
            Some(ElementId(1)),
            Some(ElementId(2)),
            Some(ElementId(3)),
            Some(ElementId(4))
        ]
    );
}

#[test]
fn horizontal_group_of_three_panes_lays_out_in_a_row() {
    let mut cx = context();
    let mut group = three_panes(SplitDirection::Horizontal);
    let mut rendered = group.render(&mut (), &mut cx);
    assert_eq!(rendered.base_style, group_style(None));
    assert_eq!(rendered.children.len(), 3);
    let mut state = DivState::new();
    let id = Element::<()>::layout(&mut rendered, &mut (), &mut state, &mut cx);
    assert_eq!(id, LayoutId(3));
    let container = &cx.layout_requests[3];
    assert_eq!(container.style.display, Display::Flex);
    assert_eq!(container.style.flex_direction, FlexDirection::Row);
    assert_eq!(container.style.width, relative(1000));
    assert_eq!(container.style.height, relative(1000));
    assert_eq!(container.style.flex_grow, 1);
    assert_eq!(container.style.gap, DefiniteLength::Absolute(AbsoluteLength::Pixels(px(1))));
    assert_eq!(container.style.fill, Some(background()));
    assert_eq!(container.children, vec![LayoutId(0), LayoutId(1), LayoutId(2)]);
    let widths: Vec<Length> = (0..3).map(|i| cx.layout_requests[i].style.width).collect();
    assert_eq!(widths, vec![relative(250), relative(500), relative(250)]);
    for i in 0..3 {
        let item = &cx.layout_requests[i].style;
        assert_eq!(item.height, relative(1000));
        assert_eq!(item.overflow_y, Overflow::Scroll);
        assert_eq!(item.flex_grow, 0);
        assert_eq!(item.flex_shrink, 1);
        assert_eq!(item.flex_basis, Length::Auto);
    }
}

#[test]
fn vertical_group_of_three_panes_lays_out_in_a_column() {
    let mut cx = context();
    let mut group = PaneGroup::new_panes(
        vec![
            Pane::new(ScrollState(1), size(relative(1000), relative(300))),
            Pane::new(ScrollState(2), size(relative(1000), relative(300))),
            Pane::new(ScrollState(3), size(relative(1000), relative(400))),
        ],
        SplitDirection::Vertical,
    );
    let mut rendered = group.render(&mut (), &mut cx);
    assert_eq!(rendered.base_style, group_style(Some(FlexDirection::Column)));
    let mut state = DivState::new();
    Element::<()>::layout(&mut rendered, &mut (), &mut state, &mut cx);
    let container = &cx.layout_requests[3];
    assert_eq!(container.style.flex_direction, FlexDirection::Column);
    assert_eq!(container.children, vec![LayoutId(0), LayoutId(1), LayoutId(2)]);
    let heights: Vec<Length> = (0..3).map(|i| cx.layout_requests[i].style.height).collect();
    assert_eq!(heights, vec![relative(300), relative(300), relative(400)]);
    for i in 0..3 {
        assert_eq!(cx.layout_requests[i].style.width, relative(1000));
    }
}

#[test]
fn each_pane_scrolls_under_its_own_handle() {
    let mut cx = context();
    let mut group = three_panes(SplitDirection::Horizontal);
    let rendered = group.render(&mut (), &mut cx);
    let handles: Vec<Option<ScrollState>> = rendered
        .children
        .iter()
        .map(|child| match &child.node {
            ElementNode::Div(container) => container.scroll,
            ElementNode::Img(_) => None,
        })
        .collect();
    assert_eq!(
        handles,
        vec![Some(ScrollState(1)), Some(ScrollState(2)), Some(ScrollState(3))]
    );
}

#[test]
fn nested_groups_render_recursively() {
    let mut cx = context();
    let mut group = PaneGroup::new_groups(
        vec![
            PaneGroup::new_panes(
                vec![pane(1, 1000).child(img().uri("img://a"))],
                SplitDirection::Vertical,
            ),
            PaneGroup::new_groups(
                vec![three_panes(SplitDirection::Horizontal)],
                SplitDirection::Horizontal,
            ),
        ],
        SplitDirection::Vertical,
    );
    let rendered = group.render(&mut (), &mut cx);
    assert_eq!(rendered.base_style, group_style(Some(FlexDirection::Column)));
    assert_eq!(rendered.children.len(), 2);
    let first = match &rendered.children[0].node {
        ElementNode::Div(container) => container,
        ElementNode::Img(_) => panic!("a group renders to a container"),
    };
    assert_eq!(first.base_style, group_style(Some(FlexDirection::Column)));
    assert_eq!(first.children.len(), 1);
    let leaf = match &first.children[0].node {
        ElementNode::Div(container) => container,
        ElementNode::Img(_) => panic!("a pane renders to a container"),
    };
    assert_eq!(leaf.base_style, pane_style(1000, hsla(300, 300, 300, 1000)));
    assert_eq!(leaf.children.len(), 1);
    let second = match &rendered.children[1].node {
        ElementNode::Div(container) => container,
        ElementNode::Img(_) => panic!("a group renders to a container"),
    };
    assert_eq!(second.base_style, group_style(None));
    assert_eq!(second.children.len(), 1);
    let inner = match &second.children[0].node {
        ElementNode::Div(container) => container,
        ElementNode::Img(_) => panic!("a group renders to a container"),
    };
    assert_eq!(inner.base_style, group_style(None));
    assert_eq!(inner.children.len(), 3);
    assert_eq!(group.counts(), (2, 0));
    let again = group.render(&mut (), &mut cx);
    let first = match &again.children[0].node {
        ElementNode::Div(container) => container,
        ElementNode::Img(_) => panic!("a group renders to a container"),
    };
    match &first.children[0].node {
        ElementNode::Div(container) => assert!(container.children.is_empty()),
        ElementNode::Img(_) => panic!("a pane renders to a container"),
    }
}

#[test]
fn render_leaves_the_context_alone() {
    let mut cx = context();
    let mut group = three_panes(SplitDirection::Horizontal);
    group.render(&mut (), &mut cx);
    assert!(cx.scene.is_empty());
    assert!(cx.layout_requests.is_empty());
    assert!(cx.tasks.is_empty());
    assert_eq!(group.counts(), (0, 3));
}
