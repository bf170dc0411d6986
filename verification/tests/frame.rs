use ui_elements::context::{DrawCall, FrameCallback, PaintError, ViewContext};
use ui_elements::div::div;
use ui_elements::element::{DivState, Element, ElementId, Styled};
use ui_elements::geometry::{point, px, rems, size, AbsoluteLength, Bounds, Corners, Pixels};
use ui_elements::img::img;
use ui_elements::resource::{FetchError, ImageData, ResourceHandle};
use ui_elements::style::{hsla, Hsla, Theme};

fn context() -> ViewContext {
    ViewContext::new(px(16), Theme { background: hsla(0, 0, 100, 1000) })
}

fn bounds(x: i32, y: i32, w: i32, h: i32) -> Bounds<Pixels> {
    Bounds { origin: point(px(x), px(y)), size: size(px(w), px(h)) }
}

fn logo() -> ImageData {
    ImageData { id: 42, width: 64, height: 32 }
}

fn red() -> Hsla {
    hsla(0, 1000, 500, 1000)
}

fn all(radius: i32) -> Corners<Pixels> {
    Corners {
        top_left: px(radius),
        top_right: px(radius),
        bottom_right: px(radius),
        bottom_left: px(radius),
    }
}

fn images(cx: &ViewContext) -> Vec<DrawCall> {
    cx.scene.iter().copied().filter(|call| matches!(call, DrawCall::Image { .. })).collect()
}

#[test]
fn image_without_uri_paints_only_its_container() {
    let mut cx = context();
    let mut state = DivState::new();
    let mut image = img().bg(red());
    Element::<()>::paint(&mut image, bounds(0, 0, 100, 50), &mut (), &mut state, &mut cx);
    assert_eq!(
        cx.scene,
        vec![DrawCall::Quad { order: 0, bounds: bounds(0, 0, 100, 50), fill: red(), corner_radii: all(0) }]
    );
    assert_eq!(cx.image_cache.len(), 0);
    assert!(cx.tasks.is_empty());
}

#[test]
fn cold_paint_defers() {
    let mut cx = context();
    let mut state = DivState::new();
    let mut image = img().uri("img://logo").bg(red());
    Element::<()>::paint(&mut image, bounds(0, 0, 100, 50), &mut (), &mut state, &mut cx);
    assert_eq!(images(&cx), vec![]);
    assert_eq!(cx.scene.len(), 1);
    assert_eq!(cx.tasks, vec![ResourceHandle(0)]);
    assert!(cx.next_frame.is_empty());
    assert_eq!(cx.image_cache.take_fetch(), Some("img://logo".to_string()));
    assert_eq!(cx.image_cache.take_fetch(), None);
    assert_eq!(cx.stacking_order, 0);
}

#[test]
fn warm_paint_is_synchronous() {
    let mut cx = context();
    let mut state = DivState::new();
    let uri = "img://logo".to_string();
    cx.image_cache.get(&uri);
    cx.image_cache.resolve(&uri, Ok(logo()));
    let mut image = img().uri("img://logo").grayscale(true);
    for round in 1..=4 {
        Element::<()>::paint(&mut image, bounds(0, 0, 100, 50), &mut (), &mut state, &mut cx);
        assert!(cx.tasks.is_empty());
        assert!(cx.next_frame.is_empty());
        assert_eq!(cx.scene.len(), round);
    }
    assert_eq!(
        cx.scene[0],
        DrawCall::Image {
            order: 1,
            bounds: bounds(0, 0, 100, 50),
            corner_radii: all(0),
            data: logo(),
            grayscale: true,
        }
    );
    assert_eq!(cx.image_cache.len(), 1);
}

#[test]
fn failed_resource_paints_nothing_and_detaches_nothing() {
    let mut cx = context();
    let mut state = DivState::new();
    let uri = "img://broken".to_string();
    cx.image_cache.get(&uri);
    cx.image_cache.resolve(&uri, Err(FetchError::Decode));
    let mut image = img().uri("img://broken").bg(red());
    Element::<()>::paint(&mut image, bounds(0, 0, 100, 50), &mut (), &mut state, &mut cx);
    Element::<()>::paint(&mut image, bounds(0, 0, 100, 50), &mut (), &mut state, &mut cx);
    assert_eq!(images(&cx), vec![]);
    assert_eq!(cx.scene.len(), 2);
    assert!(cx.tasks.is_empty());
    assert!(cx.next_frame.is_empty());
}

#[test]
fn paint_backend_turns_inverted_bounds_down() {
    let mut cx = context();
    assert_eq!(
        cx.paint_image(bounds(0, 0, -1, 10), all(0), logo(), false),
        Err(PaintError::InvalidBounds)
    );
    assert_eq!(
        cx.paint_image(bounds(0, 0, 10, -1), all(0), logo(), false),
        Err(PaintError::InvalidBounds)
    );
    assert!(cx.scene.is_empty());
    assert_eq!(cx.paint_image(bounds(0, 0, 0, 0), all(0), logo(), true), Ok(()));
    assert_eq!(cx.scene.len(), 1);
}

#[test]
fn a_turned_down_image_does_not_fail_the_frame() {
    let mut cx = context();
    let mut state = DivState::new();
    let uri = "img://logo".to_string();
    cx.image_cache.get(&uri);
    cx.image_cache.resolve(&uri, Ok(logo()));
    let mut image = img().uri("img://logo").bg(red());
    Element::<()>::paint(&mut image, bounds(0, 0, -5, 50), &mut (), &mut state, &mut cx);
    assert_eq!(images(&cx), vec![]);
    assert_eq!(cx.scene.len(), 1);
    assert!(cx.tasks.is_empty());
    let mut sibling = img().uri("img://logo");
    Element::<()>::paint(&mut sibling, bounds(0, 0, 5, 50), &mut (), &mut state, &mut cx);
    assert_eq!(images(&cx).len(), 1);
}

#[test]
fn images_of_one_uri_share_one_fetch() {
    let mut cx = context();
    let mut state = DivState::new();
    let mut root = div()
        .child(img().uri("img://logo"))
        .child(img().uri("img://logo").id(ElementId(1)))
        .child(img().uri("img://other"))
        .child(img().uri("img://logo"));
    Element::<()>::layout(&mut root, &mut (), &mut state, &mut cx);
    Element::<()>::paint(&mut root, bounds(0, 0, 10, 10), &mut (), &mut state, &mut cx);
    assert_eq!(cx.image_cache.len(), 2);
    assert_eq!(
        cx.tasks,
        vec![ResourceHandle(0), ResourceHandle(0), ResourceHandle(1), ResourceHandle(0)]
    );
    assert_eq!(cx.image_cache.take_fetch(), Some("img://logo".to_string()));
    assert_eq!(cx.image_cache.take_fetch(), Some("img://other".to_string()));
    assert_eq!(cx.image_cache.take_fetch(), None);
    cx.resource_resolved(&"img://logo".to_string(), Ok(logo()));
    assert_eq!(cx.tasks, vec![ResourceHandle(1)]);
    assert_eq!(
        cx.next_frame,
        vec![FrameCallback::Notify, FrameCallback::Notify, FrameCallback::Notify]
    );
    cx.resource_resolved(&"img://other".to_string(), Err(FetchError::Fetch));
    assert!(cx.tasks.is_empty());
    assert_eq!(cx.next_frame.len(), 3);
}

#[test]
fn settle_keeps_the_watchers_of_pending_resources() {
    let mut cx = context();
    let a = cx.image_cache.get(&"img://a".to_string());
    let b = cx.image_cache.get(&"img://b".to_string());
    let c = cx.image_cache.get(&"img://c".to_string());
    cx.spawn_watch(a);
    cx.spawn_watch(b);
    cx.spawn_watch(c);
    cx.spawn_watch(b);
    cx.spawn_watch(ResourceHandle(99));
    cx.settle_tasks();
    assert_eq!(cx.tasks.len(), 5);
    cx.image_cache.resolve(&"img://b".to_string(), Ok(logo()));
    cx.image_cache.resolve(&"img://c".to_string(), Err(FetchError::Fetch));
    cx.settle_tasks();
    assert_eq!(cx.tasks, vec![a, ResourceHandle(99)]);
    assert_eq!(cx.next_frame, vec![FrameCallback::Notify, FrameCallback::Notify]);
    cx.settle_tasks();
    assert_eq!(cx.tasks, vec![a, ResourceHandle(99)]);
    assert_eq!(cx.next_frame.len(), 2);
}

#[test]
fn begin_frame_runs_the_callbacks_and_clears_the_records() {
    let mut cx = context();
    assert!(!cx.begin_frame());
    cx.paint_quad(bounds(0, 0, 1, 1), red(), all(0));
    cx.request_layout(ui_elements::style::Style::new(), vec![]);
    cx.layout_bounds = vec![bounds(0, 0, 1, 1)];
    cx.push_group("card".to_string(), bounds(0, 0, 1, 1), false);
    cx.set_stacking_order(4);
    let handle = cx.image_cache.get(&"img://logo".to_string());
    cx.spawn_watch(handle);
    cx.on_next_frame(FrameCallback::Notify);
    assert!(cx.begin_frame());
    assert!(cx.dirty);
    assert!(cx.scene.is_empty());
    assert!(cx.layout_requests.is_empty());
    assert!(cx.layout_bounds.is_empty());
    assert!(cx.groups.is_empty());
    assert!(cx.next_frame.is_empty());
    assert_eq!(cx.stacking_order, 0);
    assert_eq!(cx.tasks, vec![handle]);
    assert_eq!(cx.image_cache.len(), 1);
    assert!(cx.begin_frame());
}

#[test]
fn logo_is_painted_once_it_has_arrived() {
    let mut cx = context();
    let mut state = DivState::new();
    let mut image = img().uri("img://logo").rounded(AbsoluteLength::Rems(rems(50)));
    let frame = bounds(10, 20, 100, 50);

    Element::<()>::paint(&mut image, frame, &mut (), &mut state, &mut cx);
    assert_eq!(images(&cx), vec![]);
    assert_eq!(cx.tasks.len(), 1);
    assert!(cx.next_frame.is_empty());
    assert!(!cx.dirty);
    assert_eq!(cx.image_cache.take_fetch(), Some("img://logo".to_string()));
    assert_eq!(cx.image_cache.take_fetch(), None);

    cx.resource_resolved(&"img://logo".to_string(), Ok(logo()));
    assert!(cx.tasks.is_empty());
    assert_eq!(cx.next_frame, vec![FrameCallback::Notify]);

    assert!(cx.begin_frame());
    assert!(cx.scene.is_empty());

    Element::<()>::paint(&mut image, frame, &mut (), &mut state, &mut cx);
    assert_eq!(
        cx.scene,
        vec![DrawCall::Image {
            order: 1,
            bounds: frame,
            corner_radii: all(8),
            data: logo(),
            grayscale: false,
        }]
    );
    assert!(cx.tasks.is_empty());
    assert!(cx.next_frame.is_empty());
    assert_eq!(cx.image_cache.take_fetch(), None);
}

#[test]
fn logo_that_fails_schedules_no_repaint() {
    let mut cx = context();
    let mut state = DivState::new();
    let mut image = img().uri("img://logo");
    Element::<()>::paint(&mut image, bounds(0, 0, 10, 10), &mut (), &mut state, &mut cx);
    assert_eq!(cx.tasks.len(), 1);
    cx.resource_resolved(&"img://logo".to_string(), Err(FetchError::Fetch));
    assert!(cx.tasks.is_empty());
    assert!(cx.next_frame.is_empty());
    assert!(!cx.begin_frame());
    Element::<()>::paint(&mut image, bounds(0, 0, 10, 10), &mut (), &mut state, &mut cx);
    assert!(cx.scene.is_empty());
    assert!(cx.tasks.is_empty());
}

#[test]
fn image_radii_follow_the_root_font_size_at_paint_time() {
    let mut cx = context();
    let mut state = DivState::new();
    let uri = "img://logo".to_string();
    cx.image_cache.get(&uri);
    cx.image_cache.resolve(&uri, Ok(logo()));
    let mut image = img().uri("img://logo").rounded(AbsoluteLength::Rems(rems(100)));
    Element::<()>::paint(&mut image, bounds(0, 0, 100, 50), &mut (), &mut state, &mut cx);
    cx.rem_size = px(20);
    Element::<()>::paint(&mut image, bounds(0, 0, 100, 50), &mut (), &mut state, &mut cx);
    cx.rem_size = px(80);
    Element::<()>::paint(&mut image, bounds(0, 0, 100, 50), &mut (), &mut state, &mut cx);
    let radii: Vec<Corners<Pixels>> = cx
        .scene
        .iter()
        .map(|call| match call {
            DrawCall::Image { corner_radii, .. } => *corner_radii,
            DrawCall::Quad { corner_radii, .. } => *corner_radii,
        })
        .collect();
    assert_eq!(radii, vec![all(16), all(20), all(50)]);
}

#[test]
fn image_as_a_child_is_painted_within_the_tree() {
    let mut cx = context();
    let mut state = DivState::new();
    let uri = "img://logo".to_string();
    cx.image_cache.get(&uri);
    cx.image_cache.resolve(&uri, Ok(logo()));
    let mut root = div().bg(red()).child(img().uri("img://logo").bg(red()));
    Element::<()>::layout(&mut root, &mut (), &mut state, &mut cx);
    cx.layout_bounds = vec![bounds(5, 5, 20, 20), bounds(0, 0, 100, 100)];
    Element::<()>::paint(&mut root, bounds(0, 0, 100, 100), &mut (), &mut state, &mut cx);
    assert_eq!(
        cx.scene,
        vec![
            DrawCall::Quad { order: 0, bounds: bounds(0, 0, 100, 100), fill: red(), corner_radii: all(0) },
            DrawCall::Quad { order: 0, bounds: bounds(5, 5, 20, 20), fill: red(), corner_radii: all(0) },
            DrawCall::Image {
                order: 1,
                bounds: bounds(5, 5, 20, 20),
                corner_radii: all(0),
                data: logo(),
                grayscale: false
            },
        ]
    );
    assert_eq!(cx.stacking_order, 0);
}
