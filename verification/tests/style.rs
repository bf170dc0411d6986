use ui_elements::geometry::{px, relative, rems, AbsoluteLength, Corners, DefiniteLength, Length};
use ui_elements::style::{
    hsla, Display, FlexDirection, Hsla, Overflow, Style, StyleRefinement,
};

fn red() -> Hsla {
    hsla(0, 1000, 500, 1000)
}

fn blue() -> Hsla {
    hsla(660, 1000, 500, 1000)
}

fn full() -> StyleRefinement {
    let mut r = StyleRefinement::new();
    r.display = Some(Display::Flex);
    r.flex_direction = Some(FlexDirection::Column);
    r.flex_grow = Some(2);
    r.flex_shrink = Some(3);
    r.flex_basis = Some(relative(250));
    r.width = Some(relative(1000));
    r.height = Some(Length::Auto);
    r.gap = Some(DefiniteLength::Fraction(10));
    r.overflow_x = Some(Overflow::Hidden);
    r.overflow_y = Some(Overflow::Scroll);
    r.fill = Some(red());
    r.corner_radii = Corners {
        top_left: Some(AbsoluteLength::Pixels(px(1))),
        top_right: Some(AbsoluteLength::Pixels(px(2))),
        bottom_right: Some(AbsoluteLength::Pixels(px(3))),
        bottom_left: Some(AbsoluteLength::Pixels(px(4))),
    };
    r
}

fn other() -> StyleRefinement {
    let mut r = StyleRefinement::new();
    r.display = Some(Display::Block);
    r.flex_direction = Some(FlexDirection::Row);
    r.flex_grow = Some(7);
    r.flex_shrink = Some(8);
    r.flex_basis = Some(Length::Auto);
    r.width = Some(relative(500));
    r.height = Some(relative(750));
    r.gap = Some(DefiniteLength::Absolute(AbsoluteLength::Rems(rems(100))));
    r.overflow_x = Some(Overflow::Scroll);
    r.overflow_y = Some(Overflow::Visible);
    r.fill = Some(blue());
    r.corner_radii = Corners {
        top_left: Some(AbsoluteLength::Rems(rems(10))),
        top_right: Some(AbsoluteLength::Rems(rems(20))),
        bottom_right: Some(AbsoluteLength::Rems(rems(30))),
        bottom_left: Some(AbsoluteLength::Rems(rems(40))),
    };
    r
}

#[test]
fn hsla_caps_each_component() {
    assert_eq!(hsla(300, 300, 300, 1000), Hsla { h: 300, s: 300, l: 300, a: 1000 });
    assert_eq!(hsla(1001, 2000, 65535, 1000), Hsla { h: 1000, s: 1000, l: 1000, a: 1000 });
    assert_eq!(hsla(0, 0, 0, 0), Hsla { h: 0, s: 0, l: 0, a: 0 });
}

#[test]
fn new_refinement_sets_nothing() {
    let r = StyleRefinement::new();
    assert_eq!(r.display, None);
    assert_eq!(r.flex_direction, None);
    assert_eq!(r.flex_grow, None);
    assert_eq!(r.flex_shrink, None);
    assert_eq!(r.flex_basis, None);
    assert_eq!(r.width, None);
    assert_eq!(r.height, None);
    assert_eq!(r.gap, None);
    assert_eq!(r.overflow_x, None);
    assert_eq!(r.overflow_y, None);
    assert_eq!(r.fill, None);
    assert_eq!(
        r.corner_radii,
        Corners { top_left: None, top_right: None, bottom_right: None, bottom_left: None }
    );
}

#[test]
fn overlay_wins_where_it_sets_a_field() {
    let mut base = full();
    base.refine(&other());
    assert_eq!(base, other());
}

#[test]
fn overlay_unset_keeps_the_base() {
    let mut base = full();
    base.refine(&StyleRefinement::new());
    assert_eq!(base, full());
}

#[test]
fn overlay_on_unset_gives_the_overlay() {
    let mut base = StyleRefinement::new();
    base.refine(&other());
    assert_eq!(base, other());
}

#[test]
fn overlay_of_two_unset_is_unset() {
    let mut base = StyleRefinement::new();
    base.refine(&StyleRefinement::new());
    assert_eq!(base, StyleRefinement::new());
}

#[test]
fn overlay_goes_field_by_field() {
    let mut base = StyleRefinement::new();
    base.display = Some(Display::Flex);
    base.width = Some(relative(1000));
    base.fill = Some(red());
    base.corner_radii.top_left = Some(AbsoluteLength::Pixels(px(4)));
    let mut over = StyleRefinement::new();
    over.width = Some(relative(500));
    over.height = Some(relative(250));
    over.corner_radii.top_left = Some(AbsoluteLength::Pixels(px(9)));
    over.corner_radii.bottom_left = Some(AbsoluteLength::Pixels(px(2)));
    let result = base.refined(&over);
    assert_eq!(result.display, Some(Display::Flex));
    assert_eq!(result.width, Some(relative(500)));
    assert_eq!(result.height, Some(relative(250)));
    assert_eq!(result.fill, Some(red()));
    assert_eq!(result.flex_grow, None);
    assert_eq!(result.corner_radii.top_left, Some(AbsoluteLength::Pixels(px(9))));
    assert_eq!(result.corner_radii.top_right, None);
    assert_eq!(result.corner_radii.bottom_left, Some(AbsoluteLength::Pixels(px(2))));
}

#[test]
fn overlay_is_associative_on_three_layers() {
    let mut a = StyleRefinement::new();
    a.display = Some(Display::Flex);
    a.flex_grow = Some(1);
    let mut b = StyleRefinement::new();
    b.flex_grow = Some(2);
    b.fill = Some(red());
    let mut c = StyleRefinement::new();
    c.fill = Some(blue());
    c.width = Some(Length::Auto);
    assert_eq!(a.refined(&b).refined(&c), a.refined(&b.refined(&c)));
}

#[test]
fn default_style() {
    let s = Style::new();
    assert_eq!(s.display, Display::Block);
    assert_eq!(s.flex_direction, FlexDirection::Row);
    assert_eq!(s.flex_grow, 0);
    assert_eq!(s.flex_shrink, 1);
    assert_eq!(s.flex_basis, Length::Auto);
    assert_eq!(s.width, Length::Auto);
    assert_eq!(s.height, Length::Auto);
    assert_eq!(s.gap, DefiniteLength::Absolute(AbsoluteLength::Pixels(px(0))));
    assert_eq!(s.overflow_x, Overflow::Visible);
    assert_eq!(s.overflow_y, Overflow::Visible);
    assert_eq!(s.fill, None);
    assert_eq!(s.corner_radii.top_left, AbsoluteLength::Pixels(px(0)));
    assert_eq!(s.corner_radii.bottom_right, AbsoluteLength::Pixels(px(0)));
}

#[test]
fn style_takes_what_the_refinement_sets() {
    let s = Style::from_refinement(&full());
    assert_eq!(s.display, Display::Flex);
    assert_eq!(s.flex_direction, FlexDirection::Column);
    assert_eq!(s.flex_grow, 2);
    assert_eq!(s.flex_shrink, 3);
    assert_eq!(s.flex_basis, relative(250));
    assert_eq!(s.width, relative(1000));
    assert_eq!(s.height, Length::Auto);
    assert_eq!(s.gap, DefiniteLength::Fraction(10));
    assert_eq!(s.overflow_x, Overflow::Hidden);
    assert_eq!(s.overflow_y, Overflow::Scroll);
    assert_eq!(s.fill, Some(red()));
    assert_eq!(s.corner_radii.top_left, AbsoluteLength::Pixels(px(1)));
    assert_eq!(s.corner_radii.top_right, AbsoluteLength::Pixels(px(2)));
    assert_eq!(s.corner_radii.bottom_right, AbsoluteLength::Pixels(px(3)));
    assert_eq!(s.corner_radii.bottom_left, AbsoluteLength::Pixels(px(4)));
}

#[test]
fn style_keeps_what_the_refinement_leaves_unset() {
    let mut s = Style::from_refinement(&full());
    let mut over = StyleRefinement::new();
    over.flex_grow = Some(9);
    s.refine(&over);
    assert_eq!(s.flex_grow, 9);
    assert_eq!(s.display, Display::Flex);
    assert_eq!(s.fill, Some(red()));
    s.refine(&StyleRefinement::new());
    assert_eq!(s, {
        let mut expected = Style::from_refinement(&full());
        expected.flex_grow = 9;
        expected
    });
}
