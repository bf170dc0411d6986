use ui_elements::assets::{font_paths, is_font_path};

#[test]
fn font_paths_end_in_ttf() {
    assert!(is_font_path("fonts/zed-sans.ttf"));
    assert!(is_font_path(".ttf"));
    assert!(is_font_path("\u{e9}t\u{e9}.ttf"));
    assert!(!is_font_path("fonts/zed-sans.otf"));
    assert!(!is_font_path("fonts/zed-sans.ttf.bak"));
    assert!(!is_font_path("fonts/zed-sans.TTF"));
    assert!(!is_font_path("ttf"));
    assert!(!is_font_path(""));
    assert!(!is_font_path("fonts/zed-sans.tt\u{ff46}"));
}

#[test]
fn font_paths_are_picked_in_order() {
    let listed = vec![
        "fonts/b.ttf".to_string(),
        "fonts/readme.md".to_string(),
        "fonts/a.ttf".to_string(),
        "fonts/a.ttf".to_string(),
        "fonts/".to_string(),
    ];
    assert_eq!(
        font_paths(&listed),
        vec!["fonts/b.ttf".to_string(), "fonts/a.ttf".to_string(), "fonts/a.ttf".to_string()]
    );
    assert_eq!(font_paths(&Vec::new()), Vec::<String>::new());
}
