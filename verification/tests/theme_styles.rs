use panekit::theme::{Color, Style, Theme};

#[test]
fn plain_style_sets_nothing() {
    let s = Style::plain();
    assert_eq!(s.fg, Color::Unset);
    assert_eq!(s.bg, Color::Unset);
    assert!(!s.bold && !s.reversed && !s.dim);
}

#[test]
fn theme_colors() {
    let t = Theme::new();
    assert_eq!(t.root.bg, Color::Rgb(16, 24, 48));
    assert_eq!(t.app_title.fg, Color::LightCyan);
    assert!(t.app_title.bold);
    assert!(t.tabs_selected.bold && t.tabs_selected.reversed);
    assert_eq!(t.borders.fg, Color::Rgb(238, 238, 238));
    assert_eq!(t.key_binding.key.bg, Color::Black);
    assert_eq!(t.key_binding.description.fg, Color::LightCyan);
    assert_eq!(Theme::default(), t);
}
