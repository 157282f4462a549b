use blitz_dom::FontContext;
use dioxus_shell::config::{Background, Config};
use winit::window::WindowAttributes;

#[test]
fn windows_are_opaque_unless_asked_otherwise() {
    assert_eq!(Config::new(None).background, Background::Opaque);
    assert_eq!(Background::default(), Background::Opaque);
}

#[test]
fn a_transparent_background_is_kept_through_other_settings() {
    let config = Config::new(None)
        .with_transparent_background()
        .with_window_attributes(WindowAttributes::default().with_transparent(true));
    assert_eq!(config.background, Background::Transparent);
    assert!(config.window_attributes.transparent);
}

#[test]
fn a_window_goes_by_the_title_of_its_application() {
    let config = Config::new(Some("My App".to_string()));
    assert_eq!(config.window_attributes.title, "My App");
    assert!(!config.window_attributes.transparent);
    assert!(config.window_attributes.visible);
    assert!(config.font_ctx.is_none());
}

#[test]
fn a_window_without_a_title_goes_by_a_common_one() {
    assert_eq!(
        Config::new(None).window_attributes.title,
        "Dioxus App"
    );
}

#[test]
fn fonts_leave_the_other_settings_alone() {
    let config = Config::new(Some("Fonts".to_string()))
        .with_transparent_background()
        .with_font_ctx(FontContext::default());
    assert!(config.font_ctx.is_some());
    assert_eq!(config.background, Background::Transparent);
    assert_eq!(config.window_attributes.title, "Fonts");
}
