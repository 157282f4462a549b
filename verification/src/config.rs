//! Launch-time configuration of an application that is drawn natively.

use blitz_dom::FontContext;
use vstd::prelude::*;
use winit::window::WindowAttributes;

verus! {

/// What a window's renderer paints behind the document.
#[derive(Debug, Clone, Copy, PartialEq, Eq, Structural)]
pub enum Background {
    /// The renderer's base colour, so the window is opaque.
    Opaque,
    /// Nothing, so the desktop shows wherever the document paints nothing.
    Transparent,
}

impl Default for Background {
    fn default() -> (background: Background)
        ensures
            background == Background::Opaque,
    {
        Background::Opaque
    }
}

#[verifier::external_type_specification]
#[verifier::external_body]
pub struct ExWindowAttributes(winit::window::WindowAttributes);

#[verifier::external_type_specification]
#[verifier::external_body]
pub struct ExFontContext(blitz_dom::FontContext);

/// The attributes of a window that is left as it comes but for its title.
pub uninterp spec fn titled_attributes(title: Seq<char>) -> WindowAttributes;

/// The title that a window's attributes hold.
pub uninterp spec fn attributes_title(attributes: WindowAttributes) -> Seq<char>;

/// `WindowAttributes::default().with_title(..)`: the default attributes under another title. They
/// depend on the title alone, and hold it.
#[verifier::external_body]
fn default_attributes_with_title(title: String) -> (attributes: WindowAttributes)
    ensures
        attributes == titled_attributes(title@),
        attributes_title(attributes) == title@,
{
    WindowAttributes::default().with_title(title)
}

/// Launch-time configuration for an application.
pub struct Config {
    pub window_attributes: WindowAttributes,
    pub font_ctx: Option<FontContext>,
    pub background: Background,
}

/// The title of the window of an application, which may have one of its own.
pub open spec fn window_title(app_title: Option<Seq<char>>) -> Seq<char> {
    match app_title {
        Some(title) => title,
        None => "Dioxus App"@,
    }
}

impl Config {
    /// The configuration of an application that has settled nothing but, perhaps, its title.
    pub open spec fn titled(app_title: Option<Seq<char>>) -> Config {
        Config {
            window_attributes: titled_attributes(window_title(app_title)),
            font_ctx: None,
            background: Background::Opaque,
        }
    }

    /// The configuration with other attributes for its window.
    pub open spec fn under_attributes(self, attrs: WindowAttributes) -> Config {
        Config { window_attributes: attrs, ..self }
    }

    /// The configuration with fonts of its own.
    pub open spec fn under_fonts(self, font_ctx: FontContext) -> Config {
        Config { font_ctx: Some(font_ctx), ..self }
    }

    /// The configuration with nothing painted behind the document.
    pub open spec fn seen_through(self) -> Config {
        Config { background: Background::Transparent, ..self }
    }

    /// The configuration of an application whose title is `app_title`, where it has one: an opaque
    /// window under that title, and no fonts of its own.
    pub fn new(app_title: Option<String>) -> (config: Config)
        ensures
            config == Config::titled(
                match app_title {
                    Some(title) => Some(title@),
                    None => None,
                },
            ),
            attributes_title(config.window_attributes) == window_title(
                match app_title {
                    Some(title) => Some(title@),
                    None => None,
                },
            ),
    {
        let title = match app_title {
            Some(title) => title,
            None => "Dioxus App".to_owned(),
        };
        Config {
            window_attributes: default_attributes_with_title(title),
            font_ctx: None,
            background: Background::Opaque,
        }
    }

    /// Set the configuration for the window.
    pub fn with_window_attributes(self, attrs: WindowAttributes) -> (config: Config)
        ensures
            config == self.under_attributes(attrs),
    {
        let mut config = self;
        config.window_attributes = attrs;
        config
    }

    /// Set the fonts for the document. Where an application cannot see the system's fonts, it has
    /// to bring its own.
    pub fn with_font_ctx(self, font_ctx: FontContext) -> (config: Config)
        ensures
            config == self.under_fonts(font_ctx),
    {
        let mut config = self;
        config.font_ctx = Some(font_ctx);
        config
    }

    /// Paint nothing behind the document, so the desktop shows wherever the document leaves a
    /// pixel empty. The window itself must be transparent too.
    pub fn with_transparent_background(self) -> (config: Config)
        ensures
            config == self.seen_through(),
    {
        let mut config = self;
        config.background = Background::Transparent;
        config
    }
}

/// A window has the title of its application, and a title all the same if the application has none.
pub proof fn a_window_has_the_title_of_its_application(title: Seq<char>)
    ensures
        window_title(Some(title)) == title,
        window_title(None) == "Dioxus App"@,
{
}

/// A window is opaque, and an application without fonts of its own, unless asked otherwise; and
/// nothing about a window but its title depends on the application.
pub proof fn windows_are_opaque_unless_asked_otherwise(title: Seq<char>)
    ensures
        Config::titled(Some(title)).background == Background::Opaque,
        Config::titled(Some(title)).font_ctx is None,
        Config::titled(Some(title)).window_attributes == titled_attributes(title),
        Config::titled(None) == Config::titled(Some("Dioxus App"@)),
{
}

/// Each setting is as it was last given, and is kept through the others, in whatever order they are
/// given.
pub proof fn settings_are_kept_through_each_other(
    config: Config,
    attrs: WindowAttributes,
    font_ctx: FontContext,
)
    ensures
        config.under_attributes(attrs).window_attributes == attrs,
        config.under_attributes(attrs).font_ctx == config.font_ctx,
        config.under_attributes(attrs).background == config.background,
        config.under_fonts(font_ctx).font_ctx == Some(font_ctx),
        config.under_fonts(font_ctx).window_attributes == config.window_attributes,
        config.under_fonts(font_ctx).background == config.background,
        config.seen_through().background == Background::Transparent,
        config.seen_through().window_attributes == config.window_attributes,
        config.seen_through().font_ctx == config.font_ctx,
        config.seen_through().under_attributes(attrs).under_fonts(font_ctx) == config.under_fonts(
            font_ctx,
        ).under_attributes(attrs).seen_through(),
{
}

} // verus!
