//! The visual theme: an immutable set of plain style values, constructed
//! once at startup and passed by reference to the presentation layer. No
//! process-wide mutable value is involved; the concrete colors are
//! decorative and carry no invariant.

use vstd::prelude::*;

verus! {

/// A color as the presentation layer understands it. `Unset` leaves the
/// surface's own color in place.
#[derive(Clone, Copy, Debug, PartialEq, Eq, Structural)]
pub enum Color {
    Unset,
    Black,
    LightCyan,
    Rgb(u8, u8, u8),
}

/// A plain text style: foreground and background colors and the modifiers
/// the theme uses.
#[derive(Clone, Copy, Debug, PartialEq, Eq, Structural)]
pub struct Style {
    pub fg: Color,
    pub bg: Color,
    pub bold: bool,
    pub reversed: bool,
    pub dim: bool,
}

/// A style with nothing set.
pub open spec fn plain_style() -> Style {
    Style { fg: Color::Unset, bg: Color::Unset, bold: false, reversed: false, dim: false }
}

impl Style {
    /// A style with nothing set.
    pub fn plain() -> (r: Style)
        ensures
            r == plain_style(),
    {
        Style { fg: Color::Unset, bg: Color::Unset, bold: false, reversed: false, dim: false }
    }
}

/// The styles of one key-binding display row: the chord and its
/// description.
#[derive(Clone, Copy, Debug, PartialEq, Eq, Structural)]
pub struct KeyBinding {
    pub key: Style,
    pub description: Style,
}

/// Every style the panels draw with.
#[derive(Clone, Copy, Debug, PartialEq, Eq, Structural)]
pub struct Theme {
    pub root: Style,
    pub content: Style,
    pub app_title: Style,
    pub tabs: Style,
    pub tabs_selected: Style,
    pub borders: Style,
    pub description: Style,
    pub description_title: Style,
    pub key_binding: KeyBinding,
}

/// The one theme of the application.
pub open spec fn theme_spec() -> Theme {
    Theme {
        root: Style { fg: Color::Unset, bg: Color::Rgb(16, 24, 48), bold: false, reversed: false, dim: false },
        content: Style { fg: Color::Rgb(188, 188, 188), bg: Color::Rgb(16, 24, 48), bold: false, reversed: false, dim: false },
        app_title: Style { fg: Color::LightCyan, bg: Color::Rgb(16, 24, 48), bold: true, reversed: false, dim: false },
        tabs: Style { fg: Color::Rgb(128, 128, 128), bg: Color::Rgb(16, 24, 48), bold: false, reversed: false, dim: false },
        tabs_selected: Style { fg: Color::Rgb(238, 238, 238), bg: Color::Rgb(16, 24, 48), bold: true, reversed: true, dim: false },
        borders: Style { fg: Color::Rgb(238, 238, 238), bg: Color::Unset, bold: false, reversed: false, dim: false },
        description: Style { fg: Color::Rgb(188, 188, 188), bg: Color::Rgb(16, 24, 48), bold: false, reversed: false, dim: false },
        description_title: Style { fg: Color::Rgb(188, 188, 188), bg: Color::Unset, bold: true, reversed: false, dim: false },
        key_binding: KeyBinding {
            key: Style { fg: Color::Rgb(238, 238, 238), bg: Color::Black, bold: false, reversed: false, dim: false },
            description: Style { fg: Color::LightCyan, bg: Color::Black, bold: false, reversed: false, dim: false },
        },
    }
}

impl Theme {
    /// Builds the one theme of the application.
    pub fn new() -> (r: Theme)
        ensures
            r == theme_spec(),
    {
        Theme {
            root: Style { fg: Color::Unset, bg: Color::Rgb(16, 24, 48), bold: false, reversed: false, dim: false },
            content: Style { fg: Color::Rgb(188, 188, 188), bg: Color::Rgb(16, 24, 48), bold: false, reversed: false, dim: false },
            app_title: Style { fg: Color::LightCyan, bg: Color::Rgb(16, 24, 48), bold: true, reversed: false, dim: false },
            tabs: Style { fg: Color::Rgb(128, 128, 128), bg: Color::Rgb(16, 24, 48), bold: false, reversed: false, dim: false },
            tabs_selected: Style { fg: Color::Rgb(238, 238, 238), bg: Color::Rgb(16, 24, 48), bold: true, reversed: true, dim: false },
            borders: Style { fg: Color::Rgb(238, 238, 238), bg: Color::Unset, bold: false, reversed: false, dim: false },
            description: Style { fg: Color::Rgb(188, 188, 188), bg: Color::Rgb(16, 24, 48), bold: false, reversed: false, dim: false },
            description_title: Style { fg: Color::Rgb(188, 188, 188), bg: Color::Unset, bold: true, reversed: false, dim: false },
            key_binding: KeyBinding {
                key: Style { fg: Color::Rgb(238, 238, 238), bg: Color::Black, bold: false, reversed: false, dim: false },
                description: Style { fg: Color::LightCyan, bg: Color::Black, bold: false, reversed: false, dim: false },
            },
        }
    }
}

impl Default for Theme {
    /// The one theme of the application.
    fn default() -> (r: Self)
        ensures
            r == theme_spec(),
    {
        Theme::new()
    }
}

} // verus!
