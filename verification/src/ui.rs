//! What the shell shows of the session: its state and the colors of the
//! theme.

use vstd::prelude::*;

verus! {

/// The state of the pairing session as the shell sees it.
#[derive(Debug, Clone, Copy, PartialEq, Eq, Structural)]
pub enum ConnectionState {
    /// No session: nothing is on offer and nobody is connected.
    Disconnected,
    /// A token is on offer and no device has identified itself yet.
    WaitingForConnection,
    /// A device has identified itself.
    Connected,
}

/// A color by its red, green, blue and alpha bytes.
#[derive(Debug, Clone, Copy, PartialEq, Eq, Structural)]
pub struct Color {
    pub r: u8,
    pub g: u8,
    pub b: u8,
    pub a: u8,
}

/// An opaque color.
pub open spec fn opaque(r: u8, g: u8, b: u8) -> Color {
    Color { r, g, b, a: 255 }
}

/// The colors of the application.
#[derive(Debug, Clone, Copy, PartialEq, Eq, Structural)]
pub struct AppTheme {
    pub primary_color: Color,
    pub secondary_color: Color,
    pub background_color: Color,
    pub text_color: Color,
    pub accent_color: Color,
}

/// The dark theme: white text on a dark blue-gray.
pub open spec fn dark_theme() -> AppTheme {
    AppTheme {
        primary_color: opaque(103, 80, 164),
        secondary_color: opaque(98, 91, 113),
        background_color: opaque(30, 30, 40),
        text_color: opaque(255, 255, 255),
        accent_color: opaque(76, 175, 80),
    }
}

/// The light theme: black text on white.
pub open spec fn light_theme() -> AppTheme {
    AppTheme {
        primary_color: opaque(103, 80, 164),
        secondary_color: opaque(98, 91, 113),
        background_color: opaque(255, 255, 255),
        text_color: opaque(0, 0, 0),
        accent_color: opaque(76, 175, 80),
    }
}

impl Color {
    /// The opaque color of the given red, green and blue.
    pub fn from_rgb(r: u8, g: u8, b: u8) -> (c: Color)
        ensures
            c == opaque(r, g, b),
    {
        Color { r, g, b, a: 255 }
    }
}

impl AppTheme {
    /// The dark theme.
    pub fn dark() -> (theme: AppTheme)
        ensures
            theme == dark_theme(),
    {
        AppTheme {
            primary_color: Color::from_rgb(103, 80, 164),
            secondary_color: Color::from_rgb(98, 91, 113),
            background_color: Color::from_rgb(30, 30, 40),
            text_color: Color::from_rgb(255, 255, 255),
            accent_color: Color::from_rgb(76, 175, 80),
        }
    }

    /// The light theme.
    pub fn light() -> (theme: AppTheme)
        ensures
            theme == light_theme(),
    {
        AppTheme {
            primary_color: Color::from_rgb(103, 80, 164),
            secondary_color: Color::from_rgb(98, 91, 113),
            background_color: Color::from_rgb(255, 255, 255),
            text_color: Color::from_rgb(0, 0, 0),
            accent_color: Color::from_rgb(76, 175, 80),
        }
    }
}

impl Default for AppTheme {
    fn default() -> (theme: AppTheme)
        ensures
            theme == dark_theme(),
    {
        AppTheme::dark()
    }
}

} // verus!
