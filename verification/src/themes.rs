//! Colour themes of the user interface.

use vstd::prelude::*;

verus! {

/// The themes the interface offers.
#[derive(Clone, Copy, Debug, PartialEq, Eq, Structural)]
pub enum Theme {
    Matrix,
    Cyberpunk,
    Monochrome,
    Neon,
    Professional,
}

impl Default for Theme {
    fn default() -> (theme: Theme)
        ensures
            theme == Theme::Matrix,
    {
        Theme::Matrix
    }
}

/// A colour as four bytes: red, green, blue and alpha, with the colour
/// channels already multiplied by alpha.
#[derive(Clone, Copy, Debug, PartialEq, Eq, Structural)]
pub struct Rgba {
    pub r: u8,
    pub g: u8,
    pub b: u8,
    pub a: u8,
}

/// The opaque colour with the given red, green and blue.
pub open spec fn rgb_color(r: u8, g: u8, b: u8) -> Rgba {
    Rgba { r, g, b, a: 255 }
}

/// The colour with the given bytes, taken as they are.
pub open spec fn rgba_color(r: u8, g: u8, b: u8, a: u8) -> Rgba {
    Rgba { r, g, b, a }
}

/// Makes an opaque colour.
pub fn rgb(r: u8, g: u8, b: u8) -> (color: Rgba)
    ensures
        color == rgb_color(r, g, b),
{
    Rgba { r, g, b, a: 255 }
}

/// Makes a colour from premultiplied bytes.
pub fn rgba(r: u8, g: u8, b: u8, a: u8) -> (color: Rgba)
    ensures
        color == rgba_color(r, g, b, a),
{
    Rgba { r, g, b, a }
}

/// The colours of one theme. `note_colors` holds one colour for each
/// oscillator shape: sine, square, saw, pulse.
#[derive(Clone, Copy, Debug)]
pub struct ThemeColors {
    pub primary: Rgba,
    pub secondary: Rgba,
    pub accent: Rgba,
    pub background: Rgba,
    pub surface: Rgba,
    pub text: Rgba,
    pub text_dim: Rgba,
    pub border: Rgba,
    pub hover: Rgba,
    pub active: Rgba,
    pub note_colors: [Rgba; 4],
}

/// The colour table.
pub open spec fn palette(theme: Theme) -> ThemeColors {
    match theme {
        Theme::Matrix => ThemeColors {
            primary: rgb_color(0, 255, 0),
            secondary: rgb_color(0, 200, 0),
            accent: rgb_color(0, 150, 0),
            background: rgb_color(0, 0, 0),
            surface: rgb_color(5, 5, 5),
            text: rgb_color(0, 255, 0),
            text_dim: rgba_color(0, 150, 0, 150),
            border: rgb_color(0, 100, 0),
            hover: rgba_color(0, 50, 0, 100),
            active: rgba_color(0, 100, 0, 150),
            note_colors: [
                rgb_color(0, 255, 0),
                rgb_color(0, 150, 255),
                rgb_color(255, 150, 0),
                rgb_color(255, 0, 150),
            ],
        },
        Theme::Cyberpunk => ThemeColors {
            primary: rgb_color(255, 0, 255),
            secondary: rgb_color(0, 255, 255),
            accent: rgb_color(255, 255, 0),
            background: rgb_color(10, 5, 20),
            surface: rgb_color(20, 10, 30),
            text: rgb_color(255, 0, 255),
            text_dim: rgba_color(200, 0, 200, 150),
            border: rgb_color(100, 0, 100),
            hover: rgba_color(50, 0, 50, 100),
            active: rgba_color(100, 0, 100, 150),
            note_colors: [
                rgb_color(255, 0, 255),
                rgb_color(0, 255, 255),
                rgb_color(255, 255, 0),
                rgb_color(255, 100, 0),
            ],
        },
        Theme::Monochrome => ThemeColors {
            primary: rgb_color(255, 255, 255),
            secondary: rgb_color(200, 200, 200),
            accent: rgb_color(150, 150, 150),
            background: rgb_color(15, 15, 15),
            surface: rgb_color(25, 25, 25),
            text: rgb_color(255, 255, 255),
            text_dim: rgba_color(150, 150, 150, 200),
            border: rgb_color(80, 80, 80),
            hover: rgba_color(50, 50, 50, 100),
            active: rgba_color(100, 100, 100, 150),
            note_colors: [
                rgb_color(255, 255, 255),
                rgb_color(200, 200, 200),
                rgb_color(150, 150, 150),
                rgb_color(100, 100, 100),
            ],
        },
        Theme::Neon => ThemeColors {
            primary: rgb_color(0, 255, 255),
            secondary: rgb_color(255, 0, 255),
            accent: rgb_color(255, 255, 0),
            background: rgb_color(0, 0, 10),
            surface: rgb_color(5, 5, 15),
            text: rgb_color(0, 255, 255),
            text_dim: rgba_color(0, 200, 200, 150),
            border: rgb_color(0, 150, 150),
            hover: rgba_color(0, 50, 50, 100),
            active: rgba_color(0, 100, 100, 150),
            note_colors: [
                rgb_color(0, 255, 255),
                rgb_color(255, 0, 255),
                rgb_color(255, 255, 0),
                rgb_color(0, 255, 0),
            ],
        },
        Theme::Professional => ThemeColors {
            primary: rgb_color(100, 150, 255),
            secondary: rgb_color(150, 200, 255),
            accent: rgb_color(255, 200, 100),
            background: rgb_color(20, 20, 25),
            surface: rgb_color(30, 30, 35),
            text: rgb_color(220, 220, 230),
            text_dim: rgba_color(150, 150, 160, 200),
            border: rgb_color(60, 80, 100),
            hover: rgba_color(40, 60, 80, 100),
            active: rgba_color(60, 100, 140, 150),
            note_colors: [
                rgb_color(100, 200, 255),
                rgb_color(255, 150, 100),
                rgb_color(150, 255, 150),
                rgb_color(255, 200, 100),
            ],
        },
    }
}

impl ThemeColors {
    /// Looks up the colours of `theme`.
    pub fn get(theme: Theme) -> (colors: ThemeColors)
        ensures
            colors.primary == palette(theme).primary,
            colors.secondary == palette(theme).secondary,
            colors.accent == palette(theme).accent,
            colors.background == palette(theme).background,
            colors.surface == palette(theme).surface,
            colors.text == palette(theme).text,
            colors.text_dim == palette(theme).text_dim,
            colors.border == palette(theme).border,
            colors.hover == palette(theme).hover,
            colors.active == palette(theme).active,
            colors.note_colors@ == palette(theme).note_colors@,
    {
        match theme {
            Theme::Matrix => ThemeColors {
                primary: rgb(0, 255, 0),
                secondary: rgb(0, 200, 0),
                accent: rgb(0, 150, 0),
                background: rgb(0, 0, 0),
                surface: rgb(5, 5, 5),
                text: rgb(0, 255, 0),
                text_dim: rgba(0, 150, 0, 150),
                border: rgb(0, 100, 0),
                hover: rgba(0, 50, 0, 100),
                active: rgba(0, 100, 0, 150),
                note_colors: [
                    rgb(0, 255, 0),
                    rgb(0, 150, 255),
                    rgb(255, 150, 0),
                    rgb(255, 0, 150),
                ],
            },
            Theme::Cyberpunk => ThemeColors {
                primary: rgb(255, 0, 255),
                secondary: rgb(0, 255, 255),
                accent: rgb(255, 255, 0),
                background: rgb(10, 5, 20),
                surface: rgb(20, 10, 30),
                text: rgb(255, 0, 255),
                text_dim: rgba(200, 0, 200, 150),
                border: rgb(100, 0, 100),
                hover: rgba(50, 0, 50, 100),
                active: rgba(100, 0, 100, 150),
                note_colors: [
                    rgb(255, 0, 255),
                    rgb(0, 255, 255),
                    rgb(255, 255, 0),
                    rgb(255, 100, 0),
                ],
            },
            Theme::Monochrome => ThemeColors {
                primary: rgb(255, 255, 255),
                secondary: rgb(200, 200, 200),
                accent: rgb(150, 150, 150),
                background: rgb(15, 15, 15),
                surface: rgb(25, 25, 25),
                text: rgb(255, 255, 255),
                text_dim: rgba(150, 150, 150, 200),
                border: rgb(80, 80, 80),
                hover: rgba(50, 50, 50, 100),
                active: rgba(100, 100, 100, 150),
                note_colors: [
                    rgb(255, 255, 255),
                    rgb(200, 200, 200),
                    rgb(150, 150, 150),
                    rgb(100, 100, 100),
                ],
            },
            Theme::Neon => ThemeColors {
                primary: rgb(0, 255, 255),
                secondary: rgb(255, 0, 255),
                accent: rgb(255, 255, 0),
                background: rgb(0, 0, 10),
                surface: rgb(5, 5, 15),
                text: rgb(0, 255, 255),
                text_dim: rgba(0, 200, 200, 150),
                border: rgb(0, 150, 150),
                hover: rgba(0, 50, 50, 100),
                active: rgba(0, 100, 100, 150),
                note_colors: [
                    rgb(0, 255, 255),
                    rgb(255, 0, 255),
                    rgb(255, 255, 0),
                    rgb(0, 255, 0),
                ],
            },
            Theme::Professional => ThemeColors {
                primary: rgb(100, 150, 255),
                secondary: rgb(150, 200, 255),
                accent: rgb(255, 200, 100),
                background: rgb(20, 20, 25),
                surface: rgb(30, 30, 35),
                text: rgb(220, 220, 230),
                text_dim: rgba(150, 150, 160, 200),
                border: rgb(60, 80, 100),
                hover: rgba(40, 60, 80, 100),
                active: rgba(60, 100, 140, 150),
                note_colors: [
                    rgb(100, 200, 255),
                    rgb(255, 150, 100),
                    rgb(150, 255, 150),
                    rgb(255, 200, 100),
                ],
            },
        }
    }
}

} // verus!
