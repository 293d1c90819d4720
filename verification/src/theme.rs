//! The look of the dashboard, as plain values.
//!
//! The render engine has its own theme type; the program around this library
//! converts. What belongs here is which entries the dashboard sets and to what.

use vstd::prelude::*;

verus! {

/// One of the eight colours every terminal has.
#[derive(Clone, Copy, Debug, PartialEq, Eq, Structural)]
pub enum BaseColor {
    Black,
    Red,
    Green,
    Yellow,
    Blue,
    Magenta,
    Cyan,
    White,
}

/// A colour of the terminal.
#[derive(Clone, Copy, Debug, PartialEq, Eq, Structural)]
pub enum Color {
    /// Whatever the terminal is set to.
    TerminalDefault,
    /// A base colour.
    Dark(BaseColor),
    /// The lighter version of a base colour.
    Light(BaseColor),
    /// 24-bit colour.
    Rgb(u8, u8, u8),
    /// A colour of the 6x6x6 cube.
    RgbLowRes(u8, u8, u8),
}

/// How borders are drawn.
#[derive(Clone, Copy, Debug, PartialEq, Eq, Structural)]
pub enum BorderStyle {
    Simple,
    Outset,
    Borderless,
}

/// The colour of each role on screen.
#[derive(Clone, Copy, Debug, PartialEq, Eq, Structural)]
pub struct Palette {
    pub background: Color,
    pub shadow: Color,
    pub view: Color,
    pub primary: Color,
    pub secondary: Color,
    pub tertiary: Color,
    pub title_primary: Color,
    pub title_secondary: Color,
    pub highlight: Color,
    pub highlight_inactive: Color,
    pub highlight_text: Color,
}

/// A theme: shadows, borders and a palette.
#[derive(Clone, Copy, Debug, PartialEq, Eq, Structural)]
pub struct Theme {
    pub shadow: bool,
    pub borders: BorderStyle,
    pub palette: Palette,
}

/// The colour of the dashboard's title line.
pub fn title_color() -> (c: Color)
    ensures
        c == Color::Dark(BaseColor::Yellow),
{
    Color::Dark(BaseColor::Yellow)
}

/// `theme` restyled for the dashboard: no shadows, simple borders, a black
/// background for screen, shadow and views, white text, cyan highlight and
/// blue inactive highlight. The five other palette entries stay as they are.
pub open spec fn dashboard_theme(theme: Theme) -> Theme {
    Theme {
        shadow: false,
        borders: BorderStyle::Simple,
        palette: Palette {
            background: Color::Dark(BaseColor::Black),
            shadow: Color::Dark(BaseColor::Black),
            view: Color::Dark(BaseColor::Black),
            primary: Color::Dark(BaseColor::White),
            highlight: Color::Dark(BaseColor::Cyan),
            highlight_inactive: Color::Dark(BaseColor::Blue),
            ..theme.palette
        },
    }
}

/// Restyles `theme` for the dashboard.
pub fn modify_theme(theme: &mut Theme)
    ensures
        *final(theme) == dashboard_theme(*old(theme)),
{
    theme.shadow = false;
    theme.borders = BorderStyle::Simple;
    theme.palette.background = Color::Dark(BaseColor::Black);
    theme.palette.shadow = Color::Dark(BaseColor::Black);
    theme.palette.view = Color::Dark(BaseColor::Black);
    theme.palette.primary = Color::Dark(BaseColor::White);
    theme.palette.highlight = Color::Dark(BaseColor::Cyan);
    theme.palette.highlight_inactive = Color::Dark(BaseColor::Blue);
}

/// Restyling is idempotent: a dashboard theme restyled is itself.
pub proof fn lemma_dashboard_theme_idempotent(theme: Theme)
    ensures
        dashboard_theme(dashboard_theme(theme)) == dashboard_theme(theme),
{
}

} // verus!
