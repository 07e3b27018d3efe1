//! Chart kinds and terminal colour themes.

use vstd::prelude::*;

verus! {

/// The chart styles the price view can draw.
#[derive(Debug, Clone, Copy, PartialEq, Eq, Structural)]
pub enum ChartType {
    Line,
    Bar,
    Candlestick,
}

impl ChartType {
    /// The label shown for a chart type.
    pub open spec fn label(self) -> Seq<char> {
        match self {
            ChartType::Line => "Line Chart"@,
            ChartType::Bar => "Bar Chart"@,
            ChartType::Candlestick => "Candlestick"@,
        }
    }

    pub fn as_str(&self) -> (s: &'static str)
        ensures
            s@ == self.label(),
    {
        match self {
            ChartType::Line => "Line Chart",
            ChartType::Bar => "Bar Chart",
            ChartType::Candlestick => "Candlestick",
        }
    }
}

/// The colour schemes of the terminal.
#[derive(Debug, Clone, Copy, PartialEq, Eq, Structural)]
pub enum TerminalTheme {
    Dark,
    Light,
    Bloomberg,
    Professional,
}

/// A colour given by its red, green and blue components.
#[derive(Debug, Clone, Copy, PartialEq, Eq, Structural)]
pub struct Rgb {
    pub r: u8,
    pub g: u8,
    pub b: u8,
}

/// The colour roles of a theme.
#[derive(Debug, Clone, Copy, PartialEq, Eq, Structural)]
pub struct TerminalColors {
    pub background: Rgb,
    pub text: Rgb,
    pub positive: Rgb,
    pub negative: Rgb,
    pub neutral: Rgb,
    pub accent: Rgb,
}

/// Shorthand for a colour in specifications.
pub open spec fn rgb(r: u8, g: u8, b: u8) -> Rgb {
    Rgb { r, g, b }
}

impl TerminalTheme {
    /// The name shown for a theme.
    pub open spec fn label(self) -> Seq<char> {
        match self {
            TerminalTheme::Dark => "Dark"@,
            TerminalTheme::Light => "Light"@,
            TerminalTheme::Bloomberg => "Bloomberg"@,
            TerminalTheme::Professional => "Professional"@,
        }
    }

    /// The colour table of each theme.
    pub open spec fn palette(self) -> TerminalColors {
        match self {
            TerminalTheme::Dark => TerminalColors {
                background: rgb(18, 18, 18),
                text: rgb(255, 255, 255),
                positive: rgb(0, 255, 0),
                negative: rgb(255, 0, 0),
                neutral: rgb(128, 128, 128),
                accent: rgb(0, 150, 255),
            },
            TerminalTheme::Light => TerminalColors {
                background: rgb(255, 255, 255),
                text: rgb(0, 0, 0),
                positive: rgb(0, 150, 0),
                negative: rgb(200, 0, 0),
                neutral: rgb(100, 100, 100),
                accent: rgb(0, 100, 200),
            },
            TerminalTheme::Bloomberg => TerminalColors {
                background: rgb(0, 0, 0),
                text: rgb(255, 165, 0),
                positive: rgb(0, 255, 0),
                negative: rgb(255, 0, 0),
                neutral: rgb(128, 128, 128),
                accent: rgb(255, 165, 0),
            },
            TerminalTheme::Professional => TerminalColors {
                background: rgb(30, 30, 40),
                text: rgb(220, 220, 220),
                positive: rgb(0, 200, 100),
                negative: rgb(255, 100, 100),
                neutral: rgb(150, 150, 150),
                accent: rgb(100, 150, 255),
            },
        }
    }

    pub fn as_str(&self) -> (s: &'static str)
        ensures
            s@ == self.label(),
    {
        match self {
            TerminalTheme::Dark => "Dark",
            TerminalTheme::Light => "Light",
            TerminalTheme::Bloomberg => "Bloomberg",
            TerminalTheme::Professional => "Professional",
        }
    }

    pub fn get_colors(&self) -> (c: TerminalColors)
        ensures
            c == self.palette(),
    {
        match self {
            TerminalTheme::Dark => TerminalColors {
                background: Rgb { r: 18, g: 18, b: 18 },
                text: Rgb { r: 255, g: 255, b: 255 },
                positive: Rgb { r: 0, g: 255, b: 0 },
                negative: Rgb { r: 255, g: 0, b: 0 },
                neutral: Rgb { r: 128, g: 128, b: 128 },
                accent: Rgb { r: 0, g: 150, b: 255 },
            },
            TerminalTheme::Light => TerminalColors {
                background: Rgb { r: 255, g: 255, b: 255 },
                text: Rgb { r: 0, g: 0, b: 0 },
                positive: Rgb { r: 0, g: 150, b: 0 },
                negative: Rgb { r: 200, g: 0, b: 0 },
                neutral: Rgb { r: 100, g: 100, b: 100 },
                accent: Rgb { r: 0, g: 100, b: 200 },
            },
            TerminalTheme::Bloomberg => TerminalColors {
                background: Rgb { r: 0, g: 0, b: 0 },
                text: Rgb { r: 255, g: 165, b: 0 },
                positive: Rgb { r: 0, g: 255, b: 0 },
                negative: Rgb { r: 255, g: 0, b: 0 },
                neutral: Rgb { r: 128, g: 128, b: 128 },
                accent: Rgb { r: 255, g: 165, b: 0 },
            },
            TerminalTheme::Professional => TerminalColors {
                background: Rgb { r: 30, g: 30, b: 40 },
                text: Rgb { r: 220, g: 220, b: 220 },
                positive: Rgb { r: 0, g: 200, b: 100 },
                negative: Rgb { r: 255, g: 100, b: 100 },
                neutral: Rgb { r: 150, g: 150, b: 150 },
                accent: Rgb { r: 100, g: 150, b: 255 },
            },
        }
    }
}

/// The brightness of a colour: the sum of its three components (0 to 765).
pub open spec fn brightness(c: Rgb) -> int {
    c.r + c.g + c.b
}

/// Every theme draws its text in strong contrast to its background: their
/// brightness lies at least half the full scale apart, and light themes
/// write in black.
pub proof fn law_text_contrasts_with_background(theme: TerminalTheme)
    ensures
        brightness(theme.palette().text) - brightness(theme.palette().background) >= 383
            || brightness(theme.palette().background) - brightness(theme.palette().text) >= 383,
        theme.palette().text != theme.palette().background,
        brightness(theme.palette().background) > 382 ==> theme.palette().text == rgb(0, 0, 0),
        theme.palette().positive != theme.palette().negative,
{
}

} // verus!
