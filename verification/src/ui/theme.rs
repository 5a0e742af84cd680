use vstd::prelude::*;

verus! {

/// The colours of the palette.
#[derive(Clone, Copy, Debug, PartialEq, Eq, Structural)]
pub enum Palette {
    NeonCyan,
    NeonGreen,
    NeonYellow,
    NeonOrange,
    NeonRed,
    NeonPurple,
    NeonBlue,
    Surface,
    Surface2,
    Border,
    BorderBright,
    TextBright,
    TextDim,
    TextMuted,
    GaugeEmpty,
}

/// The RGB components of each palette colour.
pub open spec fn palette_rgb(c: Palette) -> (u8, u8, u8) {
    match c {
        Palette::NeonCyan => (0, 230, 210),
        Palette::NeonGreen => (50, 230, 50),
        Palette::NeonYellow => (240, 210, 0),
        Palette::NeonOrange => (255, 140, 0),
        Palette::NeonRed => (240, 50, 50),
        Palette::NeonPurple => (160, 60, 240),
        Palette::NeonBlue => (60, 140, 240),
        Palette::Surface => (18, 18, 28),
        Palette::Surface2 => (28, 28, 42),
        Palette::Border => (55, 55, 80),
        Palette::BorderBright => (90, 90, 130),
        Palette::TextBright => (220, 220, 245),
        Palette::TextDim => (120, 120, 150),
        Palette::TextMuted => (70, 70, 95),
        Palette::GaugeEmpty => (35, 35, 50),
    }
}

impl Palette {
    pub fn rgb(&self) -> (r: (u8, u8, u8))
        ensures
            r == palette_rgb(*self),
    {
        match self {
            Palette::NeonCyan => (0, 230, 210),
            Palette::NeonGreen => (50, 230, 50),
            Palette::NeonYellow => (240, 210, 0),
            Palette::NeonOrange => (255, 140, 0),
            Palette::NeonRed => (240, 50, 50),
            Palette::NeonPurple => (160, 60, 240),
            Palette::NeonBlue => (60, 140, 240),
            Palette::Surface => (18, 18, 28),
            Palette::Surface2 => (28, 28, 42),
            Palette::Border => (55, 55, 80),
            Palette::BorderBright => (90, 90, 130),
            Palette::TextBright => (220, 220, 245),
            Palette::TextDim => (120, 120, 150),
            Palette::TextMuted => (70, 70, 95),
            Palette::GaugeEmpty => (35, 35, 50),
        }
    }
}

/// Temperature colour: green below 55 °C, yellow below 70, orange below 85,
/// red from 85 on.
pub open spec fn spec_temp_color(celsius: u32) -> Palette {
    if celsius <= 54 {
        Palette::NeonGreen
    } else if celsius <= 69 {
        Palette::NeonYellow
    } else if celsius <= 84 {
        Palette::NeonOrange
    } else {
        Palette::NeonRed
    }
}

/// Utilisation colour: cyan below 60 %, yellow below 80, orange below 95,
/// red from 95 on.
pub open spec fn spec_util_color(pct: u32) -> Palette {
    if pct <= 59 {
        Palette::NeonCyan
    } else if pct <= 79 {
        Palette::NeonYellow
    } else if pct <= 94 {
        Palette::NeonOrange
    } else {
        Palette::NeonRed
    }
}

/// How alarming a status colour is: calm (green or cyan) 0, yellow 1,
/// orange 2, red 3.
pub open spec fn severity(c: Palette) -> int {
    match c {
        Palette::NeonYellow => 1,
        Palette::NeonOrange => 2,
        Palette::NeonRed => 3,
        _ => 0,
    }
}

/// Temperature: green → yellow → orange → red
pub fn temp_color(celsius: u32) -> (c: Palette)
    ensures
        c == spec_temp_color(celsius),
{
    if celsius <= 54 {
        Palette::NeonGreen
    } else if celsius <= 69 {
        Palette::NeonYellow
    } else if celsius <= 84 {
        Palette::NeonOrange
    } else {
        Palette::NeonRed
    }
}

/// Utilisation %: cyan → yellow → orange → red
pub fn util_color(pct: u32) -> (c: Palette)
    ensures
        c == spec_util_color(pct),
{
    if pct <= 59 {
        Palette::NeonCyan
    } else if pct <= 79 {
        Palette::NeonYellow
    } else if pct <= 94 {
        Palette::NeonOrange
    } else {
        Palette::NeonRed
    }
}

/// A hotter reading never gets a calmer colour, and a higher utilisation
/// never gets a calmer colour.
pub proof fn lemma_colors_monotone(a: u32, b: u32)
    requires
        a <= b,
    ensures
        severity(spec_temp_color(a)) <= severity(spec_temp_color(b)),
        severity(spec_util_color(a)) <= severity(spec_util_color(b)),
{
}

/// The colour bands: temperatures below 55 °C are green, below 70 yellow,
/// below 85 orange and red from there; utilisations below 60 % are cyan,
/// below 80 yellow, below 95 orange and red from there.
pub proof fn lemma_color_bands(t: u32, u: u32)
    ensures
        t < 55 ==> spec_temp_color(t) == Palette::NeonGreen,
        55 <= t < 70 ==> spec_temp_color(t) == Palette::NeonYellow,
        70 <= t < 85 ==> spec_temp_color(t) == Palette::NeonOrange,
        85 <= t ==> spec_temp_color(t) == Palette::NeonRed,
        u < 60 ==> spec_util_color(u) == Palette::NeonCyan,
        60 <= u < 80 ==> spec_util_color(u) == Palette::NeonYellow,
        80 <= u < 95 ==> spec_util_color(u) == Palette::NeonOrange,
        95 <= u ==> spec_util_color(u) == Palette::NeonRed,
{
}

/// Text styling: foreground and background colours (terminal default where
/// absent) and weight.
#[derive(Clone, Copy, Debug, PartialEq, Eq, Structural)]
pub struct TextStyle {
    pub fg: Option<Palette>,
    pub bg: Option<Palette>,
    pub bold: bool,
}

/// Regular-weight text in colour `c` on the default background.
pub open spec fn fg_style(c: Palette) -> TextStyle {
    TextStyle { fg: Some(c), bg: None, bold: false }
}

pub fn label_style() -> (s: TextStyle)
    ensures
        s == fg_style(Palette::TextDim),
{
    TextStyle { fg: Some(Palette::TextDim), bg: None, bold: false }
}

pub fn section_title_style() -> (s: TextStyle)
    ensures
        s == (TextStyle { fg: Some(Palette::BorderBright), bg: None, bold: true }),
{
    TextStyle { fg: Some(Palette::BorderBright), bg: None, bold: true }
}

pub fn dim_style() -> (s: TextStyle)
    ensures
        s == fg_style(Palette::TextMuted),
{
    TextStyle { fg: Some(Palette::TextMuted), bg: None, bold: false }
}

} // verus!
