//! Colour themes: named palettes of style slots, chosen by name.
use vstd::prelude::*;
use crate::style::{Color, Style};
use crate::text::{lower_of, lowercase, text_is};
use crate::chance::random_below;

verus! {

/// The concrete themes.
#[derive(Clone, Copy, Debug, PartialEq, Eq, Structural)]
pub enum ThemeName {
    Synthwave,
    Dracula,
    Solarized,
    Cyberpunk,
    Matrix,
    Sunset,
}

/// A theme asked for by name: a concrete one, or a random pick among them.
#[derive(Clone, Copy, Debug, PartialEq, Eq, Structural)]
pub enum ThemeRequest {
    Named(ThemeName),
    Random,
}

/// A palette: six building styles and six window styles, indexed by height
/// bucket, and one style each for antennas, roofs and bases.
#[derive(Debug)]
pub struct Theme {
    pub name: ThemeName,
    pub building_colors: Vec<Style>,
    pub window_colors: Vec<Style>,
    pub antenna_color: Style,
    pub roof_color: Style,
    pub base_color: Style,
}

/// Number of concrete themes.
pub const THEME_COUNT: usize = 6;

/// The concrete theme at position `i` of the list a random pick draws from.
pub open spec fn theme_at(i: int) -> ThemeName {
    if i == 0 {
        ThemeName::Synthwave
    } else if i == 1 {
        ThemeName::Dracula
    } else if i == 2 {
        ThemeName::Solarized
    } else if i == 3 {
        ThemeName::Cyberpunk
    } else if i == 4 {
        ThemeName::Matrix
    } else {
        ThemeName::Sunset
    }
}

/// What a lowercase theme name asks for; an unknown name asks for the
/// default theme.
pub open spec fn theme_request_of(lower: Seq<char>) -> ThemeRequest {
    if lower == "random"@ {
        ThemeRequest::Random
    } else if lower == "dracula"@ {
        ThemeRequest::Named(ThemeName::Dracula)
    } else if lower == "solarized"@ {
        ThemeRequest::Named(ThemeName::Solarized)
    } else if lower == "cyberpunk"@ {
        ThemeRequest::Named(ThemeName::Cyberpunk)
    } else if lower == "matrix"@ {
        ThemeRequest::Named(ThemeName::Matrix)
    } else if lower == "sunset"@ {
        ThemeRequest::Named(ThemeName::Sunset)
    } else {
        ThemeRequest::Named(ThemeName::Synthwave)
    }
}

/// The concrete theme a request resolves to, given the random pick.
pub open spec fn resolved_theme(req: ThemeRequest, pick: int) -> ThemeName {
    match req {
        ThemeRequest::Named(n) => n,
        ThemeRequest::Random => theme_at(pick % 6),
    }
}

/// Bold style.
pub open spec fn sb(c: Color) -> Style {
    Style { color: c, bold: true }
}

/// Normal-weight style.
pub open spec fn sp(c: Color) -> Style {
    Style { color: c, bold: false }
}

/// Building styles of a theme, from the lowest height bucket up.
pub open spec fn building_palette(n: ThemeName) -> Seq<Style> {
    match n {
        ThemeName::Synthwave => seq![sb(Color::Cyan), sb(Color::BrightCyan), sb(Color::Blue), sb(Color::BrightBlue), sb(Color::Magenta), sb(Color::BrightMagenta)],
        ThemeName::Dracula => seq![sb(Color::BrightBlack), sb(Color::BrightBlue), sb(Color::BrightMagenta), sb(Color::BrightCyan), sb(Color::BrightYellow), sb(Color::BrightRed)],
        ThemeName::Solarized => seq![sb(Color::BrightYellow), sb(Color::Yellow), sb(Color::BrightGreen), sb(Color::Green), sb(Color::BrightBlue), sb(Color::Blue)],
        ThemeName::Cyberpunk => seq![sb(Color::BrightMagenta), sb(Color::Magenta), sb(Color::BrightCyan), sb(Color::Cyan), sb(Color::BrightYellow), sb(Color::Yellow)],
        ThemeName::Matrix => seq![sb(Color::Green), sb(Color::BrightGreen), sp(Color::Green), sp(Color::BrightGreen), sb(Color::BrightWhite), sb(Color::White)],
        ThemeName::Sunset => seq![sb(Color::BrightRed), sb(Color::Red), sb(Color::BrightYellow), sb(Color::Yellow), sb(Color::BrightMagenta), sb(Color::Magenta)],
    }
}

/// Window styles of a theme, from the lowest height bucket up.
pub open spec fn window_palette(n: ThemeName) -> Seq<Style> {
    match n {
        ThemeName::Synthwave => seq![sp(Color::Cyan), sp(Color::BrightCyan), sp(Color::Blue), sp(Color::BrightBlue), sp(Color::Magenta), sp(Color::BrightMagenta)],
        ThemeName::Dracula => seq![sp(Color::Yellow), sp(Color::BrightYellow), sp(Color::BrightWhite), sp(Color::BrightMagenta), sp(Color::BrightCyan), sp(Color::BrightRed)],
        ThemeName::Solarized => seq![sp(Color::BrightWhite), sp(Color::BrightYellow), sp(Color::BrightGreen), sp(Color::BrightBlue), sp(Color::BrightCyan), sp(Color::BrightMagenta)],
        ThemeName::Cyberpunk => seq![sp(Color::BrightWhite), sp(Color::BrightCyan), sp(Color::BrightMagenta), sp(Color::BrightYellow), sp(Color::White), sp(Color::Cyan)],
        ThemeName::Matrix => seq![sp(Color::BrightGreen), sp(Color::Green), sp(Color::BrightWhite), sp(Color::White), sp(Color::BrightGreen), sp(Color::Green)],
        ThemeName::Sunset => seq![sp(Color::BrightYellow), sp(Color::Yellow), sp(Color::BrightWhite), sp(Color::BrightRed), sp(Color::BrightMagenta), sp(Color::Red)],
    }
}

/// Antenna style of a theme.
pub open spec fn antenna_style(n: ThemeName) -> Style {
    match n {
        ThemeName::Synthwave => sb(Color::BrightMagenta),
        ThemeName::Dracula => sb(Color::BrightRed),
        ThemeName::Solarized => sb(Color::BrightYellow),
        ThemeName::Cyberpunk => sb(Color::BrightMagenta),
        ThemeName::Matrix => sb(Color::BrightGreen),
        ThemeName::Sunset => sb(Color::BrightRed),
    }
}

/// Roof style of a theme.
pub open spec fn roof_style(n: ThemeName) -> Style {
    match n {
        ThemeName::Cyberpunk => sb(Color::BrightCyan),
        ThemeName::Sunset => sb(Color::BrightYellow),
        _ => sb(Color::BrightWhite),
    }
}

/// Base style of a theme.
pub open spec fn base_style(n: ThemeName) -> Style {
    match n {
        ThemeName::Cyberpunk => sb(Color::Magenta),
        ThemeName::Matrix => sb(Color::Green),
        ThemeName::Sunset => sb(Color::Red),
        _ => sb(Color::BrightBlack),
    }
}

impl Theme {
    /// This value holds exactly the palette of theme `n`.
    pub open spec fn is_palette_of(&self, n: ThemeName) -> bool {
        &&& self.name == n
        &&& self.building_colors@ == building_palette(n)
        &&& self.window_colors@ == window_palette(n)
        &&& self.antenna_color == antenna_style(n)
        &&& self.roof_color == roof_style(n)
        &&& self.base_color == base_style(n)
    }

    /// The palette of a concrete theme.
    pub fn of(n: ThemeName) -> (r: Theme)
        ensures
            r.is_palette_of(n),
    {
        let b = |c: Color| -> (r: Style)
            ensures
                r == sb(c),
            { Style { color: c, bold: true } };
        let p = |c: Color| -> (r: Style)
            ensures
                r == sp(c),
            { Style { color: c, bold: false } };
        match n {
            ThemeName::Synthwave => Theme {
                name: n,
                building_colors: vec![b(Color::Cyan), b(Color::BrightCyan), b(Color::Blue), b(Color::BrightBlue), b(Color::Magenta), b(Color::BrightMagenta)],
                window_colors: vec![p(Color::Cyan), p(Color::BrightCyan), p(Color::Blue), p(Color::BrightBlue), p(Color::Magenta), p(Color::BrightMagenta)],
                antenna_color: b(Color::BrightMagenta),
                roof_color: b(Color::BrightWhite),
                base_color: b(Color::BrightBlack),
            },
            ThemeName::Dracula => Theme {
                name: n,
                building_colors: vec![b(Color::BrightBlack), b(Color::BrightBlue), b(Color::BrightMagenta), b(Color::BrightCyan), b(Color::BrightYellow), b(Color::BrightRed)],
                window_colors: vec![p(Color::Yellow), p(Color::BrightYellow), p(Color::BrightWhite), p(Color::BrightMagenta), p(Color::BrightCyan), p(Color::BrightRed)],
                antenna_color: b(Color::BrightRed),
                roof_color: b(Color::BrightWhite),
                base_color: b(Color::BrightBlack),
            },
            ThemeName::Solarized => Theme {
                name: n,
                building_colors: vec![b(Color::BrightYellow), b(Color::Yellow), b(Color::BrightGreen), b(Color::Green), b(Color::BrightBlue), b(Color::Blue)],
                window_colors: vec![p(Color::BrightWhite), p(Color::BrightYellow), p(Color::BrightGreen), p(Color::BrightBlue), p(Color::BrightCyan), p(Color::BrightMagenta)],
                antenna_color: b(Color::BrightYellow),
                roof_color: b(Color::BrightWhite),
                base_color: b(Color::BrightBlack),
            },
            ThemeName::Cyberpunk => Theme {
                name: n,
                building_colors: vec![b(Color::BrightMagenta), b(Color::Magenta), b(Color::BrightCyan), b(Color::Cyan), b(Color::BrightYellow), b(Color::Yellow)],
                window_colors: vec![p(Color::BrightWhite), p(Color::BrightCyan), p(Color::BrightMagenta), p(Color::BrightYellow), p(Color::White), p(Color::Cyan)],
                antenna_color: b(Color::BrightMagenta),
                roof_color: b(Color::BrightCyan),
                base_color: b(Color::Magenta),
            },
            ThemeName::Matrix => Theme {
                name: n,
                building_colors: vec![b(Color::Green), b(Color::BrightGreen), p(Color::Green), p(Color::BrightGreen), b(Color::BrightWhite), b(Color::White)],
                window_colors: vec![p(Color::BrightGreen), p(Color::Green), p(Color::BrightWhite), p(Color::White), p(Color::BrightGreen), p(Color::Green)],
                antenna_color: b(Color::BrightGreen),
                roof_color: b(Color::BrightWhite),
                base_color: b(Color::Green),
            },
            ThemeName::Sunset => Theme {
                name: n,
                building_colors: vec![b(Color::BrightRed), b(Color::Red), b(Color::BrightYellow), b(Color::Yellow), b(Color::BrightMagenta), b(Color::Magenta)],
                window_colors: vec![p(Color::BrightYellow), p(Color::Yellow), p(Color::BrightWhite), p(Color::BrightRed), p(Color::BrightMagenta), p(Color::Red)],
                antenna_color: b(Color::BrightRed),
                roof_color: b(Color::BrightYellow),
                base_color: b(Color::Red),
            },
        }
    }
}

/// The concrete theme at position `i` of the random-pick list.
pub fn theme_at_index(i: usize) -> (r: ThemeName)
    ensures
        r == theme_at(i as int),
{
    if i == 0 {
        ThemeName::Synthwave
    } else if i == 1 {
        ThemeName::Dracula
    } else if i == 2 {
        ThemeName::Solarized
    } else if i == 3 {
        ThemeName::Cyberpunk
    } else if i == 4 {
        ThemeName::Matrix
    } else {
        ThemeName::Sunset
    }
}

/// What an already lowercased theme name asks for.
pub fn theme_request(lower: &str) -> (r: ThemeRequest)
    ensures
        r == theme_request_of(lower@),
{
    if text_is(lower, "random") {
        ThemeRequest::Random
    } else if text_is(lower, "dracula") {
        ThemeRequest::Named(ThemeName::Dracula)
    } else if text_is(lower, "solarized") {
        ThemeRequest::Named(ThemeName::Solarized)
    } else if text_is(lower, "cyberpunk") {
        ThemeRequest::Named(ThemeName::Cyberpunk)
    } else if text_is(lower, "matrix") {
        ThemeRequest::Named(ThemeName::Matrix)
    } else if text_is(lower, "sunset") {
        ThemeRequest::Named(ThemeName::Sunset)
    } else {
        ThemeRequest::Named(ThemeName::Synthwave)
    }
}

/// Resolves a theme name, matched without regard to case; `pick` chooses
/// the theme when the name is "random".
pub fn resolve_theme_with(name: &str, pick: usize) -> (r: Theme)
    ensures
        r.is_palette_of(resolved_theme(theme_request_of(lower_of(name@)), pick as int)),
{
    let lower = lowercase(name);
    let n = match theme_request(lower.as_str()) {
        ThemeRequest::Named(n) => n,
        ThemeRequest::Random => theme_at_index(pick % THEME_COUNT),
    };
    Theme::of(n)
}

/// Resolves a theme name, matched without regard to case; "random" draws
/// one of the concrete themes.
pub fn get_theme(name: &str) -> (r: Theme)
    ensures
        exists|pick: int|
            0 <= pick < 6 && #[trigger] r.is_palette_of(
                resolved_theme(theme_request_of(lower_of(name@)), pick),
            ),
{
    let pick = random_below(THEME_COUNT as u32) as usize;
    resolve_theme_with(name, pick)
}

} // verus!
