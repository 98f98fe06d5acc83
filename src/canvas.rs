//! The cityscape canvas: sky rows, building rows and a ground row of styled
//! glyph cells.
use vstd::prelude::*;
use crate::style::{Color, Style};
use crate::theme::{
    Theme, ThemeName, building_palette, window_palette, antenna_style, roof_style, base_style,
};
use crate::text::text_is;

verus! {

/// The parts a building cell can show.
#[derive(Clone, Copy, Debug, PartialEq, Eq, Structural)]
pub enum Part {
    /// The antenna cell right above a roof.
    AntennaTip,
    /// An antenna cell higher up.
    AntennaMast,
    Roof,
    Base,
    Window,
    Wall,
}

/// What a cell shows.
#[derive(Clone, Copy, Debug, PartialEq, Eq, Structural)]
pub enum Glyph {
    /// Nothing: blank as wide as the cell.
    Blank,
    /// One character, in the sky or on the ground.
    Symbol(char),
    /// A building part, drawn in the canvas's glyph set.
    Part(Part),
}

/// A glyph and the style it is drawn in (none for a blank).
#[derive(Clone, Copy, Debug, PartialEq, Eq, Structural)]
pub struct Cell {
    pub glyph: Glyph,
    pub style: Option<Style>,
}

/// The blank cell.
pub open spec fn blank() -> Cell {
    Cell { glyph: Glyph::Blank, style: None }
}

/// The glyph set building parts are drawn in.
#[derive(Clone, Copy, Debug, PartialEq, Eq, Structural)]
pub enum DrawStyle {
    Braille,
    Blocks,
    Ascii,
    Hash,
}

/// The glyph set a lowercase style name selects; unknown names select
/// braille.
pub open spec fn draw_style_of(lower: Seq<char>) -> DrawStyle {
    if lower == "blocks"@ {
        DrawStyle::Blocks
    } else if lower == "ascii"@ {
        DrawStyle::Ascii
    } else if lower == "hash"@ {
        DrawStyle::Hash
    } else {
        DrawStyle::Braille
    }
}

/// The glyph set an already lowercased style name selects.
pub fn draw_style(lower: &str) -> (r: DrawStyle)
    ensures
        r == draw_style_of(lower@),
{
    if text_is(lower, "blocks") {
        DrawStyle::Blocks
    } else if text_is(lower, "ascii") {
        DrawStyle::Ascii
    } else if text_is(lower, "hash") {
        DrawStyle::Hash
    } else {
        DrawStyle::Braille
    }
}

/// Text of a building part: three characters wide, and plain ASCII in the
/// ASCII and hash sets.
pub open spec fn part_text_of(d: DrawStyle, p: Part) -> Seq<char> {
    match d {
        DrawStyle::Braille => match p {
            Part::AntennaTip => " ⢰ "@,
            Part::AntennaMast => " ⢸ "@,
            Part::Roof => "¯¯¯"@,
            Part::Base => "⣸⣸⣸"@,
            Part::Window => "⣾⣾⣾"@,
            Part::Wall => "⣿⣿⣿"@,
        },
        DrawStyle::Blocks => match p {
            Part::AntennaTip => " ╻ "@,
            Part::AntennaMast => " ┃ "@,
            Part::Roof => "▄▄▄"@,
            Part::Base => "▓▓▓"@,
            Part::Window => "▒▒▒"@,
            Part::Wall => "███"@,
        },
        DrawStyle::Ascii => match p {
            Part::AntennaTip => " ' "@,
            Part::AntennaMast => " | "@,
            Part::Roof => "___"@,
            Part::Base => "==="@,
            Part::Window => "[o]"@,
            Part::Wall => "[ ]"@,
        },
        DrawStyle::Hash => match p {
            Part::AntennaTip => " . "@,
            Part::AntennaMast => " # "@,
            Part::Roof => "###"@,
            Part::Base => "###"@,
            Part::Window => "#:#"@,
            Part::Wall => "###"@,
        },
    }
}

impl DrawStyle {
    /// Text of a building part in this glyph set.
    pub fn part_text(&self, p: Part) -> (r: &'static str)
        ensures
            r@ == part_text_of(*self, p),
    {
        match self {
            DrawStyle::Braille => match p {
                Part::AntennaTip => " ⢰ ",
                Part::AntennaMast => " ⢸ ",
                Part::Roof => "¯¯¯",
                Part::Base => "⣸⣸⣸",
                Part::Window => "⣾⣾⣾",
                Part::Wall => "⣿⣿⣿",
            },
            DrawStyle::Blocks => match p {
                Part::AntennaTip => " ╻ ",
                Part::AntennaMast => " ┃ ",
                Part::Roof => "▄▄▄",
                Part::Base => "▓▓▓",
                Part::Window => "▒▒▒",
                Part::Wall => "███",
            },
            DrawStyle::Ascii => match p {
                Part::AntennaTip => " ' ",
                Part::AntennaMast => " | ",
                Part::Roof => "___",
                Part::Base => "===",
                Part::Window => "[o]",
                Part::Wall => "[ ]",
            },
            DrawStyle::Hash => match p {
                Part::AntennaTip => " . ",
                Part::AntennaMast => " # ",
                Part::Roof => "###",
                Part::Base => "###",
                Part::Window => "#:#",
                Part::Wall => "###",
            },
        }
    }
}

/// Palette index of a building height.
pub open spec fn height_bucket(h: int) -> int {
    if h > 25 {
        5
    } else if h > 20 {
        4
    } else if h > 15 {
        3
    } else if h > 10 {
        2
    } else if h > 5 {
        1
    } else {
        0
    }
}

/// Antenna rows above a building of height `h`.
pub open spec fn antenna_rows(h: int) -> int {
    if h > 25 {
        5
    } else if h > 18 {
        3
    } else if h > 12 {
        1
    } else {
        0
    }
}

/// Whether a body row of a building with `count` shows a window.
pub open spec fn is_window(row: int, count: int) -> bool {
    count > 0 && ((row + count * 3) % 3 == 0 || (row % 4 == 0 && count % 2 == 1))
}

/// The cell at `row` (1 is the bottom) of a building of height `h` for a
/// day with `count`, in theme `n`.
pub open spec fn building_cell(n: ThemeName, h: int, row: int, count: int) -> Cell {
    if antenna_rows(h) > 0 && h < row <= h + antenna_rows(h) {
        Cell {
            glyph: Glyph::Part(if row - h == 1 { Part::AntennaTip } else { Part::AntennaMast }),
            style: Some(antenna_style(n)),
        }
    } else if row > h {
        blank()
    } else if row == 1 && h > 0 {
        Cell { glyph: Glyph::Part(Part::Base), style: Some(base_style(n)) }
    } else if row == h {
        Cell { glyph: Glyph::Part(Part::Roof), style: Some(roof_style(n)) }
    } else if is_window(row, count) {
        Cell { glyph: Glyph::Part(Part::Window), style: Some(window_palette(n)[height_bucket(h)]) }
    } else {
        Cell { glyph: Glyph::Part(Part::Wall), style: Some(building_palette(n)[height_bucket(h)]) }
    }
}

/// The cell at `current_row` of a building.
pub fn get_building_part(height: u32, current_row: u32, contributions: u32, theme: &Theme) -> (r:
    Cell)
    requires
        theme.is_palette_of(theme.name),
    ensures
        r == building_cell(theme.name, height as int, current_row as int, contributions as int),
{
    let color_idx: usize = if height > 25 {
        5
    } else if height > 20 {
        4
    } else if height > 15 {
        3
    } else if height > 10 {
        2
    } else if height > 5 {
        1
    } else {
        0
    };
    let antenna_height: u64 = if height > 25 {
        5
    } else if height > 18 {
        3
    } else if height > 12 {
        1
    } else {
        0
    };
    let h = height as u64;
    let row = current_row as u64;
    if antenna_height > 0 && row > h && row <= h + antenna_height {
        let part = if row - h == 1 {
            Part::AntennaTip
        } else {
            Part::AntennaMast
        };
        return Cell { glyph: Glyph::Part(part), style: Some(theme.antenna_color) };
    }
    if row > h {
        return Cell { glyph: Glyph::Blank, style: None };
    }
    if row == 1 && h > 0 {
        return Cell { glyph: Glyph::Part(Part::Base), style: Some(theme.base_color) };
    }
    if row == h {
        return Cell { glyph: Glyph::Part(Part::Roof), style: Some(theme.roof_color) };
    }
    let count = contributions as u64;
    proof {
        assert((row + count * 3) % 3 == row % 3) by (nonlinear_arith);
    }
    let window = count > 0 && (row % 3 == 0 || (row % 4 == 0 && count % 2 == 1));
    if window {
        Cell { glyph: Glyph::Part(Part::Window), style: Some(theme.window_colors[color_idx]) }
    } else {
        Cell { glyph: Glyph::Part(Part::Wall), style: Some(theme.building_colors[color_idx]) }
    }
}

/// Columns of the ground row: 25 days of three characters and a gap.
pub const GROUND_WIDTH: usize = 99;

/// Ground cell `i`: a wave in three alternating colours.
pub open spec fn ground_cell(i: int) -> Cell {
    Cell {
        glyph: Glyph::Symbol('~'),
        style: Some(
            Style {
                color: if i % 3 == 0 {
                    Color::BrightBlue
                } else if i % 3 == 1 {
                    Color::Blue
                } else {
                    Color::BrightCyan
                },
                bold: false,
            },
        ),
    }
}

/// The ground row.
pub fn ground_row() -> (r: Vec<Cell>)
    ensures
        r@.len() == GROUND_WIDTH,
        forall|i: int| 0 <= i < GROUND_WIDTH ==> #[trigger] r@[i] == ground_cell(i),
{
    let mut row: Vec<Cell> = Vec::new();
    let mut i: usize = 0;
    while i < GROUND_WIDTH
        invariant
            i <= GROUND_WIDTH,
            row@.len() == i,
            forall|j: int| 0 <= j < i ==> #[trigger] row@[j] == ground_cell(j),
        decreases GROUND_WIDTH - i,
    {
        let color = if i % 3 == 0 {
            Color::BrightBlue
        } else if i % 3 == 1 {
            Color::Blue
        } else {
            Color::BrightCyan
        };
        row.push(Cell { glyph: Glyph::Symbol('~'), style: Some(Style { color, bold: false }) });
        i = i + 1;
    }
    row
}

/// A day with no contributions has height 0, and a building of height 0
/// shows nothing in any row: no base, roof, window or antenna.
pub proof fn lemma_zero_day_is_blank(n: ThemeName, row: int)
    requires
        row >= 1,
    ensures
        building_cell(n, 0, row, 0) == blank(),
{
}

} // verus!
