//! The night sky: a moon chosen by the series total, and stars placed by
//! random draws.
use vstd::prelude::*;
use vstd::string::*;
use crate::style::{Color, Style};
use crate::canvas::{Cell, Glyph};

verus! {

/// Moon phase, chosen from the series total.
#[derive(Clone, Copy, Debug, PartialEq, Eq, Structural)]
pub enum MoonType {
    Crescent,
    Quarter,
    Gibbous,
    Full,
}

/// Phase for a total: below 500 crescent, below 1500 quarter, below 3000
/// gibbous, else full.
pub open spec fn moon_of(total: int) -> MoonType {
    if total < 500 {
        MoonType::Crescent
    } else if total < 1500 {
        MoonType::Quarter
    } else if total < 3000 {
        MoonType::Gibbous
    } else {
        MoonType::Full
    }
}

/// Phase for a total.
pub fn select_moon_type(total_contributions: u128) -> (r: MoonType)
    ensures
        r == moon_of(total_contributions as int),
{
    if total_contributions < 500 {
        MoonType::Crescent
    } else if total_contributions < 1500 {
        MoonType::Quarter
    } else if total_contributions < 3000 {
        MoonType::Gibbous
    } else {
        MoonType::Full
    }
}

/// The picture of each phase, line by line.
pub open spec fn moon_lines(m: MoonType) -> Seq<Seq<char>> {
    match m {
        MoonType::Crescent => seq![
            "               ____...."@,
            "           a#####~:::::::"@,
            "       a######P\";:::::::::::"@,
            "    a########:::::::::::::::::"@,
            "   ########P::::::::::::*::::::"@,
            "  ########P:::::::::::::::::.::"@,
            " ##### ##P::::::::::::::::::::"@,
            ".#### O ##:::::*::::::::::::::"@,
            "###### #### ::::::::::::::::::"@,
            "########@###,::::::::::::::::::"@,
            "#########~~~:::::::::::::::*:::"@,
            " ##### ##:::::::::::::::::::::"@,
            "  ####a__ay::::::::::::::::::"@,
            "   ########;::::::::::::::::"@,
            "    ########a:::::::::::::"@,
            "      ########.:::::::::*;:"@,
            "       `d######a.:::::::::"@,
            "          `~9#####.::::"@,
        ],
        MoonType::Quarter => seq![
            "          ______          "@,
            "      .-'` .    `'-.    "@,
            "    .'  '    .---.  '.  "@,
            "   /  '    .'     `'. \\"@,
            "  ;  '    /          \\|"@,
            " :  '  _ ;            `"@,
            ";  :  /(\\"@,
            "|  .       '."@,
            "|  ' /     --'"@,
            "|  .   '.__\\"@,
            ";  :       /"@,
            " ;  .     |            ,"@,
            "  ;  .    \\           /|"@,
            "   \\  .    '.       .'/"@,
            "    '.  '  . `'---'`.'"@,
            "      `'-..._____.-`"@,
        ],
        MoonType::Gibbous => seq![
            "o                     __...__"@,
            "              *   .--'    __.=-."@,
            "     |          ./     .-'"@,
            "    -O-        /      /"@,
            "     |        /    '\"/"@,
            "             |     (@)"@,
            "            |        \\"@,
            "            |         \\"@,
            " *          |       ___\\"@,
            "             |  .   /  `"@,
            "              \\  `~~\\"@,
            "         o     \\     \\"@,
            "                `\\    `-.__"@,
            "    .             `--._    `--'"@,
            "                       `---~~`"@,
        ],
        MoonType::Full => seq![
            "         ___---___"@,
            "      .--         --."@,
            "    ./   ()      .-. \\."@,
            "   /   o    .   (   )  \\"@,
            "  / .            '-'    \\"@,
            " | ()    .  O         .  |"@,
            "|                         |"@,
            "|    o           ()       |"@,
            "|       .--.          O   |"@,
            " | .   |    |            |"@,
            "  \\    `.__.'    o   .  /"@,
            "   \\                   /"@,
            "    `\\  o    ()      /'"@,
            "      `--___   ___--'"@,
            "            ---"@,
        ],
    }
}

/// The picture of a phase, line by line.
pub fn get_moon_art(moon_type: MoonType) -> (r: Vec<&'static str>)
    ensures
        r@.len() == moon_lines(moon_type).len(),
        forall|i: int| 0 <= i < r@.len() ==> #[trigger] r@[i]@ == moon_lines(moon_type)[i],
{
    let lines: Vec<&'static str> = match moon_type {
        MoonType::Crescent => vec![
            "               ____....",
            "           a#####~:::::::",
            "       a######P\";:::::::::::",
            "    a########:::::::::::::::::",
            "   ########P::::::::::::*::::::",
            "  ########P:::::::::::::::::.::",
            " ##### ##P::::::::::::::::::::",
            ".#### O ##:::::*::::::::::::::",
            "###### #### ::::::::::::::::::",
            "########@###,::::::::::::::::::",
            "#########~~~:::::::::::::::*:::",
            " ##### ##:::::::::::::::::::::",
            "  ####a__ay::::::::::::::::::",
            "   ########;::::::::::::::::",
            "    ########a:::::::::::::",
            "      ########.:::::::::*;:",
            "       `d######a.:::::::::",
            "          `~9#####.::::",
        ],
        MoonType::Quarter => vec![
            "          ______          ",
            "      .-'` .    `'-.    ",
            "    .'  '    .---.  '.  ",
            "   /  '    .'     `'. \\",
            "  ;  '    /          \\|",
            " :  '  _ ;            `",
            ";  :  /(\\",
            "|  .       '.",
            "|  ' /     --'",
            "|  .   '.__\\",
            ";  :       /",
            " ;  .     |            ,",
            "  ;  .    \\           /|",
            "   \\  .    '.       .'/",
            "    '.  '  . `'---'`.'",
            "      `'-..._____.-`",
        ],
        MoonType::Gibbous => vec![
            "o                     __...__",
            "              *   .--'    __.=-.",
            "     |          ./     .-'",
            "    -O-        /      /",
            "     |        /    '\"/",
            "             |     (@)",
            "            |        \\",
            "            |         \\",
            " *          |       ___\\",
            "             |  .   /  `",
            "              \\  `~~\\",
            "         o     \\     \\",
            "                `\\    `-.__",
            "    .             `--._    `--'",
            "                       `---~~`",
        ],
        MoonType::Full => vec![
            "         ___---___",
            "      .--         --.",
            "    ./   ()      .-. \\.",
            "   /   o    .   (   )  \\",
            "  / .            '-'    \\",
            " | ()    .  O         .  |",
            "|                         |",
            "|    o           ()       |",
            "|       .--.          O   |",
            " | .   |    |            |",
            "  \\    `.__.'    o   .  /",
            "   \\                   /",
            "    `\\  o    ()      /'",
            "      `--___   ___--'",
            "            ---",
        ],
    };
    lines
}

/// Rows of sky above the buildings.
pub const SKY_ROWS: usize = 15;

/// Row of the sky where the moon picture starts.
pub const MOON_START_ROW: usize = 2;

/// Random draws for one sky cell: `chance` and `twinkle` are read in
/// thousandths, `glyph` and `tint` pick one of six.
#[derive(Clone, Copy, Debug, PartialEq, Eq, Structural)]
pub struct StarRoll {
    pub chance: u32,
    pub twinkle: u32,
    pub glyph: u32,
    pub tint: u32,
}

/// Column where the moon picture starts, near the right edge of a sky of
/// `width` columns (at the left edge when the sky is narrower than 20).
pub open spec fn moon_start_col(width: int) -> int {
    if width > 80 {
        width - 30
    } else if width > 60 {
        width - 25
    } else if width >= 20 {
        width - 20
    } else {
        0
    }
}

/// The non-blank moon character at a sky position, if any.
pub open spec fn moon_char_at(m: MoonType, width: int, row: int, col: int) -> Option<char> {
    let lines = moon_lines(m);
    let r = row - MOON_START_ROW;
    let k = col - moon_start_col(width);
    if 0 <= r < lines.len() && 0 <= k < lines[r].len() && lines[r][k] != ' ' {
        Some(lines[r][k])
    } else {
        None
    }
}

/// Chance in thousandths that a sky cell holds a star: fewer near the
/// ground.
pub open spec fn star_chance(row: int) -> int {
    if row < 5 {
        80
    } else if row < 10 {
        50
    } else {
        30
    }
}

/// Star character `k` (below 6) of the steady or twinkling set; the
/// ASCII-only sets avoid other characters.
pub open spec fn star_glyph(ascii_only: bool, twinkle: bool, k: int) -> char {
    if !ascii_only && !twinkle {
        if k == 0 { '*' } else if k == 1 { '·' } else if k == 2 { '+' } else if k == 3 { '✦' } else if k == 4 { '⋆' } else { '✧' }
    } else if !ascii_only {
        if k == 0 { '.' } else if k == 1 { '˚' } else if k == 2 { '°' } else if k == 3 { '*' } else if k == 4 { '✦' } else { ' ' }
    } else if !twinkle {
        if k == 0 { '*' } else if k == 1 { '.' } else if k == 2 { '+' } else if k == 3 { '*' } else if k == 4 { '+' } else { '.' }
    } else {
        if k == 0 { '.' } else if k == 1 { '\'' } else if k == 2 { '`' } else if k == 3 { '*' } else if k == 4 { '+' } else { ' ' }
    }
}

/// Star colour `k` (below 6).
pub open spec fn star_tint(k: int) -> Color {
    if k == 0 {
        Color::BrightWhite
    } else if k == 1 {
        Color::BrightCyan
    } else if k == 2 {
        Color::BrightBlue
    } else if k == 3 {
        Color::Cyan
    } else if k == 4 {
        Color::White
    } else {
        Color::BrightYellow
    }
}

/// A sky cell: the moon where its picture is not blank; else a star when
/// the draw falls under the row's chance; else blank.
pub open spec fn sky_cell_of(
    m: MoonType,
    width: int,
    ascii_only: bool,
    row: int,
    col: int,
    roll: StarRoll,
) -> Cell {
    match moon_char_at(m, width, row, col) {
        Some(ch) => Cell {
            glyph: Glyph::Symbol(ch),
            style: Some(Style { color: Color::BrightYellow, bold: true }),
        },
        None => if (roll.chance % 1000) < star_chance(row) {
            Cell {
                glyph: Glyph::Symbol(
                    star_glyph(ascii_only, (roll.twinkle % 1000) < 300, (roll.glyph % 6) as int),
                ),
                style: Some(Style { color: star_tint((roll.tint % 6) as int), bold: false }),
            }
        } else {
            Cell { glyph: Glyph::Blank, style: None }
        },
    }
}

/// The draw for a sky position; a position without one holds no star.
pub open spec fn roll_at(rolls: Seq<Vec<StarRoll>>, row: int, col: int) -> StarRoll {
    if 0 <= row < rolls.len() && 0 <= col < rolls[row]@.len() {
        rolls[row]@[col]
    } else {
        StarRoll { chance: 999, twinkle: 0, glyph: 0, tint: 0 }
    }
}

/// Star character `k` of a set.
fn star_glyph_exec(ascii_only: bool, twinkle: bool, k: u32) -> (r: char)
    requires
        k < 6,
    ensures
        r == star_glyph(ascii_only, twinkle, k as int),
{
    if !ascii_only && !twinkle {
        if k == 0 { '*' } else if k == 1 { '·' } else if k == 2 { '+' } else if k == 3 { '✦' } else if k == 4 { '⋆' } else { '✧' }
    } else if !ascii_only {
        if k == 0 { '.' } else if k == 1 { '˚' } else if k == 2 { '°' } else if k == 3 { '*' } else if k == 4 { '✦' } else { ' ' }
    } else if !twinkle {
        if k == 0 { '*' } else if k == 1 { '.' } else if k == 2 { '+' } else if k == 3 { '*' } else if k == 4 { '+' } else { '.' }
    } else {
        if k == 0 { '.' } else if k == 1 { '\'' } else if k == 2 { '`' } else if k == 3 { '*' } else if k == 4 { '+' } else { ' ' }
    }
}

/// Star colour `k`.
fn star_tint_exec(k: u32) -> (r: Color)
    ensures
        r == star_tint(k as int),
{
    if k == 0 {
        Color::BrightWhite
    } else if k == 1 {
        Color::BrightCyan
    } else if k == 2 {
        Color::BrightBlue
    } else if k == 3 {
        Color::Cyan
    } else if k == 4 {
        Color::White
    } else {
        Color::BrightYellow
    }
}

/// Column where the moon picture starts.
pub fn moon_start_column(width: usize) -> (r: usize)
    ensures
        r == moon_start_col(width as int),
{
    if width > 80 {
        width - 30
    } else if width > 60 {
        width - 25
    } else if width >= 20 {
        width - 20
    } else {
        0
    }
}

/// One sky cell.
fn sky_cell(
    art: &Vec<&'static str>,
    moon_type: MoonType,
    width: usize,
    ascii_only: bool,
    row: usize,
    col: usize,
    roll: StarRoll,
) -> (r: Cell)
    requires
        art@.len() == moon_lines(moon_type).len(),
        forall|i: int| 0 <= i < art@.len() ==> #[trigger] art@[i]@ == moon_lines(moon_type)[i],
    ensures
        r == sky_cell_of(moon_type, width as int, ascii_only, row as int, col as int, roll),
{
    let start = moon_start_column(width);
    if row >= MOON_START_ROW && row - MOON_START_ROW < art.len() && col >= start {
        let line = art[row - MOON_START_ROW];
        let k = col - start;
        if k < line.unicode_len() {
            let ch = line.get_char(k);
            if ch != ' ' {
                return Cell {
                    glyph: Glyph::Symbol(ch),
                    style: Some(Style { color: Color::BrightYellow, bold: true }),
                };
            }
        }
    }
    let chance: u32 = if row < 5 {
        80
    } else if row < 10 {
        50
    } else {
        30
    };
    if roll.chance % 1000 < chance {
        Cell {
            glyph: Glyph::Symbol(star_glyph_exec(ascii_only, roll.twinkle % 1000 < 300, roll.glyph % 6)),
            style: Some(Style { color: star_tint_exec(roll.tint % 6), bold: false }),
        }
    } else {
        Cell { glyph: Glyph::Blank, style: None }
    }
}

/// The sky of `width` columns, row by row from the top; `rolls[row][col]`
/// is the draw for each position.
pub fn render_sky(
    width: usize,
    moon_type: MoonType,
    ascii_only: bool,
    rolls: &Vec<Vec<StarRoll>>,
) -> (r: Vec<Vec<Cell>>)
    ensures
        r@.len() == SKY_ROWS,
        forall|row: int|
            0 <= row < SKY_ROWS ==> (#[trigger] r@[row])@.len() == width,
        forall|row: int, col: int|
            0 <= row < SKY_ROWS && 0 <= col < width ==> (#[trigger] r@[row]@[col]) == sky_cell_of(
                moon_type,
                width as int,
                ascii_only,
                row,
                col,
                roll_at(rolls@, row, col),
            ),
{
    let art = get_moon_art(moon_type);
    let mut rows: Vec<Vec<Cell>> = Vec::new();
    let mut row: usize = 0;
    while row < SKY_ROWS
        invariant
            row <= SKY_ROWS,
            rows@.len() == row,
            art@.len() == moon_lines(moon_type).len(),
            forall|i: int| 0 <= i < art@.len() ==> #[trigger] art@[i]@ == moon_lines(moon_type)[i],
            forall|r: int| 0 <= r < row ==> (#[trigger] rows@[r])@.len() == width,
            forall|r: int, c: int|
                0 <= r < row && 0 <= c < width ==> (#[trigger] rows@[r]@[c]) == sky_cell_of(
                    moon_type,
                    width as int,
                    ascii_only,
                    r,
                    c,
                    roll_at(rolls@, r, c),
                ),
        decreases SKY_ROWS - row,
    {
        let mut line: Vec<Cell> = Vec::new();
        let mut col: usize = 0;
        while col < width
            invariant
                row < SKY_ROWS,
                col <= width,
                line@.len() == col,
                art@.len() == moon_lines(moon_type).len(),
                forall|i: int| 0 <= i < art@.len() ==> #[trigger] art@[i]@ == moon_lines(moon_type)[i],
                forall|c: int|
                    0 <= c < col ==> (#[trigger] line@[c]) == sky_cell_of(
                        moon_type,
                        width as int,
                        ascii_only,
                        row as int,
                        c,
                        roll_at(rolls@, row as int, c),
                    ),
            decreases width - col,
        {
            let roll = if row < rolls.len() && col < rolls[row].len() {
                rolls[row][col]
            } else {
                StarRoll { chance: 999, twinkle: 0, glyph: 0, tint: 0 }
            };
            line.push(sky_cell(&art, moon_type, width, ascii_only, row, col, roll));
            col = col + 1;
        }
        rows.push(line);
        row = row + 1;
    }
    rows
}

} // verus!
