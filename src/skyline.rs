//! The compositor: turns a series and display options into a canvas of
//! sky, building and ground cells, with the summary figures shown beside it.
use vstd::prelude::*;
use crate::stats::{
    total_of, peak_of, active_of, longest_run, total_contributions, peak_contributions,
    count_active_days, calculate_longest_streak,
};
use crate::building::{ScaleMode, scaled_height, scale_mode_of, scale_mode, scale_height_in, lemma_rounded_reached};
use crate::canvas::{
    Cell, DrawStyle, draw_style_of, draw_style, building_cell, get_building_part, ground_cell,
    ground_row, GROUND_WIDTH,
};
use crate::sky::{
    MoonType, StarRoll, moon_of, select_moon_type, sky_cell_of, roll_at, render_sky, SKY_ROWS,
};
use crate::theme::{Theme, ThemeName, theme_request, theme_request_of, resolved_theme, theme_at_index, ThemeRequest, THEME_COUNT};
use crate::text::{lower_of, lowercase, text_is};
use crate::chance::random_below;

verus! {

/// Height the tallest building is scaled to.
pub const TARGET_HEIGHT: u32 = 30;

/// Rows above the tallest building, room for its antenna.
pub const HEADROOM: u32 = 6;

/// Days shown when no width is given.
pub const DEFAULT_WIDTH: usize = 25;

/// Figures about the series shown beside the canvas.
#[derive(Clone, Copy, Debug, PartialEq, Eq, Structural)]
pub struct SkylineStats {
    pub days: usize,
    pub displayed: usize,
    pub total: u128,
    pub max_day: u32,
    pub active_days: usize,
    pub longest_streak: usize,
}

/// A rendered cityscape.
///
/// The buildings show the most recent days: the last `stats.displayed`
/// entries of the series, starting at index `first_day`.
#[derive(Debug)]
pub struct Canvas {
    /// Sky rows from the top, one character per cell; empty when the sky
    /// is off.
    pub sky: Vec<Vec<Cell>>,
    /// Building rows from the top, one cell per displayed day.
    pub buildings: Vec<Vec<Cell>>,
    /// The ground row, one character per cell.
    pub ground: Vec<Cell>,
    pub glyphs: DrawStyle,
    pub theme: ThemeName,
    pub moon: MoonType,
    pub first_day: usize,
    pub stats: SkylineStats,
}

/// Number of days shown for a series of `len` days.
pub open spec fn shown_days(len: int, width: Option<usize>) -> int {
    let w = match width {
        Some(w) => w as int,
        None => DEFAULT_WIDTH as int,
    };
    if len < w {
        len
    } else {
        w
    }
}

/// Columns of sky over `w` days: four per day (a building and a gap).
pub open spec fn sky_width_of(w: int) -> int {
    if w <= usize::MAX / 4 {
        4 * w
    } else {
        usize::MAX as int
    }
}

/// Whether a lowercase sky mode draws the sky: every mode but "none".
pub open spec fn sky_enabled_of(lower: Seq<char>) -> bool {
    lower != "none"@
}

/// Whether an already lowercased sky mode draws the sky.
pub fn sky_enabled(lower: &str) -> (r: bool)
    ensures
        r == sky_enabled_of(lower@),
{
    !text_is(lower, "none")
}

/// Number of building rows: the tallest building plus headroom.
pub open spec fn building_rows_of(s: Seq<u32>, mode: ScaleMode) -> int {
    scaled_height(peak_of(s) as nat, peak_of(s) as nat, TARGET_HEIGHT as nat, mode) + HEADROOM
}

/// Height of day `d` of the series.
pub open spec fn day_height(s: Seq<u32>, mode: ScaleMode, d: int) -> int {
    scaled_height(s[d] as nat, peak_of(s) as nat, TARGET_HEIGHT as nat, mode) as int
}

/// The summary figures of a non-empty series.
pub open spec fn stats_match(st: SkylineStats, s: Seq<u32>, width: Option<usize>) -> bool {
    &&& st.days == s.len()
    &&& st.displayed == shown_days(s.len() as int, width)
    &&& st.total == total_of(s)
    &&& st.max_day == peak_of(s)
    &&& st.active_days == active_of(s)
    &&& st.longest_streak == longest_run(s)
}

/// `c` is the canvas of series `s` with the given resolved options.
pub open spec fn canvas_matches(
    c: Canvas,
    s: Seq<u32>,
    mode: ScaleMode,
    glyphs: DrawStyle,
    theme: ThemeName,
    sky: bool,
    ascii_only: bool,
    width: Option<usize>,
    rolls: Seq<Vec<StarRoll>>,
) -> bool {
    let w = shown_days(s.len() as int, width);
    let first = s.len() - w;
    let rows = building_rows_of(s, mode);
    let sw = sky_width_of(w);
    &&& c.glyphs == glyphs
    &&& c.theme == theme
    &&& c.moon == moon_of(total_of(s))
    &&& c.first_day == first
    &&& stats_match(c.stats, s, width)
    &&& c.buildings@.len() == rows
    &&& forall|k: int| 0 <= k < rows ==> (#[trigger] c.buildings@[k])@.len() == w
    &&& forall|k: int, i: int|
        0 <= k < rows && 0 <= i < w ==> (#[trigger] c.buildings@[k]@[i]) == building_cell(
            theme,
            day_height(s, mode, first + i),
            rows - k,
            s[first + i] as int,
        )
    &&& if sky {
        &&& c.sky@.len() == SKY_ROWS
        &&& forall|row: int| 0 <= row < SKY_ROWS ==> (#[trigger] c.sky@[row])@.len() == sw
        &&& forall|row: int, col: int|
            0 <= row < SKY_ROWS && 0 <= col < sw ==> (#[trigger] c.sky@[row]@[col])
                == sky_cell_of(c.moon, sw, ascii_only, row, col, roll_at(rolls, row, col))
    } else {
        c.sky@.len() == 0
    }
    &&& c.ground@.len() == GROUND_WIDTH
    &&& forall|i: int| 0 <= i < GROUND_WIDTH ==> #[trigger] c.ground@[i] == ground_cell(i)
}

/// Composes the canvas from resolved options; `None` for an empty series.
pub fn compose_canvas(
    contributions: &[u32],
    mode: ScaleMode,
    glyphs: DrawStyle,
    theme: &Theme,
    sky: bool,
    ascii_only: bool,
    width: Option<usize>,
    rolls: &Vec<Vec<StarRoll>>,
) -> (r: Option<Canvas>)
    requires
        theme.is_palette_of(theme.name),
    ensures
        r is None <==> contributions@.len() == 0,
        r matches Some(c) ==> canvas_matches(
            c,
            contributions@,
            mode,
            glyphs,
            theme.name,
            sky,
            ascii_only,
            width,
            rolls@,
        ),
{
    let s = contributions;
    if s.len() == 0 {
        return None;
    }
    let total = total_contributions(s);
    let peak = peak_contributions(s);
    let active_days = count_active_days(s);
    let longest_streak = calculate_longest_streak(s);
    let moon = select_moon_type(total);
    let limit = match width {
        Some(w) => w,
        None => DEFAULT_WIDTH,
    };
    let w = if s.len() < limit {
        s.len()
    } else {
        limit
    };
    let first = s.len() - w;
    let tallest = scale_height_in(peak, peak, TARGET_HEIGHT, mode);
    proof {
        lemma_rounded_reached(mode, peak as nat, peak as nat, TARGET_HEIGHT as nat, TARGET_HEIGHT as nat);
    }
    let rows: u32 = tallest + HEADROOM;
    let ghost sq = s@;
    let mut heights: Vec<u32> = Vec::new();
    let mut i: usize = 0;
    while i < w
        invariant
            sq == s@,
            w <= s.len(),
            first == s.len() - w,
            i <= w,
            peak == peak_of(sq),
            heights@.len() == i,
            forall|j: int| 0 <= j < i ==> #[trigger] heights@[j] == day_height(sq, mode, first + j),
        decreases w - i,
    {
        heights.push(scale_height_in(s[first + i], peak, TARGET_HEIGHT, mode));
        i = i + 1;
    }
    let mut buildings: Vec<Vec<Cell>> = Vec::new();
    let mut k: u32 = 0;
    while k < rows
        invariant
            sq == s@,
            w <= s.len(),
            first == s.len() - w,
            k <= rows,
            rows == building_rows_of(sq, mode),
            theme.is_palette_of(theme.name),
            heights@.len() == w,
            forall|j: int| 0 <= j < w ==> #[trigger] heights@[j] == day_height(sq, mode, first + j),
            buildings@.len() == k,
            forall|a: int| 0 <= a < k ==> (#[trigger] buildings@[a])@.len() == w,
            forall|a: int, b: int|
                0 <= a < k && 0 <= b < w ==> (#[trigger] buildings@[a]@[b]) == building_cell(
                    theme.name,
                    day_height(sq, mode, first + b),
                    rows - a,
                    sq[first + b] as int,
                ),
        decreases rows - k,
    {
        let row = rows - k;
        let mut line: Vec<Cell> = Vec::new();
        let mut j: usize = 0;
        while j < w
            invariant
                sq == s@,
                w <= s.len(),
                first == s.len() - w,
                k < rows,
                row == rows - k,
                theme.is_palette_of(theme.name),
                heights@.len() == w,
                forall|x: int| 0 <= x < w ==> #[trigger] heights@[x] == day_height(sq, mode, first + x),
                j <= w,
                line@.len() == j,
                forall|b: int|
                    0 <= b < j ==> (#[trigger] line@[b]) == building_cell(
                        theme.name,
                        day_height(sq, mode, first + b),
                        row as int,
                        sq[first + b] as int,
                    ),
            decreases w - j,
        {
            line.push(get_building_part(heights[j], row, s[first + j], theme));
            j = j + 1;
        }
        buildings.push(line);
        k = k + 1;
    }
    let sky_rows = if sky {
        let sw: usize = if w <= usize::MAX / 4 {
            4 * w
        } else {
            usize::MAX
        };
        render_sky(sw, moon, ascii_only, rolls)
    } else {
        Vec::new()
    };
    let stats = SkylineStats {
        days: s.len(),
        displayed: w,
        total,
        max_day: peak,
        active_days,
        longest_streak,
    };
    Some(
        Canvas {
            sky: sky_rows,
            buildings,
            ground: ground_row(),
            glyphs,
            theme: theme.name,
            moon,
            first_day: first,
            stats,
        },
    )
}

/// The glyph set in use: ASCII when forced, else the one the style names.
pub open spec fn glyphs_for(ascii_only: bool, lower_style: Seq<char>) -> DrawStyle {
    if ascii_only {
        DrawStyle::Ascii
    } else {
        draw_style_of(lower_style)
    }
}

/// The theme a name resolves to, given the random pick.
fn resolve_theme_name(lower: &str, pick: usize) -> (r: ThemeName)
    ensures
        r == resolved_theme(theme_request_of(lower@), pick as int),
{
    match theme_request(lower) {
        ThemeRequest::Named(n) => n,
        ThemeRequest::Random => theme_at_index(pick % THEME_COUNT),
    }
}

/// Renders the canvas; option names are matched without regard to case,
/// `ascii_only` forces the ASCII glyph set, `theme_pick` chooses the theme
/// when the theme is "random", and `rolls[row][col]` are the star draws.
/// `None` for an empty series.
pub fn render_canvas_with(
    contributions: &[u32],
    theme: &str,
    style: &str,
    scale: &str,
    ascii_only: bool,
    sky_mode: &str,
    width: Option<usize>,
    theme_pick: usize,
    rolls: &Vec<Vec<StarRoll>>,
) -> (r: Option<Canvas>)
    ensures
        r is None <==> contributions@.len() == 0,
        r matches Some(c) ==> canvas_matches(
            c,
            contributions@,
            scale_mode_of(lower_of(scale@)),
            glyphs_for(ascii_only, lower_of(style@)),
            resolved_theme(theme_request_of(lower_of(theme@)), theme_pick as int),
            sky_enabled_of(lower_of(sky_mode@)),
            ascii_only,
            width,
            rolls@,
        ),
{
    let mode = scale_mode(lowercase(scale).as_str());
    let glyphs = if ascii_only {
        DrawStyle::Ascii
    } else {
        draw_style(lowercase(style).as_str())
    };
    let palette = Theme::of(resolve_theme_name(lowercase(theme).as_str(), theme_pick));
    let sky = sky_enabled(lowercase(sky_mode).as_str());
    compose_canvas(contributions, mode, glyphs, &palette, sky, ascii_only, width, rolls)
}

/// Star draws for a sky of `rows` by `cols`: each chance and twinkle below
/// 1000, each glyph and tint below 6.
pub fn draw_star_rolls(rows: usize, cols: usize) -> (r: Vec<Vec<StarRoll>>)
    ensures
        r@.len() == rows,
        forall|i: int| 0 <= i < rows ==> (#[trigger] r@[i])@.len() == cols,
        forall|i: int, j: int|
            0 <= i < rows && 0 <= j < cols ==> {
                let x = #[trigger] r@[i]@[j];
                x.chance < 1000 && x.twinkle < 1000 && x.glyph < 6 && x.tint < 6
            },
{
    let mut all: Vec<Vec<StarRoll>> = Vec::new();
    let mut i: usize = 0;
    while i < rows
        invariant
            i <= rows,
            all@.len() == i,
            forall|a: int| 0 <= a < i ==> (#[trigger] all@[a])@.len() == cols,
            forall|a: int, b: int|
                0 <= a < i && 0 <= b < cols ==> {
                    let x = #[trigger] all@[a]@[b];
                    x.chance < 1000 && x.twinkle < 1000 && x.glyph < 6 && x.tint < 6
                },
        decreases rows - i,
    {
        let mut line: Vec<StarRoll> = Vec::new();
        let mut j: usize = 0;
        while j < cols
            invariant
                j <= cols,
                line@.len() == j,
                forall|b: int|
                    0 <= b < j ==> {
                        let x = #[trigger] line@[b];
                        x.chance < 1000 && x.twinkle < 1000 && x.glyph < 6 && x.tint < 6
                    },
            decreases cols - j,
        {
            let roll = StarRoll {
                chance: random_below(1000),
                twinkle: random_below(1000),
                glyph: random_below(6),
                tint: random_below(6),
            };
            line.push(roll);
            j = j + 1;
        }
        all.push(line);
        i = i + 1;
    }
    all
}

/// Renders the canvas as `render_canvas_with` does, with the theme pick and
/// the star draws taken from the random source.
pub fn render_canvas(
    contributions: &[u32],
    theme: &str,
    style: &str,
    scale: &str,
    ascii_only: bool,
    sky_mode: &str,
    width: Option<usize>,
) -> (r: Option<Canvas>)
    ensures
        r is None <==> contributions@.len() == 0,
        r matches Some(c) ==> exists|pick: int, rolls: Seq<Vec<StarRoll>>|
            0 <= pick < 6 && #[trigger] canvas_matches(
                c,
                contributions@,
                scale_mode_of(lower_of(scale@)),
                glyphs_for(ascii_only, lower_of(style@)),
                resolved_theme(theme_request_of(lower_of(theme@)), pick),
                sky_enabled_of(lower_of(sky_mode@)),
                ascii_only,
                width,
                rolls,
            ),
{
    let limit = match width {
        Some(w) => w,
        None => DEFAULT_WIDTH,
    };
    let w = if contributions.len() < limit {
        contributions.len()
    } else {
        limit
    };
    let cols: usize = if w <= usize::MAX / 4 {
        4 * w
    } else {
        usize::MAX
    };
    let rolls = draw_star_rolls(SKY_ROWS, cols);
    let pick = random_below(THEME_COUNT as u32) as usize;
    render_canvas_with(
        contributions,
        theme,
        style,
        scale,
        ascii_only,
        sky_mode,
        width,
        pick,
        &rolls,
    )
}

/// Renders with the default options: braille glyphs, dramatic scaling,
/// the detailed sky and the default width.
pub fn render_skyline(contributions: &[u32], theme: &str) -> (r: Option<Canvas>)
    ensures
        r is None <==> contributions@.len() == 0,
        r matches Some(c) ==> exists|pick: int, rolls: Seq<Vec<StarRoll>>|
            0 <= pick < 6 && #[trigger] canvas_matches(
                c,
                contributions@,
                scale_mode_of(lower_of("dramatic"@)),
                glyphs_for(false, lower_of("braille"@)),
                resolved_theme(theme_request_of(lower_of(theme@)), pick),
                sky_enabled_of(lower_of("detailed"@)),
                false,
                None,
                rolls,
            ),
{
    render_canvas(contributions, theme, "braille", "dramatic", false, "detailed", None)
}

} // verus!
