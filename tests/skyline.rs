use github_skyline::canvas::{get_building_part, ground_row, Cell, DrawStyle, Glyph, Part};
use github_skyline::sky::{get_moon_art, render_sky, select_moon_type, MoonType, StarRoll};
use github_skyline::skyline::{render_canvas, render_canvas_with, render_skyline};
use github_skyline::style::{Color, Style};
use github_skyline::theme::{get_theme, resolve_theme_with, Theme, ThemeName};

fn no_stars(rows: usize, cols: usize) -> Vec<Vec<StarRoll>> {
    vec![vec![StarRoll { chance: 999, twinkle: 0, glyph: 0, tint: 0 }; cols]; rows]
}

#[test]
fn moon_thresholds() {
    assert_eq!(select_moon_type(0), MoonType::Crescent);
    assert_eq!(select_moon_type(499), MoonType::Crescent);
    assert_eq!(select_moon_type(500), MoonType::Quarter);
    assert_eq!(select_moon_type(1499), MoonType::Quarter);
    assert_eq!(select_moon_type(1500), MoonType::Gibbous);
    assert_eq!(select_moon_type(2999), MoonType::Gibbous);
    assert_eq!(select_moon_type(3000), MoonType::Full);
}

#[test]
fn moon_pictures_have_their_lines() {
    assert_eq!(get_moon_art(MoonType::Crescent).len(), 18);
    assert_eq!(get_moon_art(MoonType::Quarter).len(), 16);
    assert_eq!(get_moon_art(MoonType::Full)[0], "         ___---___");
}

#[test]
fn theme_names_ignore_case() {
    let t = resolve_theme_with("DRACULA", 0);
    assert_eq!(t.name, ThemeName::Dracula);
    assert_eq!(t.building_colors[0], Style { color: Color::BrightBlack, bold: true });
    assert_eq!(t.window_colors[5], Style { color: Color::BrightRed, bold: false });
    assert_eq!(get_theme("Matrix").name, ThemeName::Matrix);
    assert_eq!(resolve_theme_with("nonsense", 4).name, ThemeName::Synthwave);
    assert_eq!(resolve_theme_with("synthwave", 4).name, ThemeName::Synthwave);
}

#[test]
fn random_theme_uses_the_pick() {
    assert_eq!(resolve_theme_with("random", 3).name, ThemeName::Cyberpunk);
    assert_eq!(resolve_theme_with("Random", 9).name, ThemeName::Cyberpunk);
    assert_eq!(resolve_theme_with("random", 5).name, ThemeName::Sunset);
    assert_ne!(get_theme("random").building_colors.len(), 0);
}

#[test]
fn building_parts_by_row() {
    let theme = Theme::of(ThemeName::Synthwave);
    let part = |h: u32, row: u32, c: u32| get_building_part(h, row, c, &theme).glyph;
    assert_eq!(part(30, 31, 10), Glyph::Part(Part::AntennaTip));
    assert_eq!(part(30, 35, 10), Glyph::Part(Part::AntennaMast));
    assert_eq!(part(30, 36, 10), Glyph::Blank);
    assert_eq!(part(30, 30, 10), Glyph::Part(Part::Roof));
    assert_eq!(part(30, 1, 10), Glyph::Part(Part::Base));
    assert_eq!(part(15, 3, 5), Glyph::Part(Part::Window));
    assert_eq!(part(15, 4, 5), Glyph::Part(Part::Window));
    assert_eq!(part(15, 4, 4), Glyph::Part(Part::Wall));
    assert_eq!(part(15, 2, 5), Glyph::Part(Part::Wall));
    assert_eq!(part(12, 13, 5), Glyph::Blank);
    assert_eq!(part(0, 1, 0), Glyph::Blank);
    let wall = get_building_part(15, 2, 5, &theme);
    assert_eq!(wall.style, Some(Style { color: Color::Blue, bold: true }));
    let window = get_building_part(15, 4, 5, &theme);
    assert_eq!(window.style, Some(Style { color: Color::Blue, bold: false }));
}

#[test]
fn ground_row_cycles_three_colours() {
    let g = ground_row();
    assert_eq!(g.len(), 99);
    assert_eq!(g[0].style, Some(Style { color: Color::BrightBlue, bold: false }));
    assert_eq!(g[1].style, Some(Style { color: Color::Blue, bold: false }));
    assert_eq!(g[2].style, Some(Style { color: Color::BrightCyan, bold: false }));
    assert_eq!(g[98].glyph, Glyph::Symbol('~'));
}

#[test]
fn empty_series_renders_no_data() {
    let empty: Vec<u32> = Vec::new();
    assert!(render_canvas_with(&empty, "synthwave", "braille", "linear", false, "detailed", None, 0, &no_stars(0, 0)).is_none());
    assert!(render_canvas(&empty, "random", "ascii", "log", true, "none", Some(3)).is_none());
    assert!(render_skyline(&empty, "synthwave").is_none());
}

#[test]
fn canvas_of_three_days() {
    let s = vec![0, 5, 10];
    let c = render_canvas_with(&s, "synthwave", "braille", "linear", false, "none", None, 0, &no_stars(0, 0)).unwrap();
    assert!(c.sky.is_empty());
    assert_eq!(c.buildings.len(), 36);
    assert_eq!(c.first_day, 0);
    assert_eq!(c.stats.displayed, 3);
    assert_eq!(c.stats.total, 15);
    assert_eq!(c.stats.max_day, 10);
    assert_eq!(c.stats.active_days, 2);
    assert_eq!(c.stats.longest_streak, 2);
    assert_eq!(c.moon, MoonType::Crescent);
    assert_eq!(c.glyphs, DrawStyle::Braille);
    for row in &c.buildings {
        assert_eq!(row.len(), 3);
        assert_eq!(row[0].glyph, Glyph::Blank);
    }
    assert_eq!(c.buildings[0][2].glyph, Glyph::Blank);
    assert_eq!(c.buildings[5][2].glyph, Glyph::Part(Part::AntennaTip));
    assert_eq!(c.buildings[6][2].glyph, Glyph::Part(Part::Roof));
    assert_eq!(c.buildings[35][2].glyph, Glyph::Part(Part::Base));
    assert_eq!(c.buildings[20][1].glyph, Glyph::Part(Part::AntennaTip));
    assert_eq!(c.buildings[21][1].glyph, Glyph::Part(Part::Roof));
    assert_eq!(c.ground.len(), 99);
}

#[test]
fn canvas_shows_the_most_recent_days() {
    let s: Vec<u32> = (1..=30).collect();
    let c = render_canvas_with(&s, "sunset", "BLOCKS", "dramatic", false, "none", Some(5), 0, &no_stars(0, 0)).unwrap();
    assert_eq!(c.first_day, 25);
    assert_eq!(c.stats.displayed, 5);
    assert_eq!(c.stats.days, 30);
    assert_eq!(c.glyphs, DrawStyle::Blocks);
    assert_eq!(c.theme, ThemeName::Sunset);
    assert_eq!(c.buildings[0].len(), 5);
    let d = render_canvas_with(&s, "sunset", "blocks", "dramatic", true, "none", Some(5), 0, &no_stars(0, 0)).unwrap();
    assert_eq!(d.glyphs, DrawStyle::Ascii);
    assert_eq!(d.stats.total, 465);
}

#[test]
fn sky_places_moon_and_stars() {
    let s: Vec<u32> = vec![1; 30];
    let c = render_canvas_with(&s, "synthwave", "braille", "linear", false, "detailed", None, 0, &no_stars(15, 100)).unwrap();
    assert_eq!(c.sky.len(), 15);
    assert_eq!(c.sky[0].len(), 100);
    assert_eq!(c.sky[2][85], Cell { glyph: Glyph::Symbol('_'), style: Some(Style { color: Color::BrightYellow, bold: true }) });
    assert_eq!(c.sky[0][0].glyph, Glyph::Blank);
    let stars = vec![vec![StarRoll { chance: 0, twinkle: 999, glyph: 3, tint: 1 }; 8]; 15];
    let sky = render_sky(8, MoonType::Full, false, &stars);
    assert_eq!(sky[0][0], Cell { glyph: Glyph::Symbol('✦'), style: Some(Style { color: Color::BrightCyan, bold: false }) });
    let ascii = render_sky(8, MoonType::Full, true, &stars);
    assert_eq!(ascii[14][7].glyph, Glyph::Symbol('*'));
    let rare = vec![vec![StarRoll { chance: 60, twinkle: 999, glyph: 0, tint: 0 }; 8]; 15];
    let sky2 = render_sky(8, MoonType::Full, false, &rare);
    assert_eq!(sky2[4][7].glyph, Glyph::Symbol('*'));
    assert_eq!(sky2[9][7].glyph, Glyph::Blank);
}

#[test]
fn default_render_uses_braille_and_sky() {
    let c = render_skyline(&[1, 2, 3], "synthwave").unwrap();
    assert_eq!(c.glyphs, DrawStyle::Braille);
    assert_eq!(c.sky.len(), 15);
    assert_eq!(c.sky[0].len(), 12);
    assert_eq!(DrawStyle::Braille.part_text(Part::Wall), "⣿⣿⣿");
    assert_eq!(DrawStyle::Ascii.part_text(Part::Window), "[o]");
}
