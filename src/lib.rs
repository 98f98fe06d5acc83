//! Turns a series of daily contribution counts into unlocked achievements
//! and into a cityscape of styled glyphs.
pub mod stats;
pub mod style;
pub mod achievements;
pub mod text;
pub mod chance;
pub mod theme;
pub mod bignum;
pub mod building;
pub mod canvas;
pub mod sky;
pub mod skyline;
pub mod api;
