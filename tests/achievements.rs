use github_skyline::achievements::{
    calculate_achievements, calculate_badges, check_consistency_achievements,
    check_intensity_achievements, check_streak_achievements, check_total_achievements,
    count_in_tier, count_perfect_months, has_comeback_story, has_strong_finish, Badge, Tier,
};
use github_skyline::stats::{
    calculate_longest_streak, count_active_days, peak_contributions, total_contributions,
};
use github_skyline::style::{Color, Style};

fn repeat(value: u32, n: usize) -> Vec<u32> {
    vec![value; n]
}

#[test]
fn empty_series_unlocks_nothing() {
    let empty: Vec<u32> = Vec::new();
    assert!(calculate_achievements(&empty).is_empty());
    assert_eq!(total_contributions(&empty), 0);
    assert_eq!(peak_contributions(&empty), 0);
    assert_eq!(count_active_days(&empty), 0);
    assert_eq!(calculate_longest_streak(&empty), 0);
}

#[test]
fn total_ladder_is_inclusive_at_each_threshold() {
    assert_eq!(check_total_achievements(999), None);
    assert_eq!(check_total_achievements(1000), Some(Badge::ActiveDeveloper));
    assert_eq!(check_total_achievements(2499), Some(Badge::ActiveDeveloper));
    assert_eq!(check_total_achievements(2500), Some(Badge::ProlificCoder));
    assert_eq!(check_total_achievements(5000), Some(Badge::CodingMachine));
    assert_eq!(check_total_achievements(9999), Some(Badge::CodingMachine));
    assert_eq!(check_total_achievements(10000), Some(Badge::CodeTitan));
}

#[test]
fn total_of_exactly_one_thousand_is_active_developer() {
    let mut s = repeat(0, 9);
    s.push(1000);
    let a = calculate_achievements(&s);
    assert_eq!(a[0].name, "Active Developer");
    assert_eq!(a[0].tier, Tier::Bronze);
    assert_eq!(a[0].description, "Made 1,000+ contributions in a year");
    assert_eq!(a[0].icon, "🥉");
}

#[test]
fn consistency_ladder_uses_share_of_active_days() {
    let mut s = repeat(1, 9);
    s.push(0);
    assert_eq!(check_consistency_achievements(&s, 9), Some(Badge::DailyGrinder));
    assert_eq!(check_consistency_achievements(&s, 8), Some(Badge::SteadyCoder));
    assert_eq!(check_consistency_achievements(&s, 7), Some(Badge::SteadyCoder));
    assert_eq!(check_consistency_achievements(&s, 5), Some(Badge::RegularContributor));
    let four = vec![1, 0, 0, 0];
    assert_eq!(check_consistency_achievements(&four, 1), Some(Badge::WeekendWarrior));
    assert_eq!(check_consistency_achievements(&four, 0), None);
    let empty: Vec<u32> = Vec::new();
    assert_eq!(check_consistency_achievements(&empty, 0), None);
}

#[test]
fn streak_ladder_thresholds() {
    assert_eq!(check_streak_achievements(6), None);
    assert_eq!(check_streak_achievements(7), Some(Badge::WeekWarrior));
    assert_eq!(check_streak_achievements(30), Some(Badge::MonthlyMarathon));
    assert_eq!(check_streak_achievements(100), Some(Badge::Centurion));
    assert_eq!(check_streak_achievements(364), Some(Badge::Centurion));
    assert_eq!(check_streak_achievements(365), Some(Badge::YearLongDedication));
}

#[test]
fn intensity_ladders_thresholds() {
    assert_eq!(check_intensity_achievements(9, 9, 1), (None, None));
    assert_eq!(check_intensity_achievements(10, 10, 1), (Some(Badge::BigDay), Some(Badge::EfficientCoder)));
    assert_eq!(check_intensity_achievements(25, 0, 0), (Some(Badge::HighRoller), None));
    assert_eq!(check_intensity_achievements(49, 0, 0).0, Some(Badge::HighRoller));
    assert_eq!(check_intensity_achievements(50, 0, 0).0, Some(Badge::PowerUser));
    assert_eq!(check_intensity_achievements(50, 200, 10).1, Some(Badge::QualityOverQuantity));
    assert_eq!(check_intensity_achievements(50, 199, 10).1, Some(Badge::EfficientCoder));
    assert_eq!(check_intensity_achievements(50, 99, 10).1, None);
}

#[test]
fn ninety_day_run_holds_three_perfect_months() {
    assert_eq!(count_perfect_months(&repeat(1, 90)), 3);
    assert_eq!(count_perfect_months(&repeat(1, 89)), 2);
    assert_eq!(count_perfect_months(&repeat(1, 29)), 0);
    let mut broken = repeat(1, 29);
    broken.push(0);
    broken.extend(repeat(2, 30));
    assert_eq!(count_perfect_months(&broken), 1);
}

#[test]
fn four_hundred_days_of_one() {
    let s = repeat(1, 400);
    assert_eq!(total_contributions(&s), 400);
    assert_eq!(calculate_longest_streak(&s), 400);
    assert_eq!(count_perfect_months(&s), 13);
    assert_eq!(
        calculate_badges(&s),
        vec![Badge::DailyGrinder, Badge::YearLongDedication, Badge::MarathonRunner]
    );
    let a = calculate_achievements(&s);
    assert_eq!(a.len(), 3);
    assert_eq!(a[0].name, "Daily Grinder");
    assert_eq!(a[0].tier, Tier::Legendary);
    assert_eq!(a[1].name, "Year-Long Dedication");
    assert_eq!(a[1].tier, Tier::Legendary);
    assert_eq!(a[2].name, "Marathon Runner");
    assert_eq!(a[2].tier, Tier::Gold);
    assert_eq!(count_in_tier(&a, Tier::Legendary), 2);
    assert_eq!(count_in_tier(&a, Tier::Gold), 1);
    assert_eq!(count_in_tier(&a, Tier::Bronze), 0);
}

#[test]
fn strong_finish_at_exactly_one_hundred() {
    let mut s = repeat(4, 10);
    s.extend(repeat(3, 20));
    s.extend(repeat(0, 30));
    assert_eq!(s.len(), 60);
    assert!(has_strong_finish(&s));
    s[0] = 3;
    assert!(!has_strong_finish(&s));
}

#[test]
fn strong_finish_needs_sixty_days_and_thirty_active() {
    let mut s = repeat(0, 1);
    s.extend(repeat(100, 29));
    s.extend(repeat(0, 29));
    assert!(!has_strong_finish(&s));
    let mut t = repeat(0, 31);
    t.extend(repeat(100, 29));
    assert!(!has_strong_finish(&t));
    let mut u = repeat(50, 40);
    u.extend(repeat(4, 30));
    assert!(has_strong_finish(&u));
    let b = calculate_badges(&u);
    assert_eq!(b.last(), Some(&Badge::StrongFinish));
}

#[test]
fn comeback_after_a_long_gap() {
    let mut s = repeat(0, 30);
    s.extend(repeat(1, 10));
    assert!(has_comeback_story(&s));
    let mut short_run = repeat(0, 30);
    short_run.extend(repeat(1, 9));
    assert!(!has_comeback_story(&short_run));
    let mut short_gap = repeat(0, 29);
    short_gap.extend(repeat(1, 10));
    assert!(!has_comeback_story(&short_gap));
    let mut two = repeat(5, 3);
    two.extend(repeat(0, 30));
    two.extend(repeat(1, 5));
    two.extend(repeat(0, 31));
    two.extend(repeat(1, 5));
    assert!(has_comeback_story(&two));
    let a = calculate_achievements(&two);
    assert!(a.iter().any(|x| x.name == "The Comeback" && x.tier == Tier::Bronze));
}

#[test]
fn badge_texts_and_tier_colors() {
    assert_eq!(Badge::QualityOverQuantity.name(), "Quality over Quantity");
    assert_eq!(Badge::EfficientCoder.icon(), "⚙️");
    assert_eq!(Badge::StrongFinish.tier(), Tier::Silver);
    assert_eq!(Tier::Gold.color(), Style { color: Color::BrightYellow, bold: false });
    assert_eq!(Tier::Legendary.color(), Style { color: Color::BrightMagenta, bold: false });
}

#[test]
fn longest_streak_is_bounded_and_zero_without_activity() {
    assert_eq!(calculate_longest_streak(&[0, 0, 0]), 0);
    assert_eq!(calculate_longest_streak(&[0, 3, 0]), 1);
    assert_eq!(calculate_longest_streak(&[1, 2, 0, 4, 5, 6, 0]), 3);
    assert_eq!(calculate_longest_streak(&[7, 7, 7]), 3);
    assert_eq!(count_active_days(&[1, 0, 2]), 2);
    assert_eq!(peak_contributions(&[1, 9, 2]), 9);
    assert_eq!(total_contributions(&[u32::MAX, u32::MAX]), 2 * u32::MAX as u128);
}
