//! Achievements: independent threshold ladders and pattern detectors over a
//! contribution series, each unlocking at most one badge.
use vstd::prelude::*;
use crate::stats::{
    total_of, peak_of, active_of, longest_run, run_at_end, lemma_prefix_step, lemma_run_bounds,
    lemma_total_bounds, total_contributions, peak_contributions, count_active_days,
    calculate_longest_streak,
};
use crate::style::{Color, Style, plain};

verus! {

/// Rank of an achievement, used to group them on display.
#[derive(Clone, Copy, Debug, PartialEq, Eq, Structural)]
pub enum Tier {
    Bronze,
    Silver,
    Gold,
    Legendary,
}

impl Tier {
    /// The style a tier's achievement names are drawn in.
    pub fn color(&self) -> (r: Style)
        ensures
            r == (Style { color: tier_color(*self), bold: false }),
    {
        match self {
            Tier::Bronze => plain(Color::Yellow),
            Tier::Silver => plain(Color::BrightWhite),
            Tier::Gold => plain(Color::BrightYellow),
            Tier::Legendary => plain(Color::BrightMagenta),
        }
    }
}

/// Colour of each tier.
pub open spec fn tier_color(t: Tier) -> Color {
    match t {
        Tier::Bronze => Color::Yellow,
        Tier::Silver => Color::BrightWhite,
        Tier::Gold => Color::BrightYellow,
        Tier::Legendary => Color::BrightMagenta,
    }
}

/// Every achievement that a series can unlock.
#[derive(Clone, Copy, Debug, PartialEq, Eq, Structural)]
pub enum Badge {
    CodeTitan,
    CodingMachine,
    ProlificCoder,
    ActiveDeveloper,
    DailyGrinder,
    SteadyCoder,
    RegularContributor,
    WeekendWarrior,
    YearLongDedication,
    Centurion,
    MonthlyMarathon,
    WeekWarrior,
    PowerUser,
    HighRoller,
    BigDay,
    QualityOverQuantity,
    EfficientCoder,
    MarathonRunner,
    PerfectMonth,
    TheComeback,
    StrongFinish,
}

/// Tier of each badge.
pub open spec fn badge_tier(b: Badge) -> Tier {
    match b {
        Badge::CodeTitan => Tier::Legendary,
        Badge::CodingMachine => Tier::Gold,
        Badge::ProlificCoder => Tier::Silver,
        Badge::ActiveDeveloper => Tier::Bronze,
        Badge::DailyGrinder => Tier::Legendary,
        Badge::SteadyCoder => Tier::Gold,
        Badge::RegularContributor => Tier::Silver,
        Badge::WeekendWarrior => Tier::Bronze,
        Badge::YearLongDedication => Tier::Legendary,
        Badge::Centurion => Tier::Gold,
        Badge::MonthlyMarathon => Tier::Silver,
        Badge::WeekWarrior => Tier::Bronze,
        Badge::PowerUser => Tier::Gold,
        Badge::HighRoller => Tier::Silver,
        Badge::BigDay => Tier::Bronze,
        Badge::QualityOverQuantity => Tier::Gold,
        Badge::EfficientCoder => Tier::Silver,
        Badge::MarathonRunner => Tier::Gold,
        Badge::PerfectMonth => Tier::Silver,
        Badge::TheComeback => Tier::Bronze,
        Badge::StrongFinish => Tier::Silver,
    }
}

/// Display name of each badge.
pub open spec fn badge_name(b: Badge) -> Seq<char> {
    match b {
        Badge::CodeTitan => "Code Titan"@,
        Badge::CodingMachine => "Coding Machine"@,
        Badge::ProlificCoder => "Prolific Coder"@,
        Badge::ActiveDeveloper => "Active Developer"@,
        Badge::DailyGrinder => "Daily Grinder"@,
        Badge::SteadyCoder => "Steady Coder"@,
        Badge::RegularContributor => "Regular Contributor"@,
        Badge::WeekendWarrior => "Weekend Warrior"@,
        Badge::YearLongDedication => "Year-Long Dedication"@,
        Badge::Centurion => "Centurion"@,
        Badge::MonthlyMarathon => "Monthly Marathon"@,
        Badge::WeekWarrior => "Week Warrior"@,
        Badge::PowerUser => "Power User"@,
        Badge::HighRoller => "High Roller"@,
        Badge::BigDay => "Big Day"@,
        Badge::QualityOverQuantity => "Quality over Quantity"@,
        Badge::EfficientCoder => "Efficient Coder"@,
        Badge::MarathonRunner => "Marathon Runner"@,
        Badge::PerfectMonth => "Perfect Month"@,
        Badge::TheComeback => "The Comeback"@,
        Badge::StrongFinish => "Strong Finish"@,
    }
}

/// One-line description of each badge.
pub open spec fn badge_description(b: Badge) -> Seq<char> {
    match b {
        Badge::CodeTitan => "Made 10,000+ contributions in a year"@,
        Badge::CodingMachine => "Made 5,000+ contributions in a year"@,
        Badge::ProlificCoder => "Made 2,500+ contributions in a year"@,
        Badge::ActiveDeveloper => "Made 1,000+ contributions in a year"@,
        Badge::DailyGrinder => "Active on 90%+ of tracked days"@,
        Badge::SteadyCoder => "Active on 70%+ of tracked days"@,
        Badge::RegularContributor => "Active on 50%+ of tracked days"@,
        Badge::WeekendWarrior => "Active on 25%+ of tracked days"@,
        Badge::YearLongDedication => "Maintained a 365+ day streak"@,
        Badge::Centurion => "Maintained a 100+ day streak"@,
        Badge::MonthlyMarathon => "Maintained a 30+ day streak"@,
        Badge::WeekWarrior => "Maintained a 7+ day streak"@,
        Badge::PowerUser => "Made 50+ contributions in a single day"@,
        Badge::HighRoller => "Made 25+ contributions in a single day"@,
        Badge::BigDay => "Made 10+ contributions in a single day"@,
        Badge::QualityOverQuantity => "Average 20+ contributions per active day"@,
        Badge::EfficientCoder => "Average 10+ contributions per active day"@,
        Badge::MarathonRunner => "Had 3+ perfect months (30 days straight)"@,
        Badge::PerfectMonth => "Had at least one perfect month (30 days straight)"@,
        Badge::TheComeback => "Returned to coding after a long break"@,
        Badge::StrongFinish => "Ended the year with high activity"@,
    }
}

/// Icon of each badge.
pub open spec fn badge_icon(b: Badge) -> Seq<char> {
    match b {
        Badge::CodeTitan => "🏆"@,
        Badge::CodingMachine => "🥇"@,
        Badge::ProlificCoder => "🥈"@,
        Badge::ActiveDeveloper => "🥉"@,
        Badge::DailyGrinder => "⚡"@,
        Badge::SteadyCoder => "📈"@,
        Badge::RegularContributor => "📊"@,
        Badge::WeekendWarrior => "🏃"@,
        Badge::YearLongDedication => "🔥"@,
        Badge::Centurion => "💯"@,
        Badge::MonthlyMarathon => "🏁"@,
        Badge::WeekWarrior => "📅"@,
        Badge::PowerUser => "⚡"@,
        Badge::HighRoller => "🎯"@,
        Badge::BigDay => "📈"@,
        Badge::QualityOverQuantity => "💎"@,
        Badge::EfficientCoder => "⚙️"@,
        Badge::MarathonRunner => "🏃‍♂️"@,
        Badge::PerfectMonth => "📅"@,
        Badge::TheComeback => "🔄"@,
        Badge::StrongFinish => "🎯"@,
    }
}

impl Badge {
    /// The badge's tier.
    pub fn tier(&self) -> (r: Tier)
        ensures
            r == badge_tier(*self),
    {
        match self {
            Badge::CodeTitan => Tier::Legendary,
            Badge::CodingMachine => Tier::Gold,
            Badge::ProlificCoder => Tier::Silver,
            Badge::ActiveDeveloper => Tier::Bronze,
            Badge::DailyGrinder => Tier::Legendary,
            Badge::SteadyCoder => Tier::Gold,
            Badge::RegularContributor => Tier::Silver,
            Badge::WeekendWarrior => Tier::Bronze,
            Badge::YearLongDedication => Tier::Legendary,
            Badge::Centurion => Tier::Gold,
            Badge::MonthlyMarathon => Tier::Silver,
            Badge::WeekWarrior => Tier::Bronze,
            Badge::PowerUser => Tier::Gold,
            Badge::HighRoller => Tier::Silver,
            Badge::BigDay => Tier::Bronze,
            Badge::QualityOverQuantity => Tier::Gold,
            Badge::EfficientCoder => Tier::Silver,
            Badge::MarathonRunner => Tier::Gold,
            Badge::PerfectMonth => Tier::Silver,
            Badge::TheComeback => Tier::Bronze,
            Badge::StrongFinish => Tier::Silver,
        }
    }

    /// The badge's display name.
    pub fn name(&self) -> (r: &'static str)
        ensures
            r@ == badge_name(*self),
    {
        match self {
            Badge::CodeTitan => "Code Titan",
            Badge::CodingMachine => "Coding Machine",
            Badge::ProlificCoder => "Prolific Coder",
            Badge::ActiveDeveloper => "Active Developer",
            Badge::DailyGrinder => "Daily Grinder",
            Badge::SteadyCoder => "Steady Coder",
            Badge::RegularContributor => "Regular Contributor",
            Badge::WeekendWarrior => "Weekend Warrior",
            Badge::YearLongDedication => "Year-Long Dedication",
            Badge::Centurion => "Centurion",
            Badge::MonthlyMarathon => "Monthly Marathon",
            Badge::WeekWarrior => "Week Warrior",
            Badge::PowerUser => "Power User",
            Badge::HighRoller => "High Roller",
            Badge::BigDay => "Big Day",
            Badge::QualityOverQuantity => "Quality over Quantity",
            Badge::EfficientCoder => "Efficient Coder",
            Badge::MarathonRunner => "Marathon Runner",
            Badge::PerfectMonth => "Perfect Month",
            Badge::TheComeback => "The Comeback",
            Badge::StrongFinish => "Strong Finish",
        }
    }

    /// The badge's one-line description.
    pub fn description(&self) -> (r: &'static str)
        ensures
            r@ == badge_description(*self),
    {
        match self {
            Badge::CodeTitan => "Made 10,000+ contributions in a year",
            Badge::CodingMachine => "Made 5,000+ contributions in a year",
            Badge::ProlificCoder => "Made 2,500+ contributions in a year",
            Badge::ActiveDeveloper => "Made 1,000+ contributions in a year",
            Badge::DailyGrinder => "Active on 90%+ of tracked days",
            Badge::SteadyCoder => "Active on 70%+ of tracked days",
            Badge::RegularContributor => "Active on 50%+ of tracked days",
            Badge::WeekendWarrior => "Active on 25%+ of tracked days",
            Badge::YearLongDedication => "Maintained a 365+ day streak",
            Badge::Centurion => "Maintained a 100+ day streak",
            Badge::MonthlyMarathon => "Maintained a 30+ day streak",
            Badge::WeekWarrior => "Maintained a 7+ day streak",
            Badge::PowerUser => "Made 50+ contributions in a single day",
            Badge::HighRoller => "Made 25+ contributions in a single day",
            Badge::BigDay => "Made 10+ contributions in a single day",
            Badge::QualityOverQuantity => "Average 20+ contributions per active day",
            Badge::EfficientCoder => "Average 10+ contributions per active day",
            Badge::MarathonRunner => "Had 3+ perfect months (30 days straight)",
            Badge::PerfectMonth => "Had at least one perfect month (30 days straight)",
            Badge::TheComeback => "Returned to coding after a long break",
            Badge::StrongFinish => "Ended the year with high activity",
        }
    }

    /// The badge's icon.
    pub fn icon(&self) -> (r: &'static str)
        ensures
            r@ == badge_icon(*self),
    {
        match self {
            Badge::CodeTitan => "🏆",
            Badge::CodingMachine => "🥇",
            Badge::ProlificCoder => "🥈",
            Badge::ActiveDeveloper => "🥉",
            Badge::DailyGrinder => "⚡",
            Badge::SteadyCoder => "📈",
            Badge::RegularContributor => "📊",
            Badge::WeekendWarrior => "🏃",
            Badge::YearLongDedication => "🔥",
            Badge::Centurion => "💯",
            Badge::MonthlyMarathon => "🏁",
            Badge::WeekWarrior => "📅",
            Badge::PowerUser => "⚡",
            Badge::HighRoller => "🎯",
            Badge::BigDay => "📈",
            Badge::QualityOverQuantity => "💎",
            Badge::EfficientCoder => "⚙️",
            Badge::MarathonRunner => "🏃‍♂️",
            Badge::PerfectMonth => "📅",
            Badge::TheComeback => "🔄",
            Badge::StrongFinish => "🎯",
        }
    }
}

/// An unlocked achievement, as shown to the user.
#[derive(Debug)]
pub struct Achievement {
    pub name: String,
    pub description: String,
    pub icon: String,
    pub tier: Tier,
}

impl Achievement {
    /// This achievement carries exactly the texts and tier of badge `b`.
    pub open spec fn shows(&self, b: Badge) -> bool {
        &&& self.name@ == badge_name(b)
        &&& self.description@ == badge_description(b)
        &&& self.icon@ == badge_icon(b)
        &&& self.tier == badge_tier(b)
    }

    /// The achievement that displays badge `b`.
    pub fn from_badge(b: Badge) -> (r: Achievement)
        ensures
            r.shows(b),
    {
        Achievement {
            name: b.name().to_owned(),
            description: b.description().to_owned(),
            icon: b.icon().to_owned(),
            tier: b.tier(),
        }
    }
}

/// Total ladder: the highest threshold that `total` meets.
pub open spec fn total_badge(total: int) -> Option<Badge> {
    if total >= 10000 {
        Some(Badge::CodeTitan)
    } else if total >= 5000 {
        Some(Badge::CodingMachine)
    } else if total >= 2500 {
        Some(Badge::ProlificCoder)
    } else if total >= 1000 {
        Some(Badge::ActiveDeveloper)
    } else {
        None
    }
}

/// Consistency ladder over the share `active / days` of active days; an
/// empty series has share 0.
pub open spec fn consistency_badge(active: int, days: int) -> Option<Badge> {
    if days <= 0 {
        None
    } else if 100 * active >= 90 * days {
        Some(Badge::DailyGrinder)
    } else if 100 * active >= 70 * days {
        Some(Badge::SteadyCoder)
    } else if 100 * active >= 50 * days {
        Some(Badge::RegularContributor)
    } else if 100 * active >= 25 * days {
        Some(Badge::WeekendWarrior)
    } else {
        None
    }
}

/// Streak ladder over the longest run of active days.
pub open spec fn streak_badge(longest: int) -> Option<Badge> {
    if longest >= 365 {
        Some(Badge::YearLongDedication)
    } else if longest >= 100 {
        Some(Badge::Centurion)
    } else if longest >= 30 {
        Some(Badge::MonthlyMarathon)
    } else if longest >= 7 {
        Some(Badge::WeekWarrior)
    } else {
        None
    }
}

/// Peak ladder over the largest single-day count.
pub open spec fn peak_badge(peak: int) -> Option<Badge> {
    if peak >= 50 {
        Some(Badge::PowerUser)
    } else if peak >= 25 {
        Some(Badge::HighRoller)
    } else if peak >= 10 {
        Some(Badge::BigDay)
    } else {
        None
    }
}

/// Average ladder over `total / active`, which is 0 when no day is active.
pub open spec fn average_badge(total: int, active: int) -> Option<Badge> {
    if active <= 0 {
        None
    } else if total >= 20 * active {
        Some(Badge::QualityOverQuantity)
    } else if total >= 10 * active {
        Some(Badge::EfficientCoder)
    } else {
        None
    }
}

/// Number of perfect months: the days on which the current run of active
/// days reaches a positive multiple of 30 (the counter restarts after each).
pub open spec fn perfect_months_of(s: Seq<u32>) -> nat
    decreases s.len(),
{
    if s.len() == 0 {
        0
    } else {
        perfect_months_of(s.drop_last()) + if s.last() > 0 && run_at_end(s) % 30 == 0 {
            1nat
        } else {
            0nat
        }
    }
}

/// Perfect-month ladder.
pub open spec fn perfect_month_badge(months: int) -> Option<Badge> {
    if months >= 3 {
        Some(Badge::MarathonRunner)
    } else if months >= 1 {
        Some(Badge::PerfectMonth)
    } else {
        None
    }
}

/// Length of the run of zero entries that ends the series.
pub open spec fn zeros_at_end(s: Seq<u32>) -> nat
    decreases s.len(),
{
    if s.len() == 0 {
        0
    } else if s.last() == 0 {
        zeros_at_end(s.drop_last()) + 1
    } else {
        0
    }
}

/// The last day is active and belongs to a run that began right after a
/// gap of at least 30 zero days.
pub open spec fn in_comeback_run(s: Seq<u32>) -> bool
    decreases s.len(),
{
    s.len() > 0 && s.last() > 0 && (in_comeback_run(s.drop_last()) || zeros_at_end(
        s.drop_last(),
    ) >= 30)
}

/// Number of active days in runs that began right after a gap of at least
/// 30 zero days.
pub open spec fn comeback_days_of(s: Seq<u32>) -> nat
    decreases s.len(),
{
    if s.len() == 0 {
        0
    } else {
        comeback_days_of(s.drop_last()) + if in_comeback_run(s) {
            1nat
        } else {
            0nat
        }
    }
}

/// A comeback: at least 10 active days in runs that followed a gap of 30
/// or more zero days.
pub open spec fn is_comeback(s: Seq<u32>) -> bool {
    comeback_days_of(s) >= 10
}

/// The last 60 entries of a series of at least 60.
pub open spec fn last_sixty(s: Seq<u32>) -> Seq<u32> {
    s.subrange(s.len() - 60, s.len() as int)
}

/// A strong finish: at least 60 days, and the last 60 hold a sum of at
/// least 100 over at least 30 active days.
pub open spec fn is_strong_finish(s: Seq<u32>) -> bool {
    s.len() >= 60 && total_of(last_sixty(s)) >= 100 && active_of(last_sixty(s)) >= 30
}

/// The badge of an optional ladder result, as a sequence of zero or one.
pub open spec fn opt_seq(o: Option<Badge>) -> Seq<Badge> {
    match o {
        Some(b) => seq![b],
        None => seq![],
    }
}

/// A badge when a detector fires.
pub open spec fn when(fires: bool, b: Badge) -> Seq<Badge> {
    if fires {
        seq![b]
    } else {
        seq![]
    }
}

/// Every badge a series unlocks, ladder by ladder in a fixed order.
pub open spec fn badges_of(s: Seq<u32>) -> Seq<Badge> {
    opt_seq(total_badge(total_of(s))) + opt_seq(consistency_badge(active_of(s) as int, s.len() as int))
        + opt_seq(streak_badge(longest_run(s) as int)) + opt_seq(peak_badge(peak_of(s)))
        + opt_seq(average_badge(total_of(s), active_of(s) as int)) + opt_seq(
        perfect_month_badge(perfect_months_of(s) as int),
    ) + when(is_comeback(s), Badge::TheComeback) + when(is_strong_finish(s), Badge::StrongFinish)
}

/// Each achievement displays the badge at the same position.
pub open spec fn shows_all(a: Seq<Achievement>, bs: Seq<Badge>) -> bool {
    a.len() == bs.len() && forall|i: int| 0 <= i < a.len() ==> #[trigger] a[i].shows(bs[i])
}

/// Total ladder.
pub fn check_total_achievements(total: u128) -> (r: Option<Badge>)
    ensures
        r == total_badge(total as int),
{
    if total >= 10000 {
        Some(Badge::CodeTitan)
    } else if total >= 5000 {
        Some(Badge::CodingMachine)
    } else if total >= 2500 {
        Some(Badge::ProlificCoder)
    } else if total >= 1000 {
        Some(Badge::ActiveDeveloper)
    } else {
        None
    }
}

/// Consistency ladder; `active_days` is the number of active entries of `s`.
pub fn check_consistency_achievements(s: &[u32], active_days: usize) -> (r: Option<Badge>)
    ensures
        r == consistency_badge(active_days as int, s.len() as int),
{
    let days = s.len() as u128;
    let active = active_days as u128;
    if days == 0 {
        None
    } else if 100 * active >= 90 * days {
        Some(Badge::DailyGrinder)
    } else if 100 * active >= 70 * days {
        Some(Badge::SteadyCoder)
    } else if 100 * active >= 50 * days {
        Some(Badge::RegularContributor)
    } else if 100 * active >= 25 * days {
        Some(Badge::WeekendWarrior)
    } else {
        None
    }
}

/// Streak ladder.
pub fn check_streak_achievements(longest_streak: usize) -> (r: Option<Badge>)
    ensures
        r == streak_badge(longest_streak as int),
{
    if longest_streak >= 365 {
        Some(Badge::YearLongDedication)
    } else if longest_streak >= 100 {
        Some(Badge::Centurion)
    } else if longest_streak >= 30 {
        Some(Badge::MonthlyMarathon)
    } else if longest_streak >= 7 {
        Some(Badge::WeekWarrior)
    } else {
        None
    }
}

/// The two intensity ladders: peak day, then average per active day.
pub fn check_intensity_achievements(max_day: u32, total: u128, active_days: usize) -> (r: (
    Option<Badge>,
    Option<Badge>,
))
    ensures
        r.0 == peak_badge(max_day as int),
        r.1 == average_badge(total as int, active_days as int),
{
    let peak = if max_day >= 50 {
        Some(Badge::PowerUser)
    } else if max_day >= 25 {
        Some(Badge::HighRoller)
    } else if max_day >= 10 {
        Some(Badge::BigDay)
    } else {
        None
    };
    let active = active_days as u128;
    let average = if active == 0 {
        None
    } else if total >= 20 * active {
        Some(Badge::QualityOverQuantity)
    } else if total >= 10 * active {
        Some(Badge::EfficientCoder)
    } else {
        None
    };
    (peak, average)
}

/// Counts perfect months: a running counter of consecutive active days that
/// restarts on a zero day and after each 30.
pub fn count_perfect_months(s: &[u32]) -> (r: usize)
    ensures
        r == perfect_months_of(s@),
{
    let mut months: usize = 0;
    let mut current: usize = 0;
    let mut i: usize = 0;
    while i < s.len()
        invariant
            i <= s.len(),
            current == run_at_end(s@.subrange(0, i as int)) % 30,
            months == perfect_months_of(s@.subrange(0, i as int)),
            months <= i,
        decreases s.len() - i,
    {
        proof {
            lemma_prefix_step(s@, i as int);
        }
        if s[i] > 0 {
            current = current + 1;
            if current >= 30 {
                months = months + 1;
                current = 0;
            }
        } else {
            current = 0;
        }
        i = i + 1;
    }
    proof {
        assert(s@.subrange(0, s.len() as int) =~= s@);
    }
    months
}

/// Whether the series holds a comeback.
pub fn has_comeback_story(s: &[u32]) -> (r: bool)
    ensures
        r == is_comeback(s@),
{
    let mut gap: usize = 0;
    let mut in_run = false;
    let mut days: usize = 0;
    let mut i: usize = 0;
    while i < s.len()
        invariant
            i <= s.len(),
            gap == zeros_at_end(s@.subrange(0, i as int)),
            in_run == in_comeback_run(s@.subrange(0, i as int)),
            days == comeback_days_of(s@.subrange(0, i as int)),
            gap <= i,
            days <= i,
        decreases s.len() - i,
    {
        proof {
            lemma_prefix_step(s@, i as int);
        }
        if s[i] == 0 {
            gap = gap + 1;
            in_run = false;
        } else {
            in_run = in_run || gap >= 30;
            gap = 0;
            if in_run {
                days = days + 1;
            }
        }
        i = i + 1;
    }
    proof {
        assert(s@.subrange(0, s.len() as int) =~= s@);
    }
    days >= 10
}

/// Whether the series ends strongly.
pub fn has_strong_finish(s: &[u32]) -> (r: bool)
    ensures
        r == is_strong_finish(s@),
{
    if s.len() < 60 {
        return false;
    }
    let start = s.len() - 60;
    let ghost tail = last_sixty(s@);
    let mut total: u128 = 0;
    let mut active: usize = 0;
    let mut i: usize = start;
    while i < s.len()
        invariant
            start == s.len() - 60,
            start <= i <= s.len(),
            tail == s@.subrange(start as int, s.len() as int),
            total == total_of(tail.subrange(0, i - start)),
            active == active_of(tail.subrange(0, i - start)),
            active <= i - start,
        decreases s.len() - i,
    {
        proof {
            lemma_prefix_step(tail, i - start);
            lemma_total_bounds(tail.subrange(0, i - start));
            lemma_run_bounds(tail.subrange(0, i - start));
        }
        total = total + s[i] as u128;
        if s[i] > 0 {
            active = active + 1;
        }
        i = i + 1;
    }
    proof {
        assert(tail.subrange(0, 60) =~= tail);
    }
    total >= 100 && active >= 30
}

/// Every badge the series unlocks, in ladder order.
pub fn calculate_badges(s: &[u32]) -> (r: Vec<Badge>)
    ensures
        r@ == badges_of(s@),
{
    let total = total_contributions(s);
    let max_day = peak_contributions(s);
    let active_days = count_active_days(s);
    let longest_streak = calculate_longest_streak(s);
    let mut badges: Vec<Badge> = Vec::new();
    push_some(&mut badges, check_total_achievements(total));
    push_some(&mut badges, check_consistency_achievements(s, active_days));
    push_some(&mut badges, check_streak_achievements(longest_streak));
    let (peak, average) = check_intensity_achievements(max_day, total, active_days);
    push_some(&mut badges, peak);
    push_some(&mut badges, average);
    let mut patterns = check_pattern_achievements(s);
    badges.append(&mut patterns);
    badges
}

/// Badges of the pattern detectors: the perfect-month ladder, then the
/// comeback, then the strong finish, each independent of the others.
pub fn check_pattern_achievements(s: &[u32]) -> (r: Vec<Badge>)
    ensures
        r@ == opt_seq(perfect_month_badge(perfect_months_of(s@) as int)) + when(
            is_comeback(s@),
            Badge::TheComeback,
        ) + when(is_strong_finish(s@), Badge::StrongFinish),
{
    let mut badges: Vec<Badge> = Vec::new();
    let months = count_perfect_months(s);
    let perfect = if months >= 3 {
        Some(Badge::MarathonRunner)
    } else if months >= 1 {
        Some(Badge::PerfectMonth)
    } else {
        None
    };
    push_some(&mut badges, perfect);
    if has_comeback_story(s) {
        badges.push(Badge::TheComeback);
    }
    if has_strong_finish(s) {
        badges.push(Badge::StrongFinish);
    }
    proof {
        assert(badges@ =~= opt_seq(perfect_month_badge(perfect_months_of(s@) as int)) + when(
            is_comeback(s@),
            Badge::TheComeback,
        ) + when(is_strong_finish(s@), Badge::StrongFinish));
    }
    badges
}

/// Appends the badge of a ladder, if it has one.
fn push_some(badges: &mut Vec<Badge>, o: Option<Badge>)
    ensures
        final(badges)@ == old(badges)@ + opt_seq(o),
{
    match o {
        Some(b) => badges.push(b),
        None => {},
    }
}

/// Every achievement the series unlocks.
pub fn calculate_achievements(contributions: &[u32]) -> (r: Vec<Achievement>)
    ensures
        shows_all(r@, badges_of(contributions@)),
{
    let badges = calculate_badges(contributions);
    let mut achievements: Vec<Achievement> = Vec::new();
    let mut i: usize = 0;
    while i < badges.len()
        invariant
            i <= badges.len(),
            shows_all(achievements@, badges@.subrange(0, i as int)),
        decreases badges.len() - i,
    {
        achievements.push(Achievement::from_badge(badges[i]));
        i = i + 1;
        proof {
            assert forall|j: int| 0 <= j < achievements@.len() implies #[trigger] achievements@[j].shows(
                badges@.subrange(0, i as int)[j],
            ) by {
                assert(badges@.subrange(0, i as int)[j] == badges@[j]);
                if j < i - 1 {
                    assert(badges@.subrange(0, i - 1)[j] == badges@[j]);
                }
            }
        }
    }
    proof {
        assert(badges@.subrange(0, badges.len() as int) =~= badges@);
    }
    achievements
}

/// Number of achievements of tier `t`.
pub open spec fn tier_count(a: Seq<Achievement>, t: Tier) -> nat
    decreases a.len(),
{
    if a.len() == 0 {
        0
    } else {
        tier_count(a.drop_last(), t) + if a.last().tier == t {
            1nat
        } else {
            0nat
        }
    }
}

/// Counts the achievements of one tier, for the summary under the list.
pub fn count_in_tier(a: &[Achievement], t: Tier) -> (r: usize)
    ensures
        r == tier_count(a@, t),
{
    let mut n: usize = 0;
    let mut i: usize = 0;
    while i < a.len()
        invariant
            i <= a.len(),
            n <= i,
            n == tier_count(a@.subrange(0, i as int), t),
        decreases a.len() - i,
    {
        proof {
            assert(a@.subrange(0, i + 1).drop_last() =~= a@.subrange(0, i as int));
        }
        if a[i].tier == t {
            n = n + 1;
        }
        i = i + 1;
    }
    proof {
        assert(a@.subrange(0, a.len() as int) =~= a@);
    }
    n
}

/// On an unbroken run of active days, the perfect-month counter restarts
/// after every 30: a run of `n` days holds `n / 30` perfect months.
pub proof fn lemma_perfect_months_of_run(s: Seq<u32>)
    requires
        forall|i: int| 0 <= i < s.len() ==> s[i] > 0,
    ensures
        run_at_end(s) == s.len(),
        perfect_months_of(s) == s.len() / 30,
    decreases s.len(),
{
    if s.len() > 0 {
        let p = s.drop_last();
        assert forall|i: int| 0 <= i < p.len() implies p[i] > 0 by {
            assert(p[i] == s[i]);
        }
        lemma_perfect_months_of_run(p);
        assert(s.last() > 0);
    }
}

/// An empty series unlocks nothing.
pub proof fn lemma_empty_unlocks_nothing(s: Seq<u32>)
    requires
        s.len() == 0,
    ensures
        badges_of(s) == Seq::<Badge>::empty(),
{
    assert(badges_of(s) =~= Seq::<Badge>::empty());
}

} // verus!
