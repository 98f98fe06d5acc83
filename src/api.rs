//! The contribution calendar as the GitHub GraphQL API returns it, and the
//! checks that turn a response into a series or an error.
use vstd::prelude::*;
use vstd::string::*;
use crate::text::{alphanumeric, trimmed_of, is_alphanumeric, trim_text};

verus! {

/// A GraphQL response: data, errors, or both.
#[derive(Debug)]
pub struct GraphQLResponse {
    pub data: Option<Data>,
    pub errors: Option<Vec<GraphQLError>>,
}

/// One error the API reported.
#[derive(Debug)]
pub struct GraphQLError {
    pub message: String,
}

/// The response's data.
#[derive(Debug)]
pub struct Data {
    pub user: Option<User>,
}

/// The requested user.
#[derive(Debug)]
pub struct User {
    pub contributions_collection: ContributionsCollection,
}

/// The user's contributions.
#[derive(Debug)]
pub struct ContributionsCollection {
    pub contribution_calendar: ContributionCalendar,
}

/// The contribution calendar, week by week.
#[derive(Debug)]
pub struct ContributionCalendar {
    pub total_contributions: u32,
    pub weeks: Vec<Week>,
}

/// One week of days.
#[derive(Debug)]
pub struct Week {
    pub contribution_days: Vec<ContributionDay>,
}

/// One day's count.
#[derive(Debug)]
pub struct ContributionDay {
    pub contribution_count: u32,
    pub date: String,
}

/// Why a calendar could not be had.
#[derive(Debug)]
pub enum FetchError {
    /// The request did not get through.
    Network(String),
    /// The API answered with an unsuccessful HTTP status.
    Status(u16),
    /// The token is missing, empty or malformed.
    Authentication(String),
    /// The API reported errors.
    GraphQl(Vec<GraphQLError>),
    /// The response held no data.
    NoData,
    /// The response named no such user.
    UserNotFound,
    /// The response body was not the expected JSON.
    Malformed(String),
}

/// Counts of a run of days, in order.
pub open spec fn day_counts(days: Seq<ContributionDay>) -> Seq<u32> {
    days.map_values(|d: ContributionDay| d.contribution_count)
}

/// Counts of all days of a run of weeks, week after week.
pub open spec fn week_counts(weeks: Seq<Week>) -> Seq<u32>
    decreases weeks.len(),
{
    if weeks.len() == 0 {
        seq![]
    } else {
        week_counts(weeks.drop_last()) + day_counts(weeks.last().contribution_days@)
    }
}

impl ContributionCalendar {
    /// Flattens the weeks and days into a single vector of contribution
    /// counts.
    pub fn flatten_contributions(&self) -> (r: Vec<u32>)
        ensures
            r@ == week_counts(self.weeks@),
    {
        let mut counts: Vec<u32> = Vec::new();
        let mut i: usize = 0;
        while i < self.weeks.len()
            invariant
                i <= self.weeks@.len(),
                counts@ == week_counts(self.weeks@.subrange(0, i as int)),
            decreases self.weeks@.len() - i,
        {
            let days = &self.weeks[i].contribution_days;
            let ghost before = counts@;
            let mut j: usize = 0;
            while j < days.len()
                invariant
                    j <= days@.len(),
                    counts@ == before + day_counts(days@.subrange(0, j as int)),
                decreases days@.len() - j,
            {
                counts.push(days[j].contribution_count);
                j = j + 1;
                proof {
                    assert(day_counts(days@.subrange(0, j as int)) =~= day_counts(
                        days@.subrange(0, j - 1),
                    ).push(days@[j - 1].contribution_count));
                }
            }
            proof {
                assert(days@.subrange(0, days@.len() as int) =~= days@);
                assert(self.weeks@.subrange(0, i + 1).drop_last() =~= self.weeks@.subrange(
                    0,
                    i as int,
                ));
            }
            i = i + 1;
        }
        proof {
            assert(self.weeks@.subrange(0, self.weeks@.len() as int) =~= self.weeks@);
        }
        counts
    }
}

/// The outcome a response leads to: the API's errors when it reported any,
/// else an error when data or user is missing, else the user's calendar.
pub open spec fn response_outcome(
    response: GraphQLResponse,
    r: Result<ContributionCalendar, FetchError>,
) -> bool {
    match response.errors {
        Some(es) => r matches Err(FetchError::GraphQl(e)) && e == es,
        None => match response.data {
            None => r matches Err(FetchError::NoData),
            Some(d) => match d.user {
                None => r matches Err(FetchError::UserNotFound),
                Some(u) => r == Ok::<ContributionCalendar, FetchError>(
                    u.contributions_collection.contribution_calendar,
                ),
            },
        },
    }
}

/// Takes the calendar out of a response.
pub fn into_calendar(response: GraphQLResponse) -> (r: Result<ContributionCalendar, FetchError>)
    ensures
        response_outcome(response, r),
{
    match response.errors {
        Some(errors) => Err(FetchError::GraphQl(errors)),
        None => match response.data {
            None => Err(FetchError::NoData),
            Some(data) => match data.user {
                None => Err(FetchError::UserNotFound),
                Some(user) => Ok(user.contributions_collection.contribution_calendar),
            },
        },
    }
}

/// A well-formed token: not empty, and only letters, digits and
/// underscores.
pub open spec fn token_ok(t: Seq<char>) -> bool {
    t.len() > 0 && forall|i: int| 0 <= i < t.len() ==> alphanumeric(#[trigger] t[i]) || t[i] == '_'
}

/// Checks an already trimmed token.
pub fn check_trimmed_token(t: String) -> (r: Result<String, FetchError>)
    ensures
        r is Ok <==> token_ok(t@),
        r matches Ok(x) ==> x@ == t@,
        r matches Err(e) ==> e is Authentication,
{
    let n = t.as_str().unicode_len();
    if n == 0 {
        return Err(FetchError::Authentication("GITHUB_TOKEN is empty".to_owned()));
    }
    let mut i: usize = 0;
    while i < n
        invariant
            n == t@.len(),
            i <= n,
            forall|j: int| 0 <= j < i ==> alphanumeric(#[trigger] t@[j]) || t@[j] == '_',
        decreases n - i,
    {
        let c = t.as_str().get_char(i);
        if !(is_alphanumeric(c) || c == '_') {
            return Err(
                FetchError::Authentication(
                    "Invalid GitHub token format. Token should only contain letters, numbers, and underscores.".to_owned(),
                ),
            );
        }
        i = i + 1;
    }
    Ok(t)
}

/// Trims a token and checks it.
pub fn validate_token(raw: &str) -> (r: Result<String, FetchError>)
    ensures
        r is Ok <==> token_ok(trimmed_of(raw@)),
        r matches Ok(x) ==> x@ == trimmed_of(raw@),
        r matches Err(e) ==> e is Authentication,
{
    check_trimmed_token(trim_text(raw))
}

} // verus!
