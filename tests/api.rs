use github_skyline::api::{
    into_calendar, validate_token, ContributionCalendar, ContributionDay, ContributionsCollection,
    Data, FetchError, GraphQLError, GraphQLResponse, User, Week,
};

fn day(count: u32, date: &str) -> ContributionDay {
    ContributionDay { contribution_count: count, date: date.to_string() }
}

fn calendar() -> ContributionCalendar {
    ContributionCalendar {
        total_contributions: 6,
        weeks: vec![
            Week { contribution_days: vec![day(1, "2024-01-01"), day(0, "2024-01-02")] },
            Week { contribution_days: vec![] },
            Week { contribution_days: vec![day(5, "2024-01-08")] },
        ],
    }
}

#[test]
fn flatten_keeps_day_order() {
    assert_eq!(calendar().flatten_contributions(), vec![1, 0, 5]);
}

#[test]
fn response_with_user_gives_calendar() {
    let r = GraphQLResponse {
        data: Some(Data {
            user: Some(User {
                contributions_collection: ContributionsCollection { contribution_calendar: calendar() },
            }),
        }),
        errors: None,
    };
    let c = into_calendar(r).unwrap();
    assert_eq!(c.total_contributions, 6);
    assert_eq!(c.flatten_contributions(), vec![1, 0, 5]);
}

#[test]
fn response_errors_and_missing_parts() {
    let errs = GraphQLResponse {
        data: None,
        errors: Some(vec![GraphQLError { message: "bad".to_string() }]),
    };
    match into_calendar(errs) {
        Err(FetchError::GraphQl(e)) => assert_eq!(e[0].message, "bad"),
        other => panic!("unexpected {:?}", other),
    }
    let none = GraphQLResponse { data: None, errors: None };
    assert!(matches!(into_calendar(none), Err(FetchError::NoData)));
    let no_user = GraphQLResponse { data: Some(Data { user: None }), errors: None };
    assert!(matches!(into_calendar(no_user), Err(FetchError::UserNotFound)));
}

#[test]
fn tokens_are_trimmed_and_checked() {
    assert_eq!(validate_token("  ghp_abc123 \n").unwrap(), "ghp_abc123");
    assert!(matches!(validate_token("   "), Err(FetchError::Authentication(_))));
    assert!(matches!(validate_token("ab-c"), Err(FetchError::Authentication(_))));
    assert!(matches!(validate_token(""), Err(FetchError::Authentication(_))));
}
