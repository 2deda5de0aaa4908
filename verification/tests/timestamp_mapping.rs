use gh_report_gen::error::Error;
use gh_report_gen::gql::IssueState;
use gh_report_gen::gql::RawActor;
use gh_report_gen::gql::RawAssignees;
use gh_report_gen::gql::RawIssueNode;
use gh_report_gen::gql::RawLabel;
use gh_report_gen::gql::RawLabels;
use gh_report_gen::gql::RawRepository;
use gh_report_gen::issue::Issue;
use gh_report_gen::timestamp::resolve_window;
use gh_report_gen::timestamp::DateTime;

fn dt(text: &str) -> DateTime {
    DateTime::new(text.to_string())
}

fn node(created_at: &str) -> RawIssueNode {
    RawIssueNode {
        number: 5,
        title: "A title".to_string(),
        closed: false,
        closed_at: None,
        created_at: dt(created_at),
        updated_at: dt("2024-01-02T03:04:05Z"),
        state: IssueState::Open,
        url: "https://example.test/5".to_string(),
        repository: RawRepository {
            name: "a".to_string(),
            owner: RawActor { login: "org".to_string() },
        },
        assignees: RawAssignees { nodes: None },
        labels: None,
        tracked_issues_count: 0,
        tracked_closed_issues_count: 0,
    }
}

#[test]
fn parse_accepts_plain_utc() {
    let t = dt("2024-01-02T03:04:05Z").parse().unwrap();
    assert_eq!(t.year, 2024);
    assert_eq!(t.month, 1);
    assert_eq!(t.day, 2);
    assert_eq!(t.hour, 3);
    assert_eq!(t.minute, 4);
    assert_eq!(t.second, 5);
    assert_eq!(t.text, "2024-01-02T03:04:05Z");
}

#[test]
fn parse_accepts_offsets_fractions_and_separators() {
    assert!(dt("2024-02-29T23:59:59+05:30").parse().is_ok());
    assert!(dt("2024-02-29T23:59:59-11:00").parse().is_ok());
    assert!(dt("2024-01-01T00:00:00.123Z").parse().is_ok());
    assert!(dt("2024-01-01T00:00:00.123456789+00:00").parse().is_ok());
    assert!(dt("2024-01-01t00:00:00z").parse().is_ok());
    assert!(dt("2024-01-01 00:00:00Z").parse().is_ok());
}

#[test]
fn parse_rejects_malformed_text() {
    assert_eq!(dt("not-a-date").parse().unwrap_err(), Error::Mapping);
    assert_eq!(dt("").parse().unwrap_err(), Error::Mapping);
    assert_eq!(dt("2024-01-02").parse().unwrap_err(), Error::Mapping);
    assert_eq!(dt("2024-13-02T03:04:05Z").parse().unwrap_err(), Error::Mapping);
    assert_eq!(dt("2024-00-02T03:04:05Z").parse().unwrap_err(), Error::Mapping);
    assert_eq!(dt("2023-02-29T03:04:05Z").parse().unwrap_err(), Error::Mapping);
    assert_eq!(dt("2100-02-29T03:04:05Z").parse().unwrap_err(), Error::Mapping);
    assert_eq!(dt("2024-01-02T24:04:05Z").parse().unwrap_err(), Error::Mapping);
    assert_eq!(dt("2024-01-02T03:60:05Z").parse().unwrap_err(), Error::Mapping);
    assert_eq!(dt("2024-01-02T03:04:60Z").parse().unwrap_err(), Error::Mapping);
    assert_eq!(dt("2024-01-02T03:04:05").parse().unwrap_err(), Error::Mapping);
    assert_eq!(dt("2024-01-02T03:04:05.Z").parse().unwrap_err(), Error::Mapping);
    assert_eq!(dt("2024-01-02T03:04:05+0000").parse().unwrap_err(), Error::Mapping);
    assert_eq!(dt("2024-01-02T03:04:05+24:00").parse().unwrap_err(), Error::Mapping);
    assert_eq!(dt("2024-01-02X03:04:05Z").parse().unwrap_err(), Error::Mapping);
}

#[test]
fn leap_day_needs_a_leap_year() {
    assert!(dt("2000-02-29T00:00:00Z").parse().is_ok());
    assert!(dt("2400-02-29T00:00:00Z").parse().is_ok());
    assert!(dt("1900-02-29T00:00:00Z").parse().is_err());
    assert!(dt("2024-04-31T00:00:00Z").parse().is_err());
    assert!(dt("2024-12-31T00:00:00Z").parse().is_ok());
}

#[test]
fn mapping_absent_collections_become_empty() {
    let issue = Issue::try_from(node("2024-01-02T03:04:05Z")).unwrap();
    assert!(issue.assignees.is_empty());
    assert!(issue.labels.is_empty());
    assert_eq!(issue.number, 5);
    assert_eq!(issue.title, "A title");
    assert_eq!(issue.repository_owner, "org");
    assert_eq!(issue.repository_name, "a");
}

#[test]
fn mapping_flattens_and_drops_absent_items() {
    let mut n = node("2024-01-02T03:04:05Z");
    n.assignees = RawAssignees {
        nodes: Some(vec![
            Some(RawActor { login: "alice".to_string() }),
            None,
            Some(RawActor { login: "bob".to_string() }),
        ]),
    };
    n.labels = Some(RawLabels {
        nodes: Some(vec![None, Some(RawLabel { name: "bug".to_string() })]),
    });
    let issue = Issue::try_from(n).unwrap();
    assert_eq!(issue.assignees, vec!["alice".to_string(), "bob".to_string()]);
    assert_eq!(issue.labels, vec!["bug".to_string()]);
}

#[test]
fn mapping_fails_on_malformed_timestamp() {
    assert_eq!(
        Issue::try_from(node("not-a-date")).unwrap_err(),
        Error::Mapping
    );
    let mut n = node("2024-01-02T03:04:05Z");
    n.closed_at = Some(dt("garbage"));
    assert_eq!(Issue::try_from(n).unwrap_err(), Error::Mapping);
}

#[test]
fn mapping_parses_the_closing_time_when_present() {
    let mut n = node("2024-01-02T03:04:05Z");
    n.closed = true;
    n.state = IssueState::Closed;
    n.closed_at = Some(dt("2024-03-04T05:06:07Z"));
    let issue = Issue::try_from(n).unwrap();
    let closed = issue.closed_at.expect("closing time kept");
    assert_eq!(closed.month, 3);
    assert_eq!(closed.text, "2024-03-04T05:06:07Z");
}

#[test]
fn resolve_window_prefers_the_given_start() {
    let given = dt("2024-01-02T03:04:05Z");
    let resolved = resolve_window(Some(given)).expect("a given start is kept");
    assert_eq!(resolved.as_str(), "2024-01-02T03:04:05Z");
}

#[test]
fn resolve_window_falls_back_to_the_clock() {
    let resolved = resolve_window(None).expect("the clock fallback works");
    assert!(resolved.parse().is_ok(), "the fallback is well-formed wire text");
}
