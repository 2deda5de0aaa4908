use gh_report_gen::client::resolve_response;
use gh_report_gen::client::Pagination;
use gh_report_gen::error::Error;
use gh_report_gen::gql::flatten_nodes;
use gh_report_gen::gql::IssueState;
use gh_report_gen::gql::PageInfo;
use gh_report_gen::gql::RawActor;
use gh_report_gen::gql::RawAssignees;
use gh_report_gen::gql::RawIssueNode;
use gh_report_gen::gql::RawPage;
use gh_report_gen::gql::RawRepository;
use gh_report_gen::pattern::Pattern;
use gh_report_gen::report::build_report;
use gh_report_gen::report::render_default;
use gh_report_gen::report::IssueFilter;
use gh_report_gen::timestamp::DateTime;

fn dt(text: &str) -> DateTime {
    DateTime::new(text.to_string())
}

fn node(owner: &str, name: &str, number: i64, title: &str) -> RawIssueNode {
    RawIssueNode {
        number,
        title: title.to_string(),
        closed: false,
        closed_at: None,
        created_at: dt("2024-01-02T03:04:05Z"),
        updated_at: dt("2024-01-03T03:04:05Z"),
        state: IssueState::Open,
        url: format!("https://example.test/{owner}/{name}/{number}"),
        repository: RawRepository {
            name: name.to_string(),
            owner: RawActor { login: owner.to_string() },
        },
        assignees: RawAssignees { nodes: None },
        labels: None,
        tracked_issues_count: 0,
        tracked_closed_issues_count: 0,
    }
}

fn page(numbers: std::ops::Range<i64>, next: Option<&str>) -> RawPage {
    let nodes: Vec<Option<RawIssueNode>> =
        numbers.map(|n| Some(node("org", "a", n, "Paged"))).collect();
    RawPage {
        nodes: Some(nodes),
        page_info: PageInfo {
            has_next_page: next.is_some(),
            end_cursor: next.map(|c| c.to_string()),
        },
    }
}

fn filter(allow: &[&str], deny: &[&str]) -> IssueFilter {
    IssueFilter {
        allow: allow.iter().map(|p| Pattern::new(p.to_string())).collect(),
        deny: deny.iter().map(|p| Pattern::new(p.to_string())).collect(),
    }
}

#[test]
fn pagination_gathers_all_pages_in_order() {
    let pages = vec![
        page(0..100, Some("cursor-1")),
        page(100..200, Some("cursor-2")),
        page(200..237, None),
    ];
    let expected_after: Vec<Option<String>> = vec![
        None,
        Some("cursor-1".to_string()),
        Some("cursor-2".to_string()),
    ];
    let mut pagination = Pagination::new();
    let mut requests = 0;
    for (i, p) in pages.into_iter().enumerate() {
        assert!(!pagination.is_done());
        let vars = pagination.next_request("alice".to_string(), dt("2024-01-01T00:00:00Z"));
        assert_eq!(vars.after, expected_after[i]);
        assert_eq!(vars.first, 100);
        assert_eq!(vars.user, "alice");
        requests += 1;
        pagination.apply_page(p);
    }
    assert!(pagination.is_done());
    assert_eq!(requests, 3);
    let nodes = pagination.into_nodes();
    assert_eq!(nodes.len(), 237);
    for (i, n) in nodes.iter().enumerate() {
        assert_eq!(n.number, i as i64);
    }
}

#[test]
fn pagination_skips_absent_nodes_and_keeps_cursor_when_done() {
    let mut pagination = Pagination::new();
    pagination.apply_page(RawPage {
        nodes: Some(vec![None, Some(node("org", "a", 7, "Kept")), None]),
        page_info: PageInfo { has_next_page: true, end_cursor: Some("c".to_string()) },
    });
    assert!(!pagination.is_done());
    assert_eq!(pagination.cursor_clone(), Some("c".to_string()));
    pagination.apply_page(RawPage {
        nodes: None,
        page_info: PageInfo { has_next_page: false, end_cursor: None },
    });
    assert!(pagination.is_done());
    assert_eq!(pagination.cursor_clone(), Some("c".to_string()));
    let nodes = pagination.into_nodes();
    assert_eq!(nodes.len(), 1);
    assert_eq!(nodes[0].number, 7);
}

#[test]
fn flatten_drops_only_absent_entries() {
    let v: Vec<u64> = flatten_nodes(Some(vec![Some(1), None, Some(2), None]));
    assert_eq!(v, vec![1, 2]);
    let empty: Vec<u64> = flatten_nodes(None);
    assert!(empty.is_empty());
    let empty: Vec<u64> = flatten_nodes(Some(vec![None, None]));
    assert!(empty.is_empty());
}

#[test]
fn graphql_errors_fail_even_with_data() {
    let r: Result<u64, Error> = resolve_response(Some(7), Some(vec!["boom".to_string()]));
    assert_eq!(r.unwrap_err(), Error::Protocol);
}

#[test]
fn missing_data_without_errors_fails() {
    let r: Result<u64, Error> = resolve_response(None, None);
    assert_eq!(r.unwrap_err(), Error::MissingData);
    let r: Result<u64, Error> = resolve_response(None, Some(Vec::new()));
    assert_eq!(r.unwrap_err(), Error::MissingData);
}

#[test]
fn data_without_errors_is_returned() {
    let r: Result<u64, Error> = resolve_response(Some(7), None);
    assert_eq!(r.unwrap(), 7);
    let r: Result<u64, Error> = resolve_response(Some(7), Some(Vec::new()));
    assert_eq!(r.unwrap(), 7);
}

#[test]
fn default_template_renders_one_issue_exactly() {
    let issue = gh_report_gen::issue::Issue::try_from(node("org", "a", 1, "First")).unwrap();
    let text = render_default("alice", &vec![issue]);
    let expected = "# Issues assigned to alice\n\n\
        - org/a#1 [OPEN] First\n\
        \x20 url: https://example.test/org/a/1\n\
        \x20 created: 2024-01-02T03:04:05Z updated: 2024-01-03T03:04:05Z\n\
        \x20 assignees:  labels:  tracked: 0/0\n";
    assert_eq!(text, expected);
}

#[test]
fn end_to_end_report_keeps_only_allowed_repositories() {
    let nodes = vec![
        node("org", "a", 7, "Visible issue"),
        node("org", "secret", 9, "Hidden issue"),
    ];
    let f = filter(&["org/*"], &["org/secret"]);
    let text = build_report("alice", nodes, &f).unwrap();
    assert!(text.contains("Visible issue"));
    assert!(text.contains("#7"));
    assert!(!text.contains("Hidden issue"));
    assert!(!text.contains("#9"));
    assert!(text.contains("# Issues assigned to alice"));
}

#[test]
fn end_to_end_report_fails_fast_on_one_bad_node() {
    let nodes = vec![
        node("org", "a", 7, "Fine"),
        node("org", "a", 8, "Broken"),
    ];
    let mut nodes = nodes;
    nodes[1].created_at = dt("not-a-date");
    let f = filter(&["*"], &[]);
    assert_eq!(build_report("alice", nodes, &f).unwrap_err(), Error::Mapping);
}

#[test]
fn pipeline_runs_are_idempotent() {
    let make = || {
        (
            vec![
                node("org", "a", 7, "Visible issue"),
                node("org", "b", 8, "Another"),
                node("org", "secret", 9, "Hidden issue"),
            ],
            filter(&["org/*"], &["org/secret"]),
        )
    };
    let (nodes1, f1) = make();
    let (nodes2, f2) = make();
    let first = build_report("alice", nodes1, &f1).unwrap();
    let second = build_report("alice", nodes2, &f2).unwrap();
    assert_eq!(first, second);
}

#[test]
fn negative_and_large_numbers_render_with_sign() {
    let mut n = node("org", "a", -5, "Negative");
    n.tracked_issues_count = 12;
    n.tracked_closed_issues_count = 3;
    let issue = gh_report_gen::issue::Issue::try_from(n).unwrap();
    let text = render_default("alice", &vec![issue]);
    assert!(text.contains("org/a#-5 [OPEN] Negative"));
    assert!(text.contains("tracked: 3/12"));
}
