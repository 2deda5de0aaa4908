//! The reporting pipeline's verified stages: repository filtering,
//! mapping of every fetched node, rendering of the built-in default
//! template, and the composition of the three.
//!
//! Fetching is driven outside the library through
//! [`crate::client::Pagination`]; the gathered nodes come in here as
//! plain values.

use vstd::prelude::*;
use vstd::string::StrSliceExecFns;
use vstd::string::StringExecFns;

use crate::error::Error;
use crate::gql::IssueState;
use crate::gql::RawIssueNode;
use crate::issue::node_issue_view;
use crate::issue::node_timestamps_valid;
use crate::issue::repo_id;
use crate::issue::Issue;
use crate::issue::IssueView;
use crate::pattern::glob_matches;
use crate::pattern::Pattern;
use crate::text::int_str;
use crate::text::join_comma;
use crate::text::push_i64;
use crate::text::push_joined;

verus! {

/// Whether any of the patterns matches the whole of `s`.
pub open spec fn any_match(views: Seq<Seq<char>>, s: Seq<char>) -> bool {
    exists|m: int| 0 <= m < views.len() && glob_matches(views[m], s)
}

/// A repository identity is reportable when it matches at least one
/// allow pattern and none of the deny patterns: a deny is a hard veto,
/// applied after the allow list.
pub open spec fn should_report_view(
    allow: Seq<Seq<char>>,
    deny: Seq<Seq<char>>,
    iv: IssueView,
) -> bool {
    any_match(allow, repo_id(iv)) && !any_match(deny, repo_id(iv))
}

/// Decides, per issue, whether its owning repository passes the
/// configured allow/deny glob policy.
pub struct IssueFilter {
    pub allow: Vec<Pattern>,
    pub deny: Vec<Pattern>,
}

impl IssueFilter {
    /// The allow patterns' texts.
    pub open spec fn allow_views(&self) -> Seq<Seq<char>> {
        self.allow@.map_values(|p: Pattern| p@)
    }

    /// The deny patterns' texts.
    pub open spec fn deny_views(&self) -> Seq<Seq<char>> {
        self.deny@.map_values(|p: Pattern| p@)
    }

    /// The filter's verdict on an issue.
    pub open spec fn spec_should_report(&self, iv: IssueView) -> bool {
        should_report_view(self.allow_views(), self.deny_views(), iv)
    }

    /// Whether the issue's repository passes the policy. Pure: no state
    /// is read beyond the two pattern lists.
    pub fn should_reported(&self, issue: &Issue) -> (r: bool)
        ensures
            r == self.spec_should_report(issue@),
    {
        let repo = issue.repository_identifier();
        let inc = any_matches(&self.allow, repo.as_str());
        if !inc {
            return false;
        }
        let exc = any_matches(&self.deny, repo.as_str());
        !exc
    }
}

/// Whether any pattern in the list matches the whole of `s`.
fn any_matches(patterns: &Vec<Pattern>, s: &str) -> (r: bool)
    ensures
        r == any_match(patterns@.map_values(|p: Pattern| p@), s@),
{
    let ghost views: Seq<Seq<char>> = patterns@.map_values(|p: Pattern| p@);
    let mut i: usize = 0;
    while i < patterns.len()
        invariant
            0 <= i <= patterns@.len(),
            views == patterns@.map_values(|p: Pattern| p@),
            forall|m: int| 0 <= m < i ==> !glob_matches(views[m], s@),
        decreases patterns@.len() - i,
    {
        if patterns[i].matches(s) {
            proof {
                assert(glob_matches(views[i as int], s@));
            }
            return true;
        }
        i = i + 1;
    }
    false
}

/// The views of the mapped issues, in order.
pub open spec fn issue_views(issues: Seq<Issue>) -> Seq<IssueView> {
    issues.map_values(|i: Issue| i@)
}

/// The views every raw node maps to, in order.
pub open spec fn node_views(nodes: Seq<RawIssueNode>) -> Seq<IssueView> {
    nodes.map_values(|n: RawIssueNode| node_issue_view(n))
}

/// Every node in the run carries only well-formed timestamps.
pub open spec fn all_timestamps_valid(nodes: Seq<RawIssueNode>) -> bool {
    forall|i: int| 0 <= i < nodes.len() ==> node_timestamps_valid(nodes[i])
}

/// Map every raw node to an issue; the whole run aborts on the first
/// node whose timestamps do not parse (no partial reporting).
pub fn map_nodes(nodes: Vec<RawIssueNode>) -> (r: Result<Vec<Issue>, Error>)
    ensures
        match r {
            Ok(issues) => all_timestamps_valid(nodes@) && issue_views(issues@) == node_views(
                nodes@,
            ),
            Err(e) => !all_timestamps_valid(nodes@) && e == Error::Mapping,
        },
{
    let ghost orig: Seq<RawIssueNode> = nodes@;
    let ghost mut k: int = 0;
    let mut rest = nodes;
    let mut out: Vec<Issue> = Vec::new();
    while rest.len() > 0
        invariant
            orig == nodes@,
            0 <= k <= orig.len(),
            rest@ == orig.skip(k),
            out@.len() == k,
            issue_views(out@) == node_views(orig.take(k)),
            forall|j: int| 0 <= j < k ==> node_timestamps_valid(orig[j]),
        decreases rest@.len(),
    {
        let node = rest.remove(0);
        proof {
            assert(node == orig[k]);
            assert(rest@ =~= orig.skip(k + 1));
        }
        let issue = match Issue::try_from(node) {
            Ok(issue) => issue,
            Err(e) => {
                proof {
                    assert(!node_timestamps_valid(orig[k]));
                    if all_timestamps_valid(nodes@) {
                        assert(node_timestamps_valid(nodes@[k]));
                    }
                }
                return Err(e);
            },
        };
        let ghost before = issue_views(out@);
        out.push(issue);
        proof {
            let ghost prev = orig.take(k);
            let ghost cur = orig.take(k + 1);
            assert(node_views(cur).len() == k + 1);
            assert(issue_views(out@).len() == k + 1);
            assert forall|j: int|
                0 <= j < k + 1 implies issue_views(out@)[j] == node_views(cur)[j] by {
                if j < k {
                    assert(issue_views(out@)[j] == before[j]);
                    assert(before[j] == node_views(prev)[j]);
                    assert(node_views(cur)[j] == node_views(prev)[j]);
                } else {
                    assert(issue_views(out@)[j] == issue@);
                    assert(node_views(cur)[j] == node_issue_view(orig[k]));
                }
            }
            assert(issue_views(out@) =~= node_views(cur));
            k = k + 1;
        }
    }
    proof {
        assert(orig.take(k) =~= orig);
    }
    Ok(out)
}

/// The filter's verdict as a predicate over issue views.
pub open spec fn report_pred(filter: IssueFilter) -> spec_fn(IssueView) -> bool {
    |iv: IssueView| should_report_view(filter.allow_views(), filter.deny_views(), iv)
}

/// Retain exactly the issues the filter approves, keeping their order.
pub fn filter_issues(filter: &IssueFilter, issues: Vec<Issue>) -> (r: Vec<Issue>)
    ensures
        issue_views(r@) == issue_views(issues@).filter(report_pred(*filter)),
{
    let ghost orig: Seq<Issue> = issues@;
    let ghost pred = report_pred(*filter);
    let ghost mut k: int = 0;
    let mut rest = issues;
    let mut out: Vec<Issue> = Vec::new();
    proof {
        reveal(Seq::filter);
        assert(issue_views(out@) =~= issue_views(orig.take(0)).filter(pred));
    }
    while rest.len() > 0
        invariant
            0 <= k <= orig.len(),
            rest@ == orig.skip(k),
            pred == report_pred(*filter),
            issue_views(out@) == issue_views(orig.take(k)).filter(pred),
        decreases rest@.len(),
    {
        let issue = rest.remove(0);
        proof {
            assert(issue == orig[k]);
            assert(rest@ =~= orig.skip(k + 1));
        }
        let keep = filter.should_reported(&issue);
        proof {
            reveal(Seq::filter);
            let ghost prev = issue_views(orig.take(k));
            let ghost cur = issue_views(orig.take(k + 1));
            assert(cur.drop_last() =~= prev);
            assert(cur.last() == orig[k]@);
            assert(cur.len() == k + 1);
            assert(cur.filter(pred) == if pred(cur.last()) {
                prev.filter(pred).push(cur.last())
            } else {
                prev.filter(pred)
            });
            assert(keep == pred(orig[k]@));
        }
        if keep {
            let ghost before = issue_views(out@);
            out.push(issue);
            proof {
                assert(issue_views(out@) =~= before.push(orig[k]@));
            }
        }
        proof {
            reveal(Seq::filter);
            assert(issue_views(out@) =~= issue_views(orig.take(k + 1)).filter(pred));
            k = k + 1;
        }
    }
    proof {
        assert(orig.take(k) =~= orig);
    }
    out
}

/// The rendering of an issue's lifecycle state.
pub open spec fn state_text(s: IssueState) -> Seq<char> {
    match s {
        IssueState::Open => "OPEN"@,
        IssueState::Closed => "CLOSED"@,
    }
}

/// The closing-time clause of an issue's rendering: present exactly when
/// the issue carries a closing time.
pub open spec fn closed_part(iv: IssueView) -> Seq<char> {
    match iv.closed_at {
        Some(t) => " closed: "@ + t.text,
        None => Seq::empty(),
    }
}

/// The heading line of an issue's block.
pub open spec fn head_part(iv: IssueView) -> Seq<char> {
    "- "@ + iv.repository_owner + "/"@ + iv.repository_name + "#"@ + int_str(iv.number) + " ["@
        + state_text(iv.state) + "] "@ + iv.title
}

/// The canonical-address line of an issue's block.
pub open spec fn url_part(iv: IssueView) -> Seq<char> {
    "\n  url: "@ + iv.url
}

/// The timestamps line of an issue's block.
pub open spec fn times_part(iv: IssueView) -> Seq<char> {
    "\n  created: "@ + iv.created_at.text + " updated: "@ + iv.updated_at.text + closed_part(iv)
}

/// The assignees, labels and tracked-count line of an issue's block.
pub open spec fn lists_part(iv: IssueView) -> Seq<char> {
    "\n  assignees: "@ + join_comma(iv.assignees) + " labels: "@ + join_comma(iv.labels)
        + " tracked: "@ + int_str(iv.tracked_closed_issues_count) + "/"@ + int_str(
        iv.tracked_issues_count,
    ) + "\n"@
}

/// One issue's block in the default template.
pub open spec fn render_issue(iv: IssueView) -> Seq<char> {
    head_part(iv) + url_part(iv) + times_part(iv) + lists_part(iv)
}

/// The issues' blocks, in pipeline order.
pub open spec fn render_issues(views: Seq<IssueView>) -> Seq<char>
    decreases views.len(),
{
    if views.len() == 0 {
        Seq::empty()
    } else {
        render_issues(views.drop_last()) + render_issue(views.last())
    }
}

/// The whole default-template report: a heading naming the principal,
/// then one block per surviving issue.
pub open spec fn render_report(user: Seq<char>, views: Seq<IssueView>) -> Seq<char> {
    "# Issues assigned to "@ + user + "\n\n"@ + render_issues(views)
}

/// Append one issue's block.
#[verifier::rlimit(100)]
fn push_issue(out: &mut String, issue: &Issue)
    ensures
        final (out)@ == old(out)@ + render_issue(issue@),
{
    out.append("- ");
    out.append(issue.repository_owner.as_str());
    out.append("/");
    out.append(issue.repository_name.as_str());
    out.append("#");
    push_i64(out, issue.number);
    out.append(" [");
    match issue.state {
        IssueState::Open => out.append("OPEN"),
        IssueState::Closed => out.append("CLOSED"),
    }
    out.append("] ");
    out.append(issue.title.as_str());
    proof {
        assert(out@ =~= old(out)@ + head_part(issue@));
    }
    out.append("\n  url: ");
    out.append(issue.url.as_str());
    proof {
        assert(out@ =~= old(out)@ + head_part(issue@) + url_part(issue@));
    }
    out.append("\n  created: ");
    out.append(issue.created_at.text.as_str());
    out.append(" updated: ");
    out.append(issue.updated_at.text.as_str());
    match &issue.closed_at {
        Some(t) => {
            out.append(" closed: ");
            out.append(t.text.as_str());
        },
        None => {},
    }
    proof {
        assert(out@ =~= old(out)@ + head_part(issue@) + url_part(issue@) + times_part(issue@));
    }
    out.append("\n  assignees: ");
    proof {
        assert(issue.assignees@.map_values(|s: String| s@) =~= issue@.assignees);
    }
    push_joined(out, &issue.assignees);
    out.append(" labels: ");
    proof {
        assert(issue.labels@.map_values(|s: String| s@) =~= issue@.labels);
    }
    push_joined(out, &issue.labels);
    out.append(" tracked: ");
    push_i64(out, issue.tracked_closed_issues_count);
    out.append("/");
    push_i64(out, issue.tracked_issues_count);
    out.append("\n");
    proof {
        assert(out@ =~= old(out)@ + head_part(issue@) + url_part(issue@) + times_part(issue@)
            + lists_part(issue@));
        assert(out@ =~= old(out)@ + render_issue(issue@));
    }
}

/// Render the built-in default template over the principal and the
/// surviving issues, in order.
pub fn render_default(user: &str, issues: &Vec<Issue>) -> (r: String)
    ensures
        r@ == render_report(user@, issue_views(issues@)),
{
    let mut out = String::from_str("# Issues assigned to ");
    out.append(user);
    out.append("\n\n");
    let ghost header: Seq<char> = "# Issues assigned to "@ + user@ + "\n\n"@;
    proof {
        assert(out@ =~= header + render_issues(issue_views(issues@).take(0)));
    }
    let mut i: usize = 0;
    while i < issues.len()
        invariant
            0 <= i <= issues@.len(),
            header == "# Issues assigned to "@ + user@ + "\n\n"@,
            out@ == header + render_issues(issue_views(issues@).take(i as int)),
        decreases issues@.len() - i,
    {
        push_issue(&mut out, &issues[i]);
        proof {
            let ghost vs = issue_views(issues@);
            assert(vs.take(i as int + 1).drop_last() =~= vs.take(i as int));
            assert(vs.take(i as int + 1).last() == issues@[i as int]@);
            assert(out@ =~= header + render_issues(vs.take(i as int + 1)));
        }
        i = i + 1;
    }
    proof {
        assert(issue_views(issues@).take(issues@.len() as int) =~= issue_views(issues@));
    }
    out
}

/// The views the report renders for a run: every node mapped, then
/// filtered by the policy.
pub open spec fn report_views(nodes: Seq<RawIssueNode>, filter: IssueFilter) -> Seq<IssueView> {
    node_views(nodes).filter(report_pred(filter))
}

/// The pipeline after fetching: map every node (aborting the run on the
/// first malformed one), keep the issues the filter approves, and render
/// the default template over them.
pub fn build_report(user: &str, nodes: Vec<RawIssueNode>, filter: &IssueFilter) -> (r: Result<
    String,
    Error,
>)
    ensures
        match r {
            Ok(text) => all_timestamps_valid(nodes@) && text@ == render_report(
                user@,
                report_views(nodes@, *filter),
            ),
            Err(e) => !all_timestamps_valid(nodes@) && e == Error::Mapping,
        },
{
    let issues = match map_nodes(nodes) {
        Ok(v) => v,
        Err(e) => { return Err(e) },
    };
    let kept = filter_issues(filter, issues);
    let text = render_default(user, &kept);
    Ok(text)
}

/// Running the pipeline twice against an unchanged upstream state — the
/// same principal, the same raw nodes, the same filter — renders
/// byte-identical reports.
pub proof fn lemma_pipeline_deterministic(
    user: Seq<char>,
    nodes: Seq<RawIssueNode>,
    filter: IssueFilter,
    first: Seq<char>,
    second: Seq<char>,
)
    requires
        first == render_report(user, report_views(nodes, filter)),
        second == render_report(user, report_views(nodes, filter)),
    ensures
        first == second,
{
}

} // verus!
