//! The flat, template-friendly issue record and the mapping from a raw
//! wire node onto it.
//!
//! Mapping flattens the nested, optionally-absent collections with the
//! uniform combinator, parses every timestamp, and copies the remaining
//! fields verbatim; one malformed timestamp fails the whole mapping.

use vstd::prelude::*;
use vstd::string::StrSliceExecFns;
use vstd::string::StringExecFns;

use crate::error::Error;
use crate::gql::flatten_nodes;
use crate::gql::present_nodes;
use crate::gql::IssueState;
use crate::gql::RawActor;
use crate::gql::RawIssueNode;
use crate::gql::RawLabel;
use crate::gql::RawLabels;
use crate::timestamp::timestamp_view_of;
use crate::timestamp::valid_rfc3339;
use crate::timestamp::Timestamp;
use crate::timestamp::TimestampView;

verus! {

/// The mapped issue record: immutable once constructed, rendered into
/// the report afterwards.
#[derive(Debug)]
pub struct Issue {
    pub number: i64,
    pub title: String,
    pub closed: bool,
    pub closed_at: Option<Timestamp>,
    pub created_at: Timestamp,
    pub updated_at: Timestamp,
    pub state: IssueState,
    pub url: String,
    pub repository_name: String,
    pub repository_owner: String,
    pub assignees: Vec<String>,
    pub labels: Vec<String>,
    pub tracked_issues_count: i64,
    pub tracked_closed_issues_count: i64,
}

/// The mathematical content of an [`Issue`].
#[verifier::ext_equal]
pub ghost struct IssueView {
    pub number: int,
    pub title: Seq<char>,
    pub closed: bool,
    pub closed_at: Option<TimestampView>,
    pub created_at: TimestampView,
    pub updated_at: TimestampView,
    pub state: IssueState,
    pub url: Seq<char>,
    pub repository_name: Seq<char>,
    pub repository_owner: Seq<char>,
    pub assignees: Seq<Seq<char>>,
    pub labels: Seq<Seq<char>>,
    pub tracked_issues_count: int,
    pub tracked_closed_issues_count: int,
}

impl View for Issue {
    type V = IssueView;

    open spec fn view(&self) -> IssueView {
        IssueView {
            number: self.number as int,
            title: self.title@,
            closed: self.closed,
            closed_at: match self.closed_at {
                Some(t) => Some(t@),
                None => None,
            },
            created_at: self.created_at@,
            updated_at: self.updated_at@,
            state: self.state,
            url: self.url@,
            repository_name: self.repository_name@,
            repository_owner: self.repository_owner@,
            assignees: self.assignees.deep_view(),
            labels: self.labels.deep_view(),
            tracked_issues_count: self.tracked_issues_count as int,
            tracked_closed_issues_count: self.tracked_closed_issues_count as int,
        }
    }
}

/// The repository identity an issue belongs to, as `owner/name`.
pub open spec fn repo_id(iv: IssueView) -> Seq<char> {
    iv.repository_owner + "/"@ + iv.repository_name
}

/// The login names of a run of actors.
pub open spec fn login_views(actors: Seq<RawActor>) -> Seq<Seq<char>> {
    actors.map_values(|a: RawActor| a.login@)
}

/// The names of a run of labels.
pub open spec fn name_views(labels: Seq<RawLabel>) -> Seq<Seq<char>> {
    labels.map_values(|l: RawLabel| l.name@)
}

/// The present labels of the doubly absent-able label collection.
pub open spec fn label_nodes(labels: Option<RawLabels>) -> Seq<RawLabel> {
    match labels {
        Some(l) => present_nodes(l.nodes),
        None => Seq::empty(),
    }
}

/// Every timestamp carried by the node is well-formed wire text.
pub open spec fn node_timestamps_valid(node: RawIssueNode) -> bool {
    &&& match node.closed_at {
        Some(d) => valid_rfc3339(d@),
        None => true,
    }
    &&& valid_rfc3339(node.created_at@)
    &&& valid_rfc3339(node.updated_at@)
}

/// The one issue a raw node with well-formed timestamps maps to.
pub open spec fn node_issue_view(node: RawIssueNode) -> IssueView {
    IssueView {
        number: node.number as int,
        title: node.title@,
        closed: node.closed,
        closed_at: match node.closed_at {
            Some(d) => Some(timestamp_view_of(d@)),
            None => None,
        },
        created_at: timestamp_view_of(node.created_at@),
        updated_at: timestamp_view_of(node.updated_at@),
        state: node.state,
        url: node.url@,
        repository_name: node.repository.name@,
        repository_owner: node.repository.owner.login@,
        assignees: login_views(present_nodes(node.assignees.nodes)),
        labels: name_views(label_nodes(node.labels)),
        tracked_issues_count: node.tracked_issues_count as int,
        tracked_closed_issues_count: node.tracked_closed_issues_count as int,
    }
}

impl Issue {
    /// Map a raw node. Succeeds exactly when every timestamp the node
    /// carries is well formed; the result is the node's one flat record,
    /// absent collections becoming empty ones.
    pub fn try_from(node: RawIssueNode) -> (r: Result<Issue, Error>)
        ensures
            match r {
                Ok(issue) => node_timestamps_valid(node) && issue@ == node_issue_view(node),
                Err(e) => !node_timestamps_valid(node) && e == Error::Mapping,
            },
    {
        let RawIssueNode {
            number,
            title,
            closed,
            closed_at,
            created_at,
            updated_at,
            state,
            url,
            repository,
            assignees,
            labels,
            tracked_issues_count,
            tracked_closed_issues_count,
        } = node;
        let closed_at_ts = match closed_at {
            Some(d) => match d.parse() {
                Ok(t) => Some(t),
                Err(e) => { return Err(e) },
            },
            None => None,
        };
        let created_ts = match created_at.parse() {
            Ok(t) => t,
            Err(e) => { return Err(e) },
        };
        let updated_ts = match updated_at.parse() {
            Ok(t) => t,
            Err(e) => { return Err(e) },
        };
        let assignee_logins = actor_logins(flatten_nodes(assignees.nodes));
        let label_list = match labels {
            Some(l) => flatten_nodes(l.nodes),
            None => Vec::new(),
        };
        let label_names = label_name_list(label_list);
        let issue = Issue {
            number,
            title,
            closed,
            closed_at: closed_at_ts,
            created_at: created_ts,
            updated_at: updated_ts,
            state,
            url,
            repository_name: repository.name,
            repository_owner: repository.owner.login,
            assignees: assignee_logins,
            labels: label_names,
            tracked_issues_count,
            tracked_closed_issues_count,
        };
        proof {
            assert(issue@ =~= node_issue_view(node));
        }
        Ok(issue)
    }

    /// The repository identity, always derivable as `owner/name`.
    pub fn repository_identifier(&self) -> (r: String)
        ensures
            r@ == repo_id(self@),
    {
        let mut out = self.repository_owner.clone();
        out.append("/");
        out.append(self.repository_name.as_str());
        out
    }
}

/// Extract the login names of a run of actors, in order.
fn actor_logins(v: Vec<RawActor>) -> (r: Vec<String>)
    ensures
        r.deep_view() == login_views(v@),
{
    let ghost orig: Seq<RawActor> = v@;
    let ghost mut k: int = 0;
    let mut rest = v;
    let mut out: Vec<String> = Vec::new();
    while rest.len() > 0
        invariant
            0 <= k <= orig.len(),
            rest@ == orig.skip(k),
            out.deep_view() == login_views(orig.take(k)),
        decreases rest@.len(),
    {
        let a = rest.remove(0);
        proof {
            assert(a == orig[k]);
            assert(rest@ =~= orig.skip(k + 1));
        }
        let ghost before = out.deep_view();
        proof {
            assert(login_views(orig.take(k)).len() == k);
            assert(before.len() == k);
            assert(out@.len() == k);
        }
        out.push(a.login);
        proof {
            let ghost prev = orig.take(k);
            let ghost cur = orig.take(k + 1);
            assert(out@.len() == k + 1);
            assert(login_views(cur).len() == k + 1);
            assert forall|j: int| 0 <= j < k + 1 implies out.deep_view()[j] == login_views(cur)[j]
            by {
                if j < k {
                    assert(out.deep_view()[j] == before[j]);
                    assert(before[j] == login_views(prev)[j]);
                    assert(login_views(cur)[j] == login_views(prev)[j]);
                } else {
                    assert(out.deep_view()[j] == a.login@);
                    assert(login_views(cur)[j] == orig[k].login@);
                }
            }
            assert(out.deep_view() =~= login_views(cur));
            k = k + 1;
        }
    }
    proof {
        assert(orig.take(k) =~= orig);
    }
    out
}

/// Extract the names of a run of labels, in order.
fn label_name_list(v: Vec<RawLabel>) -> (r: Vec<String>)
    ensures
        r.deep_view() == name_views(v@),
{
    let ghost orig: Seq<RawLabel> = v@;
    let ghost mut k: int = 0;
    let mut rest = v;
    let mut out: Vec<String> = Vec::new();
    while rest.len() > 0
        invariant
            0 <= k <= orig.len(),
            rest@ == orig.skip(k),
            out.deep_view() == name_views(orig.take(k)),
        decreases rest@.len(),
    {
        let l = rest.remove(0);
        proof {
            assert(l == orig[k]);
            assert(rest@ =~= orig.skip(k + 1));
        }
        let ghost before = out.deep_view();
        proof {
            assert(name_views(orig.take(k)).len() == k);
            assert(before.len() == k);
            assert(out@.len() == k);
        }
        out.push(l.name);
        proof {
            let ghost prev = orig.take(k);
            let ghost cur = orig.take(k + 1);
            assert(out@.len() == k + 1);
            assert(name_views(cur).len() == k + 1);
            assert forall|j: int| 0 <= j < k + 1 implies out.deep_view()[j] == name_views(cur)[j]
            by {
                if j < k {
                    assert(out.deep_view()[j] == before[j]);
                    assert(before[j] == name_views(prev)[j]);
                    assert(name_views(cur)[j] == name_views(prev)[j]);
                } else {
                    assert(out.deep_view()[j] == l.name@);
                    assert(name_views(cur)[j] == orig[k].name@);
                }
            }
            assert(out.deep_view() =~= name_views(cur));
            k = k + 1;
        }
    }
    proof {
        assert(orig.take(k) =~= orig);
    }
    out
}

} // verus!
