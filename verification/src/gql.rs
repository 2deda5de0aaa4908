//! The wire model of the GraphQL issue-listing API: the raw shapes a
//! page response carries, the two query operations, and the uniform
//! "flatten and drop absent" combinator applied to every nested
//! optional collection.

use vstd::prelude::*;

use crate::timestamp::DateTime;

verus! {

/// Items requested per page.
pub const PAGE_SIZE: i64 = 100;

/// Lifecycle state of an issue, a closed enumeration.
#[derive(Clone, Copy, Debug, PartialEq, Eq, Structural)]
pub enum IssueState {
    Open,
    Closed,
}

/// An account that can own repositories or be assigned issues.
pub struct RawActor {
    pub login: String,
}

/// A label attached to an issue.
pub struct RawLabel {
    pub name: String,
}

/// The repository an issue belongs to; never absent on the wire.
pub struct RawRepository {
    pub name: String,
    pub owner: RawActor,
}

/// The nested assignee collection: the item list itself may be absent,
/// and each item in it may be absent.
pub struct RawAssignees {
    pub nodes: Option<Vec<Option<RawActor>>>,
}

/// The nested label collection, absent-able at both levels like
/// [`RawAssignees`], and additionally absent-able as a whole.
pub struct RawLabels {
    pub nodes: Option<Vec<Option<RawLabel>>>,
}

/// One raw issue node as the paginated query returns it.
pub struct RawIssueNode {
    pub number: i64,
    pub title: String,
    pub closed: bool,
    pub closed_at: Option<DateTime>,
    pub created_at: DateTime,
    pub updated_at: DateTime,
    pub state: IssueState,
    pub url: String,
    pub repository: RawRepository,
    pub assignees: RawAssignees,
    pub labels: Option<RawLabels>,
    pub tracked_issues_count: i64,
    pub tracked_closed_issues_count: i64,
}

/// Position marker of a page response.
pub struct PageInfo {
    pub has_next_page: bool,
    pub end_cursor: Option<String>,
}

/// One page of the issue-listing response.
pub struct RawPage {
    pub nodes: Option<Vec<Option<RawIssueNode>>>,
    pub page_info: PageInfo,
}

/// The present items of a sequence of optional items, in order.
pub open spec fn flatten_present<T>(s: Seq<Option<T>>) -> Seq<T>
    decreases s.len(),
{
    if s.len() == 0 {
        Seq::empty()
    } else {
        flatten_present(s.drop_last()) + match s.last() {
            Some(t) => seq![t],
            None => Seq::<T>::empty(),
        }
    }
}

/// The present items of an absent-able list of absent-able items: an
/// absent list yields no items.
pub open spec fn present_nodes<T>(nodes: Option<Vec<Option<T>>>) -> Seq<T> {
    match nodes {
        Some(v) => flatten_present(v@),
        None => Seq::empty(),
    }
}

/// Flatten an absent-able list of absent-able items into the present
/// items, keeping their order. This one combinator handles page nodes,
/// assignees and labels alike.
pub fn flatten_nodes<T>(nodes: Option<Vec<Option<T>>>) -> (r: Vec<T>)
    ensures
        r@ == present_nodes(nodes),
{
    let mut rest = match nodes {
        Some(v) => v,
        None => { return Vec::new() },
    };
    let ghost orig: Seq<Option<T>> = rest@;
    let ghost mut k: int = 0;
    let mut out: Vec<T> = Vec::new();
    while rest.len() > 0
        invariant
            0 <= k <= orig.len(),
            rest@ == orig.skip(k),
            out@ == flatten_present(orig.take(k)),
        decreases rest@.len(),
    {
        let x = rest.remove(0);
        proof {
            assert(x == orig[k]);
            assert(rest@ =~= orig.skip(k + 1));
            assert(orig.take(k + 1).drop_last() =~= orig.take(k));
            assert(orig.take(k + 1).last() == orig[k]);
        }
        match x {
            Some(t) => {
                out.push(t);
            },
            None => {},
        }
        proof {
            assert(out@ =~= flatten_present(orig.take(k + 1)));
            k = k + 1;
        }
    }
    proof {
        assert(orig.take(k) =~= orig);
    }
    out
}

/// The viewer-identity operation: no variables; the response carries the
/// authenticated principal's login.
pub struct Authenticate;

impl Authenticate {
    /// The query document sent for the viewer-identity operation.
    pub open spec fn spec_query_text() -> Seq<char> {
        "query { viewer { login } }"@
    }

    /// The query document sent for the viewer-identity operation.
    pub fn query_text() -> (r: &'static str)
        ensures
            r@ == Authenticate::spec_query_text(),
    {
        "query { viewer { login } }"
    }
}

/// The variables of one paginated issue-listing request: issues assigned
/// to `user`, updated at or after `since`, starting after `after`, at
/// most `first` items.
pub struct Issues {
    pub user: String,
    pub since: DateTime,
    pub after: Option<String>,
    pub first: i64,
}

impl Issues {
    /// Variables for one page request; the page size is always
    /// [`PAGE_SIZE`].
    pub fn new(user: String, since: DateTime, after: Option<String>) -> (r: Issues)
        ensures
            r.user == user,
            r.since == since,
            r.after == after,
            r.first == PAGE_SIZE,
    {
        Issues { user, since, after, first: PAGE_SIZE }
    }
}

} // verus!
