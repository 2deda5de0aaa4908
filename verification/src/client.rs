//! The verified half of the API client: the authorization header value,
//! the request execution protocol applied to a deserialized response
//! envelope, and the cursor-threaded pagination state.
//!
//! The transport itself (HTTP, serialization) lives outside the library;
//! it hands envelopes and pages in as plain values.

use vstd::prelude::*;
use vstd::string::StrSliceExecFns;
use vstd::string::StringExecFns;

use crate::error::Error;
use crate::gql::flatten_nodes;
use crate::gql::present_nodes;
use crate::gql::Issues;
use crate::gql::RawIssueNode;
use crate::gql::RawPage;
use crate::pat::Pat;
use crate::timestamp::DateTime;

verus! {

/// The authorization header value carrying a token: the word `bearer`, a
/// space, and the revealed secret.
pub fn bearer_header_value(pat: Pat) -> (r: String)
    ensures
        r@ == "bearer "@ + pat@,
{
    let mut out = String::from_str("bearer ");
    let secret = pat.into_inner();
    out.append(secret.as_str());
    out
}

/// Whether a response envelope reports any GraphQL-level error.
pub open spec fn has_graphql_errors(errors: Option<Vec<String>>) -> bool {
    match errors {
        Some(e) => e@.len() > 0,
        None => false,
    }
}

/// The request execution protocol's verdict on an envelope: any reported
/// error fails the call, even beside data; data absent without errors is
/// itself a failure; otherwise the data is the result.
pub open spec fn resolve_spec<D>(data: Option<D>, errors: Option<Vec<String>>) -> Result<
    D,
    Error,
> {
    if has_graphql_errors(errors) {
        Err(Error::Protocol)
    } else {
        match data {
            Some(d) => Ok(d),
            None => Err(Error::MissingData),
        }
    }
}

/// Apply the request execution protocol to a deserialized response
/// envelope.
pub fn resolve_response<D>(data: Option<D>, errors: Option<Vec<String>>) -> (r: Result<D, Error>)
    ensures
        r == resolve_spec(data, errors),
{
    let failed = match &errors {
        Some(e) => e.len() > 0,
        None => false,
    };
    if failed {
        Err(Error::Protocol)
    } else {
        match data {
            Some(d) => Ok(d),
            None => Err(Error::MissingData),
        }
    }
}

/// A response that reports errors fails the call even when data stands
/// beside them.
pub proof fn lemma_errors_override_data<D>(data: Option<D>, errors: Option<Vec<String>>)
    requires
        has_graphql_errors(errors),
    ensures
        resolve_spec(data, errors) == Err::<D, Error>(Error::Protocol),
{
}

/// The state threaded through the pagination loop: the nodes gathered so
/// far in page order, the cursor after the last-seen item, and whether
/// the server reported the end.
pub struct Pagination {
    nodes: Vec<RawIssueNode>,
    cursor: Option<String>,
    done: bool,
}

impl Pagination {
    /// The nodes gathered so far, in the order the pages returned them.
    pub closed spec fn spec_nodes(&self) -> Seq<RawIssueNode> {
        self.nodes@
    }

    /// The cursor the next request must start after; `None` is the
    /// beginning.
    pub closed spec fn spec_cursor(&self) -> Option<String> {
        self.cursor
    }

    /// Whether the last page reported no further pages.
    pub closed spec fn spec_done(&self) -> bool {
        self.done
    }

    /// Start from the beginning: nothing gathered, no cursor, not done.
    pub fn new() -> (r: Pagination)
        ensures
            r.spec_nodes() == Seq::<RawIssueNode>::empty(),
            r.spec_cursor() is None,
            !r.spec_done(),
    {
        Pagination { nodes: Vec::new(), cursor: None, done: false }
    }

    /// The variables of the next page request: after the current cursor,
    /// one page of [`crate::gql::PAGE_SIZE`] items.
    pub fn next_request(&self, user: String, since: DateTime) -> (r: Issues)
        requires
            !self.spec_done(),
        ensures
            r.user == user,
            r.since == since,
            r.after == self.spec_cursor(),
            r.first == crate::gql::PAGE_SIZE,
    {
        Issues::new(user, since, self.cursor_clone())
    }

    /// The current cursor, to pass as the next request's `after`.
    pub fn cursor_clone(&self) -> (r: Option<String>)
        ensures
            r == self.spec_cursor(),
    {
        match &self.cursor {
            Some(c) => Some(c.clone()),
            None => None,
        }
    }

    /// Whether the server reported that no further pages exist.
    pub fn is_done(&self) -> (r: bool)
        ensures
            r == self.spec_done(),
    {
        self.done
    }

    /// Take one page response in: its present nodes are appended in
    /// order; the page's "has more" flag decides whether the loop is
    /// done; while more pages exist the cursor advances to the page's
    /// end cursor and is otherwise left alone.
    pub fn apply_page(&mut self, page: RawPage)
        ensures
            final(self).spec_nodes() == old(self).spec_nodes() + present_nodes(page.nodes),
            final(self).spec_done() == !page.page_info.has_next_page,
            final(self).spec_cursor() == if page.page_info.has_next_page {
                page.page_info.end_cursor
            } else {
                old(self).spec_cursor()
            },
    {
        let RawPage { nodes, page_info } = page;
        let mut fresh = flatten_nodes(nodes);
        self.nodes.append(&mut fresh);
        if page_info.has_next_page {
            self.cursor = page_info.end_cursor;
            self.done = false;
        } else {
            self.done = true;
        }
    }

    /// Hand out everything gathered, in page order.
    pub fn into_nodes(self) -> (r: Vec<RawIssueNode>)
        ensures
            r@ == self.spec_nodes(),
    {
        self.nodes
    }
}

} // verus!
