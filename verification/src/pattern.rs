//! Glob patterns over repository identifiers of the form `owner/name`.
//!
//! A pattern is matched against the whole identifier, not component by
//! component: `*` matches any (possibly empty) run of characters, `?`
//! matches exactly one character, and every other character matches
//! itself.

use vstd::prelude::*;
use vstd::string::StrSliceExecFns;

verus! {

/// What it means for pattern `p` to match the whole string `s`.
pub open spec fn glob_matches(p: Seq<char>, s: Seq<char>) -> bool
    decreases p.len(), s.len(),
{
    if p.len() == 0 {
        s.len() == 0
    } else if p[0] == '*' {
        glob_matches(p.skip(1), s) || (s.len() > 0 && glob_matches(p, s.skip(1)))
    } else if s.len() == 0 {
        false
    } else {
        (p[0] == '?' || p[0] == s[0]) && glob_matches(p.skip(1), s.skip(1))
    }
}

/// A glob pattern over `owner/name` repository identifiers.
#[derive(Clone)]
pub struct Pattern {
    text: String,
}

impl View for Pattern {
    type V = Seq<char>;

    closed spec fn view(&self) -> Seq<char> {
        self.text@
    }
}

impl Pattern {
    /// Any string is a pattern; characters other than `*` and `?` are
    /// taken literally.
    pub fn new(text: String) -> (r: Pattern)
        ensures
            r@ == text@,
    {
        Pattern { text }
    }

    /// Whether this pattern matches the whole of `s`.
    pub fn matches(&self, s: &str) -> (r: bool)
        ensures
            r == glob_matches(self@, s@),
    {
        proof {
            assert(self@.skip(0) =~= self@);
            assert(s@.skip(0) =~= s@);
        }
        matches_from(self.text.as_str(), s, 0, 0)
    }
}

/// Matches the pattern suffix starting at `pi` against the string suffix
/// starting at `ti`.
fn matches_from(p: &str, s: &str, pi: usize, ti: usize) -> (r: bool)
    requires
        pi <= p@.len(),
        ti <= s@.len(),
    ensures
        r == glob_matches(p@.skip(pi as int), s@.skip(ti as int)),
    decreases p@.len() - pi, s@.len() - ti,
{
    let pl = p.unicode_len();
    let sl = s.unicode_len();
    proof {
        assert(p@.skip(pi as int).len() == p@.len() - pi);
        assert(s@.skip(ti as int).len() == s@.len() - ti);
    }
    if pi == pl {
        ti == sl
    } else {
        let pc = p.get_char(pi);
        proof {
            assert(p@.skip(pi as int)[0] == p@[pi as int]);
            assert(p@.skip(pi as int).skip(1) =~= p@.skip(pi as int + 1));
        }
        if pc == '*' {
            if matches_from(p, s, pi + 1, ti) {
                true
            } else if ti < sl {
                proof {
                    assert(s@.skip(ti as int).skip(1) =~= s@.skip(ti as int + 1));
                }
                matches_from(p, s, pi, ti + 1)
            } else {
                false
            }
        } else if ti == sl {
            false
        } else {
            let tc = s.get_char(ti);
            proof {
                assert(s@.skip(ti as int)[0] == s@[ti as int]);
                assert(s@.skip(ti as int).skip(1) =~= s@.skip(ti as int + 1));
            }
            if pc == '?' || pc == tc {
                matches_from(p, s, pi + 1, ti + 1)
            } else {
                false
            }
        }
    }
}

} // verus!
