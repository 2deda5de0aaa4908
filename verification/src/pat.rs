//! Personal access token: validated on construction, revealed only for
//! the authorization header, and redacted everywhere else.

use vstd::prelude::*;
use vstd::string::StrSliceExecFns;
use vstd::string::StringExecFns;

use crate::error::Error;

verus! {

/// Total width of the redacted representation.
pub const MASK_WIDTH: usize = 30;

/// How many trailing characters of the secret stay visible.
pub const MASK_VISIBLE: usize = 3;

/// A personal access token. A token is only constructed from a string
/// that starts with the literal prefix `ghp_`; no other validation is
/// performed. The full secret is reachable only through
/// [`Pat::into_inner`]; every displayable form goes through
/// [`Pat::debug_representation`], which keeps at most the last three
/// characters in plain text.
#[derive(Clone)]
pub struct Pat {
    secret: String,
}

impl View for Pat {
    type V = Seq<char>;

    closed spec fn view(&self) -> Seq<char> {
        self.secret@
    }
}

/// The required literal prefix of every token.
pub open spec fn has_token_prefix(s: Seq<char>) -> bool {
    s.len() >= 4 && s[0] == 'g' && s[1] == 'h' && s[2] == 'p' && s[3] == '_'
}

/// How many trailing characters of a secret of length `n` stay visible.
pub open spec fn visible_count(n: nat) -> int {
    if n < MASK_VISIBLE { n as int } else { MASK_VISIBLE as int }
}

impl Pat {
    /// Construct a token. Succeeds exactly on strings that start with
    /// `ghp_`; the constructed token holds the input unchanged.
    pub fn from_str(s: &str) -> (r: Result<Pat, Error>)
        ensures
            match r {
                Ok(p) => has_token_prefix(s@) && p@ == s@,
                Err(e) => !has_token_prefix(s@) && e == Error::CredentialFormat,
            },
    {
        let n = s.unicode_len();
        if n < 4 {
            return Err(Error::CredentialFormat);
        }
        if s.get_char(0) == 'g' && s.get_char(1) == 'h' && s.get_char(2) == 'p' && s.get_char(3)
            == '_' {
            Ok(Pat { secret: String::from_str(s) })
        } else {
            Err(Error::CredentialFormat)
        }
    }

    /// Hand out the full secret, for inclusion in an authorization
    /// header only.
    pub fn into_inner(self) -> (r: String)
        ensures
            r@ == self@,
    {
        self.secret
    }

    /// A redacted, fixed-width rendering of the token: the last three
    /// characters (fewer when the secret is shorter) in plain text,
    /// everything before them replaced by `*`, padded to width 30. At
    /// least 27 of the 30 positions are always the masking character,
    /// whatever the secret's length.
    pub fn debug_representation(&self) -> (r: String)
        ensures
            r@.len() == MASK_WIDTH as int,
            forall|i: int| 0 <= i < MASK_WIDTH - visible_count(self@.len()) ==> r@[i] == '*',
            forall|i: int| 0 <= i < 27 ==> r@[i] == '*',
            r@.subrange(MASK_WIDTH - visible_count(self@.len()), MASK_WIDTH as int)
                == self@.subrange(
                self@.len() - visible_count(self@.len()),
                self@.len() as int,
            ),
    {
        proof {
            reveal_strlit("*");
        }
        let len = self.secret.as_str().unicode_len();
        let visible: usize = if len < MASK_VISIBLE {
            len
        } else {
            MASK_VISIBLE
        };
        let mut out = String::new();
        let mut i: usize = 0;
        while i < MASK_WIDTH - visible
            invariant
                i <= MASK_WIDTH - visible,
                visible == visible_count(self@.len()),
                visible <= MASK_VISIBLE,
                out@.len() == i,
                forall|j: int| 0 <= j < i ==> out@[j] == '*',
            decreases MASK_WIDTH - visible - i,
        {
            proof {
                reveal_strlit("*");
            }
            out.append("*");
            i = i + 1;
        }
        let tail = self.secret.as_str().substring_char(len - visible, len);
        out.append(tail);
        proof {
            assert(out@.subrange(
                MASK_WIDTH - visible_count(self@.len()),
                MASK_WIDTH as int,
            ) =~= self@.subrange(self@.len() - visible_count(self@.len()), self@.len() as int));
        }
        out
    }
}

/// Construction succeeds exactly on strings that start with the required
/// prefix, and revealing the constructed token gives back exactly the
/// input. The two premises are the contracts of [`Pat::from_str`] and
/// [`Pat::into_inner`].
pub proof fn lemma_construction_reveals_input(
    s: Seq<char>,
    r: Result<Pat, Error>,
    revealed: Seq<char>,
)
    requires
        match r {
            Ok(p) => has_token_prefix(s) && p@ == s,
            Err(e) => !has_token_prefix(s) && e == Error::CredentialFormat,
        },
        match r {
            Ok(p) => revealed == p@,
            Err(_) => true,
        },
    ensures
        r is Ok <==> has_token_prefix(s),
        r is Ok ==> revealed == s,
{
}

} // verus!
