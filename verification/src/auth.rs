//! The single authorization predicate that gates viewer connections and
//! publish calls alike.

use vstd::prelude::*;
use vstd::string::*;
use crate::text::same_text;

verus! {

/// Whether a request presenting `provided` may use a server configured with
/// `expected`: an open server admits everyone, a protected one only the exact
/// token.
pub open spec fn authorized(expected: Option<Seq<char>>, provided: Option<Seq<char>>) -> bool {
    match expected {
        None => true,
        Some(want) => match provided {
            None => false,
            Some(got) => want == got,
        },
    }
}

/// The character sequence behind an optional owned token.
pub open spec fn token_text(token: Option<String>) -> Option<Seq<char>> {
    match token {
        None => None,
        Some(t) => Some(t@),
    }
}

/// The character sequence behind an optional borrowed token.
pub open spec fn presented_text(token: Option<&str>) -> Option<Seq<char>> {
    match token {
        None => None,
        Some(t) => Some(t@),
    }
}

/// Decides whether `provided` grants access to a server configured with
/// `expected`.
pub fn token_valid(expected: &Option<String>, provided: Option<&str>) -> (ok: bool)
    ensures
        ok == authorized(token_text(*expected), presented_text(provided)),
{
    match expected {
        None => true,
        Some(want) => match provided {
            None => false,
            Some(got) => same_text(want.as_str(), got),
        },
    }
}

/// A server without a token admits every request, whatever it presents.
pub proof fn lemma_open_server_admits_all(provided: Option<Seq<char>>)
    ensures
        authorized(None, provided),
{
}

/// A protected server admits the request that presents its token.
pub proof fn lemma_matching_token_admitted(token: Seq<char>)
    ensures
        authorized(Some(token), Some(token)),
{
}

/// A protected server turns away a request that presents nothing or any
/// other token.
pub proof fn lemma_other_token_refused(token: Seq<char>, provided: Option<Seq<char>>)
    requires
        provided != Some(token),
    ensures
        !authorized(Some(token), provided),
{
}

} // verus!
