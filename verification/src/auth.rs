//! Bearer-token authorization of host API requests.

use vstd::prelude::*;

use crate::text::chars_of;

verus! {

/// `c` is an ASCII upper-case letter.
pub open spec fn is_ascii_upper(c: char) -> bool {
    'A' <= c && c <= 'Z'
}

/// The two characters are equal once ASCII letters are lower-cased.
pub open spec fn char_eq_ignore_ascii_case(a: char, b: char) -> bool {
    ||| a == b
    ||| is_ascii_upper(a) && (a as int) + 32 == (b as int)
    ||| is_ascii_upper(b) && (b as int) + 32 == (a as int)
}

/// The two sequences are equal once ASCII letters are lower-cased.
pub open spec fn eq_ignore_ascii_case(a: Seq<char>, b: Seq<char>) -> bool {
    &&& a.len() == b.len()
    &&& forall|i: int| 0 <= i < a.len() ==> char_eq_ignore_ascii_case(#[trigger] a[i], b[i])
}

/// The authorization scheme that the host accepts.
pub open spec fn bearer_scheme() -> Seq<char> {
    seq!['B', 'e', 'a', 'r', 'e', 'r']
}

/// An `Authorization` header value that carries `token` under the bearer scheme:
/// the scheme (in any ASCII case), one space, then exactly the token.
pub open spec fn bearer_accepts(header: Seq<char>, token: Seq<char>) -> bool {
    &&& header.len() > 6
    &&& eq_ignore_ascii_case(header.take(6), bearer_scheme())
    &&& header[6] == ' '
    &&& header.skip(7) == token
}

/// How a request's credentials are judged.
#[derive(Clone, Copy, Debug, PartialEq, Eq, Structural)]
pub enum AuthOutcome {
    /// The request may proceed.
    Authorized,
    /// The header is missing or does not carry the host token (401).
    Unauthorized,
    /// The server state holding the token is unavailable (500).
    Unavailable,
}

impl AuthOutcome {
    /// The HTTP status of a refused request: 401 or 500; 200 for an authorized one.
    pub fn status_code(&self) -> (code: u16)
        ensures
            code == match self {
                AuthOutcome::Authorized => 200u16,
                AuthOutcome::Unauthorized => 401u16,
                AuthOutcome::Unavailable => 500u16,
            },
    {
        match self {
            AuthOutcome::Authorized => 200,
            AuthOutcome::Unauthorized => 401,
            AuthOutcome::Unavailable => 500,
        }
    }
}

fn chars_eq_ignore_ascii_case(a: char, b: char) -> (same: bool)
    ensures
        same == char_eq_ignore_ascii_case(a, b),
{
    if a == b {
        true
    } else if 'A' <= a && a <= 'Z' && (a as u32) + 32 == (b as u32) {
        true
    } else {
        'A' <= b && b <= 'Z' && (b as u32) + 32 == (a as u32)
    }
}

/// Judges a request's `Authorization` header against the host token. The server
/// state that holds the token is checked first, then the header.
pub fn authorize(expected_token: Option<&str>, header: Option<&str>) -> (outcome: AuthOutcome)
    ensures
        expected_token is None ==> outcome == AuthOutcome::Unavailable,
        expected_token matches Some(token) ==> match header {
            None => outcome == AuthOutcome::Unauthorized,
            Some(h) => (outcome == AuthOutcome::Authorized) == bearer_accepts(h@, token@) && (
            outcome == AuthOutcome::Authorized || outcome == AuthOutcome::Unauthorized),
        },
{
    let token = match expected_token {
        None => {
            return AuthOutcome::Unavailable;
        },
        Some(token) => token,
    };
    let header = match header {
        None => {
            return AuthOutcome::Unauthorized;
        },
        Some(header) => header,
    };
    let h = chars_of(header);
    let t = chars_of(token);
    // Split at the first space.
    let mut space: usize = 0;
    while space < h.len() && h[space] != ' '
        invariant
            space <= h@.len(),
            forall|j: int| 0 <= j < space ==> h@[j] != ' ',
        decreases h@.len() - space,
    {
        space = space + 1;
    }
    if space == h.len() {
        proof {
            if bearer_accepts(h@, t@) {
                assert(h@[6] == ' ');
            }
        }
        return AuthOutcome::Unauthorized;
    }
    let scheme = ['B', 'e', 'a', 'r', 'e', 'r'];
    let mut matches = space == 6;
    let mut i: usize = 0;
    while matches && i < 6
        invariant
            matches ==> space == 6,
            i <= 6,
            space < h@.len(),
            scheme@ == bearer_scheme(),
            matches ==> forall|j: int| 0 <= j < i ==> char_eq_ignore_ascii_case(h@[j], scheme@[j]),
            !matches ==> (space != 6 || !eq_ignore_ascii_case(h@.take(6), bearer_scheme())),
        decreases 6 - i,
    {
        if !chars_eq_ignore_ascii_case(h[i], scheme[i]) {
            matches = false;
            assert(h@.take(6)[i as int] == h@[i as int]);
        }
        i = i + 1;
    }
    let mut rest_matches = matches && h.len() - (space + 1) == t.len();
    let mut k: usize = 0;
    while rest_matches && k < t.len()
        invariant
            rest_matches ==> matches && space == 6 && h@.len() - 7 == t@.len(),
            k <= t@.len(),
            space < h@.len(),
            rest_matches ==> forall|j: int| 0 <= j < k ==> h@[7 + j] == t@[j],
            !rest_matches ==> (!matches || h@.len() - (space + 1) != t@.len() || h@.skip(7)
                != t@),
        decreases t@.len() - k,
    {
        let h_len = h.len();
        assert(space + 1 + k < h_len);
        if h[space + 1 + k] != t[k] {
            rest_matches = false;
            assert(h@.skip(7)[k as int] == h@[7 + k]);
        }
        k = k + 1;
    }
    proof {
        if matches {
            assert forall|j: int| 0 <= j < 6 implies char_eq_ignore_ascii_case(
                #[trigger] h@.take(6)[j],
                bearer_scheme()[j],
            ) by {
                assert(h@.take(6)[j] == h@[j]);
            }
        }
        if rest_matches {
            assert(h@.skip(7) =~= t@);
        }
        if bearer_accepts(h@, t@) {
            assert(h@[6] == ' ');
            assert(h@[space as int] == ' ');
            if space < 6 {
                assert(h@.take(6)[space as int] == h@[space as int]);
                assert(char_eq_ignore_ascii_case(h@.take(6)[space as int], bearer_scheme()[space as int]));
            }
            assert(space == 6);
            assert forall|j: int| 0 <= j < 6 implies char_eq_ignore_ascii_case(
                h@[j],
                #[trigger] scheme@[j],
            ) by {
                assert(h@.take(6)[j] == h@[j]);
            }
        }
    }
    if rest_matches {
        AuthOutcome::Authorized
    } else {
        AuthOutcome::Unauthorized
    }
}

/// A header of the scheme `Bearer`, in any ASCII case, a space and the token is
/// accepted for that token: `Bearer t`, `bearer t` and `BEARER t` all carry `t`.
pub proof fn lemma_bearer_header_accepted(token: Seq<char>)
    ensures
        bearer_accepts(seq!['B', 'e', 'a', 'r', 'e', 'r', ' '] + token, token),
        bearer_accepts(seq!['b', 'e', 'a', 'r', 'e', 'r', ' '] + token, token),
        bearer_accepts(seq!['B', 'E', 'A', 'R', 'E', 'R', ' '] + token, token),
{
    let h1 = seq!['B', 'e', 'a', 'r', 'e', 'r', ' '] + token;
    let h2 = seq!['b', 'e', 'a', 'r', 'e', 'r', ' '] + token;
    let h3 = seq!['B', 'E', 'A', 'R', 'E', 'R', ' '] + token;
    assert(h1.take(6) =~= bearer_scheme());
    assert(h1.skip(7) =~= token);
    assert(h2.take(6) =~= seq!['b', 'e', 'a', 'r', 'e', 'r']);
    assert(h2.skip(7) =~= token);
    assert(h3.take(6) =~= seq!['B', 'E', 'A', 'R', 'E', 'R']);
    assert(h3.skip(7) =~= token);
    assert(h2[6] == ' ');
    assert(h3[6] == ' ');
}

/// An accepted header carries exactly one token: everything after the scheme and its
/// space, so a header accepted for two tokens names the same one twice, and a token
/// with anything added or removed is refused.
pub proof fn lemma_bearer_token_is_exact(header: Seq<char>, token: Seq<char>, other: Seq<char>)
    ensures
        bearer_accepts(header, token) ==> header.len() == token.len() + 7 && header.skip(7)
            == token,
        bearer_accepts(header, token) && bearer_accepts(header, other) ==> token == other,
        bearer_accepts(header, token) && other != token ==> !bearer_accepts(header, other),
{
}

/// Other schemes are refused: a `Basic` header is not accepted for any token, nor is
/// the bare token, nor a header with no space after the scheme.
pub proof fn lemma_other_schemes_refused(token: Seq<char>)
    ensures
        !bearer_accepts(seq!['B', 'a', 's', 'i', 'c', ' '] + token, token),
        !bearer_accepts(seq!['B', 'e', 'a', 'r', 'e', 'r'] + token, token),
{
    let basic = seq!['B', 'a', 's', 'i', 'c', ' '] + token;
    if basic.len() > 6 {
        assert(basic.take(6)[1] == 'a');
        assert(!char_eq_ignore_ascii_case(basic.take(6)[1], bearer_scheme()[1]));
    }
    let glued = seq!['B', 'e', 'a', 'r', 'e', 'r'] + token;
    if bearer_accepts(glued, token) {
        assert(glued.skip(7).len() == token.len() - 1);
    }
}

} // verus!
