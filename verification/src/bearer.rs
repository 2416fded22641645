//! The request authenticator: from the value of an authorization header to
//! the claim set of the request.

use crate::claims::{claims_outcome, ClaimSet, Claims};
use crate::clock::unix_time;
use crate::errors::AuthError;
use crate::keys::Keys;
use crate::token::{verify_at, verify_outcome};
use vstd::prelude::*;
use vstd::string::{is_ascii_spec_bytes, StringSliceAdditionalSpecFns};

verus! {

/// Whether a character may stand in the text of a header value: the visible
/// ASCII characters, the space and the tab.
pub open spec fn is_header_char(c: char) -> bool {
    (' ' <= c && c <= '~') || c == '\t'
}

/// Whether a text can be the value of a header.
pub open spec fn is_header_text(text: Seq<char>) -> bool {
    forall|i: int| 0 <= i < text.len() ==> is_header_char(#[trigger] text[i])
}

/// Whether a text starts with the bearer scheme: the word `Bearer`, in
/// letters of either case, then one space.
pub open spec fn has_bearer_scheme(text: Seq<char>) -> bool {
    &&& text.len() > 6
    &&& (text[0] == 'B' || text[0] == 'b')
    &&& (text[1] == 'E' || text[1] == 'e')
    &&& (text[2] == 'A' || text[2] == 'a')
    &&& (text[3] == 'R' || text[3] == 'r')
    &&& (text[4] == 'E' || text[4] == 'e')
    &&& (text[5] == 'R' || text[5] == 'r')
    &&& text[6] == ' '
}

/// Whether a character is a space or a tab.
pub open spec fn is_blank(c: char) -> bool {
    c == ' ' || c == '\t'
}

/// How many spaces and tabs a text starts with.
pub open spec fn leading_blanks(text: Seq<char>) -> nat
    decreases text.len(),
{
    if text.len() > 0 && is_blank(text[0]) {
        leading_blanks(text.drop_first()) + 1
    } else {
        0
    }
}

/// The token that the value of an authorization header presents: what
/// follows the scheme and its space, without the blanks it starts with.
/// There is none where the value is no header text or has another scheme.
pub open spec fn bearer_credential(header: Seq<char>) -> Option<Seq<char>> {
    if is_header_text(header) && has_bearer_scheme(header) {
        Some(header.skip(7).skip(leading_blanks(header.skip(7)) as int))
    } else {
        None
    }
}

/// What authenticating a request at `now` comes to: `InvalidToken` where the
/// request has no authorization header or the header presents no bearer
/// token, and else what verifying the presented token comes to.
pub open spec fn authenticate_outcome(secret: Seq<u8>, header: Option<Seq<char>>, now: u64)
    -> Result<ClaimSet, AuthError> {
    match header {
        None => Err(AuthError::InvalidToken),
        Some(value) => match bearer_credential(value) {
            None => Err(AuthError::InvalidToken),
            Some(token) => verify_outcome(secret, token, now),
        },
    }
}

/// What the value of a header stands for.
pub open spec fn header_text(header: Option<&str>) -> Option<Seq<char>> {
    match header {
        Some(value) => Some(value@),
        None => None,
    }
}

/// The blanks that a text starts with end where its first other character
/// stands.
proof fn lemma_leading_blanks(text: Seq<char>, n: int)
    requires
        0 <= n <= text.len(),
        forall|i: int| 0 <= i < n ==> is_blank(#[trigger] text[i]),
        n < text.len() ==> !is_blank(text[n]),
    ensures
        leading_blanks(text) == n,
    decreases n,
{
    if n > 0 {
        let rest = text.drop_first();
        assert forall|i: int| 0 <= i < n - 1 implies is_blank(#[trigger] rest[i]) by {
            assert(rest[i] == text[i + 1]);
        }
        lemma_leading_blanks(rest, n - 1);
    }
}

/// The token that the value of an authorization header presents, if it
/// presents one under the bearer scheme.
pub fn bearer_token(header: &str) -> (token: Option<&str>)
    ensures
        match token {
            Some(text) => bearer_credential(header@) == Some(text@),
            None => bearer_credential(header@) is None,
        },
{
    if !header.is_ascii() {
        assert(!is_header_text(header@)) by {
            if is_header_text(header@) {
                assert forall|i: int| 0 <= i < header@.len() implies '\0' <= #[trigger] header@[i]
                    <= '\u{7f}' by {
                    assert(is_header_char(header@[i]));
                }
            }
        }
        return None;
    }
    proof {
        is_ascii_spec_bytes(header);
    }
    let n = header.as_bytes().len();
    assert(n == header@.len());
    let mut i: usize = 0;
    while i < n
        invariant
            i <= n,
            n == header@.len(),
            header.is_ascii(),
            forall|j: int| 0 <= j < i ==> is_header_char(#[trigger] header@[j]),
        decreases n - i,
    {
        let b = header.get_ascii(i);
        if !((32 <= b && b <= 126) || b == 9) {
            assert(!is_header_char(header@[i as int]));
            return None;
        }
        assert(is_header_char(header@[i as int]));
        i = i + 1;
    }
    assert(is_header_text(header@));
    if n <= 6 {
        return None;
    }
    let scheme = (header.get_ascii(0) == 66 || header.get_ascii(0) == 98) && (header.get_ascii(1)
        == 69 || header.get_ascii(1) == 101) && (header.get_ascii(2) == 65 || header.get_ascii(2)
        == 97) && (header.get_ascii(3) == 82 || header.get_ascii(3) == 114) && (header.get_ascii(4)
        == 69 || header.get_ascii(4) == 101) && (header.get_ascii(5) == 82 || header.get_ascii(5)
        == 114) && header.get_ascii(6) == 32;
    assert(scheme == has_bearer_scheme(header@));
    if !scheme {
        return None;
    }
    let mut start: usize = 7;
    let ghost rest = header@.skip(7);
    while start < n && (header.get_ascii(start) == 32 || header.get_ascii(start) == 9)
        invariant
            7 <= start <= n,
            n == header@.len(),
            header.is_ascii(),
            rest == header@.skip(7),
            forall|j: int| 0 <= j < start - 7 ==> is_blank(#[trigger] rest[j]),
        decreases n - start,
    {
        assert(rest[start - 7] == header@[start as int]);
        start = start + 1;
    }
    proof {
        if start < n {
            assert(rest[start - 7] == header@[start as int]);
        }
        lemma_leading_blanks(rest, start - 7);
        assert(header@.subrange(start as int, n as int) =~= rest.skip(start - 7));
    }
    Some(header.substring_ascii(start, n))
}

/// Authenticates a request at `now` from the value of its authorization
/// header, `None` standing for a request without one. A missing header and
/// one that presents no bearer token give `InvalidToken`; a presented token
/// is verified as by [`verify_at`]. Nothing else is decided here.
pub fn authenticate_at(keys: &Keys, header: Option<&str>, now: u64) -> (claims: Result<
    Claims,
    AuthError,
>)
    ensures
        claims_outcome(claims) == authenticate_outcome(keys.secret(), header_text(header), now),
{
    let value = match header {
        Some(value) => value,
        None => { return Err(AuthError::InvalidToken); },
    };
    match bearer_token(value) {
        Some(token) => verify_at(keys, token, now),
        None => Err(AuthError::InvalidToken),
    }
}

/// Authenticates a request at the present time. Whatever the clock says,
/// the outcome is that of [`authenticate_at`] at some instant;
/// `InvalidToken` where the clock cannot be read as seconds since the epoch.
pub fn authenticate(keys: &Keys, header: Option<&str>) -> (claims: Result<Claims, AuthError>)
    ensures
        claims is Ok ==> exists|now: u64|
            claims_outcome(claims) == #[trigger] authenticate_outcome(
                keys.secret(),
                header_text(header),
                now,
            ),
        claims matches Err(fault) ==> fault == AuthError::InvalidToken,
{
    match unix_time() {
        Some(now) => authenticate_at(keys, header, now),
        None => Err(AuthError::InvalidToken),
    }
}

} // verus!
