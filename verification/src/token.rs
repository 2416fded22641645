//! Issuing tokens and verifying them.

use crate::claims::{
    claim_members, claims_outcome, lemma_codec_round_trip, members, members_claims, ClaimSet,
    Claims, Member, PayloadField,
};
use crate::clock::unix_time;
use crate::errors::AuthError;
use crate::frame::{has_three_segments, well_framed};
use crate::jwt::{opened, seal, sealed, unseal};
use crate::keys::Keys;
use vstd::prelude::*;

verus! {

/// For how many seconds after it was issued a token is accepted.
pub const VALIDITY_WINDOW: u64 = 300;

/// What the outcome of an operation that gives a token stands for.
pub open spec fn token_outcome(outcome: Result<String, AuthError>) -> Result<Seq<char>, AuthError> {
    match outcome {
        Ok(token) => Ok(token@),
        Err(fault) => Err(fault),
    }
}

/// The payload that a list of fields stands for, `None` standing for none.
pub open spec fn payload_members(payload: Option<&Vec<PayloadField>>) -> Option<Seq<Member>> {
    match payload {
        Some(fields) => Some(members(fields@)),
        None => None,
    }
}

/// The claim set of a token issued at `now`: the identity as given, and an
/// expiry one validity window later. There is none where that instant is past
/// the last that the clock can count.
pub open spec fn issued_claims(sub: Seq<char>, company: Seq<char>, now: u64) -> Option<ClaimSet> {
    if now + VALIDITY_WINDOW <= u64::MAX {
        Some(ClaimSet { sub, company, exp: (now + VALIDITY_WINDOW) as u64 })
    } else {
        None
    }
}

/// What issuing a token at `now` comes to: the signed token of the issued
/// claim set, or `TokenCreation` where there is no such claim set or signing
/// fails.
pub open spec fn issue_outcome(secret: Seq<u8>, sub: Seq<char>, company: Seq<char>, now: u64)
    -> Result<Seq<char>, AuthError> {
    match issued_claims(sub, company, now) {
        None => Err(AuthError::TokenCreation),
        Some(claims) => match sealed(secret, claim_members(claims)) {
            Some(token) => Ok(token),
            None => Err(AuthError::TokenCreation),
        },
    }
}

/// What the payload read from a token comes to at `now`: its claim set, if
/// the token was opened, the payload holds a claim set and `now` is not past
/// the expiry; `InvalidToken` in every other case.
pub open spec fn accept(payload: Option<Seq<Member>>, now: u64) -> Result<ClaimSet, AuthError> {
    match payload {
        None => Err(AuthError::InvalidToken),
        Some(found) => match members_claims(found) {
            None => Err(AuthError::InvalidToken),
            Some(claims) => if now > claims.exp {
                Err(AuthError::InvalidToken)
            } else {
                Ok(claims)
            },
        },
    }
}

/// What verifying a token at `now` comes to. It depends on the token, the
/// secret and `now`, and on nothing else.
pub open spec fn verify_outcome(secret: Seq<u8>, token: Seq<char>, now: u64) -> Result<
    ClaimSet,
    AuthError,
> {
    if well_framed(token) {
        accept(opened(secret, token), now)
    } else {
        Err(AuthError::InvalidToken)
    }
}

impl Claims {
    /// The claim set of a token issued at `now` to this identity. Its expiry
    /// is `now` plus the validity window, and so lies after `now`.
    pub fn issued_at(sub: &str, company: &str, now: u64) -> (claims: Option<Claims>)
        ensures
            claims matches Some(c) ==> issued_claims(sub@, company@, now) == Some(c@),
            claims is None ==> issued_claims(sub@, company@, now) is None,
            claims matches Some(c) ==> c.exp > now,
    {
        match now.checked_add(VALIDITY_WINDOW) {
            Some(exp) => Some(Claims { sub: sub.to_owned(), company: company.to_owned(), exp }),
            None => None,
        }
    }
}

/// Issues a token at `now` to an identity that the caller has already
/// authenticated. Either the whole signed token comes back or
/// `TokenCreation`, never a part of a token.
pub fn issue_at(keys: &Keys, sub: &str, company: &str, now: u64) -> (token: Result<
    String,
    AuthError,
>)
    ensures
        token_outcome(token) == issue_outcome(keys.secret(), sub@, company@, now),
{
    let claims = match Claims::issued_at(sub, company, now) {
        Some(claims) => claims,
        None => { return Err(AuthError::TokenCreation); },
    };
    let fields = claims.to_fields();
    match seal(keys.signing_key(), &fields) {
        Ok(text) => Ok(text),
        Err(_) => Err(AuthError::TokenCreation),
    }
}

/// Issues a token at the present time. Whatever the clock says, the outcome
/// is that of [`issue_at`] at some instant; `TokenCreation` where the clock
/// cannot be read as seconds since the epoch.
pub fn issue(keys: &Keys, sub: &str, company: &str) -> (token: Result<String, AuthError>)
    ensures
        token is Ok ==> exists|now: u64|
            token_outcome(token) == #[trigger] issue_outcome(keys.secret(), sub@, company@, now),
        token matches Err(fault) ==> fault == AuthError::TokenCreation,
{
    match unix_time() {
        Some(now) => issue_at(keys, sub, company, now),
        None => Err(AuthError::TokenCreation),
    }
}

/// Decides on the payload that was read from a token, `None` standing for a
/// token that was not opened: the claim set, if the payload holds one whose
/// expiry `now` is not past, and `InvalidToken` otherwise.
pub fn accept_payload(payload: Option<&Vec<PayloadField>>, now: u64) -> (claims: Result<
    Claims,
    AuthError,
>)
    ensures
        claims_outcome(claims) == accept(payload_members(payload), now),
{
    let fields = match payload {
        Some(fields) => fields,
        None => { return Err(AuthError::InvalidToken); },
    };
    match Claims::from_fields(fields) {
        Some(claims) => if now > claims.exp {
            Err(AuthError::InvalidToken)
        } else {
            Ok(claims)
        },
        None => Err(AuthError::InvalidToken),
    }
}

/// Verifies a token at `now`. The text may be anything a client sent. The
/// claim set comes back exactly if the text has the shape of a token, it is
/// opened under the verification key, its payload holds a claim set, and
/// `now` is not past the expiry; every failure is `InvalidToken`, whatever
/// its reason. Nothing is changed, so the call can be repeated at will.
pub fn verify_at(keys: &Keys, token: &str, now: u64) -> (claims: Result<Claims, AuthError>)
    ensures
        claims_outcome(claims) == verify_outcome(keys.secret(), token@, now),
{
    if !has_three_segments(token) {
        return Err(AuthError::InvalidToken);
    }
    match unseal(keys.verification_key(), token) {
        Ok(fields) => accept_payload(Some(&fields), now),
        Err(_) => accept_payload(None, now),
    }
}

/// Verifies a token at the present time. Whatever the clock says, the
/// outcome is that of [`verify_at`] at some instant; `InvalidToken` where the
/// clock cannot be read as seconds since the epoch.
pub fn verify(keys: &Keys, token: &str) -> (claims: Result<Claims, AuthError>)
    ensures
        claims is Ok ==> exists|now: u64|
            claims_outcome(claims) == #[trigger] verify_outcome(keys.secret(), token@, now),
        claims matches Err(fault) ==> fault == AuthError::InvalidToken,
{
    match unix_time() {
        Some(now) => verify_at(keys, token, now),
        None => Err(AuthError::InvalidToken),
    }
}

/// Issuing at another instant gives another expiry: two claim sets issued to
/// one identity at different instants differ, the later one expiring later.
pub proof fn lemma_later_issue_expires_later(
    sub: Seq<char>,
    company: Seq<char>,
    earlier: u64,
    later: u64,
)
    requires
        earlier < later,
    ensures
        issued_claims(sub, company, later) matches Some(second) ==> issued_claims(
            sub,
            company,
            earlier,
        ) matches Some(first) && first.exp < second.exp && first != second,
{
}

/// Whether the signing library reads a payload back: if it seals the payload
/// under the secret at all, the token has the shape of one and opens, under
/// the same secret, to that payload. This is no fact of this crate; the laws
/// below say what follows where it holds.
pub open spec fn reads_back(secret: Seq<u8>, payload: Seq<Member>) -> bool {
    sealed(secret, payload) matches Some(token) ==> well_framed(token) && opened(secret, token)
        == Some(payload)
}

/// Round trip, as far as it is this crate's: where a token is issued at
/// `issued` and the signing library reads its payload back, verifying the
/// token at any `now` up to the expiry gives the claim set that was issued.
pub proof fn lemma_round_trip_where_read_back(
    secret: Seq<u8>,
    sub: Seq<char>,
    company: Seq<char>,
    issued: u64,
    now: u64,
)
    requires
        now <= issued + VALIDITY_WINDOW,
    ensures
        issue_outcome(secret, sub, company, issued) matches Ok(token) ==> issued_claims(
            sub,
            company,
            issued,
        ) matches Some(claims) && (reads_back(secret, claim_members(claims)) ==> verify_outcome(
            secret,
            token,
            now,
        ) == Ok::<ClaimSet, AuthError>(claims)),
{
    if let Some(claims) = issued_claims(sub, company, issued) {
        lemma_codec_round_trip(claims);
    }
}

/// The expiry decides: a token that is accepted at one instant is accepted,
/// with the same claim set, at every instant up to its expiry, and turned
/// down as `InvalidToken` at every later one.
pub proof fn lemma_expiry_decides(secret: Seq<u8>, token: Seq<char>, seen: u64, now: u64)
    ensures
        verify_outcome(secret, token, seen) matches Ok(claims) ==> verify_outcome(
            secret,
            token,
            now,
        ) == (if now > claims.exp {
            Err::<ClaimSet, AuthError>(AuthError::InvalidToken)
        } else {
            Ok::<ClaimSet, AuthError>(claims)
        }),
{
}

/// The expiry boundary of an issued token: where a token is issued at
/// `issued` and the signing library reads its payload back, the token is
/// turned down from one second after the validity window on, and accepted
/// one second before the window ends.
pub proof fn lemma_expiry_boundary(
    secret: Seq<u8>,
    sub: Seq<char>,
    company: Seq<char>,
    issued: u64,
    now: u64,
)
    ensures
        issue_outcome(secret, sub, company, issued) matches Ok(token) ==> issued_claims(
            sub,
            company,
            issued,
        ) matches Some(claims) && (reads_back(secret, claim_members(claims)) ==> {
            &&& now >= issued + VALIDITY_WINDOW + 1 ==> verify_outcome(secret, token, now) == Err::<
                ClaimSet,
                AuthError,
            >(AuthError::InvalidToken)
            &&& now == issued + VALIDITY_WINDOW - 1 ==> verify_outcome(secret, token, now) == Ok::<
                ClaimSet,
                AuthError,
            >(claims)
        }),
{
    if let Some(claims) = issued_claims(sub, company, issued) {
        lemma_codec_round_trip(claims);
    }
}

/// Verifying is repeatable: the outcome depends on the secret, the token and
/// the instant alone, and two verifications of one token that both succeed
/// give the same claim set, whenever they are made.
pub proof fn lemma_verify_repeatable(secret: Seq<u8>, token: Seq<char>, first: u64, second: u64)
    ensures
        first == second ==> verify_outcome(secret, token, first) == verify_outcome(
            secret,
            token,
            second,
        ),
        verify_outcome(secret, token, first) is Ok && verify_outcome(secret, token, second) is Ok
            ==> verify_outcome(secret, token, first) == verify_outcome(secret, token, second),
{
}

/// Nothing is accepted that the signing library did not open: a claim set
/// comes back only for a text with the shape of a token that the library
/// opens under the secret, whose payload holds that claim set, at an instant
/// that is not past its expiry.
pub proof fn lemma_accepted_was_opened(secret: Seq<u8>, token: Seq<char>, now: u64)
    ensures
        verify_outcome(secret, token, now) matches Ok(claims) ==> {
            &&& well_framed(token)
            &&& opened(secret, token) matches Some(payload)
            &&& members_claims(payload) == Some(claims)
            &&& now <= claims.exp
        },
{
}

/// A text without the shape of a token is turned down as `InvalidToken`,
/// whatever the secret and the instant.
pub proof fn lemma_malformed_is_invalid(secret: Seq<u8>, token: Seq<char>, now: u64)
    requires
        !well_framed(token),
    ensures
        verify_outcome(secret, token, now) == Err::<ClaimSet, AuthError>(AuthError::InvalidToken),
{
}

/// The failure kinds: issuing fails as `TokenCreation` alone, verifying as
/// `InvalidToken` alone.
pub proof fn lemma_failure_kinds(
    secret: Seq<u8>,
    sub: Seq<char>,
    company: Seq<char>,
    token: Seq<char>,
    now: u64,
)
    ensures
        issue_outcome(secret, sub, company, now) matches Err(fault) ==> fault
            == AuthError::TokenCreation,
        verify_outcome(secret, token, now) matches Err(fault) ==> fault == AuthError::InvalidToken,
{
}

} // verus!
