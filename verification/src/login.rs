//! The credential check: a login is checked for its shape, matched against
//! the known identities, and answered with a token.

use crate::body::{bearer_scheme, AuthBody, AuthBodyView};
use crate::clock::unix_time;
use crate::errors::AuthError;
use crate::keys::Keys;
use crate::text::str_eq;
use crate::token::{issue_at, issue_outcome};
use vstd::prelude::*;

verus! {

/// One client that may log in, and the identity that its tokens carry.
#[derive(Debug)]
pub struct Identity {
    pub client_id: String,
    pub client_secret: String,
    /// The subject identifier written into the client's tokens.
    pub sub: String,
    /// The organization tag written into the client's tokens.
    pub company: String,
}

/// What an [`Identity`] stands for.
pub struct IdentityView {
    pub client_id: Seq<char>,
    pub client_secret: Seq<char>,
    pub sub: Seq<char>,
    pub company: Seq<char>,
}

impl View for Identity {
    type V = IdentityView;

    open spec fn view(&self) -> IdentityView {
        IdentityView {
            client_id: self.client_id@,
            client_secret: self.client_secret@,
            sub: self.sub@,
            company: self.company@,
        }
    }
}

/// What a list of identities stands for, in its order.
pub open spec fn identities(store: Seq<Identity>) -> Seq<IdentityView> {
    Seq::new(store.len(), |i: int| store[i]@)
}

/// The first identity with exactly this client identifier and client secret.
pub open spec fn first_match(
    store: Seq<IdentityView>,
    client_id: Seq<char>,
    client_secret: Seq<char>,
) -> Option<IdentityView>
    decreases store.len(),
{
    if store.len() == 0 {
        None
    } else if first_match(store.drop_last(), client_id, client_secret) is Some {
        first_match(store.drop_last(), client_id, client_secret)
    } else if store.last().client_id == client_id && store.last().client_secret == client_secret {
        Some(store.last())
    } else {
        None
    }
}

/// What the credential check makes of a pair of credentials: `MissingCredentials` where
/// the client identifier or the client secret is empty; else
/// `WrongCredentials` where no identity matches; else the first match.
pub open spec fn admission(store: Seq<IdentityView>, client_id: Seq<char>, client_secret: Seq<char>)
    -> Result<IdentityView, AuthError> {
    if client_id.len() == 0 || client_secret.len() == 0 {
        Err(AuthError::MissingCredentials)
    } else {
        match first_match(store, client_id, client_secret) {
            None => Err(AuthError::WrongCredentials),
            Some(identity) => Ok(identity),
        }
    }
}

/// What a login at `now` comes to: the refusal of the credential check, or
/// else what issuing a token to the identity that it let in comes to.
pub open spec fn login_outcome(
    secret: Seq<u8>,
    store: Seq<IdentityView>,
    client_id: Seq<char>,
    client_secret: Seq<char>,
    now: u64,
) -> Result<AuthBodyView, AuthError> {
    match admission(store, client_id, client_secret) {
        Err(fault) => Err(fault),
        Ok(identity) => match issue_outcome(secret, identity.sub, identity.company, now) {
            Ok(token) => Ok(AuthBodyView { access_token: token, token_type: bearer_scheme() }),
            Err(fault) => Err(fault),
        },
    }
}

/// What the outcome of the credential check stands for.
pub open spec fn identity_outcome(outcome: Result<&Identity, AuthError>) -> Result<
    IdentityView,
    AuthError,
> {
    match outcome {
        Ok(identity) => Ok(identity@),
        Err(fault) => Err(fault),
    }
}

/// What the outcome of a login stands for.
pub open spec fn body_outcome(outcome: Result<AuthBody, AuthError>) -> Result<
    AuthBodyView,
    AuthError,
> {
    match outcome {
        Ok(body) => Ok(body@),
        Err(fault) => Err(fault),
    }
}

/// The first identity with exactly this client identifier and client secret.
pub fn find_identity<'a>(store: &'a [Identity], client_id: &str, client_secret: &str) -> (found:
    Option<&'a Identity>)
    ensures
        match found {
            Some(identity) => first_match(identities(store@), client_id@, client_secret@) == Some(
                identity@,
            ),
            None => first_match(identities(store@), client_id@, client_secret@) is None,
        },
{
    let mut i: usize = 0;
    assert(identities(store@).take(0) =~= Seq::<IdentityView>::empty());
    while i < store.len()
        invariant
            i <= store@.len(),
            first_match(identities(store@).take(i as int), client_id@, client_secret@) is None,
        decreases store@.len() - i,
    {
        proof {
            let next = identities(store@).take(i as int + 1);
            assert(next.drop_last() =~= identities(store@).take(i as int));
            assert(next.last() == store@[i as int]@);
        }
        let same_id = str_eq(store[i].client_id.as_str(), client_id);
        let same_secret = str_eq(store[i].client_secret.as_str(), client_secret);
        if same_id && same_secret {
            proof {
                lemma_first_match_stays(identities(store@), i as int + 1, client_id@, client_secret@);
            }
            return Some(&store[i]);
        }
        i = i + 1;
    }
    assert(identities(store@).take(store@.len() as int) =~= identities(store@));
    None
}

/// A match among the first `n` identities is the match in the whole list.
proof fn lemma_first_match_stays(
    store: Seq<IdentityView>,
    n: int,
    client_id: Seq<char>,
    client_secret: Seq<char>,
)
    requires
        0 <= n <= store.len(),
        first_match(store.take(n), client_id, client_secret) is Some,
    ensures
        first_match(store, client_id, client_secret) == first_match(
            store.take(n),
            client_id,
            client_secret,
        ),
    decreases store.len() - n,
{
    if n == store.len() {
        assert(store.take(n) =~= store);
    } else {
        assert(store.take(n + 1).drop_last() =~= store.take(n));
        lemma_first_match_stays(store, n + 1, client_id, client_secret);
    }
}

/// Checks a pair of credentials. Empty credentials are turned down before
/// any identity is looked at; others are matched against the identities in
/// their order.
pub fn check_credentials<'a>(store: &'a [Identity], client_id: &str, client_secret: &str) -> (admitted:
    Result<&'a Identity, AuthError>)
    ensures
        identity_outcome(admitted) == admission(identities(store@), client_id@, client_secret@),
{
    if client_id.is_empty() || client_secret.is_empty() {
        return Err(AuthError::MissingCredentials);
    }
    match find_identity(store, client_id, client_secret) {
        Some(identity) => Ok(identity),
        None => Err(AuthError::WrongCredentials),
    }
}

/// Answers a login at `now`: with the refusal of the credential check, before
/// any token is made, or with a token for the identity that matched, or with the
/// failure of issuing it.
pub fn login_at(
    keys: &Keys,
    store: &[Identity],
    client_id: &str,
    client_secret: &str,
    now: u64,
) -> (answer: Result<AuthBody, AuthError>)
    ensures
        body_outcome(answer) == login_outcome(
            keys.secret(),
            identities(store@),
            client_id@,
            client_secret@,
            now,
        ),
{
    let identity = match check_credentials(store, client_id, client_secret) {
        Ok(identity) => identity,
        Err(fault) => { return Err(fault); },
    };
    match issue_at(keys, identity.sub.as_str(), identity.company.as_str(), now) {
        Ok(token) => Ok(AuthBody::new(token)),
        Err(fault) => Err(fault),
    }
}

/// Answers a login at the present time. The credentials are checked as in
/// [`login_at`], whatever the clock says; for credentials that are let in,
/// the answer is that of [`login_at`] at some instant, or `TokenCreation`
/// where the clock cannot be read as seconds since the epoch.
pub fn login(keys: &Keys, store: &[Identity], client_id: &str, client_secret: &str) -> (answer:
    Result<AuthBody, AuthError>)
    ensures
        admission(identities(store@), client_id@, client_secret@) matches Err(fault) ==> answer
            matches Err(refusal) && refusal == fault,
        answer is Ok ==> exists|now: u64|
            body_outcome(answer) == #[trigger] login_outcome(
                keys.secret(),
                identities(store@),
                client_id@,
                client_secret@,
                now,
            ),
        admission(identities(store@), client_id@, client_secret@) is Ok ==> answer is Ok || answer
            matches Err(AuthError::TokenCreation),
{
    let identity = match check_credentials(store, client_id, client_secret) {
        Ok(identity) => identity,
        Err(fault) => { return Err(fault); },
    };
    let now = match unix_time() {
        Some(now) => now,
        None => { return Err(AuthError::TokenCreation); },
    };
    match issue_at(keys, identity.sub.as_str(), identity.company.as_str(), now) {
        Ok(token) => {
            let answer = Ok(AuthBody::new(token));
            assert(body_outcome(answer) == login_outcome(
                keys.secret(),
                identities(store@),
                client_id@,
                client_secret@,
                now,
            ));
            answer
        },
        Err(fault) => Err(fault),
    }
}

} // verus!
