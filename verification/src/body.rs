//! What the service answers on success.

use crate::claims::{ClaimSet, Claims};
use vstd::prelude::*;
use vstd::string::StringExecFns;

verus! {

/// The scheme under which an access token is to be presented.
pub open spec fn bearer_scheme() -> Seq<char> {
    "Bearer"@
}

/// The answer to a login: the token and the scheme to present it under.
#[derive(Debug)]
pub struct AuthBody {
    pub access_token: String,
    pub token_type: String,
}

/// What an [`AuthBody`] stands for.
pub struct AuthBodyView {
    pub access_token: Seq<char>,
    pub token_type: Seq<char>,
}

impl View for AuthBody {
    type V = AuthBodyView;

    open spec fn view(&self) -> AuthBodyView {
        AuthBodyView { access_token: self.access_token@, token_type: self.token_type@ }
    }
}

impl AuthBody {
    /// The answer that carries this token. The scheme is always `Bearer`.
    pub fn new(access_token: String) -> (body: AuthBody)
        ensures
            body.access_token == access_token,
            body@ == (AuthBodyView { access_token: access_token@, token_type: bearer_scheme() }),
    {
        AuthBody { access_token, token_type: "Bearer".to_owned() }
    }
}

/// The answer of the test route.
#[derive(Debug)]
pub struct TestBody {
    pub name: String,
}

impl TestBody {
    /// The answer that carries this name.
    pub fn new(name: String) -> (body: TestBody)
        ensures
            body.name == name,
    {
        TestBody { name }
    }
}

/// The text that the protected route answers with: a greeting, then the
/// holder's claim set as [`Claims::describe`] shows it.
pub open spec fn spec_protected_text(claims: ClaimSet) -> Seq<char> {
    "Welcome to the protected area :)\nYour data:\n"@ + Claims::spec_describe(claims)
}

/// The text that the protected route answers with.
pub fn protected_text(claims: &Claims) -> (text: String)
    ensures
        text@ == spec_protected_text(claims@),
{
    let mut text = "Welcome to the protected area :)\nYour data:\n".to_owned();
    let data = claims.describe();
    text.append(data.as_str());
    text
}

} // verus!
