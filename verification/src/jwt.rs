//! The signed wire form of a payload. Signing, framing and parsing are the
//! work of the `jsonwebtoken` crate; nothing in this file is proved.

use crate::claims::{members, Member, PayloadField, PayloadValue};
use jsonwebtoken::{DecodingKey, EncodingKey, Header, Validation};
use serde_json::Value;
use vstd::prelude::*;

verus! {

/// The failure that `jsonwebtoken` reports.
#[verifier::external_type_specification]
#[verifier::external_body]
pub struct ExJwtError(jsonwebtoken::errors::Error);

/// The token that `jsonwebtoken::encode` makes of a payload under an HMAC
/// secret and the default header, or `None` where it reports a failure.
pub uninterp spec fn sealed(secret: Seq<u8>, payload: Seq<Member>) -> Option<Seq<char>>;

/// The payload that `jsonwebtoken::decode` reads from a token under an HMAC
/// secret, with its default validation but for the expiry, which is left to
/// the caller; `None` where it turns the token down.
pub uninterp spec fn opened(secret: Seq<u8>, token: Seq<char>) -> Option<Seq<Member>>;

/// Calls `jsonwebtoken::encode` with the default header (HS256), the fields
/// as one JSON object in their order (a value of kind `Other` written as
/// null), and the key that `EncodingKey::from_secret` makes of the secret.
/// The contract only gives the outcome its name: the same secret and fields
/// give the same token.
#[verifier::external_body]
pub(crate) fn seal(secret: &[u8], fields: &Vec<PayloadField>) -> (token: Result<
    String,
    jsonwebtoken::errors::Error,
>)
    ensures
        token is Ok <==> sealed(secret@, members(fields@)) is Some,
        token matches Ok(text) ==> sealed(secret@, members(fields@)) == Some(text@),
{
    let mut payload = serde_json::Map::new();
    for field in fields.iter() {
        let value = match &field.value {
            PayloadValue::Text(text) => Value::from(text.as_str()),
            PayloadValue::Number(number) => Value::from(*number),
            PayloadValue::Other => Value::Null,
        };
        payload.insert(field.name.clone(), value);
    }
    jsonwebtoken::encode(&Header::default(), &payload, &EncodingKey::from_secret(secret))
}

/// Calls `jsonwebtoken::decode` with the key that `DecodingKey::from_secret`
/// makes of the secret and the default validation (HS256, an `exp` member
/// required) with the expiry check switched off, so that no clock is read.
/// The members of the payload come back in the order of the JSON object, a
/// string as `Text`, a number that fits `u64` as `Number`, anything else as
/// `Other`. The contract only gives the outcome its name: the same secret
/// and token give the same payload or the same refusal.
#[verifier::external_body]
pub(crate) fn unseal(secret: &[u8], token: &str) -> (payload: Result<
    Vec<PayloadField>,
    jsonwebtoken::errors::Error,
>)
    ensures
        payload is Ok <==> opened(secret@, token@) is Some,
        payload matches Ok(fields) ==> opened(secret@, token@) == Some(members(fields@)),
{
    let mut rules = Validation::default();
    rules.validate_exp = false;
    let key = DecodingKey::from_secret(secret);
    let data = jsonwebtoken::decode::<serde_json::Map<String, Value>>(token, &key, &rules)?;
    let mut fields = Vec::new();
    for (name, value) in data.claims {
        let value = match value {
            Value::String(text) => PayloadValue::Text(text),
            Value::Number(number) => number.as_u64().map_or(PayloadValue::Other, PayloadValue::Number),
            _ => PayloadValue::Other,
        };
        fields.push(PayloadField { name, value });
    }
    Ok(fields)
}

} // verus!
