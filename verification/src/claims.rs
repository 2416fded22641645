//! The claim set of a token and its encoding as the members of a payload.

use crate::errors::AuthError;
use crate::text::str_eq;
use vstd::prelude::*;
use vstd::string::StringExecFns;

verus! {

/// The value of one payload member, as far as this crate reads it.
#[derive(Debug)]
pub enum PayloadValue {
    /// A text.
    Text(String),
    /// A whole number that is not negative.
    Number(u64),
    /// Any value of another kind.
    Other,
}

/// One member of a token's payload.
#[derive(Debug)]
pub struct PayloadField {
    pub name: String,
    pub value: PayloadValue,
}

/// What a [`PayloadValue`] stands for.
pub enum MemberValue {
    Text(Seq<char>),
    Number(u64),
    Other,
}

/// What a [`PayloadField`] stands for.
pub struct Member {
    pub name: Seq<char>,
    pub value: MemberValue,
}

impl View for PayloadValue {
    type V = MemberValue;

    open spec fn view(&self) -> MemberValue {
        match self {
            PayloadValue::Text(text) => MemberValue::Text(text@),
            PayloadValue::Number(number) => MemberValue::Number(*number),
            PayloadValue::Other => MemberValue::Other,
        }
    }
}

impl View for PayloadField {
    type V = Member;

    open spec fn view(&self) -> Member {
        Member { name: self.name@, value: self.value@ }
    }
}

/// The members that a list of payload fields stands for, in its order.
pub open spec fn members(fields: Seq<PayloadField>) -> Seq<Member> {
    Seq::new(fields.len(), |i: int| fields[i]@)
}

/// The facts that a token carries: who it was issued to, for which
/// organization, and when it stops being valid.
#[derive(Debug)]
pub struct Claims {
    /// The subject identifier.
    pub sub: String,
    /// The organization tag.
    pub company: String,
    /// The expiry, in seconds since the epoch.
    pub exp: u64,
}

/// What a [`Claims`] value stands for.
pub struct ClaimSet {
    pub sub: Seq<char>,
    pub company: Seq<char>,
    pub exp: u64,
}

impl View for Claims {
    type V = ClaimSet;

    open spec fn view(&self) -> ClaimSet {
        ClaimSet { sub: self.sub@, company: self.company@, exp: self.exp }
    }
}

/// What the outcome of an operation that gives a claim set stands for.
pub open spec fn claims_outcome(outcome: Result<Claims, AuthError>) -> Result<ClaimSet, AuthError> {
    match outcome {
        Ok(claims) => Ok(claims@),
        Err(fault) => Err(fault),
    }
}

/// The name of the member that holds the subject identifier.
pub open spec fn subject_name() -> Seq<char> {
    "sub"@
}

/// The name of the member that holds the organization tag.
pub open spec fn organization_name() -> Seq<char> {
    "company"@
}

/// The name of the member that holds the expiry.
pub open spec fn expiry_name() -> Seq<char> {
    "exp"@
}

/// The payload of a claim set: subject, organization and expiry, in this
/// order and with nothing else.
pub open spec fn claim_members(claims: ClaimSet) -> Seq<Member> {
    seq![
        Member { name: subject_name(), value: MemberValue::Text(claims.sub) },
        Member { name: organization_name(), value: MemberValue::Text(claims.company) },
        Member { name: expiry_name(), value: MemberValue::Number(claims.exp) },
    ]
}

/// The value of the first member of that name, if there is one.
pub open spec fn member_named(payload: Seq<Member>, name: Seq<char>) -> Option<MemberValue>
    decreases payload.len(),
{
    if payload.len() == 0 {
        None
    } else if payload.last().name == name && member_named(payload.drop_last(), name) is None {
        Some(payload.last().value)
    } else {
        member_named(payload.drop_last(), name)
    }
}

/// The claim set that a payload holds. There is one exactly if the payload
/// has a text under the subject's name, a text under the organization's and a
/// number under the expiry's; members of other names are passed over.
pub open spec fn members_claims(payload: Seq<Member>) -> Option<ClaimSet> {
    match (
        member_named(payload, subject_name()),
        member_named(payload, organization_name()),
        member_named(payload, expiry_name()),
    ) {
        (
            Some(MemberValue::Text(sub)),
            Some(MemberValue::Text(company)),
            Some(MemberValue::Number(exp)),
        ) => Some(ClaimSet { sub, company, exp }),
        _ => None,
    }
}

/// The three member names differ from one another.
pub proof fn lemma_member_names_differ()
    ensures
        subject_name() != organization_name(),
        subject_name() != expiry_name(),
        organization_name() != expiry_name(),
{
    reveal_strlit("sub");
    reveal_strlit("company");
    reveal_strlit("exp");
    assert(subject_name().len() == 3);
    assert(organization_name().len() == 7);
    assert(subject_name()[0] == 's');
    assert(expiry_name()[0] == 'e');
}

/// Decoding undoes encoding: the payload of a claim set holds that claim set.
pub proof fn lemma_codec_round_trip(claims: ClaimSet)
    ensures
        members_claims(claim_members(claims)) == Some(claims),
{
    lemma_member_names_differ();
    let payload = claim_members(claims);
    let two = payload.drop_last();
    let one = two.drop_last();
    let none = one.drop_last();
    assert(none.len() == 0);
    assert(one.len() == 1 && one.last() == payload[0]);
    assert(two.len() == 2 && two.last() == payload[1]);
    assert(payload.len() == 3 && payload.last() == payload[2]);
    assert(member_named(none, subject_name()) is None);
    assert(member_named(none, organization_name()) is None);
    assert(member_named(none, expiry_name()) is None);
    assert(member_named(one, subject_name()) == Some(payload[0].value));
    assert(member_named(one, organization_name()) is None);
    assert(member_named(one, expiry_name()) is None);
    assert(member_named(two, subject_name()) == Some(payload[0].value));
    assert(member_named(two, organization_name()) == Some(payload[1].value));
    assert(member_named(two, expiry_name()) is None);
}

/// The value of the first field of that name, if there is one.
pub fn field_named<'a>(fields: &'a Vec<PayloadField>, name: &str) -> (found: Option<
    &'a PayloadValue,
>)
    ensures
        found matches Some(value) ==> member_named(members(fields@), name@) == Some(value@),
        found is None ==> member_named(members(fields@), name@) is None,
{
    let mut found: Option<&'a PayloadValue> = None;
    let mut i: usize = 0;
    assert(members(fields@).take(0) =~= Seq::<Member>::empty());
    while i < fields.len()
        invariant
            i <= fields@.len(),
            found matches Some(value) ==> member_named(members(fields@).take(i as int), name@)
                == Some(value@),
            found is None ==> member_named(members(fields@).take(i as int), name@) is None,
        decreases fields@.len() - i,
    {
        proof {
            let next = members(fields@).take(i as int + 1);
            assert(next.drop_last() =~= members(fields@).take(i as int));
            assert(next.last() == fields@[i as int]@);
        }
        if found.is_none() && str_eq(fields[i].name.as_str(), name) {
            found = Some(&fields[i].value);
        }
        i = i + 1;
    }
    assert(members(fields@).take(fields@.len() as int) =~= members(fields@));
    found
}

impl Claims {
    /// The payload of this claim set: subject, organization and expiry, in
    /// this order and with nothing else. Equal claim sets give equal payloads.
    pub fn to_fields(&self) -> (fields: Vec<PayloadField>)
        ensures
            members(fields@) == claim_members(self@),
    {
        let mut fields: Vec<PayloadField> = Vec::new();
        fields.push(
            PayloadField { name: "sub".to_owned(), value: PayloadValue::Text(self.sub.clone()) },
        );
        fields.push(
            PayloadField {
                name: "company".to_owned(),
                value: PayloadValue::Text(self.company.clone()),
            },
        );
        fields.push(PayloadField { name: "exp".to_owned(), value: PayloadValue::Number(self.exp) });
        assert(members(fields@) =~= claim_members(self@));
        fields
    }

    /// The claim set that a payload holds. A payload without a text for the
    /// subject, a text for the organization or a number for the expiry holds
    /// none.
    pub fn from_fields(fields: &Vec<PayloadField>) -> (claims: Option<Claims>)
        ensures
            claims matches Some(c) ==> members_claims(members(fields@)) == Some(c@),
            claims is None ==> members_claims(members(fields@)) is None,
    {
        let sub = match field_named(fields, "sub") {
            Some(PayloadValue::Text(text)) => text.clone(),
            _ => { return None; },
        };
        let company = match field_named(fields, "company") {
            Some(PayloadValue::Text(text)) => text.clone(),
            _ => { return None; },
        };
        let exp = match field_named(fields, "exp") {
            Some(PayloadValue::Number(number)) => *number,
            _ => { return None; },
        };
        Some(Claims { sub, company, exp })
    }

    /// The two lines under which the claim set is shown to its holder.
    pub open spec fn spec_describe(claims: ClaimSet) -> Seq<char> {
        "Email: "@ + claims.sub + "\nCompany: "@ + claims.company
    }

    /// The two lines under which the claim set is shown to its holder: the
    /// subject, then the organization.
    pub fn describe(&self) -> (text: String)
        ensures
            text@ == Claims::spec_describe(self@),
    {
        let mut text = "Email: ".to_owned();
        text.append(self.sub.as_str());
        text.append("\nCompany: ");
        text.append(self.company.as_str());
        text
    }
}

} // verus!
