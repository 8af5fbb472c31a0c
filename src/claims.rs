//! The claims record carried by a session token, and its JSON form: an
//! object with the string member `sub` and the integer members `agent_id`,
//! `exp` and `iat`.

use vstd::prelude::*;
use crate::primitives::{
    json_integer_member, json_text_and_integers, json_text_member, read_json_integer,
    read_json_text, write_json_text_and_integers,
};

verus! {

/// The identity claims of a session token: the agent's number (`sub`), its
/// identifier, and the expiry and issue times in Unix seconds.
#[derive(Debug, Clone)]
pub struct Claims {
    pub sub: String,
    pub agent_id: i64,
    pub exp: i64,
    pub iat: i64,
}

/// The mathematical value of a `Claims`.
pub ghost struct ClaimsView {
    pub sub: Seq<char>,
    pub agent_id: i64,
    pub exp: i64,
    pub iat: i64,
}

impl View for Claims {
    type V = ClaimsView;

    open spec fn view(&self) -> ClaimsView {
        ClaimsView { sub: self.sub@, agent_id: self.agent_id, exp: self.exp, iat: self.iat }
    }
}

/// The JSON text that `encode_claims` writes for a claims record.
pub open spec fn claims_json(c: ClaimsView) -> Seq<u8> {
    json_text_and_integers(
        "sub"@,
        c.sub,
        "agent_id"@,
        c.agent_id,
        "exp"@,
        c.exp,
        "iat"@,
        c.iat,
    )
}

/// The claims record that a JSON text holds: it must be an object with a
/// string `sub` and integer `agent_id`, `exp` and `iat`, in any order and
/// layout; other members are ignored.
pub open spec fn claims_of_json(bytes: Seq<u8>) -> Option<ClaimsView> {
    match (
        json_text_member(bytes, "sub"@),
        json_integer_member(bytes, "agent_id"@),
        json_integer_member(bytes, "exp"@),
        json_integer_member(bytes, "iat"@),
    ) {
        (Some(sub), Some(agent_id), Some(exp), Some(iat)) => Some(
            ClaimsView { sub, agent_id, exp, iat },
        ),
        _ => None,
    }
}

/// Writes the JSON text of a claims record; it reads back as that record.
pub fn encode_claims(c: &Claims) -> (r: Vec<u8>)
    ensures
        r@ == claims_json(c@),
        claims_of_json(r@) == Some(c@),
{
    proof {
        reveal_strlit("sub");
        reveal_strlit("agent_id");
        reveal_strlit("exp");
        reveal_strlit("iat");
        assert("sub"@[0] != "agent_id"@[0] && "sub"@[0] != "exp"@[0] && "sub"@[0] != "iat"@[0]);
        assert("agent_id"@[0] != "exp"@[0] && "agent_id"@[0] != "iat"@[0]);
        assert("exp"@[0] != "iat"@[0]);
    }
    write_json_text_and_integers(
        "sub",
        c.sub.as_str(),
        "agent_id",
        c.agent_id,
        "exp",
        c.exp,
        "iat",
        c.iat,
    )
}

/// Reads a claims record from its JSON text.
pub fn decode_claims(bytes: &[u8]) -> (r: Option<Claims>)
    ensures
        match r {
            Some(c) => claims_of_json(bytes@) == Some(c@),
            None => claims_of_json(bytes@) is None,
        },
{
    let sub = match read_json_text(bytes, "sub") {
        Some(s) => s,
        None => {
            return None;
        },
    };
    let agent_id = match read_json_integer(bytes, "agent_id") {
        Some(n) => n,
        None => {
            return None;
        },
    };
    let exp = match read_json_integer(bytes, "exp") {
        Some(n) => n,
        None => {
            return None;
        },
    };
    let iat = match read_json_integer(bytes, "iat") {
        Some(n) => n,
        None => {
            return None;
        },
    };
    Some(Claims { sub, agent_id, exp, iat })
}

} // verus!
