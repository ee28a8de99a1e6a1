//! The credential pair sent to the login endpoint.

use vstd::prelude::*;
use vstd::string::*;

use crate::error::ClientError;
use crate::json::{find_member, member, member_from, JsonValue};

verus! {

/// A username and password, immutable once built.
#[derive(Debug, Clone, PartialEq, Eq)]
pub struct User {
    pub username: String,
    pub password: String,
}

impl User {
    /// Builds an identity; no validation is made, empty strings are kept.
    pub fn new(username: &str, password: &str) -> (u: User)
        ensures
            u.username@ == username@,
            u.password@ == password@,
    {
        User { username: String::from_str(username), password: String::from_str(password) }
    }

    /// The login payload: `{"userId": username, "password": password}`.
    pub fn to_json(&self) -> (r: JsonValue)
        ensures
            is_login_json(r, self.username@, self.password@),
    {
        let mut m: Vec<(String, JsonValue)> = Vec::new();
        m.push((String::from_str("userId"), JsonValue::Str(self.username.clone())));
        m.push((String::from_str("password"), JsonValue::Str(self.password.clone())));
        JsonValue::Object(m)
    }

    /// Reads an identity back from an object with string members `userId` and
    /// `password`; other members are ignored.
    pub fn from_json(v: &JsonValue) -> (r: Result<User, ClientError>)
        ensures
            match r {
                Ok(u) => identity_fields(*v) == Some((u.username@, u.password@)),
                Err(e) => e is Decode && identity_fields(*v) is None,
            },
    {
        let m = match v {
            JsonValue::Object(m) => m,
            _ => return Err(ClientError::Decode(String::from_str("expected a JSON object"))),
        };
        let username = match find_member(m, "userId") {
            Some(i) => match &m[i].1 {
                JsonValue::Str(s) => s.clone(),
                _ => return Err(ClientError::Decode(String::from_str("field userId is not a string"))),
            },
            None => return Err(ClientError::Decode(String::from_str("missing field userId"))),
        };
        let password = match find_member(m, "password") {
            Some(i) => match &m[i].1 {
                JsonValue::Str(s) => s.clone(),
                _ => return Err(ClientError::Decode(String::from_str("field password is not a string"))),
            },
            None => return Err(ClientError::Decode(String::from_str("missing field password"))),
        };
        Ok(User { username, password })
    }
}

/// `v` is the string `t`.
pub open spec fn is_text(v: JsonValue, t: Seq<char>) -> bool {
    match v {
        JsonValue::Str(s) => s@ == t,
        _ => false,
    }
}

/// `v` is the login payload of the identity: an object with exactly two
/// members, `userId` holding the username and `password` the password.
pub open spec fn is_login_json(v: JsonValue, username: Seq<char>, password: Seq<char>) -> bool {
    match v {
        JsonValue::Object(m) => {
            &&& m@.len() == 2
            &&& m@[0].0@ == "userId"@
            &&& is_text(m@[0].1, username)
            &&& m@[1].0@ == "password"@
            &&& is_text(m@[1].1, password)
        },
        _ => false,
    }
}

/// The string held by `v`, if it holds one.
pub open spec fn text_of(v: Option<JsonValue>) -> Option<Seq<char>> {
    match v {
        Some(JsonValue::Str(s)) => Some(s@),
        _ => None,
    }
}

/// The username and password that an object carries, where both members are
/// there and are strings.
pub open spec fn identity_fields(v: JsonValue) -> Option<(Seq<char>, Seq<char>)> {
    match v {
        JsonValue::Object(m) => match (text_of(member(m@, "userId"@)), text_of(member(m@, "password"@))) {
            (Some(u), Some(p)) => Some((u, p)),
            _ => None,
        },
        _ => None,
    }
}

/// Encoding an identity and reading it back gives the same username and
/// password, whatever characters they hold.
pub proof fn lemma_login_json_round_trip(v: JsonValue, username: Seq<char>, password: Seq<char>)
    requires
        is_login_json(v, username, password),
    ensures
        identity_fields(v) == Some((username, password)),
{
    reveal_strlit("userId");
    reveal_strlit("password");
    let m = v->Object_0@;
    assert("userId"@.len() != "password"@.len());
    assert(member(m, "userId"@) == Some(m[0].1));
    assert(member_from(m, "password"@, 1) == Some(m[1].1));
}

} // verus!
