//! The claim set of a bearer credential: a JSON object, kept in the form
//! that the signing library reads and writes.

use vstd::prelude::*;

verus! {

#[verifier::external_type_specification]
#[verifier::external_body]
pub struct ExJsonValue(serde_json::Value);

#[verifier::external_type_specification]
#[verifier::external_body]
#[verifier::reject_recursive_types(K)]
#[verifier::reject_recursive_types(V)]
pub struct ExJsonObject<K, V>(serde_json::Map<K, V>);

/// A JSON value, as contracts see it.
pub enum Claim {
    Null,
    Flag(bool),
    /// A number that `serde_json` keeps as an integer.
    Number(int),
    /// A number that `serde_json` keeps in binary form, with a fraction or an
    /// exponent: it is told apart by its 64 bits.
    Fraction(u64),
    Text(Seq<char>),
    List(Seq<Claim>),
    Record(Map<Seq<char>, Claim>),
}

impl Claim {
    /// The kinds of value that a credential is made of: text, a truth value,
    /// a whole number from 0 to `u64::MAX`, and an object.
    pub open spec fn usable(self) -> bool {
        match self {
            Claim::Text(_) => true,
            Claim::Flag(_) => true,
            Claim::Record(_) => true,
            Claim::Number(n) => 0 <= n <= u64::MAX,
            _ => false,
        }
    }
}

/// A JSON object of `serde_json`.
pub type JsonObject = serde_json::Map<String, serde_json::Value>;

/// The members of a JSON object of `serde_json`, by name.
pub uninterp spec fn json_members(object: JsonObject) -> Map<Seq<char>, Claim>;

/// The members of an object that has none.
pub open spec fn no_members() -> Map<Seq<char>, Claim> {
    Map::empty()
}

/// One member of a claim set.
pub enum ClaimValue {
    Text(String),
    Flag(bool),
    Number(u64),
    Record(Claims),
}

/// A claim set: the members of one JSON object.
pub struct Claims {
    pub(crate) object: JsonObject,
}

impl View for Claims {
    type V = Map<Seq<char>, Claim>;

    closed spec fn view(&self) -> Map<Seq<char>, Claim> {
        json_members(self.object)
    }
}

impl View for ClaimValue {
    type V = Claim;

    open spec fn view(&self) -> Claim {
        match self {
            ClaimValue::Text(text) => Claim::Text(text@),
            ClaimValue::Flag(flag) => Claim::Flag(*flag),
            ClaimValue::Number(number) => Claim::Number(*number as int),
            ClaimValue::Record(members) => Claim::Record(members@),
        }
    }
}

/// `serde_json::Map::new`: an object without members.
#[verifier::external_body]
fn json_object() -> (fresh: JsonObject)
    ensures
        json_members(fresh) == no_members(),
{
    serde_json::Map::new()
}

/// `serde_json::Map::insert`: the object then holds `value` under `name`, in
/// place of what it held under that name before, and its other members as
/// they were.
#[verifier::external_body]
fn json_insert(
    object: &mut JsonObject,
    name: &str,
    value: ClaimValue,
)
    ensures
        json_members(*final(object)) == json_members(*old(object)).insert(name@, value@),
{
    let value = match value {
        ClaimValue::Text(text) => serde_json::Value::String(text),
        ClaimValue::Flag(flag) => serde_json::Value::Bool(flag),
        ClaimValue::Number(number) => serde_json::Value::Number(number.into()),
        ClaimValue::Record(members) => serde_json::Value::Object(members.object),
    };
    object.insert(name.to_owned(), value);
}

/// `serde_json::Map::get`: the member called `name`, where the object has
/// one and it is text, a truth value, an object, or a whole number that
/// `serde_json::Number::as_u64` gives.
#[verifier::external_body]
fn json_get(object: &JsonObject, name: &str) -> (found: Option<ClaimValue>)
    ensures
        match found {
            Some(value) => json_members(*object).contains_key(name@) && json_members(
                *object,
            )[name@] == value@,
            None => !json_members(*object).contains_key(name@) || !json_members(
                *object,
            )[name@].usable(),
        },
{
    match object.get(name)? {
        serde_json::Value::String(text) => Some(ClaimValue::Text(text.clone())),
        serde_json::Value::Bool(flag) => Some(ClaimValue::Flag(*flag)),
        serde_json::Value::Number(number) => number.as_u64().map(ClaimValue::Number),
        serde_json::Value::Object(members) => Some(ClaimValue::Record(Claims { object: members.clone() })),
        _ => None,
    }
}

impl Claims {
    /// A claim set without members.
    pub fn new() -> (claims: Claims)
        ensures
            claims@ == no_members(),
    {
        Claims { object: json_object() }
    }

    /// Sets the member called `name` to `value`.
    pub fn put(&mut self, name: &str, value: ClaimValue)
        ensures
            final(self)@ == old(self)@.insert(name@, value@),
    {
        json_insert(&mut self.object, name, value);
    }

    /// The member called `name`, where there is one of a usable kind.
    pub fn get(&self, name: &str) -> (found: Option<ClaimValue>)
        ensures
            match found {
                Some(value) => self@.contains_key(name@) && self@[name@] == value@,
                None => !self@.contains_key(name@) || !self@[name@].usable(),
            },
    {
        json_get(&self.object, name)
    }

    /// The text called `name`.
    pub open spec fn text_at(members: Map<Seq<char>, Claim>, name: Seq<char>) -> Option<Seq<char>> {
        if members.contains_key(name) {
            match members[name] {
                Claim::Text(text) => Some(text),
                _ => None,
            }
        } else {
            None
        }
    }

    /// The whole number called `name`, where it fits the 64 bits of a
    /// timestamp.
    pub open spec fn number_at(members: Map<Seq<char>, Claim>, name: Seq<char>) -> Option<u64> {
        if members.contains_key(name) {
            match members[name] {
                Claim::Number(n) => if 0 <= n <= u64::MAX {
                    Some(n as u64)
                } else {
                    None
                },
                _ => None,
            }
        } else {
            None
        }
    }

    /// The truth value called `name`.
    pub open spec fn flag_at(members: Map<Seq<char>, Claim>, name: Seq<char>) -> Option<bool> {
        if members.contains_key(name) {
            match members[name] {
                Claim::Flag(flag) => Some(flag),
                _ => None,
            }
        } else {
            None
        }
    }

    /// The members of the object called `name`.
    pub open spec fn record_at(members: Map<Seq<char>, Claim>, name: Seq<char>) -> Option<
        Map<Seq<char>, Claim>,
    > {
        if members.contains_key(name) {
            match members[name] {
                Claim::Record(inner) => Some(inner),
                _ => None,
            }
        } else {
            None
        }
    }

    pub fn text(&self, name: &str) -> (found: Option<String>)
        ensures
            match found {
                Some(text) => Self::text_at(self@, name@) == Some(text@),
                None => Self::text_at(self@, name@) is None,
            },
    {
        match self.get(name) {
            Some(ClaimValue::Text(text)) => Some(text),
            _ => None,
        }
    }

    pub fn number(&self, name: &str) -> (found: Option<u64>)
        ensures
            found == Self::number_at(self@, name@),
    {
        match self.get(name) {
            Some(ClaimValue::Number(number)) => Some(number),
            _ => None,
        }
    }

    pub fn flag(&self, name: &str) -> (found: Option<bool>)
        ensures
            found == Self::flag_at(self@, name@),
    {
        match self.get(name) {
            Some(ClaimValue::Flag(flag)) => Some(flag),
            _ => None,
        }
    }

    pub fn record(&self, name: &str) -> (found: Option<Claims>)
        ensures
            match found {
                Some(inner) => Self::record_at(self@, name@) == Some(inner@),
                None => Self::record_at(self@, name@) is None,
            },
    {
        match self.get(name) {
            Some(ClaimValue::Record(inner)) => Some(inner),
            _ => None,
        }
    }
}

} // verus!
