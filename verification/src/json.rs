//! JSON values as the `serde_json` crate holds them.
//!
//! What a value says is modelled by [`Json`], and the calls into `serde_json`
//! are specified over that model.
use vstd::prelude::*;

verus! {

/// What a JSON value says, as far as the library reads or writes it.
///
/// `Whole` is a number that `serde_json` holds as a non-negative integer, and
/// `Number` is any other number. Arrays are not looked into.
pub ghost enum Json {
    Null,
    Bool(bool),
    Whole(u64),
    Number,
    Text(Seq<char>),
    Array,
    Object(Map<Seq<char>, Json>),
}

/// `serde_json::Value`.
#[verifier::external_type_specification]
#[verifier::external_body]
pub struct ExValue(serde_json::Value);

/// `serde_json::Map`.
#[verifier::external_type_specification]
#[verifier::external_body]
#[verifier::reject_recursive_types(K)]
#[verifier::reject_recursive_types(V)]
pub struct ExMap<K, V>(serde_json::Map<K, V>);

/// `serde_json::Error`.
#[verifier::external_type_specification]
#[verifier::external_body]
pub struct ExJsonError(serde_json::Error);

/// What `v` says.
pub uninterp spec fn json_of(v: serde_json::Value) -> Json;

/// The members of a `serde_json` map.
pub uninterp spec fn members_of(
    m: serde_json::Map<String, serde_json::Value>,
) -> Map<Seq<char>, Json>;

/// The value that `serde_json::from_str` reads from `text`, if it reads one.
pub uninterp spec fn parsed_json(text: Seq<char>) -> Option<Json>;

/// `serde_json::from_str` into a `Value`: whether it succeeds and what the
/// value says depend on the text alone.
#[verifier::external_body]
pub(crate) fn parse(text: &str) -> (r: Result<serde_json::Value, serde_json::Error>)
    ensures
        match r {
            Ok(v) => parsed_json(text@) == Some(json_of(v)),
            Err(_) => parsed_json(text@) is None,
        },
{
    serde_json::from_str(text)
}

/// `serde_json::Value::get` with a string: the member of that name of an
/// object, and nothing for any other value.
#[verifier::external_body]
fn get<'a>(v: &'a serde_json::Value, key: &str) -> (r: Option<&'a serde_json::Value>)
    ensures
        match r {
            Some(x) => json_of(*v) matches Json::Object(m) && m.dom().contains(key@) && m[key@]
                == json_of(*x),
            None => !(json_of(*v) matches Json::Object(m) && m.dom().contains(key@)),
        },
{
    v.get(key)
}

/// `serde_json::Value::as_bool`: the truth value, if the value is one.
pub assume_specification[ serde_json::Value::as_bool ](v: &serde_json::Value) -> (r: Option<bool>)
    ensures
        match r {
            Some(b) => json_of(*v) == Json::Bool(b),
            None => !(json_of(*v) is Bool),
        },
;

/// `serde_json::Value::as_str`: the string, if the value is one.
pub assume_specification[ serde_json::Value::as_str ](v: &serde_json::Value) -> (r: Option<&str>)
    ensures
        match r {
            Some(s) => json_of(*v) == Json::Text(s@),
            None => !(json_of(*v) is Text),
        },
;

/// `serde_json::Map::new`: no members.
pub assume_specification[ serde_json::Map::<String, serde_json::Value>::new ]() -> (r:
    serde_json::Map<String, serde_json::Value>)
    ensures
        (members_of(r) == Map::<Seq<char>, Json>::empty()),
;

/// `serde_json::Map::insert`: the member is set, and the one of the same name
/// that it replaces, if any, is handed back.
pub assume_specification[ serde_json::Map::<String, serde_json::Value>::insert ](
    m: &mut serde_json::Map<String, serde_json::Value>,
    k: String,
    v: serde_json::Value,
) -> (r: Option<serde_json::Value>)
    ensures
        members_of(*final(m)) == members_of(*old(m)).insert(k@, json_of(v)),
        match r {
            Some(x) => members_of(*old(m)).dom().contains(k@) && members_of(*old(m))[k@] == json_of(x),
            None => !members_of(*old(m)).dom().contains(k@),
        },
;

/// `serde_json::Value::Object`: the object with these members.
#[verifier::external_body]
fn object(m: serde_json::Map<String, serde_json::Value>) -> (r: serde_json::Value)
    ensures
        json_of(r) == Json::Object(members_of(m)),
{
    serde_json::Value::Object(m)
}

/// `serde_json::Value::String`: the string.
#[verifier::external_body]
fn text(s: String) -> (r: serde_json::Value)
    ensures
        json_of(r) == Json::Text(s@),
{
    serde_json::Value::String(s)
}

/// `serde_json::Value::Bool`: the truth value.
#[verifier::external_body]
fn truth(b: bool) -> (r: serde_json::Value)
    ensures
        json_of(r) == Json::Bool(b),
{
    serde_json::Value::Bool(b)
}

/// `serde_json::Value::from` on a `u64`: the number.
#[verifier::external_body]
fn whole(n: u64) -> (r: serde_json::Value)
    ensures
        json_of(r) == Json::Whole(n),
{
    serde_json::Value::from(n)
}

/// The truth value of the member `key` of an object, if it has that member and
/// the member is a truth value.
pub open spec fn bool_member(v: Json, key: Seq<char>) -> Option<bool> {
    match v {
        Json::Object(m) => if m.dom().contains(key) {
            match m[key] {
                Json::Bool(b) => Some(b),
                _ => None,
            }
        } else {
            None
        },
        _ => None,
    }
}

/// The string in the member `key` of an object, if it has that member and the
/// member is a string.
pub open spec fn text_member(v: Json, key: Seq<char>) -> Option<Seq<char>> {
    match v {
        Json::Object(m) => if m.dom().contains(key) {
            match m[key] {
                Json::Text(t) => Some(t),
                _ => None,
            }
        } else {
            None
        },
        _ => None,
    }
}

/// Reads a truth value out of an object.
pub fn read_bool(v: &serde_json::Value, key: &str) -> (r: Option<bool>)
    ensures
        r == bool_member(json_of(*v), key@),
{
    match get(v, key) {
        Some(x) => x.as_bool(),
        None => None,
    }
}

/// Reads a string out of an object.
pub fn read_text(v: &serde_json::Value, key: &str) -> (r: Option<String>)
    ensures
        match r {
            Some(s) => text_member(json_of(*v), key@) == Some(s@),
            None => text_member(json_of(*v), key@) is None,
        },
{
    match get(v, key) {
        Some(x) => match x.as_str() {
            Some(s) => Some(s.to_string()),
            None => None,
        },
        None => None,
    }
}

/// An object that is built member by member.
pub struct ObjectBuilder {
    members: serde_json::Map<String, serde_json::Value>,
}

impl View for ObjectBuilder {
    type V = Map<Seq<char>, Json>;

    closed spec fn view(&self) -> Map<Seq<char>, Json> {
        members_of(self.members)
    }
}

impl ObjectBuilder {
    /// An object without members.
    pub fn new() -> (r: ObjectBuilder)
        ensures
            (r@ == Map::<Seq<char>, Json>::empty()),
    {
        ObjectBuilder { members: serde_json::Map::new() }
    }

    /// Sets a member to a string.
    pub fn set_text(&mut self, key: &str, value: &str)
        ensures
            final(self)@ == old(self)@.insert(key@, Json::Text(value@)),
    {
        let _ = self.members.insert(key.to_string(), text(value.to_string()));
    }

    /// Sets a member to a number.
    pub fn set_whole(&mut self, key: &str, value: u64)
        ensures
            final(self)@ == old(self)@.insert(key@, Json::Whole(value)),
    {
        let _ = self.members.insert(key.to_string(), whole(value));
    }

    /// Sets a member to a truth value.
    pub fn set_bool(&mut self, key: &str, value: bool)
        ensures
            final(self)@ == old(self)@.insert(key@, Json::Bool(value)),
    {
        let _ = self.members.insert(key.to_string(), truth(value));
    }

    /// The finished object.
    pub fn build(self) -> (r: serde_json::Value)
        ensures
            json_of(r) == Json::Object(self@),
    {
        object(self.members)
    }
}

/// A member of an object is read as what it is, and whatever is no such member
/// is not read.
pub proof fn law_members_are_read(
    v: serde_json::Value,
    key: &str,
    truth_value: Option<bool>,
    string: Option<String>,
)
    requires
        call_ensures(read_bool, (&v, key), truth_value),
        call_ensures(read_text, (&v, key), string),
    ensures
        match truth_value {
            Some(b) => json_of(v) matches Json::Object(m) && m.dom().contains(key@) && m[key@]
                == Json::Bool(b),
            None => json_of(v) matches Json::Object(m) ==> m.dom().contains(key@) ==> !(m[key@]
                is Bool),
        },
        match string {
            Some(s) => json_of(v) matches Json::Object(m) && m.dom().contains(key@) && m[key@]
                == Json::Text(s@),
            None => json_of(v) matches Json::Object(m) ==> m.dom().contains(key@) ==> !(m[key@]
                is Text),
        },
{
}

/// Setting a member of an object sets it to the value given, whatever was
/// there, and leaves every other member as it was; and the finished object has
/// the members that were set.
pub proof fn law_object_is_built(
    texts: &mut ObjectBuilder,
    wholes: &mut ObjectBuilder,
    bools: &mut ObjectBuilder,
    key: &str,
    value: &str,
    n: u64,
    b: bool,
    other: Seq<char>,
    finished: ObjectBuilder,
    r: serde_json::Value,
)
    requires
        call_ensures(ObjectBuilder::set_text, (texts, key, value), ()),
        call_ensures(ObjectBuilder::set_whole, (wholes, key, n), ()),
        call_ensures(ObjectBuilder::set_bool, (bools, key, b), ()),
        other != key@,
        call_ensures(ObjectBuilder::build, (finished,), r),
    ensures
        final(texts)@.dom().contains(key@) && final(texts)@[key@] == Json::Text(value@),
        final(wholes)@.dom().contains(key@) && final(wholes)@[key@] == Json::Whole(n),
        final(bools)@.dom().contains(key@) && final(bools)@[key@] == Json::Bool(b),
        final(texts)@.dom().contains(other) == old(texts)@.dom().contains(other),
        old(texts)@.dom().contains(other) ==> final(texts)@[other] == old(texts)@[other],
        final(wholes)@.dom().contains(other) == old(wholes)@.dom().contains(other),
        old(wholes)@.dom().contains(other) ==> final(wholes)@[other] == old(wholes)@[other],
        final(bools)@.dom().contains(other) == old(bools)@.dom().contains(other),
        old(bools)@.dom().contains(other) ==> final(bools)@[other] == old(bools)@[other],
        json_of(r) == Json::Object(finished@),
{
}

}
