//! A JSON document as a tree of plain values, and its mathematical model.

use crate::text::same_text;
use vstd::prelude::*;

verus! {

/// The mathematical model of a JSON document.
pub enum Json {
    Null,
    Bool(bool),
    /// A number that fits a signed 64-bit integer.
    Integer(i64),
    /// Any other number, by its decimal text.
    Number(Seq<char>),
    String(Seq<char>),
    Array(Seq<Json>),
    /// The members of an object, in the order in which they are held.
    Object(Seq<(Seq<char>, Json)>),
}

/// The value of the first member named `key`, if there is one.
pub open spec fn member(members: Seq<(Seq<char>, Json)>, key: Seq<char>) -> Option<Json>
    decreases members.len(),
{
    if members.len() == 0 {
        None
    } else if members[0].0 == key {
        Some(members[0].1)
    } else {
        member(members.skip(1), key)
    }
}

/// A member is what a lookup of its name finds, if no member before it has
/// the same name.
pub proof fn lemma_member_at(members: Seq<(Seq<char>, Json)>, i: int)
    requires
        0 <= i < members.len(),
        forall|j: int| 0 <= j < i ==> (#[trigger] members[j]).0 != members[i].0,
    ensures
        member(members, members[i].0) == Some(members[i].1),
    decreases i,
{
    if i > 0 {
        let rest = members.skip(1);
        assert(rest[i - 1] == members[i]);
        assert forall|j: int| 0 <= j < i - 1 implies (#[trigger] rest[j]).0 != rest[i - 1].0 by {
            assert(rest[j] == members[j + 1]);
        }
        lemma_member_at(rest, i - 1);
    }
}

impl Json {
    /// The member named `key` of an object; nothing for any other document.
    pub open spec fn get(self, key: Seq<char>) -> Option<Json> {
        match self {
            Json::Object(members) => member(members, key),
            _ => None,
        }
    }

    /// The member named `key`, with `Null` standing for a missing one.
    pub open spec fn field(self, key: Seq<char>) -> Json {
        match self.get(key) {
            Some(value) => value,
            None => Json::Null,
        }
    }

    /// The text of a string; nothing for any other document.
    pub open spec fn as_str(self) -> Option<Seq<char>> {
        match self {
            Json::String(text) => Some(text),
            _ => None,
        }
    }

    /// The value of a number that fits a signed 64-bit integer; nothing for
    /// any other document.
    pub open spec fn as_i64(self) -> Option<i64> {
        match self {
            Json::Integer(i) => Some(i),
            _ => None,
        }
    }

    /// The text of the string member named `key`.
    pub open spec fn str_field(self, key: Seq<char>) -> Option<Seq<char>> {
        self.field(key).as_str()
    }

    /// The value of the integer member named `key`.
    pub open spec fn int_field(self, key: Seq<char>) -> Option<i64> {
        self.field(key).as_i64()
    }
}

/// A JSON document held as plain values.
#[derive(Debug, PartialEq, Eq)]
pub enum JsonValue {
    Null,
    Bool(bool),
    /// A number that fits a signed 64-bit integer.
    Integer(i64),
    /// Any other number, by its decimal text.
    Number(String),
    String(String),
    Array(Vec<JsonValue>),
    /// The members of an object, in the order in which they are held.
    Object(Vec<(String, JsonValue)>),
}

/// The model of a list of members.
pub open spec fn members_view(members: Seq<(String, JsonValue)>) -> Seq<(Seq<char>, Json)>
    decreases members,
{
    Seq::new(
        members.len(),
        |i: int|
            if 0 <= i < members.len() {
                (members[i].0@, members[i].1.view())
            } else {
                (Seq::empty(), Json::Null)
            },
    )
}

/// The model of a list of documents.
pub open spec fn items_view(items: Seq<JsonValue>) -> Seq<Json>
    decreases items,
{
    Seq::new(
        items.len(),
        |i: int|
            if 0 <= i < items.len() {
                items[i].view()
            } else {
                Json::Null
            },
    )
}

impl View for JsonValue {
    type V = Json;

    open spec fn view(&self) -> Json
        decreases self,
    {
        match self {
            JsonValue::Null => Json::Null,
            JsonValue::Bool(b) => Json::Bool(*b),
            JsonValue::Integer(i) => Json::Integer(*i),
            JsonValue::Number(text) => Json::Number(text@),
            JsonValue::String(text) => Json::String(text@),
            JsonValue::Array(items) => Json::Array(items_view(items@)),
            JsonValue::Object(members) => Json::Object(members_view(members@)),
        }
    }
}

/// The first member named `key` in a list of members.
pub fn find_member<'a>(members: &'a Vec<(String, JsonValue)>, key: &str) -> (r: Option<
    &'a JsonValue,
>)
    ensures
        match r {
            Some(value) => member(members_view(members@), key@) == Some(value@),
            None => member(members_view(members@), key@) is None,
        },
{
    let ghost all = members_view(members@);
    let mut i: usize = 0;
    assert(all.skip(0) =~= all);
    while i < members.len()
        invariant
            i <= members.len(),
            all == members_view(members@),
            member(all, key@) == member(all.skip(i as int), key@),
        decreases members.len() - i,
    {
        proof {
            assert(all.skip(i as int)[0] == all[i as int]);
            assert(all.skip(i as int).skip(1) =~= all.skip(i as int + 1));
        }
        if same_text(members[i].0.as_str(), key) {
            return Some(&members[i].1);
        }
        i = i + 1;
    }
    None
}

impl JsonValue {
    /// The member named `key` of an object; nothing for any other document.
    pub fn get(&self, key: &str) -> (r: Option<&JsonValue>)
        ensures
            match r {
                Some(value) => self@.get(key@) == Some(value@),
                None => self@.get(key@) is None,
            },
    {
        match self {
            JsonValue::Object(members) => find_member(members, key),
            _ => None,
        }
    }

    /// The text of a string; nothing for any other document.
    pub fn as_str(&self) -> (r: Option<&str>)
        ensures
            match r {
                Some(text) => self@.as_str() == Some(text@),
                None => self@.as_str() is None,
            },
    {
        match self {
            JsonValue::String(text) => Some(text.as_str()),
            _ => None,
        }
    }

    /// The value of a number that fits a signed 64-bit integer; nothing for
    /// any other document.
    pub fn as_i64(&self) -> (r: Option<i64>)
        ensures
            r == self@.as_i64(),
    {
        match self {
            JsonValue::Integer(i) => Some(*i),
            _ => None,
        }
    }

    /// Whether the document is a string.
    pub fn is_string(&self) -> (r: bool)
        ensures
            r == (self@ is String),
    {
        match self {
            JsonValue::String(_) => true,
            _ => false,
        }
    }

    /// Whether the document is an object.
    pub fn is_object(&self) -> (r: bool)
        ensures
            r == (self@ is Object),
    {
        match self {
            JsonValue::Object(_) => true,
            _ => false,
        }
    }

    /// The text of the string member named `key`.
    pub fn str_field(&self, key: &str) -> (r: Option<&str>)
        ensures
            match r {
                Some(text) => self@.str_field(key@) == Some(text@),
                None => self@.str_field(key@) is None,
            },
    {
        match self.get(key) {
            Some(value) => value.as_str(),
            None => None,
        }
    }

    /// The value of the integer member named `key`.
    pub fn int_field(&self, key: &str) -> (r: Option<i64>)
        ensures
            r == self@.int_field(key@),
    {
        match self.get(key) {
            Some(value) => value.as_i64(),
            None => None,
        }
    }
}

/// A copy of a list of documents.
fn copy_items(items: &Vec<JsonValue>) -> (r: Vec<JsonValue>)
    ensures
        items_view(r@) == items_view(items@),
    decreases items,
{
    let mut out: Vec<JsonValue> = Vec::new();
    let mut i: usize = 0;
    while i < items.len()
        invariant
            i <= items.len(),
            out@.len() == i,
            forall|j: int| 0 <= j < i ==> (#[trigger] out@[j])@ == items@[j]@,
        decreases items.len() - i,
    {
        let item = copy_value(&items[i]);
        out.push(item);
        i = i + 1;
    }
    assert(items_view(out@) =~= items_view(items@));
    out
}

/// A copy of a list of members.
pub fn copy_members(members: &Vec<(String, JsonValue)>) -> (r: Vec<(String, JsonValue)>)
    ensures
        members_view(r@) == members_view(members@),
    decreases members,
{
    let mut out: Vec<(String, JsonValue)> = Vec::new();
    let mut i: usize = 0;
    while i < members.len()
        invariant
            i <= members.len(),
            out@.len() == i,
            forall|j: int|
                0 <= j < i ==> (#[trigger] out@[j]).0@ == members@[j].0@ && out@[j].1@
                    == members@[j].1@,
        decreases members.len() - i,
    {
        let key = members[i].0.clone();
        let value = copy_value(&members[i].1);
        out.push((key, value));
        i = i + 1;
    }
    assert(members_view(out@) =~= members_view(members@));
    out
}

/// A copy of a document.
fn copy_value(value: &JsonValue) -> (r: JsonValue)
    ensures
        r@ == value@,
    decreases value,
{
    match value {
        JsonValue::Null => JsonValue::Null,
        JsonValue::Bool(b) => JsonValue::Bool(*b),
        JsonValue::Integer(i) => JsonValue::Integer(*i),
        JsonValue::Number(text) => JsonValue::Number(text.clone()),
        JsonValue::String(text) => JsonValue::String(text.clone()),
        JsonValue::Array(items) => JsonValue::Array(copy_items(items)),
        JsonValue::Object(members) => JsonValue::Object(copy_members(members)),
    }
}

impl Clone for JsonValue {
    /// A copy of the whole document.
    fn clone(&self) -> (r: Self)
        ensures
            r@ == self@,
    {
        copy_value(self)
    }
}

impl JsonValue {
    /// A string document with the characters of `text`.
    pub fn text(text: &str) -> (r: JsonValue)
        ensures
            r@ == Json::String(text@),
    {
        JsonValue::String(text.to_owned())
    }

    /// A string document for a text that is there, `Null` for one that is not.
    pub fn opt_text(text: &Option<String>) -> (r: JsonValue)
        ensures
            r@ == opt_text_json(opt_text(*text)),
    {
        match text {
            Some(t) => JsonValue::String(t.clone()),
            None => JsonValue::Null,
        }
    }

    /// An integer document for a number that is there, `Null` for one that is
    /// not.
    pub fn opt_int(number: Option<i64>) -> (r: JsonValue)
        ensures
            r@ == opt_int_json(number),
    {
        match number {
            Some(i) => JsonValue::Integer(i),
            None => JsonValue::Null,
        }
    }
}

/// A member of an object: a name and a document.
pub fn member_of(key: &str, value: JsonValue) -> (r: (String, JsonValue))
    ensures
        r.0@ == key@,
        r.1 == value,
{
    (key.to_owned(), value)
}

/// The characters of a text that may be missing.
pub open spec fn opt_text(text: Option<String>) -> Option<Seq<char>> {
    match text {
        Some(t) => Some(t@),
        None => None,
    }
}

/// The document for a text that may be missing: a string, or `Null`.
pub open spec fn opt_text_json(text: Option<Seq<char>>) -> Json {
    match text {
        Some(t) => Json::String(t),
        None => Json::Null,
    }
}

/// The document for an integer that may be missing: a number, or `Null`.
pub open spec fn opt_int_json(number: Option<i64>) -> Json {
    match number {
        Some(i) => Json::Integer(i),
        None => Json::Null,
    }
}

/// What `serde_json::from_str` makes of a text: the document it holds, or
/// the message of the error that it reports.
pub uninterp spec fn json_of_text(text: Seq<char>) -> Result<Json, Seq<char>>;

/// `serde_json::Value`, carried from the parser to the conversion below and
/// never read by verified code.
#[verifier::external_type_specification]
#[verifier::external_body]
pub struct ExValue(serde_json::Value);

/// The document that a `serde_json::Value` holds.
pub uninterp spec fn document_of(value: serde_json::Value) -> Json;

/// Calls `serde_json::from_str` for a `serde_json::Value`. Whether it gives
/// a value, which document the value holds, and the printed message of the
/// error otherwise, depend on the text alone.
#[verifier::external_body]
fn from_str(text: &str) -> (r: Result<serde_json::Value, String>)
    ensures
        match r {
            Ok(value) => json_of_text(text@) == Ok::<Json, Seq<char>>(document_of(value)),
            Err(message) => json_of_text(text@) == Err::<Json, Seq<char>>(message@),
        },
{
    serde_json::from_str::<serde_json::Value>(text).map_err(|e| e.to_string())
}

/// Moves a `serde_json::Value` into a `JsonValue`, variant by variant, the
/// members of an object in the order in which `serde_json::Map` hands them
/// out. A number becomes `Integer` where `Number::as_i64` gives its value,
/// and `Number` with its printed text where it gives none.
#[verifier::external_body]
fn from_serde(value: serde_json::Value) -> (r: JsonValue)
    ensures
        r@ == document_of(value),
{
    match value {
        serde_json::Value::Null => JsonValue::Null,
        serde_json::Value::Bool(b) => JsonValue::Bool(b),
        serde_json::Value::Number(n) => match n.as_i64() {
            Some(i) => JsonValue::Integer(i),
            None => JsonValue::Number(n.to_string()),
        },
        serde_json::Value::String(s) => JsonValue::String(s),
        serde_json::Value::Array(a) => JsonValue::Array(a.into_iter().map(from_serde).collect()),
        serde_json::Value::Object(m) => JsonValue::Object(
            m.into_iter().map(|(k, v)| (k, from_serde(v))).collect(),
        ),
    }
}

/// Reads a text as JSON: the document that it holds, or the message of the
/// error for a text that holds none.
pub fn parse_text(text: &str) -> (r: Result<JsonValue, String>)
    ensures
        match r {
            Ok(value) => json_of_text(text@) == Ok::<Json, Seq<char>>(value@),
            Err(message) => json_of_text(text@) == Err::<Json, Seq<char>>(message@),
        },
{
    match from_str(text) {
        Ok(value) => Ok(from_serde(value)),
        Err(message) => Err(message),
    }
}

} // verus!
