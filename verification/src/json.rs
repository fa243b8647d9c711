use vstd::prelude::*;
use serde_json::Value;

verus! {

/// A JSON document held as plain values.
///
/// An object keeps its members in the order in which they were written.
/// Where a name occurs twice, the last member of that name counts. A number
/// that is neither a `u64` nor an `i64` is kept as `Fraction`, without its
/// digits.
#[derive(Debug)]
pub enum Json {
    Null,
    Bool(bool),
    Unsigned(u64),
    Negative(i64),
    Fraction,
    Text(String),
    Array(Vec<Json>),
    Object(Vec<(String, Json)>),
}

/// The mathematical value of a [`Json`] document.
pub enum JsonView {
    Null,
    Bool(bool),
    Unsigned(u64),
    Negative(i64),
    Fraction,
    Text(Seq<char>),
    Array(Seq<JsonView>),
    Object(Seq<(Seq<char>, JsonView)>),
}

/// The value of a document: every string by its characters, every array
/// and object by the values of its parts, in order.
pub open spec fn json_view(json: Json) -> JsonView
    decreases json,
{
    match json {
        Json::Null => JsonView::Null,
        Json::Bool(b) => JsonView::Bool(b),
        Json::Unsigned(n) => JsonView::Unsigned(n),
        Json::Negative(n) => JsonView::Negative(n),
        Json::Fraction => JsonView::Fraction,
        Json::Text(s) => JsonView::Text(s@),
        Json::Array(items) => JsonView::Array(
            Seq::new(
                items.len() as nat,
                |i: int|
                    if 0 <= i < items.len() {
                        json_view(items[i])
                    } else {
                        JsonView::Null
                    },
            ),
        ),
        Json::Object(members) => JsonView::Object(
            Seq::new(
                members.len() as nat,
                |i: int|
                    if 0 <= i < members.len() {
                        (members[i].0@, json_view(members[i].1))
                    } else {
                        (Seq::empty(), JsonView::Null)
                    },
            ),
        ),
    }
}

impl View for Json {
    type V = JsonView;

    open spec fn view(&self) -> JsonView {
        json_view(*self)
    }
}

/// The value of the last member called `name`, if there is one.
pub open spec fn member(members: Seq<(Seq<char>, JsonView)>, name: Seq<char>) -> Option<JsonView>
    decreases members.len(),
{
    if members.len() == 0 {
        None
    } else if members.last().0 == name {
        Some(members.last().1)
    } else {
        member(members.drop_last(), name)
    }
}

impl JsonView {
    /// The member called `name` of an object; `None` for anything that is
    /// not an object or has no such member.
    pub open spec fn get(self, name: Seq<char>) -> Option<JsonView> {
        match self {
            JsonView::Object(members) => member(members, name),
            _ => None,
        }
    }

    /// No number in the document lost its digits.
    pub open spec fn exact(self) -> bool
        decreases self,
    {
        match self {
            JsonView::Fraction => false,
            JsonView::Array(items) => forall|i: int|
                0 <= i < items.len() ==> (#[trigger] items[i]).exact(),
            JsonView::Object(members) => forall|i: int|
                0 <= i < members.len() ==> (#[trigger] members[i]).1.exact(),
            _ => true,
        }
    }

    pub open spec fn as_bool(self) -> Option<bool> {
        match self {
            JsonView::Bool(b) => Some(b),
            _ => None,
        }
    }

    pub open spec fn as_text(self) -> Option<Seq<char>> {
        match self {
            JsonView::Text(s) => Some(s),
            _ => None,
        }
    }

    /// The number as a byte, where it is a whole number from 0 to 255.
    pub open spec fn as_byte(self) -> Option<u8> {
        match self {
            JsonView::Unsigned(n) => if n <= 255 {
                Some(n as u8)
            } else {
                None
            },
            _ => None,
        }
    }

    /// The number as a `u16`, where it is a whole number from 0 to 65535.
    pub open spec fn as_code(self) -> Option<u16> {
        match self {
            JsonView::Unsigned(n) => if n <= 65535 {
                Some(n as u16)
            } else {
                None
            },
            _ => None,
        }
    }

    /// The array as bytes, where it is an array of exactly `len` bytes.
    pub open spec fn as_bytes(self, len: nat) -> Option<Seq<u8>> {
        match self {
            JsonView::Array(items) => if items.len() == len && forall|i: int|
                0 <= i < items.len() ==> (#[trigger] items[i]).as_byte() is Some {
                Some(Seq::new(len, |i: int| items[i].as_byte().unwrap()))
            } else {
                None
            },
            _ => None,
        }
    }
}

/// What `serde_json` reads from a text: the document, or `None` where the
/// text is not one JSON value.
pub uninterp spec fn parsed_json(text: Seq<char>) -> Option<JsonView>;

/// The compact text that `serde_json` writes for a document.
pub uninterp spec fn rendered_json(json: JsonView) -> Seq<char>;

pub open spec fn view_of(parsed: Option<Json>) -> Option<JsonView> {
    match parsed {
        Some(json) => Some(json@),
        None => None,
    }
}

/// `serde_json::Value`, a document as `serde_json` holds it: it only
/// passes between the parser, the writer and the two converters below.
#[verifier::external_type_specification]
#[verifier::external_body]
pub struct ExValue(Value);

/// Turns a `serde_json::Value` into a [`Json`], variant by variant. A
/// number goes by `Number::as_u64`, then `Number::as_i64`; one that is
/// neither becomes `Fraction`. Nothing is claimed of the result.
#[verifier::external_body]
fn json_from_value(value: Value) -> Json {
    match value {
        Value::Null => Json::Null,
        Value::Bool(b) => Json::Bool(b),
        Value::Number(n) => match (n.as_u64(), n.as_i64()) {
            (Some(u), _) => Json::Unsigned(u),
            (None, Some(i)) => Json::Negative(i),
            (None, None) => Json::Fraction,
        },
        Value::String(s) => Json::Text(s),
        Value::Array(a) => Json::Array(a.into_iter().map(json_from_value).collect()),
        Value::Object(o) => Json::Object(o.into_iter().map(|(k, v)| (k, json_from_value(v))).collect()),
    }
}

/// Turns a [`Json`] into a `serde_json::Value`, variant by variant. Members
/// go into the object in order, so a later one replaces an earlier one of
/// the same name. A `Fraction`, which `requires` leaves out, would become
/// `null`. Nothing is claimed of the result.
#[verifier::external_body]
fn value_from_json(json: &Json) -> Value
    requires
        json@.exact(),
{
    match json {
        Json::Null | Json::Fraction => Value::Null,
        Json::Bool(b) => Value::Bool(*b),
        Json::Unsigned(n) => Value::from(*n),
        Json::Negative(n) => Value::from(*n),
        Json::Text(s) => Value::String(s.clone()),
        Json::Array(a) => Value::Array(a.iter().map(value_from_json).collect()),
        Json::Object(o) => Value::Object(o.iter().map(|(k, v)| (k.clone(), value_from_json(v))).collect()),
    }
}

/// Calls `serde_json::from_str` for a `serde_json::Value`. The contract
/// gives the outcome a name, [`parsed_json`], and claims only that it
/// depends on the text alone.
#[verifier::external_body]
pub(crate) fn parse_text(text: &str) -> (parsed: Option<Json>)
    ensures
        view_of(parsed) == parsed_json(text@),
{
    match serde_json::from_str::<Value>(text) {
        Ok(value) => Some(json_from_value(value)),
        Err(_) => None,
    }
}

/// Calls `to_string` of `serde_json::Value`, which writes compact JSON. The
/// contract gives the text a name, [`rendered_json`], and claims only that
/// it depends on the document alone.
#[verifier::external_body]
pub(crate) fn render_text(json: &Json) -> (text: String)
    requires
        json@.exact(),
    ensures
        text@ == rendered_json(json@),
{
    value_from_json(json).to_string()
}

/// The members of an object, each by its name's characters and its value.
pub open spec fn members_view(members: Seq<(String, Json)>) -> Seq<(Seq<char>, JsonView)> {
    Seq::new(members.len(), |i: int| (members[i].0@, members[i].1@))
}

/// The items of an array, each by its value.
pub open spec fn items_view(items: Seq<Json>) -> Seq<JsonView> {
    Seq::new(items.len(), |i: int| items[i]@)
}

/// An object's value is made of its members' values.
pub proof fn lemma_object_view(members: Vec<(String, Json)>)
    ensures
        Json::Object(members)@ == JsonView::Object(members_view(members@)),
{
    reveal_with_fuel(json_view, 2);
    assert(Json::Object(members)@->Object_0 =~= members_view(members@));
}

/// An array's value is made of its items' values.
pub proof fn lemma_array_view(items: Vec<Json>)
    ensures
        Json::Array(items)@ == JsonView::Array(items_view(items@)),
{
    reveal_with_fuel(json_view, 2);
    assert(Json::Array(items)@->Array_0 =~= items_view(items@));
}

/// Looks a name up among members, from the last one back.
fn find_member<'a>(members: &'a Vec<(String, Json)>, name: &str) -> (found: Option<&'a Json>)
    ensures
        match found {
            Some(json) => member(members_view(members@), name@) == Some(json@),
            None => member(members_view(members@), name@) is None,
        },
{
    let wanted = name.to_owned();
    let ghost all = members_view(members@);
    let mut i: usize = members.len();
    assert(all.take(i as int) =~= all);
    while i > 0
        invariant
            i <= members.len(),
            wanted@ == name@,
            all == members_view(members@),
            member(all, name@) == member(all.take(i as int), name@),
        decreases i,
    {
        let ghost prefix = all.take(i as int);
        assert(prefix.last() == all[i - 1]);
        assert(prefix.drop_last() =~= all.take(i - 1));
        i = i - 1;
        if members[i].0 == wanted {
            return Some(&members[i].1);
        }
    }
    assert(all.take(0).len() == 0);
    None
}

impl Json {
    /// The member called `name`, where this is an object that has one.
    pub fn get(&self, name: &str) -> (found: Option<&Json>)
        ensures
            match found {
                Some(json) => self@.get(name@) == Some(json@),
                None => self@.get(name@) is None,
            },
    {
        match self {
            Json::Object(members) => {
                proof {
                    lemma_object_view(*members);
                }
                find_member(members, name)
            },
            _ => None,
        }
    }

    pub fn as_bool(&self) -> (value: Option<bool>)
        ensures
            value == self@.as_bool(),
    {
        match self {
            Json::Bool(b) => Some(*b),
            _ => None,
        }
    }

    pub fn as_text(&self) -> (value: Option<&String>)
        ensures
            match value {
                Some(s) => self@.as_text() == Some(s@),
                None => self@.as_text() is None,
            },
    {
        match self {
            Json::Text(s) => Some(s),
            _ => None,
        }
    }

    pub fn as_byte(&self) -> (value: Option<u8>)
        ensures
            value == self@.as_byte(),
    {
        match self {
            Json::Unsigned(n) => if *n <= 255 {
                Some(*n as u8)
            } else {
                None
            },
            _ => None,
        }
    }

    pub fn as_code(&self) -> (value: Option<u16>)
        ensures
            value == self@.as_code(),
    {
        match self {
            Json::Unsigned(n) => if *n <= 65535 {
                Some(*n as u16)
            } else {
                None
            },
            _ => None,
        }
    }
}

} // verus!
