//! JSON documents as plain data.
use vstd::prelude::*;
use vstd::utf8::encode_utf8;

use crate::text;

verus! {

/// A JSON value. An object is its members in any order; where a key stands more
/// than once, the last member with it counts.
#[derive(Debug)]
pub enum Json {
    Null,
    Bool(bool),
    Number(JsonNumber),
    Text(String),
    Array(Vec<Json>),
    Object(Vec<(String, Json)>),
}

/// A JSON number: its value where it is an unsigned or a signed integer of 64
/// bits, and how it is written.
#[derive(Debug)]
pub struct JsonNumber {
    pub unsigned: Option<u64>,
    pub signed: Option<i64>,
    pub text: String,
}

/// What a JSON number stands for.
pub struct NumberView {
    pub unsigned: Option<u64>,
    pub signed: Option<i64>,
    pub text: Seq<char>,
}

/// What a JSON value stands for.
pub enum JsonView {
    Null,
    Bool(bool),
    Number(NumberView),
    Text(Seq<char>),
    Array(Seq<JsonView>),
    Object(Map<Seq<char>, JsonView>),
}

/// The last of the first `n` members whose key is `key`.
pub open spec fn key_index(members: Seq<(String, Json)>, key: Seq<char>, n: nat) -> Option<int>
    decreases n,
{
    if n == 0 {
        None
    } else if members[n - 1].0@ == key {
        Some(n - 1)
    } else {
        key_index(members, key, (n - 1) as nat)
    }
}

impl View for JsonNumber {
    type V = NumberView;

    open spec fn view(&self) -> NumberView {
        NumberView { unsigned: self.unsigned, signed: self.signed, text: self.text@ }
    }
}

/// What a JSON value stands for.
pub open spec fn content(json: Json) -> JsonView
    decreases json,
{
    match json {
        Json::Null => JsonView::Null,
        Json::Bool(b) => JsonView::Bool(b),
        Json::Number(n) => JsonView::Number(n@),
        Json::Text(s) => JsonView::Text(s@),
        Json::Array(items) => JsonView::Array(
            Seq::new(
                items@.len(),
                |i: int|
                    if 0 <= i < items@.len() {
                        content(items@[i])
                    } else {
                        arbitrary()
                    },
            ),
        ),
        Json::Object(members) => JsonView::Object(
            Map::new(
                |key: Seq<char>| key_index(members@, key, members@.len()) is Some,
                |key: Seq<char>|
                    match key_index(members@, key, members@.len()) {
                        Some(i) if 0 <= i < members@.len() => content(members@[i].1),
                        _ => arbitrary(),
                    },
            ),
        ),
    }
}

impl View for Json {
    type V = JsonView;

    open spec fn view(&self) -> JsonView {
        content(*self)
    }
}

/// The member of an object under `key`.
pub open spec fn member(json: JsonView, key: Seq<char>) -> Option<JsonView> {
    match json {
        JsonView::Object(members) if members.contains_key(key) => Some(members[key]),
        _ => None,
    }
}

/// The text under `key`.
pub open spec fn member_text(json: JsonView, key: Seq<char>) -> Option<Seq<char>> {
    match member(json, key) {
        Some(JsonView::Text(t)) => Some(t),
        _ => None,
    }
}

/// The truth value under `key`.
pub open spec fn member_bool(json: JsonView, key: Seq<char>) -> Option<bool> {
    match member(json, key) {
        Some(JsonView::Bool(b)) => Some(b),
        _ => None,
    }
}

/// The unsigned integer under `key`.
pub open spec fn member_unsigned(json: JsonView, key: Seq<char>) -> Option<u64> {
    match member(json, key) {
        Some(JsonView::Number(n)) => n.unsigned,
        _ => None,
    }
}

/// The signed integer under `key`.
pub open spec fn member_signed(json: JsonView, key: Seq<char>) -> Option<i64> {
    match member(json, key) {
        Some(JsonView::Number(n)) => n.signed,
        _ => None,
    }
}

/// How the number under `key` is written.
pub open spec fn member_number(json: JsonView, key: Seq<char>) -> Option<Seq<char>> {
    match member(json, key) {
        Some(JsonView::Number(n)) => Some(n.text),
        _ => None,
    }
}

/// The items of the array under `key`.
pub open spec fn member_items(json: JsonView, key: Seq<char>) -> Option<Seq<JsonView>> {
    match member(json, key) {
        Some(JsonView::Array(items)) => Some(items),
        _ => None,
    }
}

/// The object without members.
pub open spec fn empty_object() -> JsonView {
    JsonView::Object(Map::empty())
}

/// A number that is an integer of 64 bits and is written in decimal.
pub open spec fn whole_number(n: NumberView) -> bool {
    match (n.unsigned, n.signed) {
        (Some(u), signed) => n.text == text::decimal(u as nat) && signed == (if u <= i64::MAX {
            Some(u as i64)
        } else {
            None
        }),
        (None, Some(i)) => i < 0 && n.text == text::signed_decimal(i as int),
        (None, None) => false,
    }
}

/// How deep arrays and objects may stand in each other in a document that is read.
pub const DEEPEST: usize = 127;

/// A value whose numbers are integers and whose arrays and objects stand at most `depth`
/// deep in each other.
pub open spec fn readable(json: JsonView, depth: nat) -> bool
    decreases depth,
{
    match json {
        JsonView::Number(n) => whole_number(n),
        JsonView::Array(items) => depth > 0 && forall|i: int|
            0 <= i < items.len() ==> readable(#[trigger] items[i], (depth - 1) as nat),
        JsonView::Object(members) => depth > 0 && forall|key: Seq<char>| #[trigger]
            members.contains_key(key) ==> readable(members[key], (depth - 1) as nat),
        _ => true,
    }
}

/// Every number in the value is an integer.
pub open spec fn writable(json: Json) -> bool
    decreases json,
{
    match json {
        Json::Number(n) => whole_number(n@),
        Json::Array(items) => forall|i: int|
            0 <= i < items@.len() ==> writable(#[trigger] items@[i]),
        Json::Object(members) => forall|i: int|
            0 <= i < members@.len() ==> writable((#[trigger] members@[i]).1),
        _ => true,
    }
}

/// What an optional text holds.
pub open spec fn text_view(t: Option<String>) -> Option<Seq<char>> {
    match t {
        Some(s) => Some(s@),
        None => None,
    }
}

/// What reading a document gave: the value, or what is wrong with the document.
pub open spec fn result_view(r: Result<Json, String>) -> Result<JsonView, Seq<char>> {
    match r {
        Ok(j) => Ok(j@),
        Err(e) => Err(e@),
    }
}

/// The document was read, as `json`.
pub open spec fn read_as(document: Result<JsonView, Seq<char>>, json: JsonView) -> bool {
    document == Ok::<JsonView, Seq<char>>(json)
}

/// `serde_json::Value`, a parsed JSON document.
#[verifier::external_type_specification]
#[verifier::external_body]
pub struct ExValue(serde_json::Value);

/// What a `serde_json::Value` holds.
pub uninterp spec fn json_value(value: serde_json::Value) -> JsonView;

/// What `serde_json::from_str` makes of a text: the value, or its error in words.
pub uninterp spec fn json_document(text: Seq<char>) -> Result<JsonView, Seq<char>>;

/// What `serde_json::from_slice` makes of bytes: the value, or its error in words.
pub uninterp spec fn json_slice_document(bytes: Seq<u8>) -> Result<JsonView, Seq<char>>;

/// How `serde_json::to_string` writes a value.
pub uninterp spec fn json_text(json: JsonView) -> Seq<char>;

/// How `serde_json::to_string_pretty` writes a value.
pub uninterp spec fn json_pretty_text(json: JsonView) -> Seq<char>;

/// Converts a `serde_json::Value` variant by variant. Claims that the result has
/// the content of the value.
#[verifier::external_body]
fn plain_value(value: &serde_json::Value) -> (json: Json)
    ensures
        json@ == json_value(*value),
{
    match value {
        serde_json::Value::Null => Json::Null,
        serde_json::Value::Bool(b) => Json::Bool(*b),
        serde_json::Value::Number(n) => Json::Number(
            JsonNumber { unsigned: n.as_u64(), signed: n.as_i64(), text: n.to_string() },
        ),
        serde_json::Value::String(s) => Json::Text(s.clone()),
        serde_json::Value::Array(items) => Json::Array(items.iter().map(plain_value).collect()),
        serde_json::Value::Object(members) => Json::Object(
            members.iter().map(|(k, v)| (k.clone(), plain_value(v))).collect(),
        ),
    }
}

/// Converts to a `serde_json::Value` variant by variant, with `Map::extend` for
/// an object, which keeps the last member of each key, and `Number::from_str` for a
/// number. Claims that the result has the content of a value whose numbers are
/// integers: such a number is read from its digits as it was.
#[verifier::external_body]
fn outside_value(json: &Json) -> (value: serde_json::Value)
    requires
        writable(*json),
    ensures
        json_value(value) == json@,
{
    match json {
        Json::Null => serde_json::Value::Null,
        Json::Bool(b) => serde_json::Value::Bool(*b),
        Json::Number(n) => n.text.parse().map_or(serde_json::Value::Null, serde_json::Value::Number),
        Json::Text(s) => serde_json::Value::String(s.clone()),
        Json::Array(items) => serde_json::Value::Array(items.iter().map(outside_value).collect()),
        Json::Object(members) => {
            let mut map = serde_json::Map::new();
            map.extend(members.iter().map(|(k, v)| (k.clone(), outside_value(v))));
            serde_json::Value::Object(map)
        },
    }
}

/// `serde_json::from_str` into a `Value`. Claims that what comes back is what
/// `json_document` names.
#[verifier::external_body]
fn read_text(text: &str) -> (r: Result<serde_json::Value, String>)
    ensures
        (match r {
            Ok(value) => json_document(text@) == Ok::<_, Seq<char>>(json_value(value)),
            Err(detail) => json_document(text@) == Err::<JsonView, _>(detail@),
        }),
{
    serde_json::from_str::<serde_json::Value>(text).map_err(|e| e.to_string())
}

/// `serde_json::from_slice` into a `Value`. Claims that what comes back is what
/// `json_slice_document` names.
#[verifier::external_body]
fn read_slice(bytes: &[u8]) -> (r: Result<serde_json::Value, String>)
    ensures
        (match r {
            Ok(value) => json_slice_document(bytes@) == Ok::<_, Seq<char>>(json_value(value)),
            Err(detail) => json_slice_document(bytes@) == Err::<JsonView, _>(detail@),
        }),
{
    serde_json::from_slice::<serde_json::Value>(bytes).map_err(|e| e.to_string())
}

/// `serde_json::to_string` of a `Value`, which cannot fail: every key of a
/// `Value` is a string. Claims that no line feed stands in the result (strings
/// are written with control characters escaped), that an object is written from
/// a brace to a brace, and that a value whose numbers are integers is read back as it
/// was, from the text and from its bytes, where it is not nested deeper than the reader
/// goes.
#[verifier::external_body]
fn write_text(value: &serde_json::Value) -> (text: String)
    ensures
        text@ == json_text(json_value(*value)),
        !text@.contains('\n'),
        json_value(*value) is Object ==> text@.len() >= 2 && text@[0] == '{' && text@.last() == '}',
        readable(json_value(*value), DEEPEST as nat) ==> read_as(
            json_document(text@),
            json_value(*value),
        ),
        readable(json_value(*value), DEEPEST as nat) ==> read_as(
            json_slice_document(encode_utf8(text@)),
            json_value(*value),
        ),
{
    serde_json::to_string(value).unwrap_or_default()
}

/// `serde_json::to_string_pretty` of a `Value`, which cannot fail either. Claims
/// that what comes back is what `json_pretty_text` names, and that a value whose numbers
/// are integers is read back as it was, where it is not nested deeper than the reader
/// goes.
#[verifier::external_body]
fn write_pretty_text(value: &serde_json::Value) -> (text: String)
    ensures
        text@ == json_pretty_text(json_value(*value)),
        readable(json_value(*value), DEEPEST as nat) ==> read_as(
            json_document(text@),
            json_value(*value),
        ),
{
    serde_json::to_string_pretty(value).unwrap_or_default()
}

/// Reads a JSON document from text.
pub fn parse(text: &str) -> (r: Result<Json, String>)
    ensures
        result_view(r) == json_document(text@),
{
    match read_text(text) {
        Ok(value) => Ok(plain_value(&value)),
        Err(detail) => Err(detail),
    }
}

/// Reads a JSON document from bytes.
pub fn parse_bytes(bytes: &[u8]) -> (r: Result<Json, String>)
    ensures
        result_view(r) == json_slice_document(bytes@),
{
    match read_slice(bytes) {
        Ok(value) => Ok(plain_value(&value)),
        Err(detail) => Err(detail),
    }
}

/// Writes a JSON value on one line.
pub fn to_text(json: &Json) -> (r: String)
    requires
        writable(*json),
    ensures
        r@ == json_text(json@),
        !r@.contains('\n'),
        json@ is Object ==> r@.len() >= 2 && r@[0] == '{' && r@.last() == '}',
        readable(json@, DEEPEST as nat) ==> read_as(json_document(r@), json@),
        readable(json@, DEEPEST as nat) ==> read_as(json_slice_document(encode_utf8(r@)), json@),
{
    let value = outside_value(json);
    write_text(&value)
}

/// Writes a JSON value over several lines, indented.
pub fn to_pretty_text(json: &Json) -> (r: String)
    requires
        writable(*json),
    ensures
        r@ == json_pretty_text(json@),
        readable(json@, DEEPEST as nat) ==> read_as(json_document(r@), json@),
{
    let value = outside_value(json);
    write_pretty_text(&value)
}

impl Json {
    /// A text.
    pub fn text(s: &str) -> (json: Json)
        ensures
            json@ == JsonView::Text(s@),
            writable(json),
    {
        Json::Text(s.to_owned())
    }

    /// An unsigned integer.
    pub fn unsigned(n: u64) -> (json: Json)
        ensures
            json@ == JsonView::Number(
                NumberView {
                    unsigned: Some(n),
                    signed: if n <= i64::MAX {
                        Some(n as i64)
                    } else {
                        None
                    },
                    text: text::decimal(n as nat),
                },
            ),
            writable(json),
    {
        let signed: Option<i64> = if n <= i64::MAX as u64 {
            Some(n as i64)
        } else {
            None
        };
        Json::Number(JsonNumber { unsigned: Some(n), signed, text: text::decimal_text(n) })
    }

    /// The object without members.
    pub fn empty() -> (json: Json)
        ensures
            json@ == empty_object(),
            writable(json),
    {
        let json = Json::Object(Vec::new());
        assert(json@->Object_0 =~= Map::<Seq<char>, JsonView>::empty());
        json
    }

    /// The object with one member.
    pub fn object1(key: &str, value: Json) -> (json: Json)
        ensures
            json@ == JsonView::Object(Map::empty().insert(key@, value@)),
            writable(value) ==> writable(json),
    {
        let mut members: Vec<(String, Json)> = Vec::new();
        members.push((key.to_owned(), value));
        let json = Json::Object(members);
        proof {
            reveal_with_fuel(key_index, 2);
            assert(json@->Object_0 =~= Map::empty().insert(key@, value@));
        }
        json
    }

    /// The object with one more member, which takes the place of one with its key.
    pub fn with(self, key: &str, value: Json) -> (json: Json)
        requires
            self is Object,
        ensures
            json is Object,
            json@ == JsonView::Object(self@->Object_0.insert(key@, value@)),
            writable(self) && writable(value) ==> writable(json),
    {
        match self {
            Json::Object(mut members) => {
                let ghost before = members;
                members.push((key.to_owned(), value));
                let json = Json::Object(members);
                proof {
                    let after = members;
                    let added = before@.push(after@.last());
                    assert(after@ =~= added);
                    assert forall|k: Seq<char>| #[trigger] json@->Object_0.contains_key(k)
                        == self@->Object_0.insert(key@, value@).contains_key(k) && (
                    json@->Object_0.contains_key(k) ==> json@->Object_0[k] == self@->Object_0.insert(
                        key@,
                        value@,
                    )[k]) by {
                        lemma_same_keys(before@, after@, k, before@.len());
                        lemma_object_content(before, k);
                        lemma_object_content(after, k);
                        lemma_key_index_in_range(before@, k, before@.len());
                    }
                    assert(json@->Object_0 =~= self@->Object_0.insert(key@, value@));
                }
                json
            },
            other => other,
        }
    }

    /// An array.
    pub fn array(items: Vec<Json>) -> (json: Json)
        ensures
            json@ == JsonView::Array(items@.map_values(|j: Json| j@)),
            (forall|i: int| 0 <= i < items@.len() ==> writable(#[trigger] items@[i]))
                ==> writable(json),
    {
        let json = Json::Array(items);
        proof {
            lemma_array_content(items);
            assert(json@->Array_0 =~= items@.map_values(|j: Json| j@));
        }
        json
    }

    /// A value with the same content.
    pub fn copy(&self) -> (json: Json)
        ensures
            json@ == self@,
            writable(*self) ==> writable(json),
        decreases self,
    {
        match self {
            Json::Null => Json::Null,
            Json::Bool(b) => Json::Bool(*b),
            Json::Number(n) => Json::Number(
                JsonNumber { unsigned: n.unsigned, signed: n.signed, text: n.text.clone() },
            ),
            Json::Text(s) => Json::Text(s.clone()),
            Json::Array(items) => {
                let mut copies: Vec<Json> = Vec::new();
                let mut i: usize = 0;
                while i < items.len()
                    invariant
                        *self == Json::Array(*items),
                        i <= items@.len(),
                        copies@.len() == i,
                        forall|j: int| 0 <= j < i ==> (#[trigger] copies@[j])@ == items@[j]@,
                        forall|j: int|
                            0 <= j < i && writable(items@[j]) ==> writable(
                                #[trigger] copies@[j],
                            ),
                    decreases items@.len() - i,
                {
                    assert(decreases_to!(*self => self->Array_0));
                    assert(decreases_to!(self->Array_0@ => self->Array_0@[i as int]));
                    let item = items[i].copy();
                    copies.push(item);
                    i = i + 1;
                }
                let json = Json::Array(copies);
                assert(json@->Array_0 =~= self@->Array_0);
                json
            },
            Json::Object(members) => {
                let mut copies: Vec<(String, Json)> = Vec::new();
                let mut i: usize = 0;
                while i < members.len()
                    invariant
                        *self == Json::Object(*members),
                        i <= members@.len(),
                        copies@.len() == i,
                        forall|j: int|
                            0 <= j < i ==> (#[trigger] copies@[j]).0@ == members@[j].0@
                                && copies@[j].1@ == members@[j].1@,
                        forall|j: int|
                            0 <= j < i && writable(members@[j].1) ==> writable(
                                (#[trigger] copies@[j]).1,
                            ),
                    decreases members@.len() - i,
                {
                    assert(decreases_to!(*self => self->Object_0));
                    assert(decreases_to!(self->Object_0@ => self->Object_0@[i as int]));
                    assert(decreases_to!(self->Object_0@[i as int] => self->Object_0@[i as int].1));
                    let key = members[i].0.clone();
                    let value = members[i].1.copy();
                    copies.push((key, value));
                    i = i + 1;
                }
                let json = Json::Object(copies);
                proof {
                    assert forall|key: Seq<char>| #[trigger]
                        key_index(copies@, key, copies@.len()) == key_index(
                            members@,
                            key,
                            members@.len(),
                        ) by {
                        lemma_same_keys(copies@, members@, key, copies@.len());
                    }
                    assert forall|key: Seq<char>| #[trigger]
                        json@->Object_0.contains_key(key) implies json@->Object_0[key]
                        == self@->Object_0[key] by {
                        lemma_key_index_in_range(copies@, key, copies@.len());
                    }
                    assert(json@->Object_0 =~= self@->Object_0);
                }
                json
            },
        }
    }

    /// The member under `key`.
    pub fn get(&self, key: &str) -> (r: Option<&Json>)
        ensures
            (match r {
                Some(json) => member(self@, key@) == Some(json@),
                None => member(self@, key@) is None,
            }),
    {
        match self {
            Json::Object(members) => {
                let mut n: usize = members.len();
                while n > 0
                    invariant
                        n <= members@.len(),
                        *self == Json::Object(*members),
                        key_index(members@, key@, members@.len()) == key_index(
                            members@,
                            key@,
                            n as nat,
                        ),
                    decreases n,
                {
                    if text::same(members[n - 1].0.as_str(), key) {
                        proof {
                            lemma_object_content(*members, key@);
                        }
                        return Some(&members[n - 1].1);
                    }
                    n = n - 1;
                }
                None
            },
            _ => None,
        }
    }

    /// The text under `key`.
    pub fn get_text(&self, key: &str) -> (r: Option<String>)
        ensures
            text_view(r) == member_text(self@, key@),
    {
        match self.get(key) {
            Some(Json::Text(t)) => Some(t.clone()),
            _ => None,
        }
    }

    /// The truth value under `key`.
    pub fn get_bool(&self, key: &str) -> (r: Option<bool>)
        ensures
            r == member_bool(self@, key@),
    {
        match self.get(key) {
            Some(Json::Bool(b)) => Some(*b),
            _ => None,
        }
    }

    /// The unsigned integer under `key`.
    pub fn get_unsigned(&self, key: &str) -> (r: Option<u64>)
        ensures
            r == member_unsigned(self@, key@),
    {
        match self.get(key) {
            Some(Json::Number(n)) => n.unsigned,
            _ => None,
        }
    }

    /// The signed integer under `key`.
    pub fn get_signed(&self, key: &str) -> (r: Option<i64>)
        ensures
            r == member_signed(self@, key@),
    {
        match self.get(key) {
            Some(Json::Number(n)) => n.signed,
            _ => None,
        }
    }

    /// How the number under `key` is written.
    pub fn get_number(&self, key: &str) -> (r: Option<String>)
        ensures
            text_view(r) == member_number(self@, key@),
    {
        match self.get(key) {
            Some(Json::Number(n)) => Some(n.text.clone()),
            _ => None,
        }
    }
}

proof fn lemma_same_keys(a: Seq<(String, Json)>, b: Seq<(String, Json)>, key: Seq<char>, n: nat)
    requires
        n <= a.len(),
        n <= b.len(),
        forall|j: int| 0 <= j < n ==> (#[trigger] a[j]).0@ == b[j].0@,
    ensures
        key_index(a, key, n) == key_index(b, key, n),
    decreases n,
{
    if n > 0 {
        assert(a[n - 1].0@ == b[n - 1].0@);
        lemma_same_keys(a, b, key, (n - 1) as nat);
    }
}

proof fn lemma_key_index_in_range(members: Seq<(String, Json)>, key: Seq<char>, n: nat)
    ensures
        key_index(members, key, n) matches Some(i) ==> 0 <= i < n && members[i].0@ == key,
    decreases n,
{
    if n > 0 {
        lemma_key_index_in_range(members, key, (n - 1) as nat);
    }
}

proof fn lemma_array_content(items: Vec<Json>)
    ensures
        content(Json::Array(items)) == JsonView::Array(
            Seq::new(items@.len(), |i: int| items@[i]@),
        ),
{
    reveal_with_fuel(content, 2);
    assert(content(Json::Array(items))->Array_0 =~= Seq::new(items@.len(), |i: int| items@[i]@));
}

proof fn lemma_object_content(members: Vec<(String, Json)>, key: Seq<char>)
    ensures
        member(content(Json::Object(members)), key) == (match key_index(
            members@,
            key,
            members@.len(),
        ) {
            Some(i) => Some(members@[i].1@),
            None => None,
        }),
{
    reveal_with_fuel(content, 2);
    lemma_key_index_in_range(members@, key, members@.len());
}

} // verus!
