//! JSON values as this library reads and writes them.
//!
//! [`JsonValue`] holds a document as plain data; [`Json`] is what contracts
//! say about it. Reading and writing JSON text is the work of `serde_json`.

pub mod laws;

use crate::text::{borrowed_text, same};
use serde::__private229::de::{content_as_str, Content, ContentDeserializer, ContentVisitor};
use vstd::prelude::*;

verus! {

/// `serde_json::Number`, carried through untouched for numbers that are not
/// integers.
#[verifier::external_type_specification]
#[verifier::external_body]
pub struct ExNumber(serde_json::Number);

/// `serde_json::Value`, the tree that `serde_json` itself reads and writes.
#[verifier::external_type_specification]
#[verifier::external_body]
pub struct ExValue(serde_json::Value);

/// `serde_json::Error`, what `serde_json` reports on text that is not JSON.
#[verifier::external_type_specification]
#[verifier::external_body]
pub struct ExError(serde_json::Error);

/// `Content`, the buffer in which the readers that `serde` derives hold a
/// document: it keeps every field of an object, repeated ones too.
/// Its path carries the patch number of `serde`, so `Cargo.toml` fixes that
/// version.
#[verifier::external_type_specification]
#[verifier::external_body]
pub struct ExContent<'de>(Content<'de>);

/// A JSON document.
///
/// An integer is held as itself, every other number as `serde_json` holds it.
/// The fields of an object stand in the order in which they were written.
#[derive(Debug, PartialEq)]
pub enum JsonValue {
    Null,
    Bool(bool),
    Int(i128),
    Float(serde_json::Number),
    Text(String),
    Array(Vec<JsonValue>),
    Object(Vec<(String, JsonValue)>),
}

/// A JSON document as a mathematical value.
pub enum Json {
    Null,
    Bool(bool),
    Int(int),
    Float(serde_json::Number),
    Text(Seq<char>),
    Array(Seq<Json>),
    Object(Seq<(Seq<char>, Json)>),
}

impl View for JsonValue {
    type V = Json;

    open spec fn view(&self) -> Json
        decreases self,
    {
        match self {
            JsonValue::Null => Json::Null,
            JsonValue::Bool(b) => Json::Bool(*b),
            JsonValue::Int(i) => Json::Int(*i as int),
            JsonValue::Float(n) => Json::Float(*n),
            JsonValue::Text(s) => Json::Text(s@),
            JsonValue::Array(items) => Json::Array(
                Seq::new(
                    items@.len(),
                    |i: int|
                        if 0 <= i < items@.len() {
                            items@[i].view()
                        } else {
                            Json::Null
                        },
                ),
            ),
            JsonValue::Object(fields) => Json::Object(
                Seq::new(
                    fields@.len(),
                    |i: int|
                        (
                            fields@[i].0@,
                            if 0 <= i < fields@.len() {
                                fields@[i].1.view()
                            } else {
                                Json::Null
                            },
                        ),
                ),
            ),
        }
    }
}

/// The value that the first field named `key` holds, where the document is an
/// object with such a field.
pub open spec fn field(j: Json, key: Seq<char>) -> Option<Json> {
    match j {
        Json::Object(fields) => field_from(fields, key, 0),
        _ => None,
    }
}

/// The value of the first field named `key` at position `from` or later.
pub open spec fn field_from(fields: Seq<(Seq<char>, Json)>, key: Seq<char>, from: int) -> Option<
    Json,
>
    decreases fields.len() - from,
{
    if from < 0 || from >= fields.len() {
        None
    } else if fields[from].0 == key {
        Some(fields[from].1)
    } else {
        field_from(fields, key, from + 1)
    }
}

/// Whether the names of the fields differ from each other.
pub open spec fn distinct_names(fields: Seq<(Seq<char>, Json)>) -> bool {
    forall|i: int, k: int|
        0 <= i < k < fields.len() ==> (#[trigger] fields[i]).0 != (#[trigger] fields[k]).0
}

/// Where the names of an object's fields differ, each field is found by its
/// name.
pub proof fn lemma_field_found(fields: Seq<(Seq<char>, Json)>, k: int)
    requires
        distinct_names(fields),
        0 <= k < fields.len(),
    ensures
        field(Json::Object(fields), fields[k].0) == Some(fields[k].1),
{
    lemma_field_found_from(fields, k, 0);
}

proof fn lemma_field_found_from(fields: Seq<(Seq<char>, Json)>, k: int, from: int)
    requires
        distinct_names(fields),
        0 <= from <= k < fields.len(),
    ensures
        field_from(fields, fields[k].0, from) == Some(fields[k].1),
    decreases k - from,
{
    if from < k {
        lemma_field_found_from(fields, k, from + 1);
    }
}

/// Where no field of an object has a name, none is found by it.
pub proof fn lemma_field_absent(fields: Seq<(Seq<char>, Json)>, key: Seq<char>)
    requires
        forall|i: int| 0 <= i < fields.len() ==> (#[trigger] fields[i]).0 != key,
    ensures
        field(Json::Object(fields), key) is None,
{
    lemma_field_absent_from(fields, key, 0);
}

proof fn lemma_field_absent_from(fields: Seq<(Seq<char>, Json)>, key: Seq<char>, from: int)
    requires
        0 <= from <= fields.len(),
        forall|i: int| 0 <= i < fields.len() ==> (#[trigger] fields[i]).0 != key,
    ensures
        field_from(fields, key, from) is None,
    decreases fields.len() - from,
{
    if from < fields.len() {
        lemma_field_absent_from(fields, key, from + 1);
    }
}

/// Whether an object has no fields but those with the given names.
pub open spec fn has_only(j: Json, names: Seq<Seq<char>>) -> bool {
    &&& j is Object
    &&& forall|key: Seq<char>| #[trigger] field(j, key) is Some ==> names.contains(key)
}

/// Whether each of the fields is found under its name, and no other field is.
pub open spec fn fields_are(j: Json, fields: Seq<(Seq<char>, Json)>) -> bool {
    &&& j is Object
    &&& forall|i: int|
        0 <= i < fields.len() ==> field(j, (#[trigger] fields[i]).0) == Some(fields[i].1)
    &&& forall|key: Seq<char>| #[trigger]
        field(j, key) is Some ==> exists|i: int|
            0 <= i < fields.len() && (#[trigger] fields[i]).0 == key
}

/// An object with different names has just its fields.
pub proof fn lemma_fields_are(fields: Seq<(Seq<char>, Json)>)
    requires
        distinct_names(fields),
    ensures
        fields_are(Json::Object(fields), fields),
{
    let j = Json::Object(fields);
    assert forall|i: int| 0 <= i < fields.len() implies field(j, (#[trigger] fields[i]).0) == Some(
        fields[i].1,
    ) by {
        lemma_field_found(fields, i);
    }
    assert forall|key: Seq<char>| #[trigger] field(j, key) is Some implies exists|i: int|
        0 <= i < fields.len() && (#[trigger] fields[i]).0 == key by {
        if forall|i: int| 0 <= i < fields.len() ==> (#[trigger] fields[i]).0 != key {
            lemma_field_absent(fields, key);
        }
    }
}

/// What is found in an object of one field.
pub proof fn lemma_one_field(k0: Seq<char>, v0: Json)
    ensures
        ({
            let j = Json::Object(seq![(k0, v0)]);
            &&& field(j, k0) == Some(v0)
            &&& has_only(j, seq![k0])
        }),
{
    let fields = seq![(k0, v0)];
    lemma_fields_are(fields);
    assert(fields[0].0 == k0);
    assert(seq![k0][0] == k0);
}

/// What is found in an object of two fields.
pub proof fn lemma_two_fields(k0: Seq<char>, v0: Json, k1: Seq<char>, v1: Json)
    requires
        k0 != k1,
    ensures
        ({
            let j = Json::Object(seq![(k0, v0), (k1, v1)]);
            &&& field(j, k0) == Some(v0)
            &&& field(j, k1) == Some(v1)
            &&& has_only(j, seq![k0, k1])
        }),
{
    let fields = seq![(k0, v0), (k1, v1)];
    lemma_fields_are(fields);
    assert(fields[0].0 == k0 && fields[1].0 == k1);
    let names = seq![k0, k1];
    assert(names[0] == k0 && names[1] == k1);
}

/// What is found in an object of three fields.
pub proof fn lemma_three_fields(
    k0: Seq<char>,
    v0: Json,
    k1: Seq<char>,
    v1: Json,
    k2: Seq<char>,
    v2: Json,
)
    requires
        k0 != k1,
        k0 != k2,
        k1 != k2,
    ensures
        ({
            let j = Json::Object(seq![(k0, v0), (k1, v1), (k2, v2)]);
            &&& field(j, k0) == Some(v0)
            &&& field(j, k1) == Some(v1)
            &&& field(j, k2) == Some(v2)
            &&& has_only(j, seq![k0, k1, k2])
        }),
{
    let fields = seq![(k0, v0), (k1, v1), (k2, v2)];
    lemma_fields_are(fields);
    assert(fields[0].0 == k0 && fields[1].0 == k1 && fields[2].0 == k2);
    let names = seq![k0, k1, k2];
    assert(names[0] == k0 && names[1] == k1 && names[2] == k2);
}

/// What is found in an object of four fields.
pub proof fn lemma_four_fields(
    k0: Seq<char>,
    v0: Json,
    k1: Seq<char>,
    v1: Json,
    k2: Seq<char>,
    v2: Json,
    k3: Seq<char>,
    v3: Json,
)
    requires
        k0 != k1,
        k0 != k2,
        k0 != k3,
        k1 != k2,
        k1 != k3,
        k2 != k3,
    ensures
        ({
            let j = Json::Object(seq![(k0, v0), (k1, v1), (k2, v2), (k3, v3)]);
            &&& field(j, k0) == Some(v0)
            &&& field(j, k1) == Some(v1)
            &&& field(j, k2) == Some(v2)
            &&& field(j, k3) == Some(v3)
            &&& has_only(j, seq![k0, k1, k2, k3])
        }),
{
    let fields = seq![(k0, v0), (k1, v1), (k2, v2), (k3, v3)];
    lemma_fields_are(fields);
    assert(fields[0].0 == k0 && fields[1].0 == k1 && fields[2].0 == k2 && fields[3].0 == k3);
    let names = seq![k0, k1, k2, k3];
    assert(names[0] == k0 && names[1] == k1 && names[2] == k2 && names[3] == k3);
}

/// The characters of a JSON string.
pub open spec fn json_str(j: Json) -> Option<Seq<char>> {
    match j {
        Json::Text(s) => Some(s),
        _ => None,
    }
}

/// The value of a JSON integer that fits 64 signed bits.
pub open spec fn json_i64(j: Json) -> Option<int> {
    match j {
        Json::Int(i) => if i64::MIN <= i <= i64::MAX {
            Some(i)
        } else {
            None
        },
        _ => None,
    }
}

/// The value of a JSON boolean.
pub open spec fn json_bool(j: Json) -> Option<bool> {
    match j {
        Json::Bool(b) => Some(b),
        _ => None,
    }
}

/// The elements of a JSON array.
pub open spec fn json_items(j: Json) -> Option<Seq<Json>> {
    match j {
        Json::Array(items) => Some(items),
        _ => None,
    }
}

/// The characters that the field `key` holds, where it is a JSON string.
pub open spec fn str_field(j: Json, key: Seq<char>) -> Option<Seq<char>> {
    match field(j, key) {
        Some(v) => json_str(v),
        None => None,
    }
}

/// The elements that the field `key` holds, where it is a JSON array.
pub open spec fn items_field(j: Json, key: Seq<char>) -> Option<Seq<Json>> {
    match field(j, key) {
        Some(v) => json_items(v),
        None => None,
    }
}

/// The integer that the field `key` holds, where it fits 64 signed bits.
pub open spec fn i64_field(j: Json, key: Seq<char>) -> Option<int> {
    match field(j, key) {
        Some(v) => json_i64(v),
        None => None,
    }
}

/// A list of documents as mathematical values.
pub open spec fn json_seq(v: Seq<JsonValue>) -> Seq<Json> {
    Seq::new(v.len(), |i: int| v[i]@)
}

/// A list of object fields as mathematical values.
pub open spec fn fields_seq(v: Seq<(String, JsonValue)>) -> Seq<(Seq<char>, Json)> {
    Seq::new(v.len(), |i: int| (v[i].0@, v[i].1@))
}

/// The view of an array is the list of its elements' views.
pub broadcast proof fn lemma_array_view(items: Vec<JsonValue>)
    ensures
        #[trigger] JsonValue::Array(items)@ == Json::Array(json_seq(items@)),
{
    assert(JsonValue::Array(items)@->Array_0 =~= json_seq(items@));
}

/// The view of an object is the list of its fields' views.
pub broadcast proof fn lemma_object_view(fields: Vec<(String, JsonValue)>)
    ensures
        #[trigger] JsonValue::Object(fields)@ == Json::Object(fields_seq(fields@)),
{
    assert(JsonValue::Object(fields)@->Object_0 =~= fields_seq(fields@));
}

impl JsonValue {
    /// The value of the first field named `key`, where this is an object that
    /// has one.
    pub fn get(&self, key: &str) -> (r: Option<&JsonValue>)
        ensures
            r is Some <==> field(self@, key@) is Some,
            r is Some ==> field(self@, key@) == Some(r->0@),
    {
        broadcast use lemma_object_view;

        match self {
            JsonValue::Object(fields) => {
                let mut i: usize = 0;
                while i < fields.len()
                    invariant
                        i <= fields.len(),
                        field_from(fields_seq(fields@), key@, 0) == field_from(
                            fields_seq(fields@),
                            key@,
                            i as int,
                        ),
                        self@ == Json::Object(fields_seq(fields@)),
                    decreases fields.len() - i,
                {
                    if same(fields[i].0.as_str(), key) {
                        return Some(&fields[i].1);
                    }
                    i += 1;
                }
                None
            },
            _ => None,
        }
    }

    /// The text, where this is a JSON string.
    pub fn as_str(&self) -> (r: Option<&str>)
        ensures
            borrowed_text(r) == json_str(self@),
    {
        match self {
            JsonValue::Text(s) => Some(s.as_str()),
            _ => None,
        }
    }

    /// The integer, where this is one that fits 64 signed bits.
    pub fn as_i64(&self) -> (r: Option<i64>)
        ensures
            r is Some <==> json_i64(self@) is Some,
            r is Some ==> json_i64(self@) == Some(r->0 as int),
    {
        match self {
            JsonValue::Int(i) => {
                if i64::MIN as i128 <= *i && *i <= i64::MAX as i128 {
                    Some(*i as i64)
                } else {
                    None
                }
            },
            _ => None,
        }
    }

    /// The truth value, where this is a JSON boolean.
    pub fn as_bool(&self) -> (r: Option<bool>)
        ensures
            r == json_bool(self@),
    {
        match self {
            JsonValue::Bool(b) => Some(*b),
            _ => None,
        }
    }

    /// The elements, where this is a JSON array.
    pub fn as_array(&self) -> (r: Option<&Vec<JsonValue>>)
        ensures
            r is Some <==> json_items(self@) is Some,
            r is Some ==> json_items(self@) == Some(json_seq(r->0@)),
    {
        broadcast use lemma_array_view;

        match self {
            JsonValue::Array(items) => Some(items),
            _ => None,
        }
    }

    /// Whether this is JSON `null`.
    pub fn is_null(&self) -> (r: bool)
        ensures
            r == (self@ == Json::Null),
    {
        match self {
            JsonValue::Null => true,
            _ => false,
        }
    }
}

/// The text that the field `key` of `value` holds, where it is a JSON string.
pub fn get_str<'a>(value: &'a JsonValue, key: &str) -> (r: Option<&'a str>)
    ensures
        borrowed_text(r) == str_field(value@, key@),
{
    match value.get(key) {
        Some(v) => v.as_str(),
        None => None,
    }
}

/// The elements that the field `key` of `value` holds, where it is an array.
pub fn get_array<'a>(value: &'a JsonValue, key: &str) -> (r: Option<&'a Vec<JsonValue>>)
    ensures
        r is Some <==> items_field(value@, key@) is Some,
        r is Some ==> items_field(value@, key@) == Some(json_seq(r->0@)),
{
    match value.get(key) {
        Some(v) => v.as_array(),
        None => None,
    }
}

/// The integer that the field `key` of `value` holds, where it fits 64 signed
/// bits.
pub fn get_i64(value: &JsonValue, key: &str) -> (r: Option<i64>)
    ensures
        r is Some <==> i64_field(value@, key@) is Some,
        r is Some ==> i64_field(value@, key@) == Some(r->0 as int),
{
    match value.get(key) {
        Some(v) => v.as_i64(),
        None => None,
    }
}

/// A JSON string.
pub fn text_value(s: &str) -> (r: JsonValue)
    ensures
        r@ == Json::Text(s@),
{
    JsonValue::Text(s.to_owned())
}

/// A JSON array of one element.
pub fn array1(a: JsonValue) -> (r: JsonValue)
    ensures
        r@ == Json::Array(seq![a@]),
{
    broadcast use lemma_array_view;

    let mut items: Vec<JsonValue> = Vec::new();
    items.push(a);
    assert(json_seq(items@) =~= seq![a@]);
    JsonValue::Array(items)
}

/// A JSON object of no field.
pub fn object0() -> (r: JsonValue)
    ensures
        r@ == Json::Object(Seq::empty()),
{
    broadcast use lemma_object_view;

    let fields: Vec<(String, JsonValue)> = Vec::new();
    assert(fields_seq(fields@) =~= Seq::empty());
    JsonValue::Object(fields)
}

/// A JSON object of one field.
pub fn object1(k0: &str, v0: JsonValue) -> (r: JsonValue)
    ensures
        r@ == Json::Object(seq![(k0@, v0@)]),
{
    broadcast use lemma_object_view;

    let mut fields: Vec<(String, JsonValue)> = Vec::new();
    fields.push((k0.to_owned(), v0));
    assert(fields_seq(fields@) =~= seq![(k0@, v0@)]);
    JsonValue::Object(fields)
}

/// A JSON object of two fields.
pub fn object2(k0: &str, v0: JsonValue, k1: &str, v1: JsonValue) -> (r: JsonValue)
    ensures
        r@ == Json::Object(seq![(k0@, v0@), (k1@, v1@)]),
{
    broadcast use lemma_object_view;

    let mut fields: Vec<(String, JsonValue)> = Vec::new();
    fields.push((k0.to_owned(), v0));
    fields.push((k1.to_owned(), v1));
    assert(fields_seq(fields@) =~= seq![(k0@, v0@), (k1@, v1@)]);
    JsonValue::Object(fields)
}

/// A JSON object of three fields.
pub fn object3(
    k0: &str,
    v0: JsonValue,
    k1: &str,
    v1: JsonValue,
    k2: &str,
    v2: JsonValue,
) -> (r: JsonValue)
    ensures
        r@ == Json::Object(seq![(k0@, v0@), (k1@, v1@), (k2@, v2@)]),
{
    broadcast use lemma_object_view;

    let mut fields: Vec<(String, JsonValue)> = Vec::new();
    fields.push((k0.to_owned(), v0));
    fields.push((k1.to_owned(), v1));
    fields.push((k2.to_owned(), v2));
    assert(fields_seq(fields@) =~= seq![(k0@, v0@), (k1@, v1@), (k2@, v2@)]);
    JsonValue::Object(fields)
}

/// A JSON object of four fields.
pub fn object4(
    k0: &str,
    v0: JsonValue,
    k1: &str,
    v1: JsonValue,
    k2: &str,
    v2: JsonValue,
    k3: &str,
    v3: JsonValue,
) -> (r: JsonValue)
    ensures
        r@ == Json::Object(seq![(k0@, v0@), (k1@, v1@), (k2@, v2@), (k3@, v3@)]),
{
    broadcast use lemma_object_view;

    let mut fields: Vec<(String, JsonValue)> = Vec::new();
    fields.push((k0.to_owned(), v0));
    fields.push((k1.to_owned(), v1));
    fields.push((k2.to_owned(), v2));
    fields.push((k3.to_owned(), v3));
    assert(fields_seq(fields@) =~= seq![(k0@, v0@), (k1@, v1@), (k2@, v2@), (k3@, v3@)]);
    JsonValue::Object(fields)
}

/// No fields yet.
pub fn no_fields() -> (r: Vec<(String, JsonValue)>)
    ensures
        fields_seq(r@) == Seq::<(Seq<char>, Json)>::empty(),
{
    let r: Vec<(String, JsonValue)> = Vec::new();
    assert(fields_seq(r@) =~= Seq::empty());
    r
}

/// Adds a field.
pub fn put(fields: &mut Vec<(String, JsonValue)>, key: &str, value: JsonValue)
    ensures
        fields_seq(final(fields)@) == fields_seq(old(fields)@).push((key@, value@)),
{
    fields.push((key.to_owned(), value));
    assert(fields_seq(fields@) =~= fields_seq(old(fields)@).push((key@, value@)));
}

/// A JSON object of the given fields.
pub fn object(fields: Vec<(String, JsonValue)>) -> (r: JsonValue)
    ensures
        r@ == Json::Object(fields_seq(fields@)),
{
    broadcast use lemma_object_view;

    JsonValue::Object(fields)
}

/// A JSON array of the given elements.
pub fn array(items: Vec<JsonValue>) -> (r: JsonValue)
    ensures
        r@ == Json::Array(json_seq(items@)),
{
    broadcast use lemma_array_view;

    JsonValue::Array(items)
}

/// A document that may hold fields by position: an array of at least `least`
/// elements is the object that gives them the first of the names; anything else
/// is itself.
pub open spec fn by_position(j: Json, names: Seq<Seq<char>>, least: nat) -> Json {
    match j {
        Json::Array(items) => if least <= items.len() <= names.len() {
            Json::Object(Seq::new(items.len(), |i: int| (names[i], items[i])))
        } else {
            j
        },
        _ => j,
    }
}

/// Names as mathematical values.
pub open spec fn names_view(names: Seq<&str>) -> Seq<Seq<char>> {
    Seq::new(names.len(), |i: int| names[i]@)
}

/// A document that may hold fields by position, with its fields by name.
pub fn fields_by_position(value: &JsonValue, names: &Vec<&str>, least: usize) -> (r: JsonValue)
    ensures
        r@ == by_position(value@, names_view(names@), least as nat),
{
    broadcast use lemma_array_view;

    match value {
        JsonValue::Array(items) => {
            if items.len() < least || items.len() > names.len() {
                return value.clone();
            }
            let mut fields: Vec<(String, JsonValue)> = no_fields();
            let mut i: usize = 0;
            while i < items.len()
                invariant
                    i <= items@.len() <= names@.len(),
                    fields_seq(fields@) == Seq::new(
                        i as nat,
                        |k: int| (names_view(names@)[k], json_seq(items@)[k]),
                    ),
                decreases items@.len() - i,
            {
                put(&mut fields, names[i], items[i].clone());
                i += 1;
                assert(fields_seq(fields@) =~= Seq::new(
                    i as nat,
                    |k: int| (names_view(names@)[k], json_seq(items@)[k]),
                ));
            }
            assert(fields_seq(fields@) =~= by_position(
                value@,
                names_view(names@),
                least as nat,
            )->Object_0);
            object(fields)
        },
        _ => value.clone(),
    }
}

/// What `serde_json::from_str` reads a text as; nothing where it is not JSON.
pub uninterp spec fn json_parsed(text: Seq<char>) -> Option<Json>;

/// What `serde_json` shows of a text to a reader that buffers it: the same
/// document, with every field of an object in order, also where a name repeats;
/// nothing where the text is not JSON.
pub uninterp spec fn json_shown(text: Seq<char>) -> Option<Json>;

/// The text that `serde_json` prints for a value, without white space.
pub uninterp spec fn json_text(j: Json) -> Seq<char>;

/// The one field name that `serde_json` keeps to itself: an object that starts
/// with it is read as the JSON text that the field holds.
pub const RESERVED_KEY: &'static str = "$serde_json::private::RawValue";

/// The deepest nesting of arrays and objects that `serde_json` reads.
pub const MAX_DEPTH: usize = 127;

/// Whether a document survives being printed and read again: every number is
/// an integer of 64 bits, the names within an object differ from each other
/// and from the reserved one, and arrays and objects nest at most `depth` deep.
pub open spec fn faithful(j: Json, depth: nat) -> bool
    decreases j,
{
    match j {
        Json::Null | Json::Bool(_) | Json::Text(_) => true,
        Json::Int(i) => i64::MIN <= i <= u64::MAX,
        Json::Float(_) => false,
        Json::Array(items) => {
            &&& depth > 0
            &&& forall|i: int|
                0 <= i < items.len() ==> faithful(#[trigger] items[i], (depth - 1) as nat)
        },
        Json::Object(fields) => {
            &&& depth > 0
            &&& forall|i: int|
                0 <= i < fields.len() ==> faithful((#[trigger] fields[i]).1, (depth - 1) as nat)
            &&& forall|i: int|
                0 <= i < fields.len() ==> (#[trigger] fields[i]).0 != RESERVED_KEY@
            &&& distinct_names(fields)
        },
    }
}

/// A document that is faithful stays so where more nesting is allowed.
pub proof fn lemma_faithful_deeper(j: Json, depth: nat, deeper: nat)
    requires
        faithful(j, depth),
        depth <= deeper,
    ensures
        faithful(j, deeper),
    decreases j,
{
    match j {
        Json::Array(items) => {
            assert forall|i: int| 0 <= i < items.len() implies faithful(
                #[trigger] items[i],
                (deeper - 1) as nat,
            ) by {
                lemma_faithful_deeper(items[i], (depth - 1) as nat, (deeper - 1) as nat);
            }
        },
        Json::Object(fields) => {
            assert forall|i: int| 0 <= i < fields.len() implies faithful(
                (#[trigger] fields[i]).1,
                (deeper - 1) as nat,
            ) by {
                lemma_faithful_deeper(fields[i].1, (depth - 1) as nat, (deeper - 1) as nat);
            }
        },
        _ => {},
    }
}

/// Moves a `serde_json::Value` into the library's own type, one variant for
/// one; integers are told apart by `serde_json::Number::as_i128`.
#[verifier::external_body]
fn from_value(value: serde_json::Value) -> (r: JsonValue) {
    match value {
        serde_json::Value::Null => JsonValue::Null,
        serde_json::Value::Bool(b) => JsonValue::Bool(b),
        serde_json::Value::Number(n) => n.as_i128().map_or(JsonValue::Float(n), JsonValue::Int),
        serde_json::Value::String(s) => JsonValue::Text(s),
        serde_json::Value::Array(v) => JsonValue::Array(v.into_iter().map(from_value).collect()),
        serde_json::Value::Object(m) => {
            JsonValue::Object(m.into_iter().map(|(k, v)| (k, from_value(v))).collect())
        },
    }
}

/// Moves a value of the library into a `serde_json::Value`, one variant for
/// one; an integer goes through `serde_json::Number::from_i128`.
#[verifier::external_body]
fn to_value(value: &JsonValue) -> (r: serde_json::Value) {
    match value {
        JsonValue::Null => serde_json::Value::Null,
        JsonValue::Bool(b) => serde_json::Value::Bool(*b),
        JsonValue::Int(i) => serde_json::Number::from_i128(*i).into(),
        JsonValue::Float(n) => serde_json::Value::Number(n.clone()),
        JsonValue::Text(s) => serde_json::Value::String(s.clone()),
        JsonValue::Array(v) => serde_json::Value::Array(v.iter().map(to_value).collect()),
        JsonValue::Object(m) => m.iter().map(|(k, v)| (k.clone(), to_value(v))).collect(),
    }
}

/// Reads JSON text with `serde_json::from_str`; the contract names the result
/// and claims that the call fails exactly where the name gives nothing.
#[verifier::external_body]
fn parse_text(text: &str) -> (r: Result<JsonValue, serde_json::Error>)
    ensures
        r is Ok <==> json_parsed(text@) is Some,
        r is Ok ==> json_parsed(text@) == Some(r->Ok_0@),
{
    serde_json::from_str::<serde_json::Value>(text).map(from_value)
}

/// Moves `serde`'s buffer of a document into the library's own type: a sequence
/// item by item, a map entry by entry, and any other value by way of
/// `serde_json::Value`.
#[verifier::external_body]
fn from_content(content: Content<'_>) -> (r: JsonValue) {
    match content {
        Content::Seq(v) => JsonValue::Array(v.into_iter().map(from_content).collect()),
        Content::Map(m) => {
            let name = |k| content_as_str(&k).unwrap_or_default().to_owned();
            JsonValue::Object(m.into_iter().map(|(k, v)| (name(k), from_content(v))).collect())
        },
        other => {
            let inner = ContentDeserializer::<serde_json::Error>::new(other);
            <serde_json::Value as serde::Deserialize>::deserialize(inner)
                .map_or(JsonValue::Null, from_value)
        },
    }
}

/// Reads JSON text with `serde_json::Deserializer` into the buffer that `serde`
/// fills for the readers that it derives; the contract names the result and
/// claims that the call fails exactly where the name gives nothing.
#[verifier::external_body]
fn show_text(text: &str) -> (r: Result<JsonValue, serde_json::Error>)
    ensures
        r is Ok <==> json_shown(text@) is Some,
        r is Ok ==> json_shown(text@) == Some(r->Ok_0@),
{
    let mut reader = serde_json::Deserializer::from_str(text);
    let content = serde::de::DeserializeSeed::deserialize(ContentVisitor::new(), &mut reader)?;
    reader.end()?;
    Ok(from_content(content))
}

/// Prints a value with the `Display` of `serde_json::Value`.
///
/// The contract names the text, and claims of it what the printer shows: no
/// control character stands in it, an object's text starts with a brace, and
/// from the text of a faithful value both ways of reading give the value back.
/// Of a value that is not faithful, it leaves unsaid what is read back.
#[verifier::external_body]
fn print_value(value: &JsonValue) -> (r: String)
    ensures
        r@ == json_text(value@),
        forall|i: int| 0 <= i < r@.len() ==> (#[trigger] r@[i]) as u32 >= 0x20,
        value@ is Object ==> r@.len() > 0 && r@[0] == '{',
        faithful(value@, MAX_DEPTH as nat) ==> json_parsed(r@) == Some(value@),
        faithful(value@, MAX_DEPTH as nat) ==> json_shown(r@) == Some(value@),
{
    to_value(value).to_string()
}

/// Why a text could not be read as JSON: it is not JSON.
#[derive(Clone, Copy, Debug, PartialEq, Eq, Structural)]
pub struct JsonError;

impl JsonValue {
    /// Reads JSON text.
    pub fn parse(text: &str) -> (r: Result<JsonValue, JsonError>)
        ensures
            r is Ok <==> json_parsed(text@) is Some,
            r is Ok ==> json_parsed(text@) == Some(r->Ok_0@),
    {
        match parse_text(text) {
            Ok(value) => Ok(value),
            Err(_) => Err(JsonError),
        }
    }

    /// Reads JSON text with every field of its objects, also where a name repeats.
    pub fn parse_all(text: &str) -> (r: Result<JsonValue, JsonError>)
        ensures
            r is Ok <==> json_shown(text@) is Some,
            r is Ok ==> json_shown(text@) == Some(r->Ok_0@),
    {
        match show_text(text) {
            Ok(value) => Ok(value),
            Err(_) => Err(JsonError),
        }
    }

    /// Prints the value as JSON text without white space.
    pub fn to_text(&self) -> (r: String)
        ensures
            r@ == json_text(self@),
            forall|i: int| 0 <= i < r@.len() ==> (#[trigger] r@[i]) as u32 >= 0x20,
            self@ is Object ==> r@.len() > 0 && r@[0] == '{',
            faithful(self@, MAX_DEPTH as nat) ==> json_parsed(r@) == Some(self@),
            faithful(self@, MAX_DEPTH as nat) ==> json_shown(r@) == Some(self@),
    {
        print_value(self)
    }
}

/// Copies a number with `serde_json::Number`'s own `clone`; the contract
/// claims that the copy is the number itself.
pub assume_specification[ <serde_json::Number as Clone>::clone ](
    n: &serde_json::Number,
) -> (r: serde_json::Number)
    ensures
        r == *n,
;

impl Clone for JsonValue {
    fn clone(&self) -> (r: JsonValue)
        ensures
            r@ == self@,
        decreases self,
    {
        broadcast use {lemma_array_view, lemma_object_view};

        match self {
            JsonValue::Null => JsonValue::Null,
            JsonValue::Bool(b) => JsonValue::Bool(*b),
            JsonValue::Int(i) => JsonValue::Int(*i),
            JsonValue::Float(n) => JsonValue::Float(n.clone()),
            JsonValue::Text(s) => JsonValue::Text(s.clone()),
            JsonValue::Array(items) => {
                let mut out: Vec<JsonValue> = Vec::new();
                let mut i: usize = 0;
                while i < items.len()
                    invariant
                        i <= items.len(),
                        out@.len() == i,
                        forall|k: int| 0 <= k < i ==> (#[trigger] out@[k])@ == items@[k]@,
                        *self == JsonValue::Array(*items),
                    decreases items.len() - i,
                {
                    proof {
                        assert(decreases_to!(*self => self->Array_0));
                        assert(decreases_to!(*items => items@));
                        assert(decreases_to!(items@ => items@[i as int]));
                    }
                    out.push(items[i].clone());
                    i += 1;
                }
                assert(json_seq(out@) =~= json_seq(items@));
                JsonValue::Array(out)
            },
            JsonValue::Object(fields) => {
                let mut out: Vec<(String, JsonValue)> = Vec::new();
                let mut i: usize = 0;
                while i < fields.len()
                    invariant
                        i <= fields.len(),
                        out@.len() == i,
                        forall|k: int|
                            0 <= k < i ==> (#[trigger] out@[k]).0@ == fields@[k].0@ && out@[k].1@
                                == fields@[k].1@,
                        *self == JsonValue::Object(*fields),
                    decreases fields.len() - i,
                {
                    proof {
                        assert(decreases_to!(*self => self->Object_0));
                        assert(decreases_to!(*fields => fields@));
                        assert(decreases_to!(fields@ => fields@[i as int]));
                        assert(decreases_to!(fields@[i as int] => fields@[i as int].1));
                    }
                    out.push((fields[i].0.clone(), fields[i].1.clone()));
                    i += 1;
                }
                assert(fields_seq(out@) =~= fields_seq(fields@));
                JsonValue::Object(out)
            },
        }
    }
}

} // verus!
