//! What is read out of a value, said of the value.

use crate::json::{
    by_position, field, i64_field, json_bool, json_i64, json_items, json_str, lemma_field_absent,
    str_field, Json,
};
use vstd::prelude::*;

verus! {

/// A value is read as what it is, and as nothing else.
pub proof fn law_values_are_read_as_they_are(
    text: Seq<char>,
    number: int,
    truth: bool,
    items: Seq<Json>,
)
    ensures
        json_str(Json::Text(text)) == Some(text),
        json_str(Json::Int(number)) is None,
        json_str(Json::Bool(truth)) is None,
        json_str(Json::Null) is None,
        json_str(Json::Array(items)) is None,
        i64::MIN <= number <= i64::MAX ==> json_i64(Json::Int(number)) == Some(number),
        number < i64::MIN || number > i64::MAX ==> json_i64(Json::Int(number)) is None,
        json_i64(Json::Text(text)) is None,
        json_i64(Json::Bool(truth)) is None,
        json_bool(Json::Bool(truth)) == Some(truth),
        json_bool(Json::Int(number)) is None,
        json_bool(Json::Text(text)) is None,
        json_items(Json::Array(items)) == Some(items),
        json_items(Json::Text(text)) is None,
{
}

/// A field is found under its name, where no field before it bears that name; a
/// name that no field bears finds nothing.
pub proof fn law_field_is_found_by_name(
    fields: Seq<(Seq<char>, Json)>,
    k: int,
    key: Seq<char>,
)
    requires
        0 <= k < fields.len(),
        forall|i: int| 0 <= i < k ==> fields[i].0 != fields[k].0,
        forall|i: int| 0 <= i < fields.len() ==> (#[trigger] fields[i]).0 != key,
    ensures
        field(Json::Object(fields), fields[k].0) == Some(fields[k].1),
        field(Json::Object(fields), key) is None,
        fields[k].1 matches Json::Text(s) ==> str_field(Json::Object(fields), fields[k].0) == Some(
            s,
        ),
        fields[k].1 matches Json::Int(n) ==> i64::MIN <= n <= i64::MAX ==> i64_field(
            Json::Object(fields),
            fields[k].0,
        ) == Some(n),
{
    lemma_field_first(fields, k, 0);
    lemma_field_absent(fields, key);
}

proof fn lemma_field_first(fields: Seq<(Seq<char>, Json)>, k: int, from: int)
    requires
        0 <= from <= k < fields.len(),
        forall|i: int| 0 <= i < k ==> fields[i].0 != fields[k].0,
    ensures
        crate::json::field_from(fields, fields[k].0, from) == Some(fields[k].1),
    decreases k - from,
{
    if from < k {
        lemma_field_first(fields, k, from + 1);
    }
}

/// A record that was written as a list has the items in turn as its fields, where
/// the list is neither too short nor too long.
pub proof fn law_lists_are_read_by_position(
    items: Seq<Json>,
    names: Seq<Seq<char>>,
    least: nat,
    k: int,
)
    requires
        least <= items.len() <= names.len(),
        names.no_duplicates(),
        0 <= k < names.len(),
    ensures
        by_position(Json::Array(items), names, least) is Object,
        k < items.len() ==> field(by_position(Json::Array(items), names, least), names[k]) == Some(
            items[k],
        ),
        k >= items.len() ==> field(by_position(Json::Array(items), names, least), names[k])
            is None,
{
    let fields = Seq::new(items.len(), |i: int| (names[i], items[i]));
    if k < items.len() {
        assert forall|i: int| 0 <= i < k implies fields[i].0 != fields[k].0 by {
            assert(names[i] != names[k]);
        }
        lemma_field_first(fields, k, 0);
    } else {
        assert forall|i: int| 0 <= i < fields.len() implies (#[trigger] fields[i]).0
            != names[k] by {
            assert(names[i] != names[k]);
        }
        lemma_field_absent(fields, names[k]);
    }
}

/// A list of another length is left as it is, and so is what is no list.
pub proof fn law_other_values_are_left(j: Json, names: Seq<Seq<char>>, least: nat)
    requires
        j matches Json::Array(items) ==> items.len() < least || items.len() > names.len(),
    ensures
        by_position(j, names, least) == j,
{
}

} // verus!
