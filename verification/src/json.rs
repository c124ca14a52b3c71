//! The generic JSON value tree that the typed GeoJSON values are rendered to
//! and built from, together with the spec-level model of such trees and key
//! lookup in JSON objects.

use vstd::prelude::*;

verus! {

broadcast use {vstd::seq::group_seq_axioms, vstd::std_specs::vec::group_vec_axioms};

/// A JSON object: an ordered list of key/value entries.  Lookup takes the
/// first entry whose key matches, so earlier entries shadow later duplicates.
pub type JsonObject = Vec<(String, JsonValue)>;

/// A generic JSON value.  Numbers are integers: the GeoJSON fragments modelled
/// here (bounding boxes, coordinate components, identifiers, properties) are
/// carried with integer precision.
#[derive(Debug, PartialEq)]
pub enum JsonValue {
    Null,
    Bool(bool),
    Num(i64),
    Str(String),
    Arr(Vec<JsonValue>),
    Obj(JsonObject),
}

/// The spec-level model of a JSON value tree.
#[verifier::ext_equal]
pub enum JsonModel {
    Null,
    Bool(bool),
    Num(i64),
    Str(Seq<char>),
    Arr(Seq<JsonModel>),
    Obj(Seq<(Seq<char>, JsonModel)>),
}

impl DeepView for JsonValue {
    type V = JsonModel;

    open spec fn deep_view(&self) -> JsonModel
        decreases self,
    {
        match self {
            JsonValue::Null => JsonModel::Null,
            JsonValue::Bool(b) => JsonModel::Bool(*b),
            JsonValue::Num(n) => JsonModel::Num(*n),
            JsonValue::Str(s) => JsonModel::Str(s@),
            JsonValue::Arr(items) => JsonModel::Arr(array_model(items@)),
            JsonValue::Obj(entries) => JsonModel::Obj(object_model(entries@)),
        }
    }
}

/// The models of the elements of a JSON array.
pub open spec fn array_model(items: Seq<JsonValue>) -> Seq<JsonModel>
    decreases items,
{
    Seq::new(
        items.len(),
        |i: int|
            if 0 <= i < items.len() {
                items[i].deep_view()
            } else {
                JsonModel::Null
            },
    )
}

/// The models of the entries of a JSON object.
pub open spec fn object_model(entries: Seq<(String, JsonValue)>) -> Seq<(Seq<char>, JsonModel)>
    decreases entries,
{
    Seq::new(
        entries.len(),
        |i: int|
            if 0 <= i < entries.len() {
                (entries[i].0@, entries[i].1.deep_view())
            } else {
                (Seq::empty(), JsonModel::Null)
            },
    )
}

/// The model of a JSON array is as long as the array, and holds the model of
/// each element.
pub broadcast proof fn lemma_array_model(items: Seq<JsonValue>)
    ensures
        (#[trigger] array_model(items)).len() == items.len(),
        forall|i: int| 0 <= i < items.len() ==> array_model(items)[i] == items[i].deep_view(),
{
}

/// The model of a JSON object is as long as the object, and holds the key
/// characters and value model of each entry.
pub broadcast proof fn lemma_object_model(entries: Seq<(String, JsonValue)>)
    ensures
        (#[trigger] object_model(entries)).len() == entries.len(),
        forall|i: int|
            0 <= i < entries.len() ==> object_model(entries)[i] == (
            entries[i].0@,
            entries[i].1.deep_view(),
            ),
{
}

/// Index of the first entry bound to `key` at position `from` or later, or
/// `-1` when no entry from there on has that key.
pub open spec fn lookup_index_from(
    entries: Seq<(Seq<char>, JsonModel)>,
    key: Seq<char>,
    from: int,
) -> int
    decreases entries.len() - from,
{
    if from < 0 || from >= entries.len() {
        -1
    } else if entries[from].0 == key {
        from
    } else {
        lookup_index_from(entries, key, from + 1)
    }
}

/// Index of the first entry bound to `key`, or `-1` when the key is absent.
pub open spec fn lookup_index(entries: Seq<(Seq<char>, JsonModel)>, key: Seq<char>) -> int {
    lookup_index_from(entries, key, 0)
}

/// The value bound to `key`: the value of the first entry whose key matches,
/// or `None` when the key is absent.
pub open spec fn lookup(entries: Seq<(Seq<char>, JsonModel)>, key: Seq<char>) -> Option<
    JsonModel,
> {
    if lookup_index(entries, key) >= 0 {
        Some(entries[lookup_index(entries, key)].1)
    } else {
        None
    }
}

/// The result of `lookup_index_from` is either `-1` or the index of a
/// matching entry, and no entry between `from` and that index matches.
pub proof fn lemma_lookup_index_from(
    entries: Seq<(Seq<char>, JsonModel)>,
    key: Seq<char>,
    from: int,
)
    requires
        0 <= from <= entries.len(),
    ensures
        ({
            let j = lookup_index_from(entries, key, from);
            &&& j == -1 || (from <= j < entries.len() && entries[j].0 == key)
            &&& forall|k: int| from <= k < entries.len() && entries[k].0 == key ==> j != -1 && j <= k
        }),
    decreases entries.len() - from,
{
    if from < entries.len() && entries[from].0 != key {
        lemma_lookup_index_from(entries, key, from + 1);
    }
}

/// Position of the first entry bound to `key` in a JSON object, if any.
pub fn get_entry_index(object: &JsonObject, key: &str) -> (r: Option<usize>)
    ensures
        match r {
            Some(k) => k < object@.len() && object@[k as int].0@ == key@ && lookup_index(
                object_model(object@),
                key@,
            ) == k as int,
            None => lookup_index(object_model(object@), key@) == -1,
        },
{
    let ghost entries = object_model(object@);
    let mut i: usize = 0;
    while i < object.len()
        invariant
            0 <= i <= object.len(),
            entries == object_model(object@),
            entries.len() == object.len(),
            lookup_index_from(entries, key@, 0) == lookup_index_from(entries, key@, i as int),
        decreases object.len() - i,
    {
        if strings_match(&object[i].0, key) {
            assert(lookup_index_from(entries, key@, i as int) == i);
            return Some(i);
        }
        assert(lookup_index_from(entries, key@, i as int) == lookup_index_from(
            entries,
            key@,
            i + 1,
        ));
        i += 1;
    }
    None
}

/// Whether a string holds the same characters as a string slice.
pub fn strings_match(a: &String, b: &str) -> (r: bool)
    ensures
        r == (a@ == b@),
{
    let bs = String::from_str(b);
    *a == bs
}

/// Looks `key` up in a JSON object, returning the value of the first entry
/// whose key matches, if any.
pub fn get_field<'a>(object: &'a JsonObject, key: &str) -> (r: Option<&'a JsonValue>)
    ensures
        match r {
            Some(v) => lookup(object_model(object@), key@) == Some(v.deep_view()),
            None => lookup(object_model(object@), key@) is None,
        },
{
    match get_entry_index(object, key) {
        Some(k) => Some(&object[k].1),
        None => None,
    }
}

/// Builds a fresh JSON value holding the same tree as the given one.
#[verifier::loop_isolation(false)]
pub fn duplicate(v: &JsonValue) -> (r: JsonValue)
    ensures
        r.deep_view() == v.deep_view(),
    decreases v,
{
    match v {
        JsonValue::Null => JsonValue::Null,
        JsonValue::Bool(b) => JsonValue::Bool(*b),
        JsonValue::Num(n) => JsonValue::Num(*n),
        JsonValue::Str(s) => JsonValue::Str(s.clone()),
        JsonValue::Arr(items) => {
            let mut out: Vec<JsonValue> = Vec::new();
            let mut i: usize = 0;
            while i < items.len()
                invariant
                    0 <= i <= items.len(),
                    out@.len() == i,
                    forall|j: int|
                        0 <= j < i ==> (#[trigger] out@[j]).deep_view() == array_model(
                            items@,
                        )[j],
                decreases items.len() - i,
            {
                let item = &items[i];
                proof {
                    assert(decreases_to!(*v => v->Arr_0[i as int]));
                }
                out.push(duplicate(item));
                i += 1;
            }
            let r = JsonValue::Arr(out);
            proof {
                assert(array_model(out@) =~= array_model(items@));
            }
            r
        },
        JsonValue::Obj(entries) => {
            let mut out: JsonObject = Vec::new();
            let mut i: usize = 0;
            while i < entries.len()
                invariant
                    0 <= i <= entries.len(),
                    out@.len() == i,
                    forall|j: int|
                        0 <= j < i ==> (#[trigger] out@[j]).0@ == object_model(entries@)[j].0
                            && out@[j].1.deep_view() == object_model(entries@)[j].1,
                decreases entries.len() - i,
            {
                let entry = &entries[i];
                proof {
                    assert(decreases_to!(*v => v->Obj_0[i as int].1));
                }
                let value = duplicate(&entry.1);
                out.push((entry.0.clone(), value));
                i += 1;
            }
            let r = JsonValue::Obj(out);
            proof {
                assert(object_model(out@) =~= object_model(entries@));
            }
            r
        },
    }
}

/// Builds a fresh JSON object holding the same entries as the given one.
pub fn duplicate_object(object: &JsonObject) -> (r: JsonObject)
    ensures
        object_model(r@) == object_model(object@),
{
    let mut out: JsonObject = Vec::new();
    let mut i: usize = 0;
    while i < object.len()
        invariant
            0 <= i <= object.len(),
            out@.len() == i,
            forall|j: int|
                0 <= j < i ==> (#[trigger] out@[j]).0@ == object_model(object@)[j].0
                    && out@[j].1.deep_view() == object_model(object@)[j].1,
        decreases object.len() - i,
    {
        let entry = &object[i];
        let value = duplicate(&entry.1);
        out.push((entry.0.clone(), value));
        i += 1;
    }
    proof {
        assert(object_model(out@) =~= object_model(object@));
    }
    out
}

} // verus!
