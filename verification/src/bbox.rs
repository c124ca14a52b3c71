//! Bounding boxes: a flat ordered sequence of numeric bounds, one min/max
//! pair per axis, and their conversion to and from generic JSON arrays.

use vstd::prelude::*;

use crate::errors::Error;
use crate::json::{array_model, lemma_array_model, JsonModel, JsonValue};

verus! {

broadcast use lemma_array_model;

/// A bounding box: the flat sequence of bounds, two (min and max) per axis.
pub type Bbox = Vec<i64>;

/// A well-formed bounding box holds an even number of bounds covering at
/// least two axes.
pub open spec fn bbox_valid(b: Seq<i64>) -> bool {
    b.len() >= 4 && b.len() % 2 == 0
}

/// The JSON rendering of a bounding box: the array of its bounds.
pub open spec fn render_bbox(b: Seq<i64>) -> JsonModel {
    JsonModel::Arr(b.map_values(|x: i64| JsonModel::Num(x)))
}

/// Whether every element of a JSON array is a number.
pub open spec fn all_numbers(items: Seq<JsonModel>) -> bool {
    forall|i: int| 0 <= i < items.len() ==> items[i] is Num
}

/// The numbers held by a JSON array of numbers.
pub open spec fn numbers_of(items: Seq<JsonModel>) -> Seq<i64> {
    items.map_values(|m: JsonModel| m->Num_0)
}

/// What building a bounding box out of a JSON value yields: the bounds when
/// the value is an array of numbers of valid bounding-box shape, and a
/// `BboxExtraction` failure otherwise.
pub open spec fn parse_bbox(v: JsonModel) -> Result<Seq<i64>, Error> {
    match v {
        JsonModel::Arr(items) => if all_numbers(items) && bbox_valid(numbers_of(items)) {
            Ok(numbers_of(items))
        } else {
            Err(Error::BboxExtraction)
        },
        _ => Err(Error::BboxExtraction),
    }
}

/// Builds a bounding box out of a generic JSON value.
pub fn extract_bbox(v: &JsonValue) -> (r: Result<Bbox, Error>)
    ensures
        match r {
            Ok(b) => parse_bbox(v.deep_view()) == Ok::<Seq<i64>, Error>(b.deep_view()),
            Err(e) => parse_bbox(v.deep_view()) == Err::<Seq<i64>, Error>(e),
        },
{
    match v {
        JsonValue::Arr(items) => {
            let ghost model_items = array_model(items@);
            let mut out: Vec<i64> = Vec::new();
            let mut i: usize = 0;
            while i < items.len()
                invariant
                    0 <= i <= items.len(),
                    v.deep_view() == JsonModel::Arr(model_items),
                    model_items == array_model(items@),
                    out@.len() == i,
                    forall|j: int|
                        0 <= j < i ==> ((#[trigger] model_items[j]) is Num && model_items[j]->Num_0
                            == out@[j]),
                decreases items.len() - i,
            {
                let item = &items[i];
                match item {
                    JsonValue::Num(n) => {
                        proof {
                            assert(model_items[i as int] == items@[i as int].deep_view());
                        }
                        out.push(*n);
                    },
                    _ => {
                        assert(model_items[i as int] !is Num);
                        assert(!all_numbers(model_items));
                        return Err(Error::BboxExtraction);
                    },
                }
                i += 1;
            }
            if out.len() >= 4 && out.len() % 2 == 0 {
                proof {
                    assert(all_numbers(model_items));
                    assert(out.deep_view() =~= out@);
                    assert forall|j: int|
                        0 <= j < model_items.len() implies numbers_of(model_items)[j]
                        == out@[j] by {}
                    assert(numbers_of(model_items).len() == out@.len());
                    assert(numbers_of(model_items) =~= out@);
                }
                Ok(out)
            } else {
                proof {
                    assert(numbers_of(model_items).len() == out@.len());
                }
                Err(Error::BboxExtraction)
            }
        },
        _ => Err(Error::BboxExtraction),
    }
}

/// Renders a bounding box as a generic JSON array of its bounds.
pub fn bbox_to_json(b: &Bbox) -> (r: JsonValue)
    ensures
        r.deep_view() == render_bbox(b.deep_view()),
{
    let mut items: Vec<JsonValue> = Vec::new();
    let mut i: usize = 0;
    while i < b.len()
        invariant
            0 <= i <= b.len(),
            items@.len() == i,
            forall|j: int| 0 <= j < i ==> items@[j] == JsonValue::Num(b@[j]),
        decreases b.len() - i,
    {
        items.push(JsonValue::Num(b[i]));
        i += 1;
    }
    let r = JsonValue::Arr(items);
    proof {
        assert(array_model(items@) =~= b.deep_view().map_values(|x: i64| JsonModel::Num(x)));
    }
    r
}

/// Parsing a rendered bounding box gives the original bounds back.
pub proof fn lemma_bbox_round_trip(b: Seq<i64>)
    requires
        bbox_valid(b),
    ensures
        parse_bbox(render_bbox(b)) == Ok::<Seq<i64>, Error>(b),
{
    let items = b.map_values(|x: i64| JsonModel::Num(x));
    assert(all_numbers(items));
    assert(numbers_of(items) =~= b);
}

} // verus!
