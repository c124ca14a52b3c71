//! The shared field extractors: small pure functions that pull the
//! well-known members (`"bbox"`, `"features"`, `"crs"`) out of a generic
//! JSON object with uniform error handling.

use vstd::prelude::*;

use crate::bbox::{extract_bbox, parse_bbox, Bbox};
use crate::crs::{parse_crs, Crs, CrsModel};
use crate::errors::Error;
use crate::feature::{
    features_model, lemma_features_model, lemma_parse_feature_list_err,
    lemma_parse_feature_list_ok, parse_feature, parse_feature_list, Feature, FeatureModel,
};
use crate::json::{
    array_model, get_field, lemma_array_model, lemma_object_model, lookup, object_model,
    JsonModel, JsonObject, JsonValue,
};

verus! {

broadcast use {lemma_array_model, lemma_object_model, lemma_features_model};

/// What extracting the optional `"bbox"` member yields: nothing when the key
/// is absent, the bounds when it holds a well-formed bounding box, and a
/// `BboxExtraction` failure otherwise.
pub open spec fn get_bbox_model(obj: Seq<(Seq<char>, JsonModel)>) -> Result<
    Option<Seq<i64>>,
    Error,
> {
    match lookup(obj, "bbox"@) {
        None => Ok(None),
        Some(v) => match parse_bbox(v) {
            Ok(b) => Ok(Some(b)),
            Err(e) => Err(e),
        },
    }
}

/// What extracting the required `"features"` member yields: the key must be
/// present (else `ExpectedProperty`) and an array (else `ExpectedType`),
/// whose every element must parse as a feature.
pub open spec fn get_features_model(obj: Seq<(Seq<char>, JsonModel)>) -> Result<
    Seq<FeatureModel>,
    Error,
> {
    match lookup(obj, "features"@) {
        None => Err(Error::ExpectedProperty),
        Some(JsonModel::Arr(items)) => parse_feature_list(items),
        Some(_) => Err(Error::ExpectedType),
    }
}

/// What extracting the optional `"crs"` member yields: nothing when the key
/// is absent, else whatever the descriptor parser yields.
pub open spec fn get_crs_model(obj: Seq<(Seq<char>, JsonModel)>) -> Result<
    Option<CrsModel>,
    Error,
> {
    match lookup(obj, "crs"@) {
        None => Ok(None),
        Some(v) => match parse_crs(v) {
            Ok(c) => Ok(Some(c)),
            Err(e) => Err(e),
        },
    }
}

/// Extracts the optional bounding box of a JSON object.
pub fn get_bbox(object: &JsonObject) -> (r: Result<Option<Bbox>, Error>)
    ensures
        match r {
            Ok(b) => get_bbox_model(object_model(object@)) == Ok::<Option<Seq<i64>>, Error>(
                b.deep_view(),
            ),
            Err(e) => get_bbox_model(object_model(object@)) == Err::<Option<Seq<i64>>, Error>(e),
        },
{
    match get_field(object, "bbox") {
        None => Ok(None),
        Some(v) => match extract_bbox(v) {
            Ok(b) => Ok(Some(b)),
            Err(e) => Err(e),
        },
    }
}

/// Extracts the required feature list of a JSON object.
#[verifier::loop_isolation(false)]
pub fn get_features(object: &JsonObject) -> (r: Result<Vec<Feature>, Error>)
    ensures
        match r {
            Ok(fs) => get_features_model(object_model(object@)) == Ok::<Seq<FeatureModel>, Error>(
                features_model(fs@),
            ),
            Err(e) => get_features_model(object_model(object@)) == Err::<Seq<FeatureModel>, Error>(
                e,
            ),
        },
{
    match get_field(object, "features") {
        None => Err(Error::ExpectedProperty),
        Some(fv) => match fv {
            JsonValue::Arr(items) => {
                let ghost im = array_model(items@);
                let mut out: Vec<Feature> = Vec::new();
                let mut i: usize = 0;
                while i < items.len()
                    invariant
                        0 <= i <= items.len(),
                        im == array_model(items@),
                        im.len() == items@.len(),
                        out@.len() == i,
                        forall|j: int|
                            0 <= j < i ==> parse_feature(#[trigger] im[j]) == Ok::<
                                FeatureModel,
                                Error,
                            >(out@[j].deep_view()),
                    decreases items.len() - i,
                {
                    let item = &items[i];
                    match Feature::from_json(item) {
                        Ok(f) => out.push(f),
                        Err(e) => {
                            proof {
                                lemma_parse_feature_list_err(im, i as int, e);
                            }
                            return Err(e);
                        },
                    }
                    i += 1;
                }
                proof {
                    lemma_parse_feature_list_ok(im, features_model(out@));
                }
                Ok(out)
            },
            _ => Err(Error::ExpectedType),
        },
    }
}

/// Extracts the optional coordinate reference system descriptor of a JSON
/// object.
pub fn get_crs(object: &JsonObject) -> (r: Result<Option<Crs>, Error>)
    ensures
        match r {
            Ok(c) => get_crs_model(object_model(object@)) == Ok::<Option<CrsModel>, Error>(
                c.deep_view(),
            ),
            Err(e) => get_crs_model(object_model(object@)) == Err::<Option<CrsModel>, Error>(e),
        },
{
    match get_field(object, "crs") {
        None => Ok(None),
        Some(v) => match Crs::from_json(v) {
            Ok(c) => Ok(Some(c)),
            Err(e) => Err(e),
        },
    }
}

} // verus!
