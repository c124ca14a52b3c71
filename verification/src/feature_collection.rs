//! Feature collections: an ordered sequence of features with an optional
//! bounding box and an optional coordinate reference system descriptor, and
//! their conversion to and from generic JSON objects.
//!
//! Rendering emits the members in a fixed order — `type`, `features`, then
//! `crs` and `bbox` when present — and omits absent optional members
//! entirely.  Building a collection back out of an object is all-or-nothing:
//! the first failure is reported and no partial value is returned.

use vstd::prelude::*;

use crate::bbox::{bbox_to_json, bbox_valid, lemma_bbox_round_trip, render_bbox, Bbox};
use crate::crs::{lemma_crs_round_trip, render_crs, Crs, CrsModel};
use crate::errors::Error;
use crate::feature::{
    features_model, lemma_feature_list_round_trip, lemma_features_model, lemma_render_features,
    render_feature, render_features, Feature, FeatureModel,
};
use crate::json::{
    array_model, lemma_array_model, lemma_object_model, object_model, JsonModel, JsonObject,
    JsonValue,
};
use crate::util::{
    get_bbox, get_bbox_model, get_crs, get_crs_model, get_features, get_features_model,
};

verus! {

broadcast use {lemma_array_model, lemma_object_model, lemma_features_model};

/// An ordered collection of features, with an optional bounding box and an
/// optional coordinate reference system descriptor.
#[derive(Debug, PartialEq)]
pub struct FeatureCollection {
    pub bbox: Option<Bbox>,
    pub crs: Option<Crs>,
    pub features: Vec<Feature>,
}

/// The spec-level model of a feature collection.
#[verifier::ext_equal]
pub struct FeatureCollectionModel {
    pub bbox: Option<Seq<i64>>,
    pub crs: Option<CrsModel>,
    pub features: Seq<FeatureModel>,
}

impl DeepView for FeatureCollection {
    type V = FeatureCollectionModel;

    open spec fn deep_view(&self) -> FeatureCollectionModel {
        FeatureCollectionModel {
            bbox: self.bbox.deep_view(),
            crs: self.crs.deep_view(),
            features: features_model(self.features@),
        }
    }
}

/// A well-formed feature collection: the bounding box, when present, holds
/// an even number of at least four bounds.  The feature sequence may be
/// empty.
pub open spec fn feature_collection_valid(m: FeatureCollectionModel) -> bool {
    match m.bbox {
        Some(b) => bbox_valid(b),
        None => true,
    }
}

/// The entries of a rendered feature collection, in emission order: the
/// `"type"` discriminator, the rendered features, then `"crs"` and `"bbox"`
/// exactly when present.
pub open spec fn feature_collection_entries(m: FeatureCollectionModel) -> Seq<
    (Seq<char>, JsonModel),
> {
    let base = seq![
        ("type"@, JsonModel::Str("FeatureCollection"@)),
        ("features"@, JsonModel::Arr(render_features(m.features))),
    ];
    let with_crs = match m.crs {
        Some(c) => base.push(("crs"@, render_crs(c))),
        None => base,
    };
    match m.bbox {
        Some(b) => with_crs.push(("bbox"@, render_bbox(b))),
        None => with_crs,
    }
}

/// The JSON rendering of a feature collection.
pub open spec fn render_feature_collection(m: FeatureCollectionModel) -> JsonModel {
    JsonModel::Obj(feature_collection_entries(m))
}

/// What building a feature collection out of the members of a JSON object
/// yields: the bounding box is extracted first, then the required feature
/// list, then the descriptor; the first failure is the result.
pub open spec fn parse_feature_collection(obj: Seq<(Seq<char>, JsonModel)>) -> Result<
    FeatureCollectionModel,
    Error,
> {
    match get_bbox_model(obj) {
        Err(e) => Err(e),
        Ok(bbox) => match get_features_model(obj) {
            Err(e) => Err(e),
            Ok(features) => match get_crs_model(obj) {
                Err(e) => Err(e),
                Ok(crs) => Ok(FeatureCollectionModel { bbox, crs, features }),
            },
        },
    }
}

impl FeatureCollection {
    /// Builds a feature collection out of the members of a JSON object.
    pub fn from_object(object: &JsonObject) -> (r: Result<FeatureCollection, Error>)
        ensures
            match r {
                Ok(fc) => parse_feature_collection(object_model(object@)) == Ok::<
                    FeatureCollectionModel,
                    Error,
                >(fc.deep_view()),
                Err(e) => parse_feature_collection(object_model(object@)) == Err::<
                    FeatureCollectionModel,
                    Error,
                >(e),
            },
    {
        let bbox = match get_bbox(object) {
            Ok(b) => b,
            Err(e) => {
                return Err(e);
            },
        };
        let features = match get_features(object) {
            Ok(fs) => fs,
            Err(e) => {
                return Err(e);
            },
        };
        let crs = match get_crs(object) {
            Ok(c) => c,
            Err(e) => {
                return Err(e);
            },
        };
        Ok(FeatureCollection { bbox, crs, features })
    }

    /// Renders this collection as the entries of a generic JSON object, in
    /// emission order.
    #[verifier::loop_isolation(false)]
    pub fn to_object(&self) -> (r: JsonObject)
        ensures
            object_model(r@) == feature_collection_entries(self.deep_view()),
    {
        let ghost fm = features_model(self.features@);
        let mut entries: JsonObject = Vec::new();
        entries.push(
            (String::from_str("type"), JsonValue::Str(String::from_str("FeatureCollection"))),
        );
        let mut rendered: Vec<JsonValue> = Vec::new();
        let mut i: usize = 0;
        while i < self.features.len()
            invariant
                0 <= i <= self.features.len(),
                rendered@.len() == i,
                forall|j: int|
                    0 <= j < i ==> (#[trigger] rendered@[j]).deep_view() == render_feature(fm[j]),
            decreases self.features.len() - i,
        {
            let f = &self.features[i];
            rendered.push(f.to_json());
            i += 1;
        }
        proof {
            broadcast use lemma_render_features;

            assert(array_model(rendered@) =~= render_features(fm));
        }
        entries.push((String::from_str("features"), JsonValue::Arr(rendered)));
        match &self.crs {
            Some(c) => entries.push((String::from_str("crs"), c.to_json())),
            None => (),
        }
        match &self.bbox {
            Some(b) => entries.push((String::from_str("bbox"), bbox_to_json(b))),
            None => (),
        }
        proof {
            assert(object_model(entries@) =~~= feature_collection_entries(self.deep_view()));
        }
        entries
    }

    /// Renders this collection as a generic JSON value: an object holding
    /// the entries of [`FeatureCollection::to_object`].
    pub fn to_json(&self) -> (r: JsonValue)
        ensures
            r.deep_view() == render_feature_collection(self.deep_view()),
    {
        JsonValue::Obj(self.to_object())
    }
}

/// Builds a feature collection out of a generic JSON object.
pub fn from_json_object(object: &JsonObject) -> (r: Result<FeatureCollection, Error>)
    ensures
        match r {
            Ok(fc) => parse_feature_collection(object_model(object@)) == Ok::<
                FeatureCollectionModel,
                Error,
            >(fc.deep_view()),
            Err(e) => parse_feature_collection(object_model(object@)) == Err::<
                FeatureCollectionModel,
                Error,
            >(e),
        },
{
    FeatureCollection::from_object(object)
}

/// Renders a feature collection as a generic JSON value.
pub fn to_generic_json(fc: &FeatureCollection) -> (r: JsonValue)
    ensures
        r.deep_view() == render_feature_collection(fc.deep_view()),
{
    fc.to_json()
}

/// Rendering is deterministic: the rendered JSON tree is a function of the
/// collection alone, so rendering the same collection twice gives identical
/// trees.
pub proof fn lemma_rendering_deterministic(a: FeatureCollectionModel, b: FeatureCollectionModel)
    requires
        a == b,
    ensures
        render_feature_collection(a) == render_feature_collection(b),
{
}

/// The member keys of the feature collection encoding are pairwise
/// distinguishable.
pub proof fn lemma_feature_collection_literals()
    ensures
        "type"@.len() == 4,
        "features"@.len() == 8,
        "crs"@.len() == 3,
        "bbox"@.len() == 4,
        "FeatureCollection"@.len() == 17,
        "type"@[0] == 't',
        "bbox"@[0] == 'b',
{
    reveal_strlit("type");
    reveal_strlit("features");
    reveal_strlit("crs");
    reveal_strlit("bbox");
    reveal_strlit("FeatureCollection");
}

/// Parsing a rendered feature collection gives the original collection
/// back: the round trip holds for every well-formed collection.
pub proof fn lemma_feature_collection_round_trip(m: FeatureCollectionModel)
    requires
        feature_collection_valid(m),
    ensures
        parse_feature_collection(feature_collection_entries(m)) == Ok::<
            FeatureCollectionModel,
            Error,
        >(m),
{
    lemma_feature_collection_literals();
    reveal_with_fuel(crate::json::lookup_index_from, 6);
    let entries = feature_collection_entries(m);
    assert("type"@ != "bbox"@);
    match m.bbox {
        Some(b) => {
            lemma_bbox_round_trip(b);
            assert(crate::json::lookup_index_from(entries, "bbox"@, 0) == entries.len() - 1);
        },
        None => {
            assert(crate::json::lookup_index_from(entries, "bbox"@, 0) == -1);
        },
    }
    assert(crate::json::lookup_index_from(entries, "features"@, 0) == 1);
    lemma_feature_list_round_trip(m.features);
    match m.crs {
        Some(c) => {
            lemma_crs_round_trip(c);
            assert(crate::json::lookup_index_from(entries, "crs"@, 0) == 2);
        },
        None => {
            assert(crate::json::lookup_index_from(entries, "crs"@, 0) == -1);
        },
    }
    assert(parse_feature_collection(entries) =~~= Ok::<FeatureCollectionModel, Error>(m));
}

} // verus!
