//! Features: a single geographic entity with an optional identifier, an
//! optional geometry and a free-form property mapping, and their conversion
//! to and from generic JSON objects.

use vstd::prelude::*;

use crate::errors::Error;
use crate::geometry::{
    lemma_geometry_round_trip, parse_geometry, render_geometry, GeomModel, Geometry,
};
use crate::json::{
    duplicate, duplicate_object, get_field, lemma_array_model, lemma_object_model, lookup,
    object_model, JsonModel, JsonObject, JsonValue,
};

verus! {

broadcast use {lemma_array_model, lemma_object_model};

/// A single geographic entity: an optional identifier, an optional geometry
/// and a free-form property mapping.
#[derive(Debug, PartialEq)]
pub struct Feature {
    pub id: Option<JsonValue>,
    pub geometry: Option<Geometry>,
    pub properties: JsonObject,
}

/// The spec-level model of a feature.
#[verifier::ext_equal]
pub struct FeatureModel {
    pub id: Option<JsonModel>,
    pub geometry: Option<GeomModel>,
    pub properties: Seq<(Seq<char>, JsonModel)>,
}

impl DeepView for Feature {
    type V = FeatureModel;

    open spec fn deep_view(&self) -> FeatureModel {
        FeatureModel {
            id: self.id.deep_view(),
            geometry: self.geometry.deep_view(),
            properties: object_model(self.properties@),
        }
    }
}

/// The entries of a rendered feature: the `"type"` discriminator, the
/// geometry (`null` when absent), the property mapping, and the identifier
/// exactly when one is present.
pub open spec fn feature_entries(f: FeatureModel) -> Seq<(Seq<char>, JsonModel)> {
    let base = seq![
        ("type"@, JsonModel::Str("Feature"@)),
        (
            "geometry"@,
            match f.geometry {
                Some(g) => render_geometry(g),
                None => JsonModel::Null,
            },
        ),
        ("properties"@, JsonModel::Obj(f.properties)),
    ];
    match f.id {
        Some(idv) => base.push(("id"@, idv)),
        None => base,
    }
}

/// The JSON rendering of a feature.
pub open spec fn render_feature(f: FeatureModel) -> JsonModel {
    JsonModel::Obj(feature_entries(f))
}

/// What building the geometry member of a feature yields: no geometry when
/// the member is absent or `null`, else whatever the geometry parser yields.
pub open spec fn parse_feature_geometry(entries: Seq<(Seq<char>, JsonModel)>) -> Result<
    Option<GeomModel>,
    Error,
> {
    match lookup(entries, "geometry"@) {
        None => Ok(None),
        Some(JsonModel::Null) => Ok(None),
        Some(gv) => match parse_geometry(gv) {
            Ok(g) => Ok(Some(g)),
            Err(e) => Err(e),
        },
    }
}

/// What building the property mapping of a feature yields: the mapping must
/// be present (else `ExpectedProperty`) and an object (else `ExpectedType`).
pub open spec fn parse_feature_properties(entries: Seq<(Seq<char>, JsonModel)>) -> Result<
    Seq<(Seq<char>, JsonModel)>,
    Error,
> {
    match lookup(entries, "properties"@) {
        None => Err(Error::ExpectedProperty),
        Some(JsonModel::Obj(props)) => Ok(props),
        Some(_) => Err(Error::ExpectedType),
    }
}

/// What building a feature out of the members of a JSON object yields: the
/// geometry member is examined first, then the property mapping; the
/// identifier is carried over as it stands when present.
pub open spec fn parse_feature_obj(entries: Seq<(Seq<char>, JsonModel)>) -> Result<
    FeatureModel,
    Error,
> {
    match parse_feature_geometry(entries) {
        Err(e) => Err(e),
        Ok(geometry) => match parse_feature_properties(entries) {
            Err(e) => Err(e),
            Ok(properties) => Ok(
                FeatureModel { id: lookup(entries, "id"@), geometry, properties },
            ),
        },
    }
}

/// What building a feature out of a JSON value yields: the value must be an
/// object.
pub open spec fn parse_feature(v: JsonModel) -> Result<FeatureModel, Error> {
    match v {
        JsonModel::Obj(entries) => parse_feature_obj(entries),
        _ => Err(Error::ExpectedType),
    }
}

impl Feature {
    /// Renders this feature as a generic JSON object.
    pub fn to_json(&self) -> (r: JsonValue)
        ensures
            r.deep_view() == render_feature(self.deep_view()),
    {
        let mut entries: JsonObject = Vec::new();
        entries.push((String::from_str("type"), JsonValue::Str(String::from_str("Feature"))));
        let geom_value = match &self.geometry {
            Some(g) => g.to_json(),
            None => JsonValue::Null,
        };
        entries.push((String::from_str("geometry"), geom_value));
        entries.push(
            (String::from_str("properties"), JsonValue::Obj(duplicate_object(&self.properties))),
        );
        match &self.id {
            Some(idv) => entries.push((String::from_str("id"), duplicate(idv))),
            None => (),
        }
        let r = JsonValue::Obj(entries);
        proof {
            assert(object_model(entries@) =~~= feature_entries(self.deep_view()));
            assert(r.deep_view() =~~= render_feature(self.deep_view()));
        }
        r
    }

    /// Builds a feature out of the members of a JSON object.
    pub fn from_object(object: &JsonObject) -> (r: Result<Feature, Error>)
        ensures
            match r {
                Ok(f) => parse_feature_obj(object_model(object@)) == Ok::<FeatureModel, Error>(
                    f.deep_view(),
                ),
                Err(e) => parse_feature_obj(object_model(object@)) == Err::<FeatureModel, Error>(
                    e,
                ),
            },
    {
        let geometry = match get_field(object, "geometry") {
            None => None,
            Some(gv) => match gv {
                JsonValue::Null => None,
                _ => match Geometry::from_json(gv) {
                    Ok(g) => Some(g),
                    Err(e) => {
                        return Err(e);
                    },
                },
            },
        };
        let properties = match get_field(object, "properties") {
            None => {
                return Err(Error::ExpectedProperty);
            },
            Some(p) => match p {
                JsonValue::Obj(props) => duplicate_object(props),
                _ => {
                    return Err(Error::ExpectedType);
                },
            },
        };
        let id = match get_field(object, "id") {
            None => None,
            Some(idv) => Some(duplicate(idv)),
        };
        Ok(Feature { id, geometry, properties })
    }

    /// Builds a feature out of a generic JSON value.
    pub fn from_json(v: &JsonValue) -> (r: Result<Feature, Error>)
        ensures
            match r {
                Ok(f) => parse_feature(v.deep_view()) == Ok::<FeatureModel, Error>(f.deep_view()),
                Err(e) => parse_feature(v.deep_view()) == Err::<FeatureModel, Error>(e),
            },
    {
        match v {
            JsonValue::Obj(entries) => Self::from_object(entries),
            _ => Err(Error::ExpectedType),
        }
    }
}

/// The models of a list of features.
pub open spec fn features_model(fs: Seq<Feature>) -> Seq<FeatureModel> {
    Seq::new(
        fs.len(),
        |i: int|
            if 0 <= i < fs.len() {
                fs[i].deep_view()
            } else {
                FeatureModel { id: None, geometry: None, properties: Seq::empty() }
            },
    )
}

/// The model of a feature list is as long as the list, and holds the model
/// of each element.
pub broadcast proof fn lemma_features_model(fs: Seq<Feature>)
    ensures
        (#[trigger] features_model(fs)).len() == fs.len(),
        forall|i: int| 0 <= i < fs.len() ==> features_model(fs)[i] == fs[i].deep_view(),
{
}

/// The JSON renderings of a list of features.
pub open spec fn render_features(fs: Seq<FeatureModel>) -> Seq<JsonModel> {
    Seq::new(
        fs.len(),
        |i: int|
            if 0 <= i < fs.len() {
                render_feature(fs[i])
            } else {
                JsonModel::Null
            },
    )
}

/// The rendered list is as long as the feature list, and holds the rendering
/// of each element.
pub broadcast proof fn lemma_render_features(fs: Seq<FeatureModel>)
    ensures
        (#[trigger] render_features(fs)).len() == fs.len(),
        forall|i: int| 0 <= i < fs.len() ==> render_features(fs)[i] == render_feature(fs[i]),
{
}

/// What building each element of a `"features"` array yields: the list of
/// features, or the first failure.
pub open spec fn parse_feature_list(items: Seq<JsonModel>) -> Result<Seq<FeatureModel>, Error>
    decreases items,
{
    if items.len() == 0 {
        Ok(Seq::empty())
    } else {
        match parse_feature(items[0]) {
            Err(e) => Err(e),
            Ok(f) => match parse_feature_list(items.drop_first()) {
                Err(e) => Err(e),
                Ok(fs) => Ok(seq![f] + fs),
            },
        }
    }
}

/// A list whose every element parses as a feature parses as the list of
/// those features.
pub proof fn lemma_parse_feature_list_ok(items: Seq<JsonModel>, fs: Seq<FeatureModel>)
    requires
        fs.len() == items.len(),
        forall|j: int|
            0 <= j < items.len() ==> parse_feature(#[trigger] items[j]) == Ok::<
                FeatureModel,
                Error,
            >(fs[j]),
    ensures
        parse_feature_list(items) == Ok::<Seq<FeatureModel>, Error>(fs),
    decreases items.len(),
{
    if items.len() == 0 {
        assert(fs =~= Seq::<FeatureModel>::empty());
    } else {
        lemma_parse_feature_list_ok(items.drop_first(), fs.drop_first());
        assert(seq![fs[0]] + fs.drop_first() =~= fs);
    }
}

/// A list whose first bad element fails with `e` parses to that same
/// failure.
pub proof fn lemma_parse_feature_list_err(items: Seq<JsonModel>, i: int, e: Error)
    requires
        0 <= i < items.len(),
        forall|j: int| 0 <= j < i ==> parse_feature(#[trigger] items[j]) is Ok,
        parse_feature(items[i]) == Err::<FeatureModel, Error>(e),
    ensures
        parse_feature_list(items) == Err::<Seq<FeatureModel>, Error>(e),
    decreases i,
{
    if i > 0 {
        lemma_parse_feature_list_err(items.drop_first(), i - 1, e);
    }
}

/// Parsing each element of a rendered feature list gives the original list
/// back.
pub proof fn lemma_feature_list_round_trip(fs: Seq<FeatureModel>)
    ensures
        parse_feature_list(render_features(fs)) == Ok::<Seq<FeatureModel>, Error>(fs),
    decreases fs.len(),
{
    broadcast use lemma_render_features;

    let rendered = render_features(fs);
    if fs.len() == 0 {
        assert(fs =~= Seq::<FeatureModel>::empty());
    } else {
        lemma_feature_round_trip(fs[0]);
        lemma_feature_list_round_trip(fs.drop_first());
        assert(rendered.drop_first() =~= render_features(fs.drop_first()));
        assert(seq![fs[0]] + fs.drop_first() =~= fs);
    }
}

/// The member keys of the feature encoding are pairwise distinguishable.
pub proof fn lemma_feature_literals()
    ensures
        "type"@.len() == 4,
        "geometry"@.len() == 8,
        "properties"@.len() == 10,
        "id"@.len() == 2,
        "Feature"@.len() == 7,
{
    reveal_strlit("type");
    reveal_strlit("geometry");
    reveal_strlit("properties");
    reveal_strlit("id");
    reveal_strlit("Feature");
}

/// Parsing a rendered feature gives the original feature back.
pub proof fn lemma_feature_round_trip(f: FeatureModel)
    ensures
        parse_feature(render_feature(f)) == Ok::<FeatureModel, Error>(f),
{
    lemma_feature_literals();
    reveal_with_fuel(crate::json::lookup_index_from, 5);
    let entries = feature_entries(f);
    assert(crate::json::lookup_index_from(entries, "geometry"@, 0) == 1);
    assert(crate::json::lookup_index_from(entries, "properties"@, 0) == 2);
    match f.geometry {
        Some(g) => {
            assert(render_geometry(g) is Obj);
            lemma_geometry_round_trip(g);
        },
        None => (),
    }
    match f.id {
        Some(idv) => {
            assert(crate::json::lookup_index_from(entries, "id"@, 0) == 3);
        },
        None => {
            assert(crate::json::lookup_index_from(entries, "id"@, 0) == -1);
        },
    }
    assert(parse_feature_obj(entries) =~~= Ok::<FeatureModel, Error>(f));
}

} // verus!
