use geojson::feature_collection::{from_json_object, to_generic_json};
use geojson::json::get_field;
use geojson::util::{get_bbox, get_crs, get_features};
use geojson::{Crs, Error, Feature, FeatureCollection, Geometry, JsonObject, JsonValue};

fn s(x: &str) -> String {
    x.to_string()
}

fn type_entry(name: &str) -> (String, JsonValue) {
    (s("type"), JsonValue::Str(s(name)))
}

fn empty_features_entry() -> (String, JsonValue) {
    (s("features"), JsonValue::Arr(vec![]))
}

fn sample_collection() -> FeatureCollection {
    let feature = Feature {
        id: Some(JsonValue::Num(7)),
        geometry: Some(Geometry::Point(JsonValue::Arr(vec![
            JsonValue::Num(1),
            JsonValue::Num(2),
        ]))),
        properties: vec![(s("name"), JsonValue::Str(s("origin")))],
    };
    FeatureCollection {
        bbox: Some(vec![0, 0, 10, 10]),
        crs: Some(Crs::Named {
            name: s("urn:ogc:def:crs:OGC:1.3:CRS84"),
        }),
        features: vec![feature],
    }
}

#[test]
fn empty_collection_parses() {
    let object: JsonObject = vec![type_entry("FeatureCollection"), empty_features_entry()];
    let fc = from_json_object(&object).unwrap();
    assert!(fc.features.is_empty());
    assert_eq!(fc.bbox, None);
    assert_eq!(fc.crs, None);
}

#[test]
fn missing_features_yields_expected_property() {
    let object: JsonObject = vec![type_entry("FeatureCollection")];
    assert_eq!(from_json_object(&object), Err(Error::ExpectedProperty));
}

#[test]
fn wrong_type_features_yields_expected_type() {
    let object: JsonObject = vec![(s("features"), JsonValue::Str(s("not-an-array")))];
    assert_eq!(from_json_object(&object), Err(Error::ExpectedType));
}

#[test]
fn valid_bbox_parses() {
    let object: JsonObject = vec![
        empty_features_entry(),
        (
            s("bbox"),
            JsonValue::Arr(vec![
                JsonValue::Num(0),
                JsonValue::Num(0),
                JsonValue::Num(10),
                JsonValue::Num(10),
            ]),
        ),
    ];
    let fc = from_json_object(&object).unwrap();
    assert_eq!(fc.bbox, Some(vec![0, 0, 10, 10]));
}

#[test]
fn malformed_bbox_yields_bbox_extraction() {
    let object: JsonObject = vec![
        empty_features_entry(),
        (
            s("bbox"),
            JsonValue::Arr(vec![JsonValue::Str(s("a")), JsonValue::Str(s("b"))]),
        ),
    ];
    assert_eq!(from_json_object(&object), Err(Error::BboxExtraction));
}

#[test]
fn non_array_bbox_yields_bbox_extraction() {
    let object: JsonObject = vec![empty_features_entry(), (s("bbox"), JsonValue::Num(3))];
    assert_eq!(from_json_object(&object), Err(Error::BboxExtraction));
}

#[test]
fn short_bbox_yields_bbox_extraction() {
    let object: JsonObject = vec![
        empty_features_entry(),
        (
            s("bbox"),
            JsonValue::Arr(vec![JsonValue::Num(0), JsonValue::Num(1)]),
        ),
    ];
    assert_eq!(from_json_object(&object), Err(Error::BboxExtraction));
}

#[test]
fn nested_feature_failure_propagates_unmodified() {
    let bad_feature: JsonObject = vec![type_entry("Feature")];
    let standalone = Feature::from_object(&bad_feature).unwrap_err();
    let object: JsonObject = vec![(
        s("features"),
        JsonValue::Arr(vec![JsonValue::Obj(vec![type_entry("Feature")])]),
    )];
    let through_collection = from_json_object(&object).unwrap_err();
    assert_eq!(through_collection, standalone);
    assert_eq!(through_collection, Error::ExpectedProperty);
}

#[test]
fn full_collection_round_trips() {
    let fc = sample_collection();
    let object = fc.to_object();
    let back = from_json_object(&object).unwrap();
    assert_eq!(back, fc);
}

#[test]
fn rendering_is_deterministic() {
    let fc = sample_collection();
    assert_eq!(to_generic_json(&fc), to_generic_json(&fc));
    assert_eq!(fc.to_json(), fc.to_json());
}

#[test]
fn rendering_emits_keys_in_order() {
    let fc = sample_collection();
    let object = fc.to_object();
    let keys: Vec<&str> = object.iter().map(|e| e.0.as_str()).collect();
    assert_eq!(keys, vec!["type", "features", "crs", "bbox"]);
}

#[test]
fn absent_optional_members_are_omitted() {
    let fc = FeatureCollection {
        bbox: None,
        crs: None,
        features: vec![],
    };
    let object = fc.to_object();
    let keys: Vec<&str> = object.iter().map(|e| e.0.as_str()).collect();
    assert_eq!(keys, vec!["type", "features"]);
    assert!(get_field(&object, "crs").is_none());
    assert!(get_field(&object, "bbox").is_none());
}

#[test]
fn rendered_collection_carries_discriminator() {
    let fc = sample_collection();
    let object = fc.to_object();
    assert_eq!(
        get_field(&object, "type"),
        Some(&JsonValue::Str(s("FeatureCollection")))
    );
}

#[test]
fn extractors_accept_absent_optional_members() {
    let object: JsonObject = vec![empty_features_entry()];
    assert_eq!(get_bbox(&object), Ok(None));
    assert_eq!(get_crs(&object), Ok(None));
    assert_eq!(get_features(&object), Ok(vec![]));
}

#[test]
fn extractor_rejects_missing_features() {
    let object: JsonObject = vec![];
    assert_eq!(get_features(&object), Err(Error::ExpectedProperty));
}

#[test]
fn duplicate_keys_use_first_entry() {
    let object: JsonObject = vec![
        empty_features_entry(),
        (
            s("features"),
            JsonValue::Arr(vec![JsonValue::Obj(vec![type_entry("Feature")])]),
        ),
    ];
    let fc = from_json_object(&object).unwrap();
    assert!(fc.features.is_empty());
}
