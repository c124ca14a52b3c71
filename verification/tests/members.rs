use geojson::{Crs, Error, Feature, Geometry, JsonObject, JsonValue};

fn s(x: &str) -> String {
    x.to_string()
}

fn named_crs_value(name: &str) -> JsonValue {
    JsonValue::Obj(vec![
        (s("type"), JsonValue::Str(s("name"))),
        (
            s("properties"),
            JsonValue::Obj(vec![(s("name"), JsonValue::Str(s(name)))]),
        ),
    ])
}

#[test]
fn named_crs_round_trips() {
    let crs = Crs::Named { name: s("EPSG:4326") };
    let rendered = crs.to_json();
    assert_eq!(rendered, named_crs_value("EPSG:4326"));
    assert_eq!(Crs::from_json(&rendered), Ok(crs));
}

#[test]
fn linked_crs_round_trips() {
    let with_type = Crs::Linked {
        href: s("http://example.com/crs"),
        link_type: Some(s("proj4")),
    };
    let rendered = with_type.to_json();
    assert_eq!(Crs::from_json(&rendered), Ok(with_type));
    let without_type = Crs::Linked {
        href: s("http://example.com/crs"),
        link_type: None,
    };
    let rendered = without_type.to_json();
    assert_eq!(Crs::from_json(&rendered), Ok(without_type));
}

#[test]
fn non_object_crs_yields_crs_expected_type() {
    assert_eq!(
        Crs::from_json(&JsonValue::Str(s("EPSG:4326"))),
        Err(Error::CrsExpectedType)
    );
}

#[test]
fn unrecognized_crs_kind_yields_crs_invalid() {
    let value = JsonValue::Obj(vec![(s("type"), JsonValue::Str(s("galactic")))]);
    assert_eq!(Crs::from_json(&value), Err(Error::CrsInvalid));
}

#[test]
fn crs_without_properties_yields_crs_invalid() {
    let value = JsonValue::Obj(vec![(s("type"), JsonValue::Str(s("name")))]);
    assert_eq!(Crs::from_json(&value), Err(Error::CrsInvalid));
}

#[test]
fn crs_with_non_string_name_yields_crs_expected_type() {
    let value = JsonValue::Obj(vec![
        (s("type"), JsonValue::Str(s("name"))),
        (
            s("properties"),
            JsonValue::Obj(vec![(s("name"), JsonValue::Num(4326))]),
        ),
    ]);
    assert_eq!(Crs::from_json(&value), Err(Error::CrsExpectedType));
}

#[test]
fn point_round_trips() {
    let point = Geometry::Point(JsonValue::Arr(vec![JsonValue::Num(3), JsonValue::Num(4)]));
    let rendered = point.to_json();
    assert_eq!(Geometry::from_json(&rendered), Ok(point));
}

#[test]
fn geometry_collection_round_trips() {
    let collection = Geometry::GeometryCollection(vec![
        Geometry::Point(JsonValue::Arr(vec![JsonValue::Num(1), JsonValue::Num(1)])),
        Geometry::LineString(JsonValue::Arr(vec![
            JsonValue::Arr(vec![JsonValue::Num(0), JsonValue::Num(0)]),
            JsonValue::Arr(vec![JsonValue::Num(2), JsonValue::Num(2)]),
        ])),
    ]);
    let rendered = collection.to_json();
    assert_eq!(Geometry::from_json(&rendered), Ok(collection));
}

#[test]
fn unknown_geometry_kind_yields_expected_type() {
    let value = JsonValue::Obj(vec![
        (s("type"), JsonValue::Str(s("Hyperbola"))),
        (s("coordinates"), JsonValue::Arr(vec![])),
    ]);
    assert_eq!(Geometry::from_json(&value), Err(Error::ExpectedType));
}

#[test]
fn geometry_without_discriminator_yields_expected_property() {
    let value = JsonValue::Obj(vec![(s("coordinates"), JsonValue::Arr(vec![]))]);
    assert_eq!(Geometry::from_json(&value), Err(Error::ExpectedProperty));
}

#[test]
fn geometry_without_coordinates_yields_expected_property() {
    let value = JsonValue::Obj(vec![(s("type"), JsonValue::Str(s("Polygon")))]);
    assert_eq!(Geometry::from_json(&value), Err(Error::ExpectedProperty));
}

#[test]
fn bad_nested_geometry_fails_the_collection() {
    let value = JsonValue::Obj(vec![
        (s("type"), JsonValue::Str(s("GeometryCollection"))),
        (
            s("geometries"),
            JsonValue::Arr(vec![JsonValue::Obj(vec![(
                s("type"),
                JsonValue::Str(s("Nonagon")),
            )])]),
        ),
    ]);
    assert_eq!(Geometry::from_json(&value), Err(Error::ExpectedType));
}

#[test]
fn feature_with_null_geometry_has_none() {
    let object: JsonObject = vec![
        (s("geometry"), JsonValue::Null),
        (s("properties"), JsonValue::Obj(vec![])),
    ];
    let feature = Feature::from_object(&object).unwrap();
    assert_eq!(feature.geometry, None);
    assert_eq!(feature.id, None);
    assert!(feature.properties.is_empty());
}

#[test]
fn feature_round_trips_with_id_and_properties() {
    let feature = Feature {
        id: Some(JsonValue::Str(s("f-1"))),
        geometry: None,
        properties: vec![
            (s("label"), JsonValue::Str(s("home"))),
            (s("count"), JsonValue::Num(3)),
            (s("tags"), JsonValue::Arr(vec![JsonValue::Bool(true), JsonValue::Null])),
        ],
    };
    let rendered = feature.to_json();
    assert_eq!(Feature::from_json(&rendered), Ok(feature));
}

#[test]
fn feature_with_non_object_properties_yields_expected_type() {
    let object: JsonObject = vec![(s("properties"), JsonValue::Num(1))];
    assert_eq!(Feature::from_object(&object), Err(Error::ExpectedType));
}

#[test]
fn error_descriptions_are_distinct() {
    let errors = [
        Error::ExpectedType,
        Error::ExpectedProperty,
        Error::BboxExtraction,
        Error::CrsExpectedType,
        Error::CrsInvalid,
    ];
    for a in 0..errors.len() {
        for b in 0..errors.len() {
            if a != b {
                assert_ne!(errors[a].describe(), errors[b].describe());
            }
        }
    }
}
