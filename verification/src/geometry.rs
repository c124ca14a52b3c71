//! The closed set of GeoJSON geometry variants and their conversion to and
//! from generic JSON objects.  Every geometry is an object carrying a
//! `"type"` discriminator; the six coordinate-bearing variants carry their
//! coordinates as an untyped JSON value (validating coordinate structure is
//! the business of the surrounding library, not of this mapping), and a
//! `GeometryCollection` carries a list of nested geometries.

use vstd::prelude::*;

use crate::errors::Error;
use crate::json::{
    duplicate, get_entry_index, get_field, lemma_array_model, lemma_lookup_index_from,
    lemma_object_model, lookup, lookup_index, array_model, object_model, strings_match,
    JsonModel, JsonObject, JsonValue,
};

verus! {

broadcast use {lemma_array_model, lemma_object_model};

/// A GeoJSON geometry: one of the six coordinate-bearing variants, or a
/// collection of nested geometries.
#[derive(Debug, PartialEq)]
pub enum Geometry {
    Point(JsonValue),
    LineString(JsonValue),
    Polygon(JsonValue),
    MultiPoint(JsonValue),
    MultiLineString(JsonValue),
    MultiPolygon(JsonValue),
    GeometryCollection(Vec<Geometry>),
}

/// The spec-level model of a geometry.
#[verifier::ext_equal]
pub enum GeomModel {
    Point(JsonModel),
    LineString(JsonModel),
    Polygon(JsonModel),
    MultiPoint(JsonModel),
    MultiLineString(JsonModel),
    MultiPolygon(JsonModel),
    GeometryCollection(Seq<GeomModel>),
}

impl DeepView for Geometry {
    type V = GeomModel;

    open spec fn deep_view(&self) -> GeomModel
        decreases self,
    {
        match self {
            Geometry::Point(c) => GeomModel::Point(c.deep_view()),
            Geometry::LineString(c) => GeomModel::LineString(c.deep_view()),
            Geometry::Polygon(c) => GeomModel::Polygon(c.deep_view()),
            Geometry::MultiPoint(c) => GeomModel::MultiPoint(c.deep_view()),
            Geometry::MultiLineString(c) => GeomModel::MultiLineString(c.deep_view()),
            Geometry::MultiPolygon(c) => GeomModel::MultiPolygon(c.deep_view()),
            Geometry::GeometryCollection(gs) => GeomModel::GeometryCollection(
                geometries_model(gs@),
            ),
        }
    }
}

/// The models of a list of geometries.
pub open spec fn geometries_model(gs: Seq<Geometry>) -> Seq<GeomModel>
    decreases gs,
{
    Seq::new(
        gs.len(),
        |i: int|
            if 0 <= i < gs.len() {
                gs[i].deep_view()
            } else {
                GeomModel::Point(JsonModel::Null)
            },
    )
}

/// The model of a geometry list is as long as the list, and holds the model
/// of each element.
pub broadcast proof fn lemma_geometries_model(gs: Seq<Geometry>)
    ensures
        (#[trigger] geometries_model(gs)).len() == gs.len(),
        forall|i: int| 0 <= i < gs.len() ==> geometries_model(gs)[i] == gs[i].deep_view(),
{
}

/// The fixed `"type"` discriminator string of a geometry variant.
pub open spec fn geometry_type_name(g: GeomModel) -> Seq<char> {
    match g {
        GeomModel::Point(_) => "Point"@,
        GeomModel::LineString(_) => "LineString"@,
        GeomModel::Polygon(_) => "Polygon"@,
        GeomModel::MultiPoint(_) => "MultiPoint"@,
        GeomModel::MultiLineString(_) => "MultiLineString"@,
        GeomModel::MultiPolygon(_) => "MultiPolygon"@,
        GeomModel::GeometryCollection(_) => "GeometryCollection"@,
    }
}

/// The coordinates carried by a coordinate-bearing geometry variant.
pub open spec fn geometry_coordinates(g: GeomModel) -> JsonModel {
    match g {
        GeomModel::Point(c) => c,
        GeomModel::LineString(c) => c,
        GeomModel::Polygon(c) => c,
        GeomModel::MultiPoint(c) => c,
        GeomModel::MultiLineString(c) => c,
        GeomModel::MultiPolygon(c) => c,
        GeomModel::GeometryCollection(_) => JsonModel::Null,
    }
}

/// The JSON renderings of a list of geometries.
pub open spec fn render_geometries(gs: Seq<GeomModel>) -> Seq<JsonModel>
    decreases gs,
{
    Seq::new(
        gs.len(),
        |i: int|
            if 0 <= i < gs.len() {
                render_geometry(gs[i])
            } else {
                JsonModel::Null
            },
    )
}

/// The rendered list is as long as the geometry list, and holds the
/// rendering of each element.
pub broadcast proof fn lemma_render_geometries(gs: Seq<GeomModel>)
    ensures
        (#[trigger] render_geometries(gs)).len() == gs.len(),
        forall|i: int| 0 <= i < gs.len() ==> render_geometries(gs)[i] == render_geometry(gs[i]),
{
}

/// The JSON rendering of a geometry: an object holding the `"type"`
/// discriminator and either the `"coordinates"` value or the rendered
/// `"geometries"` list.
pub open spec fn render_geometry(g: GeomModel) -> JsonModel
    decreases g,
{
    match g {
        GeomModel::GeometryCollection(gs) => JsonModel::Obj(
            seq![
                ("type"@, JsonModel::Str("GeometryCollection"@)),
                ("geometries"@, JsonModel::Arr(render_geometries(gs))),
            ],
        ),
        _ => JsonModel::Obj(
            seq![
                ("type"@, JsonModel::Str(geometry_type_name(g))),
                ("coordinates"@, geometry_coordinates(g)),
            ],
        ),
    }
}

/// Whether a discriminator string names a coordinate-bearing geometry
/// variant.
pub open spec fn is_simple_geometry_name(t: Seq<char>) -> bool {
    ||| t == "Point"@
    ||| t == "LineString"@
    ||| t == "Polygon"@
    ||| t == "MultiPoint"@
    ||| t == "MultiLineString"@
    ||| t == "MultiPolygon"@
}

/// The coordinate-bearing geometry named by a discriminator string, holding
/// the given coordinates.
pub open spec fn simple_geometry(t: Seq<char>, c: JsonModel) -> GeomModel {
    if t == "Point"@ {
        GeomModel::Point(c)
    } else if t == "LineString"@ {
        GeomModel::LineString(c)
    } else if t == "Polygon"@ {
        GeomModel::Polygon(c)
    } else if t == "MultiPoint"@ {
        GeomModel::MultiPoint(c)
    } else if t == "MultiLineString"@ {
        GeomModel::MultiLineString(c)
    } else {
        GeomModel::MultiPolygon(c)
    }
}

/// What building a geometry out of a JSON value yields.  The value must be
/// an object; its `"type"` member must be present (else `ExpectedProperty`)
/// and a string naming one of the geometry variants (else `ExpectedType`).
/// A coordinate-bearing variant requires a `"coordinates"` member, carried
/// over as it stands; a collection requires a `"geometries"` array whose
/// elements are built recursively, failing on the first bad element.
pub open spec fn parse_geometry(v: JsonModel) -> Result<GeomModel, Error>
    decreases v,
    via parse_geometry_decreases
{
    match v {
        JsonModel::Obj(entries) => match lookup(entries, "type"@) {
            None => Err(Error::ExpectedProperty),
            Some(JsonModel::Str(t)) => if t == "GeometryCollection"@ {
                match lookup(entries, "geometries"@) {
                    None => Err(Error::ExpectedProperty),
                    Some(JsonModel::Arr(items)) => match parse_geometry_list(items) {
                        Ok(gs) => Ok(GeomModel::GeometryCollection(gs)),
                        Err(e) => Err(e),
                    },
                    Some(_) => Err(Error::ExpectedType),
                }
            } else if is_simple_geometry_name(t) {
                match lookup(entries, "coordinates"@) {
                    None => Err(Error::ExpectedProperty),
                    Some(c) => Ok(simple_geometry(t, c)),
                }
            } else {
                Err(Error::ExpectedType)
            },
            Some(_) => Err(Error::ExpectedType),
        },
        _ => Err(Error::ExpectedType),
    }
}

/// What building each element of a `"geometries"` array yields: the list of
/// geometries, or the first failure.
pub open spec fn parse_geometry_list(items: Seq<JsonModel>) -> Result<Seq<GeomModel>, Error>
    decreases items,
{
    if items.len() == 0 {
        Ok(Seq::empty())
    } else {
        match parse_geometry(items[0]) {
            Err(e) => Err(e),
            Ok(g) => match parse_geometry_list(items.drop_first()) {
                Err(e) => Err(e),
                Ok(gs) => Ok(seq![g] + gs),
            },
        }
    }
}

#[via_fn]
proof fn parse_geometry_decreases(v: JsonModel) {
    match v {
        JsonModel::Obj(entries) => {
            lemma_lookup_index_from(entries, "geometries"@, 0);
            let k = lookup_index(entries, "geometries"@);
            if 0 <= k < entries.len() && entries[k].1 is Arr {
                assert(decreases_to!(v => v->Obj_0));
                assert(decreases_to!(v->Obj_0 => v->Obj_0[k]));
                assert(decreases_to!(v->Obj_0[k] => v->Obj_0[k].1));
                assert(decreases_to!(v->Obj_0[k].1 => v->Obj_0[k].1->Arr_0));
                assert(decreases_to!(v => v->Obj_0[k].1->Arr_0));
            }
        },
        _ => (),
    }
}

/// A list whose every element parses as a geometry parses as the list of
/// those geometries.
pub proof fn lemma_parse_geometry_list_ok(items: Seq<JsonModel>, gs: Seq<GeomModel>)
    requires
        gs.len() == items.len(),
        forall|j: int|
            0 <= j < items.len() ==> parse_geometry(#[trigger] items[j]) == Ok::<
                GeomModel,
                Error,
            >(gs[j]),
    ensures
        parse_geometry_list(items) == Ok::<Seq<GeomModel>, Error>(gs),
    decreases items.len(),
{
    if items.len() == 0 {
        assert(gs =~= Seq::<GeomModel>::empty());
    } else {
        lemma_parse_geometry_list_ok(items.drop_first(), gs.drop_first());
        assert(seq![gs[0]] + gs.drop_first() =~= gs);
    }
}

/// A list whose first bad element fails with `e` parses to that same
/// failure.
pub proof fn lemma_parse_geometry_list_err(items: Seq<JsonModel>, i: int, e: Error)
    requires
        0 <= i < items.len(),
        forall|j: int| 0 <= j < i ==> parse_geometry(#[trigger] items[j]) is Ok,
        parse_geometry(items[i]) == Err::<GeomModel, Error>(e),
    ensures
        parse_geometry_list(items) == Err::<Seq<GeomModel>, Error>(e),
    decreases i,
{
    if i > 0 {
        lemma_parse_geometry_list_err(items.drop_first(), i - 1, e);
    }
}

impl Geometry {
    /// Renders this geometry as a generic JSON object.
    #[verifier::loop_isolation(false)]
    pub fn to_json(&self) -> (r: JsonValue)
        ensures
            r.deep_view() == render_geometry(self.deep_view()),
        decreases self,
    {
        match self {
            Geometry::Point(c) => Self::with_coordinates("Point", c),
            Geometry::LineString(c) => Self::with_coordinates("LineString", c),
            Geometry::Polygon(c) => Self::with_coordinates("Polygon", c),
            Geometry::MultiPoint(c) => Self::with_coordinates("MultiPoint", c),
            Geometry::MultiLineString(c) => Self::with_coordinates("MultiLineString", c),
            Geometry::MultiPolygon(c) => Self::with_coordinates("MultiPolygon", c),
            Geometry::GeometryCollection(gs) => {
                let ghost gm = geometries_model(gs@);
                let mut rendered: Vec<JsonValue> = Vec::new();
                let mut i: usize = 0;
                while i < gs.len()
                    invariant
                        0 <= i <= gs.len(),
                        rendered@.len() == i,
                        forall|j: int|
                            0 <= j < i ==> (#[trigger] rendered@[j]).deep_view()
                                == render_geometry(gm[j]),
                    decreases gs.len() - i,
                {
                    let g = &gs[i];
                    proof {
                        assert(decreases_to!(*self => self->GeometryCollection_0[i as int]));
                        broadcast use lemma_geometries_model;

                    }
                    rendered.push(g.to_json());
                    i += 1;
                }
                let mut entries: JsonObject = Vec::new();
                entries.push(
                    (
                        String::from_str("type"),
                        JsonValue::Str(String::from_str("GeometryCollection")),
                    ),
                );
                entries.push((String::from_str("geometries"), JsonValue::Arr(rendered)));
                let r = JsonValue::Obj(entries);
                proof {
                    broadcast use {lemma_geometries_model, lemma_render_geometries};

                    assert(array_model(rendered@) =~= render_geometries(gm));
                    assert(object_model(entries@) =~~= seq![
                        ("type"@, JsonModel::Str("GeometryCollection"@)),
                        ("geometries"@, JsonModel::Arr(render_geometries(gm))),
                    ]);
                    assert(r.deep_view() =~~= render_geometry(self.deep_view()));
                }
                r
            },
        }
    }

    /// Builds the object `{"type": name, "coordinates": c}`.
    fn with_coordinates(name: &str, c: &JsonValue) -> (r: JsonValue)
        ensures
            r.deep_view() == JsonModel::Obj(
                seq![
                    ("type"@, JsonModel::Str(name@)),
                    ("coordinates"@, c.deep_view()),
                ],
            ),
    {
        let mut entries: JsonObject = Vec::new();
        entries.push((String::from_str("type"), JsonValue::Str(String::from_str(name))));
        entries.push((String::from_str("coordinates"), duplicate(c)));
        let r = JsonValue::Obj(entries);
        proof {
            assert(object_model(entries@) =~~= seq![
                ("type"@, JsonModel::Str(name@)),
                ("coordinates"@, c.deep_view()),
            ]);
            assert(r.deep_view() =~~= JsonModel::Obj(
                seq![
                    ("type"@, JsonModel::Str(name@)),
                    ("coordinates"@, c.deep_view()),
                ],
            ));
        }
        r
    }

    /// Builds a geometry out of a generic JSON value.
    #[verifier::loop_isolation(false)]
    pub fn from_json(v: &JsonValue) -> (r: Result<Geometry, Error>)
        ensures
            match r {
                Ok(g) => parse_geometry(v.deep_view()) == Ok::<GeomModel, Error>(g.deep_view()),
                Err(e) => parse_geometry(v.deep_view()) == Err::<GeomModel, Error>(e),
            },
        decreases v, 1int,
    {
        proof {
            lemma_geometry_literals();
        }
        match v {
            JsonValue::Obj(entries) => match get_field(entries, "type") {
                None => Err(Error::ExpectedProperty),
                Some(t) => match t {
                    JsonValue::Str(tname) => if strings_match(tname, "GeometryCollection") {
                        Self::collection_from_object(v, entries)
                    } else if strings_match(tname, "Point") {
                        match Self::coordinates_value(entries) {
                            Ok(c) => Ok(Geometry::Point(c)),
                            Err(e) => Err(e),
                        }
                    } else if strings_match(tname, "LineString") {
                        match Self::coordinates_value(entries) {
                            Ok(c) => Ok(Geometry::LineString(c)),
                            Err(e) => Err(e),
                        }
                    } else if strings_match(tname, "Polygon") {
                        match Self::coordinates_value(entries) {
                            Ok(c) => Ok(Geometry::Polygon(c)),
                            Err(e) => Err(e),
                        }
                    } else if strings_match(tname, "MultiPoint") {
                        match Self::coordinates_value(entries) {
                            Ok(c) => Ok(Geometry::MultiPoint(c)),
                            Err(e) => Err(e),
                        }
                    } else if strings_match(tname, "MultiLineString") {
                        match Self::coordinates_value(entries) {
                            Ok(c) => Ok(Geometry::MultiLineString(c)),
                            Err(e) => Err(e),
                        }
                    } else if strings_match(tname, "MultiPolygon") {
                        match Self::coordinates_value(entries) {
                            Ok(c) => Ok(Geometry::MultiPolygon(c)),
                            Err(e) => Err(e),
                        }
                    } else {
                        Err(Error::ExpectedType)
                    },
                    _ => Err(Error::ExpectedType),
                },
            },
            _ => Err(Error::ExpectedType),
        }
    }

    /// The `"coordinates"` member of a geometry object, carried over as it
    /// stands; missing means `ExpectedProperty`.
    fn coordinates_value(entries: &JsonObject) -> (r: Result<JsonValue, Error>)
        ensures
            match r {
                Ok(c) => lookup(object_model(entries@), "coordinates"@) == Some(c.deep_view()),
                Err(e) => e == Error::ExpectedProperty && lookup(
                    object_model(entries@),
                    "coordinates"@,
                ) is None,
            },
    {
        match get_field(entries, "coordinates") {
            Some(c) => Ok(duplicate(c)),
            None => Err(Error::ExpectedProperty),
        }
    }

    /// Builds a geometry collection out of the members of its object, `v`
    /// being the object itself.
    #[verifier::loop_isolation(false)]
    fn collection_from_object(v: &JsonValue, entries: &JsonObject) -> (r: Result<Geometry, Error>)
        requires
            *v == JsonValue::Obj(*entries),
            lookup(object_model(entries@), "type"@) == Some(
                JsonModel::Str("GeometryCollection"@),
            ),
        ensures
            match r {
                Ok(g) => parse_geometry(v.deep_view()) == Ok::<GeomModel, Error>(g.deep_view()),
                Err(e) => parse_geometry(v.deep_view()) == Err::<GeomModel, Error>(e),
            },
        decreases v, 0int,
    {
        match get_entry_index(entries, "geometries") {
            None => Err(Error::ExpectedProperty),
            Some(k) => {
                let gv = &entries[k].1;
                proof {
                    assert(lookup(object_model(entries@), "geometries"@) == Some(gv.deep_view()));
                }
                match gv {
                    JsonValue::Arr(items) => {
                        let ghost im = array_model(items@);
                        let mut gs: Vec<Geometry> = Vec::new();
                        let mut i: usize = 0;
                        while i < items.len()
                            invariant
                                0 <= i <= items.len(),
                                gs@.len() == i,
                                forall|j: int|
                                    0 <= j < i ==> parse_geometry(#[trigger] im[j]) == Ok::<
                                        GeomModel,
                                        Error,
                                    >(gs@[j].deep_view()),
                            decreases items.len() - i,
                        {
                            let item = &items[i];
                            proof {
                                assert(decreases_to!(*v => v->Obj_0[k as int].1->Arr_0[
                                    i as int
                                ]));
                            }
                            match Self::from_json(item) {
                                Ok(g) => gs.push(g),
                                Err(e) => {
                                    proof {
                                        lemma_parse_geometry_list_err(im, i as int, e);
                                    }
                                    return Err(e);
                                },
                            }
                            i += 1;
                        }
                        proof {
                            broadcast use lemma_geometries_model;

                            lemma_parse_geometry_list_ok(im, geometries_model(gs@));
                        }
                        Ok(Geometry::GeometryCollection(gs))
                    },
                    _ => Err(Error::ExpectedType),
                }
            },
        }
    }
}

/// The member keys and discriminator strings of the geometry encodings are
/// pairwise distinguishable.
pub proof fn lemma_geometry_literals()
    ensures
        "type"@.len() == 4,
        "coordinates"@.len() == 11,
        "geometries"@.len() == 10,
        "Point"@.len() == 5,
        "LineString"@.len() == 10,
        "Polygon"@.len() == 7,
        "MultiPoint"@.len() == 10,
        "MultiLineString"@.len() == 15,
        "MultiPolygon"@.len() == 12,
        "GeometryCollection"@.len() == 18,
        "LineString"@[0] == 'L',
        "MultiPoint"@[0] == 'M',
{
    reveal_strlit("type");
    reveal_strlit("coordinates");
    reveal_strlit("geometries");
    reveal_strlit("Point");
    reveal_strlit("LineString");
    reveal_strlit("Polygon");
    reveal_strlit("MultiPoint");
    reveal_strlit("MultiLineString");
    reveal_strlit("MultiPolygon");
    reveal_strlit("GeometryCollection");
}

/// Parsing a rendered geometry gives the original geometry back.
pub proof fn lemma_geometry_round_trip(g: GeomModel)
    ensures
        parse_geometry(render_geometry(g)) == Ok::<GeomModel, Error>(g),
    decreases g,
{
    lemma_geometry_literals();
    reveal_with_fuel(crate::json::lookup_index_from, 3);
    match g {
        GeomModel::GeometryCollection(gs) => {
            lemma_geometry_collection_round_trip(gs);
            let entries = render_geometry(g)->Obj_0;
            assert(crate::json::lookup_index_from(entries, "type"@, 0) == 0);
            assert("type"@ != "geometries"@);
            assert(crate::json::lookup_index_from(entries, "geometries"@, 0) == 1);
            assert(parse_geometry(render_geometry(g)) == Ok::<GeomModel, Error>(g));
        },
        _ => {
            let entries = render_geometry(g)->Obj_0;
            assert(crate::json::lookup_index_from(entries, "type"@, 0) == 0);
            assert("type"@ != "coordinates"@);
            assert(crate::json::lookup_index_from(entries, "coordinates"@, 0) == 1);
            assert(parse_geometry(render_geometry(g)) == Ok::<GeomModel, Error>(g));
        },
    }
}

/// Parsing each element of a rendered geometry list gives the original list
/// back.
pub proof fn lemma_geometry_collection_round_trip(gs: Seq<GeomModel>)
    ensures
        parse_geometry_list(render_geometries(gs)) == Ok::<Seq<GeomModel>, Error>(gs),
    decreases gs,
{
    broadcast use lemma_render_geometries;

    let rendered = render_geometries(gs);
    if gs.len() == 0 {
        assert(gs =~= Seq::<GeomModel>::empty());
    } else {
        lemma_geometry_round_trip(gs[0]);
        lemma_geometry_collection_round_trip(gs.drop_first());
        assert(rendered.drop_first() =~= render_geometries(gs.drop_first()));
        assert(seq![gs[0]] + gs.drop_first() =~= gs);
    }
}

} // verus!
