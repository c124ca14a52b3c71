//! Coordinate reference system descriptors and their conversion to and from
//! the two recognized generic JSON encodings: the named form
//! `{"type": "name", "properties": {"name": ...}}` and the linked form
//! `{"type": "link", "properties": {"href": ..., "type": ...}}`.

use vstd::prelude::*;

use crate::errors::Error;
use crate::json::{
    get_field, lookup, object_model, lemma_object_model, strings_match, JsonModel, JsonObject,
    JsonValue,
};

verus! {

broadcast use lemma_object_model;

/// A coordinate reference system descriptor: either a named system or a link
/// to a definition, with an optional link type.
#[derive(Debug, PartialEq)]
pub enum Crs {
    Named { name: String },
    Linked { href: String, link_type: Option<String> },
}

/// The spec-level model of a coordinate reference system descriptor.
#[verifier::ext_equal]
pub enum CrsModel {
    Named { name: Seq<char> },
    Linked { href: Seq<char>, link_type: Option<Seq<char>> },
}

impl DeepView for Crs {
    type V = CrsModel;

    open spec fn deep_view(&self) -> CrsModel {
        match self {
            Crs::Named { name } => CrsModel::Named { name: name@ },
            Crs::Linked { href, link_type } => CrsModel::Linked {
                href: href@,
                link_type: link_type.deep_view(),
            },
        }
    }
}

/// The entries of the `"properties"` object of the linked encoding: the
/// `"href"` member, and a `"type"` member exactly when a link type is
/// present.
pub open spec fn link_properties(href: Seq<char>, link_type: Option<Seq<char>>) -> Seq<
    (Seq<char>, JsonModel),
> {
    match link_type {
        Some(t) => seq![
            ("href"@, JsonModel::Str(href)),
            ("type"@, JsonModel::Str(t)),
        ],
        None => seq![("href"@, JsonModel::Str(href))],
    }
}

/// The JSON rendering of a coordinate reference system descriptor.
pub open spec fn render_crs(c: CrsModel) -> JsonModel {
    match c {
        CrsModel::Named { name } => JsonModel::Obj(
            seq![
                ("type"@, JsonModel::Str("name"@)),
                (
                    "properties"@,
                    JsonModel::Obj(seq![("name"@, JsonModel::Str(name))]),
                ),
            ],
        ),
        CrsModel::Linked { href, link_type } => JsonModel::Obj(
            seq![
                ("type"@, JsonModel::Str("link"@)),
                ("properties"@, JsonModel::Obj(link_properties(href, link_type))),
            ],
        ),
    }
}

/// What building the named encoding out of a JSON object yields.
pub open spec fn parse_named_crs(entries: Seq<(Seq<char>, JsonModel)>) -> Result<CrsModel, Error> {
    match lookup(entries, "properties"@) {
        None => Err(Error::CrsInvalid),
        Some(JsonModel::Obj(props)) => match lookup(props, "name"@) {
            None => Err(Error::CrsInvalid),
            Some(JsonModel::Str(n)) => Ok(CrsModel::Named { name: n }),
            Some(_) => Err(Error::CrsExpectedType),
        },
        Some(_) => Err(Error::CrsExpectedType),
    }
}

/// What building the linked encoding out of a JSON object yields.
pub open spec fn parse_linked_crs(entries: Seq<(Seq<char>, JsonModel)>) -> Result<CrsModel, Error> {
    match lookup(entries, "properties"@) {
        None => Err(Error::CrsInvalid),
        Some(JsonModel::Obj(props)) => match lookup(props, "href"@) {
            None => Err(Error::CrsInvalid),
            Some(JsonModel::Str(h)) => match lookup(props, "type"@) {
                None => Ok(CrsModel::Linked { href: h, link_type: None }),
                Some(JsonModel::Str(t)) => Ok(
                    CrsModel::Linked { href: h, link_type: Some(t) },
                ),
                Some(_) => Err(Error::CrsExpectedType),
            },
            Some(_) => Err(Error::CrsExpectedType),
        },
        Some(_) => Err(Error::CrsExpectedType),
    }
}

/// What building a coordinate reference system descriptor out of a JSON value
/// yields.  The value must be an object whose `"type"` member is the string
/// `"name"` or `"link"`; a wrong JSON type anywhere gives `CrsExpectedType`,
/// a missing member or an unrecognized `"type"` gives `CrsInvalid`.
pub open spec fn parse_crs(v: JsonModel) -> Result<CrsModel, Error> {
    match v {
        JsonModel::Obj(entries) => match lookup(entries, "type"@) {
            None => Err(Error::CrsInvalid),
            Some(JsonModel::Str(tname)) => if tname == "name"@ {
                parse_named_crs(entries)
            } else if tname == "link"@ {
                parse_linked_crs(entries)
            } else {
                Err(Error::CrsInvalid)
            },
            Some(_) => Err(Error::CrsExpectedType),
        },
        _ => Err(Error::CrsExpectedType),
    }
}

impl Crs {
    /// Renders this descriptor as a generic JSON object of the matching
    /// recognized encoding.
    pub fn to_json(&self) -> (r: JsonValue)
        ensures
            r.deep_view() == render_crs(self.deep_view()),
    {
        match self {
            Crs::Named { name } => {
                let mut props: JsonObject = Vec::new();
                props.push((String::from_str("name"), JsonValue::Str(name.clone())));
                let ghost props_m = object_model(props@);
                let mut entries: JsonObject = Vec::new();
                entries.push(
                    (String::from_str("type"), JsonValue::Str(String::from_str("name"))),
                );
                entries.push((String::from_str("properties"), JsonValue::Obj(props)));
                let r = JsonValue::Obj(entries);
                proof {
                    assert(props_m =~~= seq![("name"@, JsonModel::Str(name@))]);
                    assert(object_model(entries@) =~~= seq![
                        ("type"@, JsonModel::Str("name"@)),
                        ("properties"@, JsonModel::Obj(props_m)),
                    ]);
                    assert(r.deep_view() =~~= render_crs(self.deep_view()));
                }
                r
            },
            Crs::Linked { href, link_type } => {
                let mut props: JsonObject = Vec::new();
                props.push((String::from_str("href"), JsonValue::Str(href.clone())));
                match link_type {
                    Some(t) => props.push(
                        (String::from_str("type"), JsonValue::Str(t.clone())),
                    ),
                    None => (),
                }
                let ghost props_m = object_model(props@);
                let mut entries: JsonObject = Vec::new();
                entries.push(
                    (String::from_str("type"), JsonValue::Str(String::from_str("link"))),
                );
                entries.push((String::from_str("properties"), JsonValue::Obj(props)));
                let r = JsonValue::Obj(entries);
                proof {
                    assert(props_m =~~= link_properties(href@, link_type.deep_view()));
                    assert(object_model(entries@) =~~= seq![
                        ("type"@, JsonModel::Str("link"@)),
                        ("properties"@, JsonModel::Obj(props_m)),
                    ]);
                    assert(r.deep_view() =~~= render_crs(self.deep_view()));
                }
                r
            },
        }
    }

    /// Builds a descriptor out of a generic JSON value.
    pub fn from_json(v: &JsonValue) -> (r: Result<Crs, Error>)
        ensures
            match r {
                Ok(c) => parse_crs(v.deep_view()) == Ok::<CrsModel, Error>(c.deep_view()),
                Err(e) => parse_crs(v.deep_view()) == Err::<CrsModel, Error>(e),
            },
    {
        match v {
            JsonValue::Obj(entries) => match get_field(entries, "type") {
                None => Err(Error::CrsInvalid),
                Some(t) => match t {
                    JsonValue::Str(tname) => if strings_match(tname, "name") {
                        Self::named_from_object(entries)
                    } else if strings_match(tname, "link") {
                        Self::linked_from_object(entries)
                    } else {
                        Err(Error::CrsInvalid)
                    },
                    _ => Err(Error::CrsExpectedType),
                },
            },
            _ => Err(Error::CrsExpectedType),
        }
    }

    /// Builds the named encoding out of the members of a JSON object.
    fn named_from_object(entries: &JsonObject) -> (r: Result<Crs, Error>)
        ensures
            match r {
                Ok(c) => parse_named_crs(object_model(entries@)) == Ok::<CrsModel, Error>(
                    c.deep_view(),
                ),
                Err(e) => parse_named_crs(object_model(entries@)) == Err::<CrsModel, Error>(e),
            },
    {
        match get_field(entries, "properties") {
            None => Err(Error::CrsInvalid),
            Some(p) => match p {
                JsonValue::Obj(props) => match get_field(props, "name") {
                    None => Err(Error::CrsInvalid),
                    Some(n) => match n {
                        JsonValue::Str(name) => Ok(Crs::Named { name: name.clone() }),
                        _ => Err(Error::CrsExpectedType),
                    },
                },
                _ => Err(Error::CrsExpectedType),
            },
        }
    }

    /// Builds the linked encoding out of the members of a JSON object.
    fn linked_from_object(entries: &JsonObject) -> (r: Result<Crs, Error>)
        ensures
            match r {
                Ok(c) => parse_linked_crs(object_model(entries@)) == Ok::<CrsModel, Error>(
                    c.deep_view(),
                ),
                Err(e) => parse_linked_crs(object_model(entries@)) == Err::<CrsModel, Error>(e),
            },
    {
        match get_field(entries, "properties") {
            None => Err(Error::CrsInvalid),
            Some(p) => match p {
                JsonValue::Obj(props) => match get_field(props, "href") {
                    None => Err(Error::CrsInvalid),
                    Some(h) => match h {
                        JsonValue::Str(href) => match get_field(props, "type") {
                            None => Ok(
                                Crs::Linked { href: href.clone(), link_type: None },
                            ),
                            Some(t) => match t {
                                JsonValue::Str(lt) => Ok(
                                    Crs::Linked {
                                        href: href.clone(),
                                        link_type: Some(lt.clone()),
                                    },
                                ),
                                _ => Err(Error::CrsExpectedType),
                            },
                        },
                        _ => Err(Error::CrsExpectedType),
                    },
                },
                _ => Err(Error::CrsExpectedType),
            },
        }
    }
}

/// Parsing a rendered coordinate reference system descriptor gives the
/// original descriptor back.
pub proof fn lemma_crs_round_trip(c: CrsModel)
    ensures
        parse_crs(render_crs(c)) == Ok::<CrsModel, Error>(c),
{
    reveal_strlit("type");
    reveal_strlit("name");
    reveal_strlit("link");
    reveal_strlit("properties");
    reveal_strlit("href");
    reveal_with_fuel(crate::json::lookup_index_from, 4);
    match c {
        CrsModel::Named { name } => {
            let entries = render_crs(c)->Obj_0;
            assert(entries.len() == 2);
            assert(entries[0].0 == "type"@);
            assert("type"@ != "properties"@);
            assert(crate::json::lookup_index_from(entries, "type"@, 0) == 0);
            assert(lookup(entries, "type"@) == Some(JsonModel::Str("name"@)));
            assert(crate::json::lookup_index_from(entries, "properties"@, 0) == 1);
            assert(parse_named_crs(entries) == Ok::<CrsModel, Error>(c));
            assert(parse_crs(render_crs(c)) == Ok::<CrsModel, Error>(c));
        },
        CrsModel::Linked { href, link_type } => {
            let entries = render_crs(c)->Obj_0;
            let props = link_properties(href, link_type);
            assert(entries[0].0 == "type"@);
            assert("type"@ != "properties"@);
            assert(crate::json::lookup_index_from(entries, "type"@, 0) == 0);
            assert(lookup(entries, "type"@) == Some(JsonModel::Str("link"@)));
            assert("name"@[0] == 'n' && "link"@[0] == 'l');
            assert("name"@ != "link"@);
            assert(crate::json::lookup_index_from(entries, "properties"@, 0) == 1);
            assert(lookup(entries, "properties"@) == Some(JsonModel::Obj(props)));
            assert("href"@[0] == 'h' && "type"@[0] == 't');
            assert("href"@ != "type"@);
            assert(crate::json::lookup_index_from(props, "href"@, 0) == 0);
            match link_type {
                Some(t) => {
                    assert(crate::json::lookup_index_from(props, "type"@, 0) == 1);
                    assert(parse_linked_crs(entries) == Ok::<CrsModel, Error>(c));
                },
                None => {
                    assert(crate::json::lookup_index_from(props, "type"@, 0) == -1);
                    assert(parse_linked_crs(entries) == Ok::<CrsModel, Error>(c));
                },
            }
            assert(parse_crs(render_crs(c)) == Ok::<CrsModel, Error>(c));
        },
    }
}

} // verus!
