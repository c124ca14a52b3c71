//! A typed GeoJSON object model with verified two-way conversion between the
//! typed values and a generic JSON value tree.
//!
//! The centre piece is [`FeatureCollection`]: an ordered sequence of
//! [`Feature`] values together with an optional bounding box and an optional
//! coordinate reference system descriptor.  Rendering a value to a generic
//! JSON tree and building a value back out of one are total, deterministic
//! functions whose behaviour is pinned down by spec-level models, and parsing
//! a rendered value is proved to give the original back.

pub mod bbox;
pub mod crs;
pub mod errors;
pub mod feature;
pub mod feature_collection;
pub mod geometry;
pub mod json;
pub mod util;

pub use bbox::Bbox;
pub use crs::Crs;
pub use errors::Error;
pub use feature::Feature;
pub use feature_collection::{from_json_object, to_generic_json, FeatureCollection};
pub use geometry::Geometry;
pub use json::{JsonObject, JsonValue};
