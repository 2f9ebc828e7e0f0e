//! Declarations of the outside types that the library's data model carries
//! opaquely, and the few trusted calls into the `geojson` and `serde_json`
//! crates that the normalization logic makes.

use vstd::prelude::*;

verus! {

/// A single coordinate tuple of the `geojson` crate. The library never reads
/// the coordinates themselves; ring data is carried through verbatim.
#[verifier::external_type_specification]
#[verifier::external_body]
pub struct ExPosition(geojson::Position);

/// An arbitrary JSON value of the `serde_json` crate, carried through
/// untouched inside feature properties.
#[verifier::external_type_specification]
#[verifier::external_body]
pub struct ExJsonValue(serde_json::Value);

/// The JSON object map of the `serde_json` crate, used for feature
/// properties. The normalizer never alters it.
#[verifier::external_type_specification]
#[verifier::external_body]
#[verifier::reject_recursive_types(K)]
#[verifier::reject_recursive_types(V)]
pub struct ExJsonMap<K, V>(serde_json::Map<K, V>);

/// Relies on the derived `Clone` of `Vec` and `geojson::Position`: cloning a
/// ring set yields a value equal to the original.
#[verifier::external_body]
pub(crate) fn clone_polygon_rings(rings: &Vec<Vec<geojson::Position>>) -> (r: Vec<
    Vec<geojson::Position>,
>)
    ensures
        r == *rings,
{
    rings.clone()
}

// The string a JSON object holds under a key, when it holds one there. The
// map is opaque to the library, so the value this names is fixed only by the
// contract of `string_property` below.
pub uninterp spec fn string_value_of(
    props: serde_json::Map<String, serde_json::Value>,
    key: Seq<char>,
) -> Option<Seq<char>>;

/// Relies on `serde_json::Map::get` and `serde_json::Value::as_str`: looks a
/// key up in a JSON object and hands back its value exactly when that value
/// is a string. Both are functions of the map and key alone; the result is
/// the string this library calls `string_value_of(*props, key@)`.
#[verifier::external_body]
pub(crate) fn string_property(
    props: &serde_json::Map<String, serde_json::Value>,
    key: &str,
) -> (r: Option<String>)
    ensures
        r.deep_view() == string_value_of(*props, key@),
{
    props.get(key).and_then(serde_json::Value::as_str).map(str::to_string)
}

} // verus!
