//! The data model: feature collections, features, and the tagged geometry
//! variants of GeoJSON. Coordinate tuples are opaque `geojson::Position`
//! values; everything above them is plain, verified structure.

use vstd::prelude::*;

verus! {

/// One polygon's ring set: an ordered sequence of linear rings, each an
/// ordered sequence of coordinate tuples. The normalizer treats it as an
/// opaque, order-preserving unit — copied verbatim, never restructured.
pub type PolygonRings = Vec<Vec<geojson::Position>>;

/// A geometry: a tagged variant carrying its kind's coordinate data.
/// `GeometryCollection` holds an ordered sequence of child geometries; the
/// normalizer inspects only one level of it.
#[derive(Debug, PartialEq)]
pub enum Geometry {
    Point(geojson::Position),
    MultiPoint(Vec<geojson::Position>),
    LineString(Vec<geojson::Position>),
    MultiLineString(Vec<Vec<geojson::Position>>),
    Polygon(PolygonRings),
    MultiPolygon(Vec<PolygonRings>),
    GeometryCollection(Vec<Geometry>),
}

/// A feature: an optional properties object (opaque JSON, never altered) and
/// an optional geometry. Identity is positional within its collection.
#[derive(Debug, PartialEq)]
pub struct Feature {
    pub properties: Option<serde_json::Map<String, serde_json::Value>>,
    pub geometry: Option<Geometry>,
}

/// An ordered sequence of features; order is meaningful and preserved.
#[derive(Debug, PartialEq)]
pub struct FeatureCollection {
    pub features: Vec<Feature>,
}

/// The ring sets of the `Polygon` members of `children`, in scan order.
/// Members of any other kind contribute nothing.
pub open spec fn polygon_payloads(children: Seq<Geometry>) -> Seq<PolygonRings>
    decreases children.len(),
{
    if children.len() == 0 {
        Seq::empty()
    } else {
        let rest = polygon_payloads(children.drop_last());
        match children.last() {
            Geometry::Polygon(rings) => rest.push(rings),
            _ => rest,
        }
    }
}

/// What normalization does to one feature's geometry: a `GeometryCollection`
/// with at least one `Polygon` member becomes a `MultiPolygon` of exactly
/// those members' ring sets in order; everything else — an absent geometry,
/// any other kind, or a collection without `Polygon` members — is unchanged.
pub open spec fn normalizes_to(before: Option<Geometry>, after: Option<Geometry>) -> bool {
    match before {
        Some(Geometry::GeometryCollection(children)) => if polygon_payloads(children@).len()
            == 0 {
            after == before
        } else {
            after matches Some(Geometry::MultiPolygon(ps)) && ps@ == polygon_payloads(children@)
        },
        _ => after == before,
    }
}

/// Whether the feature still carries a `GeometryCollection` geometry. A
/// document without any such feature is already in normal form.
pub open spec fn has_collection_geometry(f: Feature) -> bool {
    f.geometry matches Some(Geometry::GeometryCollection(_))
}

/// What normalization does to one feature: properties are untouched and the
/// geometry is rewritten as `normalizes_to` says.
pub open spec fn feature_normalized(before: Feature, after: Feature) -> bool {
    &&& after.properties == before.properties
    &&& normalizes_to(before.geometry, after.geometry)
}

/// What normalization does to a whole collection: feature count and order are
/// kept, and each feature is rewritten in place.
pub open spec fn collection_normalized(before: FeatureCollection, after: FeatureCollection) -> bool {
    &&& after.features@.len() == before.features@.len()
    &&& forall|i: int|
        0 <= i < before.features@.len() ==> #[trigger] feature_normalized(
            before.features@[i],
            after.features@[i],
        )
}

} // verus!
