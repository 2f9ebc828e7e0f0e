//! The geometry normalizer: extraction of `Polygon` members from a
//! `GeometryCollection`, the per-feature rewrite, and the whole-collection
//! pass, together with the laws that hold of them.

use vstd::prelude::*;

use crate::geometry::Feature;
use crate::geometry::FeatureCollection;
use crate::geometry::Geometry;
use crate::geometry::collection_normalized;
use crate::geometry::feature_normalized;
use crate::geometry::has_collection_geometry;
use crate::geometry::normalizes_to;
use crate::geometry::polygon_payloads;
use crate::interop::clone_polygon_rings;
use crate::interop::string_property;
use crate::interop::string_value_of;

verus! {

/// Scans `children` in order and gathers the ring sets of its `Polygon`
/// members. Yields nothing when no member is a `Polygon`; otherwise yields a
/// `MultiPolygon` of exactly those ring sets in scan order — even a single
/// match produces a `MultiPolygon` of length 1, never a bare `Polygon`.
/// Members of any other kind, nested collections included, are skipped.
pub fn extract_polygons(children: &Vec<Geometry>) -> (r: Option<Geometry>)
    ensures
        polygon_payloads(children@).len() == 0 ==> r is None,
        polygon_payloads(children@).len() > 0 ==> (r matches Some(Geometry::MultiPolygon(ps))
            && ps@ == polygon_payloads(children@)),
{
    let mut polygons: Vec<Vec<Vec<geojson::Position>>> = Vec::new();
    let mut i: usize = 0;
    assert(polygons@ =~= polygon_payloads(children@.take(0)));
    while i < children.len()
        invariant
            0 <= i <= children@.len(),
            polygons@ == polygon_payloads(children@.take(i as int)),
        decreases children@.len() - i,
    {
        if let Geometry::Polygon(rings) = &children[i] {
            let copied = clone_polygon_rings(rings);
            polygons.push(copied);
        }
        proof {
            assert(children@.take(i + 1).drop_last() =~= children@.take(i as int));
            assert(children@.take(i + 1).last() == children@[i as int]);
        }
        i += 1;
    }
    proof {
        assert(children@.take(children@.len() as int) =~= children@);
    }
    if polygons.len() > 0 {
        Some(Geometry::MultiPolygon(polygons))
    } else {
        None
    }
}

/// Rewrites one feature in place. Only a `GeometryCollection` geometry with
/// at least one `Polygon` member is replaced — by the `MultiPolygon` that
/// `extract_polygons` builds; an absent geometry, a geometry of any other
/// kind, and a collection without `Polygon` members are left untouched.
/// Properties are never altered.
pub fn normalize_feature(f: &mut Feature)
    ensures
        feature_normalized(*old(f), *final(f)),
{
    if let Some(Geometry::GeometryCollection(children)) = &f.geometry {
        let extracted = extract_polygons(children);
        if extracted.is_some() {
            f.geometry = extracted;
        }
    }
}

/// Rewrites every feature of the collection in place, in order. Feature
/// count and order are unchanged; only geometry fields may differ.
pub fn normalize_collection(fc: &mut FeatureCollection)
    ensures
        collection_normalized(*old(fc), *final(fc)),
{
    let n = fc.features.len();
    let mut i: usize = 0;
    while i < n
        invariant
            0 <= i <= n,
            n == fc.features@.len(),
            fc.features@.len() == old(fc).features@.len(),
            forall|j: int|
                0 <= j < i ==> #[trigger] feature_normalized(
                    old(fc).features@[j],
                    fc.features@[j],
                ),
            forall|j: int| i <= j < n ==> fc.features@[j] == old(fc).features@[j],
        decreases n - i,
    {
        let f = &mut fc.features[i];
        normalize_feature(f);
        i += 1;
    }
}

/// The progress-reporting hook: the feature's `name` property, when the
/// feature has properties and that property is a string — the value
/// `string_value_of` names for the key `name`. Does not affect
/// normalization; callers may show it before processing the feature.
pub fn feature_name(f: &Feature) -> (r: Option<String>)
    ensures
        f.properties is None ==> r is None,
        f.properties matches Some(props) ==> r.deep_view() == string_value_of(
            props,
            "name"@,
        ),
{
    match &f.properties {
        None => None,
        Some(props) => string_property(props, "name"),
    }
}

/// Law: a feature's geometry that is not a `GeometryCollection` — absent, or
/// of any other kind — is left exactly as it was.
pub proof fn lemma_non_collection_is_noop(before: Option<Geometry>, after: Option<Geometry>)
    requires
        normalizes_to(before, after),
        !(before matches Some(Geometry::GeometryCollection(_))),
    ensures
        after == before,
{
}

/// Law: a collection in which no feature's geometry is a
/// `GeometryCollection` — an already-normalized document — comes out of a
/// pass with its features exactly as they were.
pub proof fn lemma_normalized_collection_is_noop(c0: FeatureCollection, c1: FeatureCollection)
    requires
        collection_normalized(c0, c1),
        forall|i: int|
            0 <= i < c0.features@.len() ==> !has_collection_geometry(#[trigger] c0.features@[i]),
    ensures
        c1.features@ == c0.features@,
{
    assert forall|i: int| 0 <= i < c0.features@.len() implies c1.features@[i]
        == c0.features@[i] by {
        assert(feature_normalized(c0.features@[i], c1.features@[i]));
        lemma_non_collection_is_noop(c0.features@[i].geometry, c1.features@[i].geometry);
    }
    assert(c1.features@ =~= c0.features@);
}

/// Law: normalization is idempotent at the geometry level — whatever one
/// pass produces, a second pass returns it unchanged.
pub proof fn lemma_normalize_idempotent(
    g0: Option<Geometry>,
    g1: Option<Geometry>,
    g2: Option<Geometry>,
)
    requires
        normalizes_to(g0, g1),
        normalizes_to(g1, g2),
    ensures
        g2 == g1,
{
}

/// Law: normalization is idempotent at the collection level — the features a
/// second pass produces equal the features of the first pass's result.
pub proof fn lemma_collection_idempotent(
    c0: FeatureCollection,
    c1: FeatureCollection,
    c2: FeatureCollection,
)
    requires
        collection_normalized(c0, c1),
        collection_normalized(c1, c2),
    ensures
        c2.features@ == c1.features@,
{
    assert forall|i: int| 0 <= i < c1.features@.len() implies c2.features@[i]
        == c1.features@[i] by {
        assert(feature_normalized(c0.features@[i], c1.features@[i]));
        assert(feature_normalized(c1.features@[i], c2.features@[i]));
        lemma_normalize_idempotent(
            c0.features@[i].geometry,
            c1.features@[i].geometry,
            c2.features@[i].geometry,
        );
    }
    assert(c2.features@ =~= c1.features@);
}

} // verus!
