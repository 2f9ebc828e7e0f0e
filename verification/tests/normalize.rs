use geo_json_multiblock_merger::extract_polygons;
use geo_json_multiblock_merger::feature_name;
use geo_json_multiblock_merger::normalize_collection;
use geo_json_multiblock_merger::normalize_feature;
use geo_json_multiblock_merger::Feature;
use geo_json_multiblock_merger::FeatureCollection;
use geo_json_multiblock_merger::Geometry;
use geo_json_multiblock_merger::PolygonRings;
use geojson::Position;

fn pos(x: f64, y: f64) -> Position {
    Position::from([x, y])
}

fn ring_a() -> PolygonRings {
    vec![vec![pos(0.0, 0.0), pos(1.0, 0.0), pos(1.0, 1.0), pos(0.0, 0.0)]]
}

fn ring_b() -> PolygonRings {
    vec![vec![pos(5.0, 5.0), pos(6.0, 5.0), pos(6.0, 6.0), pos(5.0, 5.0)]]
}

fn point_geometry() -> Geometry {
    Geometry::Point(pos(2.0, 3.0))
}

fn line_geometry() -> Geometry {
    Geometry::LineString(vec![pos(0.0, 0.0), pos(1.0, 1.0)])
}

fn named_properties(name: &str) -> serde_json::Map<String, serde_json::Value> {
    let mut props = serde_json::Map::new();
    props.insert(
        String::from("name"),
        serde_json::Value::String(String::from(name)),
    );
    props
}

#[test]
fn extract_from_mixed_children() {
    let children = vec![
        point_geometry(),
        Geometry::Polygon(ring_a()),
        line_geometry(),
        Geometry::Polygon(ring_b()),
    ];
    let extracted = extract_polygons(&children);
    assert_eq!(
        extracted,
        Some(Geometry::MultiPolygon(vec![ring_a(), ring_b()]))
    );
}

#[test]
fn extract_without_polygons_yields_nothing() {
    let children = vec![point_geometry(), line_geometry()];
    assert_eq!(extract_polygons(&children), None);
}

#[test]
fn extract_from_empty_children_yields_nothing() {
    assert_eq!(extract_polygons(&Vec::new()), None);
}

#[test]
fn extract_skips_nested_collections() {
    let children = vec![
        Geometry::GeometryCollection(vec![Geometry::Polygon(ring_a())]),
        Geometry::Polygon(ring_b()),
    ];
    let extracted = extract_polygons(&children);
    assert_eq!(extracted, Some(Geometry::MultiPolygon(vec![ring_b()])));
}

#[test]
fn non_polygon_geometries_pass_through() {
    for geometry in [
        point_geometry(),
        line_geometry(),
        Geometry::MultiPoint(vec![pos(1.0, 2.0)]),
        Geometry::MultiLineString(vec![vec![pos(0.0, 0.0), pos(2.0, 2.0)]]),
        Geometry::Polygon(ring_a()),
        Geometry::MultiPolygon(vec![ring_a(), ring_b()]),
    ] {
        let mut feature = Feature {
            properties: None,
            geometry: Some(geometry),
        };
        let before = format!("{:?}", feature);
        normalize_feature(&mut feature);
        assert_eq!(format!("{:?}", feature), before);
    }
}

#[test]
fn absent_geometry_passes_through() {
    let mut feature = Feature {
        properties: Some(named_properties("empty")),
        geometry: None,
    };
    normalize_feature(&mut feature);
    assert_eq!(feature.geometry, None);
    assert_eq!(feature.properties, Some(named_properties("empty")));
}

#[test]
fn collection_without_polygons_is_kept() {
    let mut feature = Feature {
        properties: None,
        geometry: Some(Geometry::GeometryCollection(vec![
            point_geometry(),
            line_geometry(),
        ])),
    };
    normalize_feature(&mut feature);
    assert_eq!(
        feature.geometry,
        Some(Geometry::GeometryCollection(vec![
            point_geometry(),
            line_geometry(),
        ]))
    );
}

#[test]
fn mixed_collection_flattens_in_order() {
    let mut feature = Feature {
        properties: Some(named_properties("blocks")),
        geometry: Some(Geometry::GeometryCollection(vec![
            point_geometry(),
            Geometry::Polygon(ring_a()),
            line_geometry(),
            Geometry::Polygon(ring_b()),
        ])),
    };
    normalize_feature(&mut feature);
    assert_eq!(
        feature.geometry,
        Some(Geometry::MultiPolygon(vec![ring_a(), ring_b()]))
    );
    assert_eq!(feature.properties, Some(named_properties("blocks")));
}

#[test]
fn single_polygon_still_becomes_multi_polygon() {
    let mut feature = Feature {
        properties: None,
        geometry: Some(Geometry::GeometryCollection(vec![
            point_geometry(),
            Geometry::Polygon(ring_a()),
        ])),
    };
    normalize_feature(&mut feature);
    assert_eq!(
        feature.geometry,
        Some(Geometry::MultiPolygon(vec![ring_a()]))
    );
}

fn sample_collection() -> FeatureCollection {
    FeatureCollection {
        features: vec![
            Feature {
                properties: Some(named_properties("first")),
                geometry: Some(point_geometry()),
            },
            Feature {
                properties: Some(named_properties("second")),
                geometry: Some(Geometry::GeometryCollection(vec![
                    Geometry::Polygon(ring_a()),
                    line_geometry(),
                    Geometry::Polygon(ring_b()),
                ])),
            },
            Feature {
                properties: None,
                geometry: None,
            },
        ],
    }
}

#[test]
fn collection_keeps_count_order_and_properties() {
    let mut collection = sample_collection();
    normalize_collection(&mut collection);
    assert_eq!(collection.features.len(), 3);
    assert_eq!(
        collection.features[0].properties,
        Some(named_properties("first"))
    );
    assert_eq!(collection.features[0].geometry, Some(point_geometry()));
    assert_eq!(
        collection.features[1].properties,
        Some(named_properties("second"))
    );
    assert_eq!(
        collection.features[1].geometry,
        Some(Geometry::MultiPolygon(vec![ring_a(), ring_b()]))
    );
    assert_eq!(collection.features[2].properties, None);
    assert_eq!(collection.features[2].geometry, None);
}

#[test]
fn already_normalized_document_is_untouched() {
    let build = || FeatureCollection {
        features: vec![
            Feature {
                properties: Some(named_properties("first")),
                geometry: Some(point_geometry()),
            },
            Feature {
                properties: None,
                geometry: Some(Geometry::MultiPolygon(vec![ring_a(), ring_b()])),
            },
        ],
    };
    let mut collection = build();
    normalize_collection(&mut collection);
    assert_eq!(collection, build());
}

#[test]
fn second_pass_changes_nothing() {
    let mut once = sample_collection();
    normalize_collection(&mut once);
    let mut twice = sample_collection();
    normalize_collection(&mut twice);
    normalize_collection(&mut twice);
    assert_eq!(once, twice);
}

#[test]
fn name_of_feature_with_string_name() {
    let feature = Feature {
        properties: Some(named_properties("plot 7")),
        geometry: None,
    };
    assert_eq!(feature_name(&feature), Some(String::from("plot 7")));
}

#[test]
fn name_of_feature_without_properties() {
    let feature = Feature {
        properties: None,
        geometry: None,
    };
    assert_eq!(feature_name(&feature), None);
}

#[test]
fn name_of_feature_with_non_string_name() {
    let mut props = serde_json::Map::new();
    props.insert(
        String::from("name"),
        serde_json::Value::Number(serde_json::Number::from(7)),
    );
    let feature = Feature {
        properties: Some(props),
        geometry: None,
    };
    assert_eq!(feature_name(&feature), None);
}
