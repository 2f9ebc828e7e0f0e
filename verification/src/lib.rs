//! Normalization of GeoJSON feature collections: every top-level
//! `GeometryCollection` geometry that contains `Polygon` members is rewritten
//! into a single `MultiPolygon`, preserving feature order and properties.
//! Other geometry kinds pass through untouched.

pub mod batch;
pub mod files;
pub mod geometry;
pub mod interop;
pub mod normalize;

pub use batch::BatchEntry;
pub use batch::process_batch;
pub use files::is_geojson_file_name;
pub use files::select_geojson_names;
pub use geometry::Feature;
pub use geometry::FeatureCollection;
pub use geometry::Geometry;
pub use geometry::PolygonRings;
pub use normalize::extract_polygons;
pub use normalize::feature_name;
pub use normalize::normalize_collection;
pub use normalize::normalize_feature;
