//! Core resources: assets, events, files, sequences, time series and
//! datapoints, with the sort and geometry types they share.

pub mod asset;
pub mod event;
pub mod files;
pub mod sequences;
pub mod datapoint;
pub mod time_series;


use vstd::prelude::*;

use std::collections::HashMap;

verus! {

/// Sort order for sorting core resources.
#[derive(Clone, Copy, PartialEq, Eq, Structural, Debug)]
pub enum CoreSortOrder {
    /// Ascending
    Asc,
    /// Descending.
    Desc,
}

/// Where to sort nulls.
#[derive(Clone, Copy, PartialEq, Eq, Structural, Debug)]
pub enum CoreSortNulls {
    /// Nulls first,
    First,
    /// Nulls last
    Last,
    /// Translates to `First` for `Asc` and `Last` for `Desc`.
    Auto,
}

/// Sort by a specific property
#[derive(Clone)]
pub struct CoreSortItem {
    /// Property to sort by.
    pub property: Vec<String>,
    /// Sort order. Defaults to `Asc`.
    pub order: Option<CoreSortOrder>,
    /// Null behavior. Defaults to `Auto`.
    pub nulls: Option<CoreSortNulls>,
}

impl Default for CoreSortItem {
    fn default() -> (r: Self)
        ensures
            r.property@.len() == 0,
            r.order.is_none(),
            r.nulls.is_none(),
    {
        CoreSortItem { property: Vec::new(), order: None, nulls: None }
    }
}

/// Geographic metadata.
#[derive(Clone)]
pub enum GeoLocation {
    /// GeoJson Feature.
    Feature(Feature),
}

/// A geographical feature.
#[derive(Clone)]
pub struct Feature {
    /// Represents the points, curves and surfaces in the coordinate space.
    pub geometry: GeoLocationGeometry,
    /// Additional properties, by name.
    pub properties: Option<HashMap<String, serde_json::Value>>,
}

/// Coordinates of a point in 2D space, each as the bits of an `f64`.
pub type Point = [u64; 2];

/// Coordinates of a line described by a list of two or more points.
pub type LineString = Vec<Point>;

/// A linear ring is the boundary of a surface or the boundary of a hole in a
/// surface: four or more points, the first and last the same.
pub type LinearRing = Vec<Point>;

/// List of one or more linear rings representing a shape.
pub type Polygon = Vec<LinearRing>;

/// Geometry variants.
#[derive(Clone)]
pub enum GeoLocationGeometry {
    /// Points in 2D space.
    Point(GeometryItem<Point>),
    /// A list of two or more points.
    LineString(GeometryItem<LineString>),
    /// A collection of linear rings that form a polygon.
    Polygon(GeometryItem<Polygon>),
    /// A set of multiple points.
    MultiPoint(GeometryItem<Vec<Point>>),
    /// A set of multiple lines.
    MultiLineString(GeometryItem<Vec<LineString>>),
    /// A set of multiple polygons.
    MultiPolygon(GeometryItem<Vec<Polygon>>),
}

/// A geometry item.
#[derive(Clone)]
pub struct GeometryItem<T> {
    /// Some form of coordinates.
    pub coordinates: T,
}

} // verus!
