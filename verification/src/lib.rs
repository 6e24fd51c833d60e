//! CSS basic shapes (`inset()`, `circle()`, `ellipse()`, `polygon()`, `path()`) and the
//! values of `clip-path` and `shape-outside` that hold them: their data, their CSS text,
//! their interpolation and their squared distance.

pub mod capability;
pub mod keyword;
pub mod lists;
pub mod path;
pub mod polygon;
pub mod position;
pub mod property;
pub mod radius;
pub mod shape;
pub mod shapes;
pub mod sides;
pub mod writer;

pub use capability::{
    always_animates, distance_agrees, yields_endpoint, Animate, ComputeSquaredDistance, Distance,
    Endpoint, Text, ToCss, ValueEq, Zero,
};
pub use keyword::{is_default, FillRule, ShapeBox, ShapeGeometryBox};
pub use path::Path;
pub use polygon::{GenericPolygon, Polygon, PolygonCoord, PolygonModel};
pub use position::{GenericPositionOrAuto, PositionOrAuto};
pub use property::{ClipPath, GenericClipPath, GenericShapeOutside, ShapeOutside};
pub use radius::{GenericShapeRadius, ShapeRadius};
pub use shape::{BasicShape, BasicShapeModel, GenericBasicShape};
pub use shapes::{Circle, Ellipse, InsetRect};
pub use sides::{BorderCornerRadius, BorderRadius, Rect};
pub use vstd::view::View;
