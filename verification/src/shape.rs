//! The basic shape: one of the five shape functions.

use crate::capability::{
    always_animates, distance_agrees, yields_endpoint, Animate, ComputeSquaredDistance, Distance,
    Endpoint, Text, ToCss, ValueEq, Zero,
};
use crate::path::{lemma_path_distance_agrees, lemma_path_yields_endpoint, Path};
use crate::polygon::{
    lemma_polygon_distance_agrees, lemma_polygon_yields_endpoint, GenericPolygon, PolygonModel,
};
use crate::shapes::{
    lemma_circle_distance_agrees, lemma_circle_yields_endpoint, lemma_ellipse_distance_agrees,
    lemma_ellipse_yields_endpoint, lemma_inset_distance_agrees, lemma_inset_yields_endpoint,
    Circle, Ellipse, InsetRect,
};
use style_traits::CssWriter;
use vstd::prelude::*;

verus! {

/// A basic shape.
#[derive(Clone, Debug, PartialEq)]
pub enum GenericBasicShape<Position, LengthPercentage, NonNegativeLengthPercentage, PathData> {
    /// A rectangle given by its distance from each edge of the reference box.
    Inset(InsetRect<LengthPercentage, NonNegativeLengthPercentage>),
    /// A circle given by its centre and its radius.
    Circle(Circle<Position, NonNegativeLengthPercentage>),
    /// An ellipse given by its centre and its two radii.
    Ellipse(Ellipse<Position, NonNegativeLengthPercentage>),
    /// A polygon given by its corners.
    Polygon(GenericPolygon<LengthPercentage>),
    /// A path given by SVG path data.
    Path(Path<PathData>),
}

pub use GenericBasicShape as BasicShape;

/// What a basic shape stands for.
pub enum BasicShapeModel<P, L, N, S> {
    Inset(InsetRect<L, N>),
    Circle(Circle<P, N>),
    Ellipse(Ellipse<P, N>),
    Polygon(PolygonModel<L>),
    Path(Path<S>),
}

impl<P: View, L: View, N: View, S: View> View for GenericBasicShape<P, L, N, S> {
    type V = BasicShapeModel<P::V, L::V, N::V, S::V>;

    open spec fn view(&self) -> BasicShapeModel<P::V, L::V, N::V, S::V> {
        match self {
            GenericBasicShape::Inset(inset) => BasicShapeModel::Inset(inset@),
            GenericBasicShape::Circle(circle) => BasicShapeModel::Circle(circle@),
            GenericBasicShape::Ellipse(ellipse) => BasicShapeModel::Ellipse(ellipse@),
            GenericBasicShape::Polygon(polygon) => BasicShapeModel::Polygon(polygon@),
            GenericBasicShape::Path(path) => BasicShapeModel::Path(path@),
        }
    }
}

impl<P: ValueEq, L: ValueEq, N: ValueEq, S: ValueEq> ValueEq for GenericBasicShape<P, L, N, S> {
    fn value_eq(&self, other: &Self) -> (b: bool) {
        match (self, other) {
            (GenericBasicShape::Inset(a), GenericBasicShape::Inset(b)) => a.value_eq(b),
            (GenericBasicShape::Circle(a), GenericBasicShape::Circle(b)) => a.value_eq(b),
            (GenericBasicShape::Ellipse(a), GenericBasicShape::Ellipse(b)) => a.value_eq(b),
            (GenericBasicShape::Polygon(a), GenericBasicShape::Polygon(b)) => a.value_eq(b),
            (GenericBasicShape::Path(a), GenericBasicShape::Path(b)) => a.value_eq(b),
            _ => false,
        }
    }
}

impl<
    P: ToCss,
    L: ToCss + ValueEq,
    N: ToCss + ValueEq + Zero,
    S: ToCss,
> ToCss for GenericBasicShape<P, L, N, S> {
    /// The text of the shape function that the value holds.
    open spec fn css(&self) -> Text {
        match self {
            GenericBasicShape::Inset(inset) => inset.css(),
            GenericBasicShape::Circle(circle) => circle.css(),
            GenericBasicShape::Ellipse(ellipse) => ellipse.css(),
            GenericBasicShape::Polygon(polygon) => polygon.css(),
            GenericBasicShape::Path(path) => path.css(),
        }
    }

    open spec fn serializable(&self) -> bool {
        match self {
            GenericBasicShape::Inset(inset) => inset.serializable(),
            GenericBasicShape::Circle(circle) => circle.serializable(),
            GenericBasicShape::Ellipse(ellipse) => ellipse.serializable(),
            GenericBasicShape::Polygon(polygon) => polygon.serializable(),
            GenericBasicShape::Path(path) => path.serializable(),
        }
    }

    open spec fn succeeds(&self) -> bool {
        match self {
            GenericBasicShape::Inset(inset) => inset.succeeds(),
            GenericBasicShape::Circle(circle) => circle.succeeds(),
            GenericBasicShape::Ellipse(ellipse) => ellipse.succeeds(),
            GenericBasicShape::Polygon(polygon) => polygon.succeeds(),
            GenericBasicShape::Path(path) => path.succeeds(),
        }
    }

    fn to_css(&self, dest: &mut CssWriter<String>) -> (r: Result<(), std::fmt::Error>) {
        match self {
            GenericBasicShape::Inset(inset) => inset.to_css(dest),
            GenericBasicShape::Circle(circle) => circle.to_css(dest),
            GenericBasicShape::Ellipse(ellipse) => ellipse.to_css(dest),
            GenericBasicShape::Polygon(polygon) => polygon.to_css(dest),
            GenericBasicShape::Path(path) => path.to_css(dest),
        }
    }
}

impl<P, L, N, S> GenericBasicShape<P, L, N, S> {
    /// Whether two shapes are given by the same shape function.
    pub open spec fn same_kind(&self, other: &Self) -> bool {
        match (self, other) {
            (GenericBasicShape::Inset(_), GenericBasicShape::Inset(_)) => true,
            (GenericBasicShape::Circle(_), GenericBasicShape::Circle(_)) => true,
            (GenericBasicShape::Ellipse(_), GenericBasicShape::Ellipse(_)) => true,
            (GenericBasicShape::Polygon(_), GenericBasicShape::Polygon(_)) => true,
            (GenericBasicShape::Path(_), GenericBasicShape::Path(_)) => true,
            _ => false,
        }
    }
}

impl<
    Pr: Copy,
    P: Animate<Pr>,
    L: Animate<Pr>,
    N: Animate<Pr>,
    S: Animate<Pr>,
> Animate<Pr> for GenericBasicShape<P, L, N, S> {
    /// Two shapes given by the same shape function are interpolated as that function
    /// says. Shapes given by different functions fail.
    open spec fn animated(&self, other: &Self, procedure: Pr) -> Option<
        BasicShapeModel<P::V, L::V, N::V, S::V>,
    > {
        match (*self, *other) {
            (GenericBasicShape::Inset(a), GenericBasicShape::Inset(b)) => match a.animated(
                &b,
                procedure,
            ) {
                Some(inset) => Some(BasicShapeModel::Inset(inset)),
                None => None,
            },
            (GenericBasicShape::Circle(a), GenericBasicShape::Circle(b)) => match a.animated(
                &b,
                procedure,
            ) {
                Some(circle) => Some(BasicShapeModel::Circle(circle)),
                None => None,
            },
            (GenericBasicShape::Ellipse(a), GenericBasicShape::Ellipse(b)) => match a.animated(
                &b,
                procedure,
            ) {
                Some(ellipse) => Some(BasicShapeModel::Ellipse(ellipse)),
                None => None,
            },
            (GenericBasicShape::Polygon(a), GenericBasicShape::Polygon(b)) => match a.animated(
                &b,
                procedure,
            ) {
                Some(polygon) => Some(BasicShapeModel::Polygon(polygon)),
                None => None,
            },
            (GenericBasicShape::Path(a), GenericBasicShape::Path(b)) => match a.animated(
                &b,
                procedure,
            ) {
                Some(path) => Some(BasicShapeModel::Path(path)),
                None => None,
            },
            _ => None,
        }
    }

    fn animate(&self, other: &Self, procedure: Pr) -> (r: Result<Self, ()>)
        ensures
            !self.same_kind(other) ==> r is Err,
    {
        match (self, other) {
            (GenericBasicShape::Inset(a), GenericBasicShape::Inset(b)) => {
                let inset = a.animate(b, procedure)?;
                Ok(GenericBasicShape::Inset(inset))
            },
            (GenericBasicShape::Circle(a), GenericBasicShape::Circle(b)) => {
                let circle = a.animate(b, procedure)?;
                Ok(GenericBasicShape::Circle(circle))
            },
            (GenericBasicShape::Ellipse(a), GenericBasicShape::Ellipse(b)) => {
                let ellipse = a.animate(b, procedure)?;
                Ok(GenericBasicShape::Ellipse(ellipse))
            },
            (GenericBasicShape::Polygon(a), GenericBasicShape::Polygon(b)) => {
                let polygon = a.animate(b, procedure)?;
                Ok(GenericBasicShape::Polygon(polygon))
            },
            (GenericBasicShape::Path(a), GenericBasicShape::Path(b)) => {
                let path = a.animate(b, procedure)?;
                Ok(GenericBasicShape::Path(path))
            },
            _ => Err(()),
        }
    }
}

impl<
    D: Distance,
    P: ComputeSquaredDistance<D>,
    L: ComputeSquaredDistance<D>,
    N: ComputeSquaredDistance<D>,
    S: ComputeSquaredDistance<D>,
> ComputeSquaredDistance<D> for GenericBasicShape<P, L, N, S> {
    /// Two shapes given by the same shape function have the distance that the function
    /// says. Shapes given by different functions have none.
    open spec fn squared_distance(&self, other: &Self) -> Option<D> {
        match (*self, *other) {
            (GenericBasicShape::Inset(a), GenericBasicShape::Inset(b)) => a.squared_distance(&b),
            (GenericBasicShape::Circle(a), GenericBasicShape::Circle(b)) => a.squared_distance(&b),
            (GenericBasicShape::Ellipse(a), GenericBasicShape::Ellipse(b)) => a.squared_distance(
                &b,
            ),
            (GenericBasicShape::Polygon(a), GenericBasicShape::Polygon(b)) => a.squared_distance(
                &b,
            ),
            (GenericBasicShape::Path(a), GenericBasicShape::Path(b)) => a.squared_distance(&b),
            _ => None,
        }
    }

    fn compute_squared_distance(&self, other: &Self) -> (r: Result<D, ()>)
        ensures
            !self.same_kind(other) ==> r is Err,
    {
        match (self, other) {
            (GenericBasicShape::Inset(a), GenericBasicShape::Inset(b)) => {
                a.compute_squared_distance(b)
            },
            (GenericBasicShape::Circle(a), GenericBasicShape::Circle(b)) => {
                a.compute_squared_distance(b)
            },
            (GenericBasicShape::Ellipse(a), GenericBasicShape::Ellipse(b)) => {
                a.compute_squared_distance(b)
            },
            (GenericBasicShape::Polygon(a), GenericBasicShape::Polygon(b)) => {
                a.compute_squared_distance(b)
            },
            (GenericBasicShape::Path(a), GenericBasicShape::Path(b)) => {
                a.compute_squared_distance(b)
            },
            _ => Err(()),
        }
    }
}

/// Interpolation returns its ends: where interpolating positions, lengths and path data
/// at `procedure` gives one end of the pair, interpolating basic shapes does so too.
/// With the procedure that stands for no progress this is the shape interpolated from,
/// with the one that stands for full progress the shape interpolated towards.
pub proof fn lemma_shape_yields_endpoint<
    Pr: Copy,
    P: Animate<Pr>,
    L: Animate<Pr>,
    N: Animate<Pr>,
    S: Animate<Pr>,
>(procedure: Pr, endpoint: Endpoint)
    requires
        yields_endpoint::<P, Pr>(procedure, endpoint),
        yields_endpoint::<L, Pr>(procedure, endpoint),
        yields_endpoint::<N, Pr>(procedure, endpoint),
        yields_endpoint::<S, Pr>(procedure, endpoint),
    ensures
        yields_endpoint::<GenericBasicShape<P, L, N, S>, Pr>(procedure, endpoint),
{
    lemma_inset_yields_endpoint::<Pr, L, N>(procedure, endpoint);
    lemma_circle_yields_endpoint::<Pr, P, N>(procedure, endpoint);
    lemma_ellipse_yields_endpoint::<Pr, P, N>(procedure, endpoint);
    lemma_polygon_yields_endpoint::<Pr, L>(procedure, endpoint);
    lemma_path_yields_endpoint::<Pr, S>(procedure, endpoint);
}

/// A distance exists exactly where interpolation always succeeds: where that holds of
/// positions, lengths and path data, it holds of basic shapes.
pub proof fn lemma_shape_distance_agrees<
    Pr: Copy,
    D: Distance,
    P: Animate<Pr> + ComputeSquaredDistance<D>,
    L: Animate<Pr> + ComputeSquaredDistance<D>,
    N: Animate<Pr> + ComputeSquaredDistance<D>,
    S: Animate<Pr> + ComputeSquaredDistance<D>,
>()
    requires
        distance_agrees::<P, Pr, D>(),
        distance_agrees::<L, Pr, D>(),
        distance_agrees::<N, Pr, D>(),
        distance_agrees::<S, Pr, D>(),
    ensures
        distance_agrees::<GenericBasicShape<P, L, N, S>, Pr, D>(),
{
    lemma_inset_distance_agrees::<Pr, D, L, N>();
    lemma_circle_distance_agrees::<Pr, D, P, N>();
    lemma_ellipse_distance_agrees::<Pr, D, P, N>();
    lemma_polygon_distance_agrees::<Pr, D, L>();
    lemma_path_distance_agrees::<Pr, D, S>();
    assert forall|a: GenericBasicShape<P, L, N, S>, b: GenericBasicShape<P, L, N, S>|
        (#[trigger] a.squared_distance(&b)) is Some <==> always_animates::<
            GenericBasicShape<P, L, N, S>,
            Pr,
        >(a, b) by {
        match (a, b) {
            (GenericBasicShape::Inset(x), GenericBasicShape::Inset(y)) => {
                assert(x.squared_distance(&y) is Some <==> always_animates::<InsetRect<L, N>, Pr>(
                    x,
                    y,
                ));
                if always_animates::<InsetRect<L, N>, Pr>(x, y) {
                    assert forall|procedure: Pr| (#[trigger] a.animated(&b, procedure)) is Some by {
                        assert(x.animated(&y, procedure) is Some);
                    }
                }
                if always_animates::<GenericBasicShape<P, L, N, S>, Pr>(a, b) {
                    assert forall|procedure: Pr| (#[trigger] x.animated(&y, procedure)) is Some by {
                        assert(a.animated(&b, procedure) is Some);
                    }
                }
            },
            (GenericBasicShape::Circle(x), GenericBasicShape::Circle(y)) => {
                assert(x.squared_distance(&y) is Some <==> always_animates::<Circle<P, N>, Pr>(
                    x,
                    y,
                ));
                if always_animates::<Circle<P, N>, Pr>(x, y) {
                    assert forall|procedure: Pr| (#[trigger] a.animated(&b, procedure)) is Some by {
                        assert(x.animated(&y, procedure) is Some);
                    }
                }
                if always_animates::<GenericBasicShape<P, L, N, S>, Pr>(a, b) {
                    assert forall|procedure: Pr| (#[trigger] x.animated(&y, procedure)) is Some by {
                        assert(a.animated(&b, procedure) is Some);
                    }
                }
            },
            (GenericBasicShape::Ellipse(x), GenericBasicShape::Ellipse(y)) => {
                assert(x.squared_distance(&y) is Some <==> always_animates::<Ellipse<P, N>, Pr>(
                    x,
                    y,
                ));
                if always_animates::<Ellipse<P, N>, Pr>(x, y) {
                    assert forall|procedure: Pr| (#[trigger] a.animated(&b, procedure)) is Some by {
                        assert(x.animated(&y, procedure) is Some);
                    }
                }
                if always_animates::<GenericBasicShape<P, L, N, S>, Pr>(a, b) {
                    assert forall|procedure: Pr| (#[trigger] x.animated(&y, procedure)) is Some by {
                        assert(a.animated(&b, procedure) is Some);
                    }
                }
            },
            (GenericBasicShape::Polygon(x), GenericBasicShape::Polygon(y)) => {
                assert(x.squared_distance(&y) is Some <==> always_animates::<
                    GenericPolygon<L>,
                    Pr,
                >(x, y));
                if always_animates::<GenericPolygon<L>, Pr>(x, y) {
                    assert forall|procedure: Pr| (#[trigger] a.animated(&b, procedure)) is Some by {
                        assert(x.animated(&y, procedure) is Some);
                    }
                }
                if always_animates::<GenericBasicShape<P, L, N, S>, Pr>(a, b) {
                    assert forall|procedure: Pr| (#[trigger] x.animated(&y, procedure)) is Some by {
                        assert(a.animated(&b, procedure) is Some);
                    }
                }
            },
            (GenericBasicShape::Path(x), GenericBasicShape::Path(y)) => {
                assert(x.squared_distance(&y) is Some <==> always_animates::<Path<S>, Pr>(x, y));
                if always_animates::<Path<S>, Pr>(x, y) {
                    assert forall|procedure: Pr| (#[trigger] a.animated(&b, procedure)) is Some by {
                        assert(x.animated(&y, procedure) is Some);
                    }
                }
                if always_animates::<GenericBasicShape<P, L, N, S>, Pr>(a, b) {
                    assert forall|procedure: Pr| (#[trigger] x.animated(&y, procedure)) is Some by {
                        assert(a.animated(&b, procedure) is Some);
                    }
                }
            },
            _ => {
                assert(a.animated(&b, arbitrary::<Pr>()) is None);
            },
        }
    }
}

} // verus!
