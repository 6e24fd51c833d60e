//! The radius of a circle or an ellipse.

use crate::capability::{
    always_animates, distance_agrees, yields_endpoint, Animate, ComputeSquaredDistance, Endpoint,
    Text, ToCss, ValueEq,
};
use crate::writer::write_str;
use style_traits::CssWriter;
use vstd::prelude::*;

verus! {

/// A radius: a length, or a keyword that names the side of the reference box to reach.
#[derive(Clone, Copy, Debug, PartialEq)]
pub enum GenericShapeRadius<NonNegativeLengthPercentage> {
    Length(NonNegativeLengthPercentage),
    ClosestSide,
    FarthestSide,
}

pub use GenericShapeRadius as ShapeRadius;

impl<N> Default for GenericShapeRadius<N> {
    fn default() -> (r: Self)
        ensures
            r is ClosestSide,
    {
        GenericShapeRadius::ClosestSide
    }
}

impl<N> GenericShapeRadius<N> {
    /// Whether the radius is the default one, `closest-side`. A default radius is left
    /// out of the CSS text of a circle or an ellipse.
    pub fn is_closest_side(&self) -> (b: bool)
        ensures
            b == (self is ClosestSide),
    {
        match self {
            GenericShapeRadius::ClosestSide => true,
            _ => false,
        }
    }
}

impl<N: View> View for GenericShapeRadius<N> {
    type V = GenericShapeRadius<N::V>;

    open spec fn view(&self) -> GenericShapeRadius<N::V> {
        match self {
            GenericShapeRadius::Length(length) => GenericShapeRadius::Length(length@),
            GenericShapeRadius::ClosestSide => GenericShapeRadius::ClosestSide,
            GenericShapeRadius::FarthestSide => GenericShapeRadius::FarthestSide,
        }
    }
}

impl<N: ValueEq> ValueEq for GenericShapeRadius<N> {
    fn value_eq(&self, other: &Self) -> (b: bool) {
        match (self, other) {
            (GenericShapeRadius::Length(a), GenericShapeRadius::Length(b)) => a.value_eq(b),
            (GenericShapeRadius::ClosestSide, GenericShapeRadius::ClosestSide) => true,
            (GenericShapeRadius::FarthestSide, GenericShapeRadius::FarthestSide) => true,
            _ => false,
        }
    }
}

impl<N: ToCss> ToCss for GenericShapeRadius<N> {
    open spec fn css(&self) -> Text {
        match self {
            GenericShapeRadius::Length(length) => length.css(),
            GenericShapeRadius::ClosestSide => "closest-side"@,
            GenericShapeRadius::FarthestSide => "farthest-side"@,
        }
    }

    open spec fn serializable(&self) -> bool {
        match self {
            GenericShapeRadius::Length(length) => length.serializable(),
            _ => true,
        }
    }

    open spec fn succeeds(&self) -> bool {
        match self {
            GenericShapeRadius::Length(length) => length.succeeds(),
            _ => true,
        }
    }

    fn to_css(&self, dest: &mut CssWriter<String>) -> (r: Result<(), std::fmt::Error>) {
        match self {
            GenericShapeRadius::Length(length) => length.to_css(dest),
            GenericShapeRadius::ClosestSide => write_str(dest, "closest-side"),
            GenericShapeRadius::FarthestSide => write_str(dest, "farthest-side"),
        }
    }
}

impl<Pr, N: Animate<Pr>> Animate<Pr> for GenericShapeRadius<N> {
    /// Only two lengths are interpolated. A pair with a keyword in it fails, also where
    /// both hold the same keyword.
    open spec fn animated(&self, other: &Self, procedure: Pr) -> Option<GenericShapeRadius<N::V>> {
        match (*self, *other) {
            (GenericShapeRadius::Length(a), GenericShapeRadius::Length(b)) => match a.animated(
                &b,
                procedure,
            ) {
                Some(length) => Some(GenericShapeRadius::Length(length)),
                None => None,
            },
            _ => None,
        }
    }

    fn animate(&self, other: &Self, procedure: Pr) -> (r: Result<Self, ()>) {
        match (self, other) {
            (GenericShapeRadius::Length(a), GenericShapeRadius::Length(b)) => {
                let length = a.animate(b, procedure)?;
                Ok(GenericShapeRadius::Length(length))
            },
            _ => Err(()),
        }
    }
}

impl<D, N: ComputeSquaredDistance<D>> ComputeSquaredDistance<D> for GenericShapeRadius<N> {
    /// Only two lengths have a distance: that of the lengths.
    open spec fn squared_distance(&self, other: &Self) -> Option<D> {
        match (*self, *other) {
            (GenericShapeRadius::Length(a), GenericShapeRadius::Length(b)) => a.squared_distance(
                &b,
            ),
            _ => None,
        }
    }

    fn compute_squared_distance(&self, other: &Self) -> (r: Result<D, ()>) {
        match (self, other) {
            (GenericShapeRadius::Length(a), GenericShapeRadius::Length(b)) => {
                a.compute_squared_distance(b)
            },
            _ => Err(()),
        }
    }
}

/// Where interpolating lengths at `procedure` gives one end of the pair, interpolating
/// radii does so too.
pub proof fn lemma_radius_yields_endpoint<Pr, N: Animate<Pr>>(procedure: Pr, endpoint: Endpoint)
    requires
        yields_endpoint::<N, Pr>(procedure, endpoint),
    ensures
        yields_endpoint::<GenericShapeRadius<N>, Pr>(procedure, endpoint),
{
}

/// Where lengths have a distance exactly when they can always be interpolated, so have
/// radii.
pub proof fn lemma_radius_distance_agrees<Pr, D, N: Animate<Pr> + ComputeSquaredDistance<D>>()
    requires
        distance_agrees::<N, Pr, D>(),
    ensures
        distance_agrees::<GenericShapeRadius<N>, Pr, D>(),
{
    assert forall|a: GenericShapeRadius<N>, b: GenericShapeRadius<N>|
        (#[trigger] a.squared_distance(&b)) is Some <==> always_animates::<
            GenericShapeRadius<N>,
            Pr,
        >(a, b) by {
        match (a, b) {
            (GenericShapeRadius::Length(x), GenericShapeRadius::Length(y)) => {
                assert(x.squared_distance(&y) is Some <==> always_animates::<N, Pr>(x, y));
                if always_animates::<N, Pr>(x, y) {
                    assert forall|procedure: Pr| (#[trigger] a.animated(&b, procedure)) is Some by {
                        assert(x.animated(&y, procedure) is Some);
                    }
                }
                if always_animates::<GenericShapeRadius<N>, Pr>(a, b) {
                    assert forall|procedure: Pr| (#[trigger] x.animated(&y, procedure)) is Some by {
                        assert(a.animated(&b, procedure) is Some);
                    }
                }
            },
            _ => {
                assert(a.animated(&b, arbitrary::<Pr>()) is None);
            },
        }
    }
}

} // verus!
