//! The centre of a circle or an ellipse.

use crate::capability::{
    always_animates, distance_agrees, yields_endpoint, Animate, ComputeSquaredDistance, Distance,
    Endpoint, Text, ToCss, ValueEq,
};
use crate::writer::write_str;
use style_traits::CssWriter;
use vstd::prelude::*;

verus! {

/// A position, or `auto` where none was given.
#[derive(Clone, Copy, Debug, PartialEq)]
pub enum GenericPositionOrAuto<Pos> {
    Position(Pos),
    Auto,
}

pub use GenericPositionOrAuto as PositionOrAuto;

impl<P> GenericPositionOrAuto<P> {
    pub fn is_auto(&self) -> (b: bool)
        ensures
            b == (self is Auto),
    {
        match self {
            GenericPositionOrAuto::Auto => true,
            _ => false,
        }
    }
}

impl<P: View> View for GenericPositionOrAuto<P> {
    type V = GenericPositionOrAuto<P::V>;

    open spec fn view(&self) -> GenericPositionOrAuto<P::V> {
        match self {
            GenericPositionOrAuto::Position(position) => GenericPositionOrAuto::Position(
                position@,
            ),
            GenericPositionOrAuto::Auto => GenericPositionOrAuto::Auto,
        }
    }
}

impl<P: ValueEq> ValueEq for GenericPositionOrAuto<P> {
    fn value_eq(&self, other: &Self) -> (b: bool) {
        match (self, other) {
            (GenericPositionOrAuto::Position(a), GenericPositionOrAuto::Position(b)) => a.value_eq(
                b,
            ),
            (GenericPositionOrAuto::Auto, GenericPositionOrAuto::Auto) => true,
            _ => false,
        }
    }
}

impl<P: ToCss> ToCss for GenericPositionOrAuto<P> {
    open spec fn css(&self) -> Text {
        match self {
            GenericPositionOrAuto::Position(position) => position.css(),
            GenericPositionOrAuto::Auto => "auto"@,
        }
    }

    open spec fn serializable(&self) -> bool {
        match self {
            GenericPositionOrAuto::Position(position) => position.serializable(),
            GenericPositionOrAuto::Auto => true,
        }
    }

    open spec fn succeeds(&self) -> bool {
        match self {
            GenericPositionOrAuto::Position(position) => position.succeeds(),
            GenericPositionOrAuto::Auto => true,
        }
    }

    fn to_css(&self, dest: &mut CssWriter<String>) -> (r: Result<(), std::fmt::Error>) {
        match self {
            GenericPositionOrAuto::Position(position) => position.to_css(dest),
            GenericPositionOrAuto::Auto => write_str(dest, "auto"),
        }
    }
}

impl<Pr, P: Animate<Pr>> Animate<Pr> for GenericPositionOrAuto<P> {
    /// Two positions are interpolated, two `auto` stay `auto`, and a position and `auto`
    /// fail.
    open spec fn animated(&self, other: &Self, procedure: Pr) -> Option<
        GenericPositionOrAuto<P::V>,
    > {
        match (*self, *other) {
            (
                GenericPositionOrAuto::Position(a),
                GenericPositionOrAuto::Position(b),
            ) => match a.animated(&b, procedure) {
                Some(position) => Some(GenericPositionOrAuto::Position(position)),
                None => None,
            },
            (GenericPositionOrAuto::Auto, GenericPositionOrAuto::Auto) => Some(
                GenericPositionOrAuto::Auto,
            ),
            _ => None,
        }
    }

    fn animate(&self, other: &Self, procedure: Pr) -> (r: Result<Self, ()>) {
        match (self, other) {
            (GenericPositionOrAuto::Position(a), GenericPositionOrAuto::Position(b)) => {
                let position = a.animate(b, procedure)?;
                Ok(GenericPositionOrAuto::Position(position))
            },
            (GenericPositionOrAuto::Auto, GenericPositionOrAuto::Auto) => Ok(
                GenericPositionOrAuto::Auto,
            ),
            _ => Err(()),
        }
    }
}

impl<D: Distance, P: ComputeSquaredDistance<D>> ComputeSquaredDistance<
    D,
> for GenericPositionOrAuto<P> {
    /// Two positions have the distance of the positions, two `auto` have none to go, and
    /// a position and `auto` have no distance.
    open spec fn squared_distance(&self, other: &Self) -> Option<D> {
        match (*self, *other) {
            (
                GenericPositionOrAuto::Position(a),
                GenericPositionOrAuto::Position(b),
            ) => a.squared_distance(&b),
            (GenericPositionOrAuto::Auto, GenericPositionOrAuto::Auto) => Some(D::zero_spec()),
            _ => None,
        }
    }

    fn compute_squared_distance(&self, other: &Self) -> (r: Result<D, ()>) {
        match (self, other) {
            (GenericPositionOrAuto::Position(a), GenericPositionOrAuto::Position(b)) => {
                a.compute_squared_distance(b)
            },
            (GenericPositionOrAuto::Auto, GenericPositionOrAuto::Auto) => Ok(D::zero()),
            _ => Err(()),
        }
    }
}

/// Where interpolating positions at `procedure` gives one end of the pair, interpolating
/// positions that may be `auto` does so too.
pub proof fn lemma_position_yields_endpoint<Pr, P: Animate<Pr>>(procedure: Pr, endpoint: Endpoint)
    requires
        yields_endpoint::<P, Pr>(procedure, endpoint),
    ensures
        yields_endpoint::<GenericPositionOrAuto<P>, Pr>(procedure, endpoint),
{
}

/// Where positions have a distance exactly when they can always be interpolated, so have
/// positions that may be `auto`.
pub proof fn lemma_position_distance_agrees<
    Pr,
    D: Distance,
    P: Animate<Pr> + ComputeSquaredDistance<D>,
>()
    requires
        distance_agrees::<P, Pr, D>(),
    ensures
        distance_agrees::<GenericPositionOrAuto<P>, Pr, D>(),
{
    assert forall|a: GenericPositionOrAuto<P>, b: GenericPositionOrAuto<P>|
        (#[trigger] a.squared_distance(&b)) is Some <==> always_animates::<
            GenericPositionOrAuto<P>,
            Pr,
        >(a, b) by {
        match (a, b) {
            (GenericPositionOrAuto::Position(x), GenericPositionOrAuto::Position(y)) => {
                assert(x.squared_distance(&y) is Some <==> always_animates::<P, Pr>(x, y));
                if always_animates::<P, Pr>(x, y) {
                    assert forall|procedure: Pr| (#[trigger] a.animated(&b, procedure)) is Some by {
                        assert(x.animated(&y, procedure) is Some);
                    }
                }
                if always_animates::<GenericPositionOrAuto<P>, Pr>(a, b) {
                    assert forall|procedure: Pr| (#[trigger] x.animated(&y, procedure)) is Some by {
                        assert(a.animated(&b, procedure) is Some);
                    }
                }
            },
            (GenericPositionOrAuto::Auto, GenericPositionOrAuto::Auto) => {},
            _ => {
                assert(a.animated(&b, arbitrary::<Pr>()) is None);
            },
        }
    }
}

} // verus!
