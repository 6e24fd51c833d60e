//! `path()`: a shape given by SVG path data.

use crate::capability::{
    always_animates, distance_agrees, plus_opt, put_item, yields_endpoint, Animate,
    ComputeSquaredDistance, Distance, Endpoint, Text, ToCss, ValueEq,
};
use crate::keyword::FillRule;
use crate::polygon::{fill_css, put_fill};
use crate::writer::{put_char, put_str};
use style_traits::CssWriter;
use vstd::prelude::*;

verus! {

/// A path: the fill rule and the path data. The path data is a type of its own, with its
/// own CSS text, interpolation and distance.
#[derive(Clone, Debug, PartialEq)]
pub struct Path<PathData> {
    /// The rule that tells the inside of the path from its outside.
    pub fill: FillRule,
    /// The path data.
    pub path: PathData,
}

impl<S: View> View for Path<S> {
    type V = Path<S::V>;

    open spec fn view(&self) -> Path<S::V> {
        Path { fill: self.fill, path: self.path@ }
    }
}

impl<S: ValueEq> ValueEq for Path<S> {
    fn value_eq(&self, other: &Self) -> (b: bool) {
        self.fill == other.fill && self.path.value_eq(&other.path)
    }
}

impl<S: ToCss> ToCss for Path<S> {
    /// `path(<fill-rule>, <path data>)`. The fill rule and its comma are left out where
    /// the rule is the default, `nonzero`.
    open spec fn css(&self) -> Text {
        "path("@ + fill_css(self.fill, ", "@) + self.path.css() + seq![')']
    }

    open spec fn serializable(&self) -> bool {
        self.path.serializable()
    }

    open spec fn succeeds(&self) -> bool {
        self.path.succeeds()
    }

    fn to_css(&self, dest: &mut CssWriter<String>) -> (r: Result<(), std::fmt::Error>) {
        let ghost start = *dest;
        let ghost mut sent = Seq::<char>::empty();
        put_str(dest, "path(", Ghost(start), Ghost(sent))?;
        proof {
            sent = sent + "path("@;
        }
        put_fill(&self.fill, ", ", dest, Ghost(start), Ghost(sent))?;
        proof {
            sent = sent + fill_css(self.fill, ", "@);
        }
        put_item(&self.path, dest, Ghost(start), Ghost(sent))?;
        proof {
            sent = sent + self.path.css();
        }
        let r = put_char(dest, ')', Ghost(start), Ghost(sent));
        proof {
            sent = sent + seq![')'];
            assert(sent =~= self.css());
        }
        r
    }
}

impl<Pr: Copy, S: Animate<Pr>> Animate<Pr> for Path<S> {
    /// Two paths with the same fill rule are interpolated by their path data. Paths with
    /// different fill rules fail.
    open spec fn animated(&self, other: &Self, procedure: Pr) -> Option<Path<S::V>> {
        if self.fill != other.fill {
            None
        } else {
            match self.path.animated(&other.path, procedure) {
                Some(path) => Some(Path { fill: self.fill, path }),
                None => None,
            }
        }
    }

    fn animate(&self, other: &Self, procedure: Pr) -> (r: Result<Self, ()>)
        ensures
            self.fill != other.fill ==> r is Err,
    {
        let fill = self.fill.animate(&other.fill, procedure)?;
        let path = self.path.animate(&other.path, procedure)?;
        Ok(Path { fill, path })
    }
}

impl<D: Distance, S: ComputeSquaredDistance<D>> ComputeSquaredDistance<D> for Path<S> {
    /// For two paths with the same fill rule, the distance of the fill rules, which is
    /// zero, plus that of the path data. Paths with different fill rules have none.
    open spec fn squared_distance(&self, other: &Self) -> Option<D> {
        plus_opt(
            if self.fill == other.fill {
                Some(D::zero_spec())
            } else {
                None
            },
            self.path.squared_distance(&other.path),
        )
    }

    fn compute_squared_distance(&self, other: &Self) -> (r: Result<D, ()>)
        ensures
            self.fill != other.fill ==> r is Err,
    {
        let fill: D = self.fill.compute_squared_distance(&other.fill)?;
        let path = self.path.compute_squared_distance(&other.path)?;
        Ok(fill.plus(path))
    }
}

/// Where interpolating path data at `procedure` gives one end of the pair, interpolating
/// paths does so too.
pub proof fn lemma_path_yields_endpoint<Pr: Copy, S: Animate<Pr>>(procedure: Pr, endpoint: Endpoint)
    requires
        yields_endpoint::<S, Pr>(procedure, endpoint),
    ensures
        yields_endpoint::<Path<S>, Pr>(procedure, endpoint),
{
}

/// Where path data has a distance exactly when it can always be interpolated, so have
/// paths.
pub proof fn lemma_path_distance_agrees<
    Pr: Copy,
    D: Distance,
    S: Animate<Pr> + ComputeSquaredDistance<D>,
>()
    requires
        distance_agrees::<S, Pr, D>(),
    ensures
        distance_agrees::<Path<S>, Pr, D>(),
{
    assert forall|a: Path<S>, b: Path<S>|
        (#[trigger] a.squared_distance(&b)) is Some <==> always_animates::<Path<S>, Pr>(a, b) by {
        assert(a.path.squared_distance(&b.path) is Some <==> always_animates::<S, Pr>(
            a.path,
            b.path,
        ));
        if always_animates::<Path<S>, Pr>(a, b) {
            assert(a.animated(&b, arbitrary::<Pr>()) is Some);
            assert forall|procedure: Pr| (#[trigger] a.path.animated(&b.path, procedure)) is Some by {
                assert(a.animated(&b, procedure) is Some);
            }
        }
        if a.squared_distance(&b) is Some {
            assert forall|procedure: Pr| (#[trigger] a.animated(&b, procedure)) is Some by {
                assert(a.path.animated(&b.path, procedure) is Some);
            }
        }
    }
}

} // verus!
