//! What a value type has to offer to take part in a shape: a CSS text, a comparison, a
//! zero test, interpolation and a distance.
//!
//! The shapes are generic over the types of their lengths, positions and path data.
//! Each trait here names the result of its operation with a spec function, so that the
//! contracts of the shapes can say exactly what they do with the results. What is
//! proved of a shape holds for field types whose operations return what their spec
//! functions say.
//!
//! A type that is not verified implements the spec functions as well, as ordinary
//! functions with any body: they are never run.

use crate::writer::{emitted, lemma_emitted_concat};
use style_traits::CssWriter;
use vstd::prelude::*;

verus! {

/// A text, as contracts see it.
pub type Text = Seq<char>;

/// Serialization to CSS syntax.
pub trait ToCss {
    /// The CSS text of the value.
    spec fn css(&self) -> Text;

    /// Whether the value can be serialized at all. Only a reference box that was never
    /// resolved cannot.
    open spec fn serializable(&self) -> bool {
        true
    }

    /// Whether serializing the value succeeds. The sink takes whatever it is given, so
    /// this is up to the value alone. The types of this crate fail only where one of
    /// their fields fails.
    spec fn succeeds(&self) -> bool;

    /// Sends the CSS text of the value to `dest`. After a failure, `dest` may hold a part
    /// of the text.
    fn to_css(&self, dest: &mut CssWriter<String>) -> (r: Result<(), std::fmt::Error>)
        requires
            self.serializable(),
        ensures
            r is Ok <==> self.succeeds(),
            r is Ok ==> emitted(*old(dest), *final(dest), self.css()),
    ;
}

/// Comparison of two values by what they stand for.
pub trait ValueEq: View {
    fn value_eq(&self, other: &Self) -> (b: bool)
        ensures
            b == (self@ == other@),
    ;
}

/// Values with a zero.
pub trait Zero: Sized {
    /// Whether the value is zero.
    spec fn is_zero_spec(&self) -> bool;

    fn zero() -> (z: Self)
        ensures
            z.is_zero_spec(),
    ;

    fn is_zero(&self) -> (b: bool)
        ensures
            b == self.is_zero_spec(),
    ;
}

/// Interpolation between two values. `Pr` is the procedure: how far to go, or how to
/// add or accumulate. The shapes hand it to their fields unchanged.
pub trait Animate<Pr>: View + Sized {
    /// The value between `self` and `other` that `procedure` asks for, or `None` where
    /// the pair cannot be interpolated.
    spec fn animated(&self, other: &Self, procedure: Pr) -> Option<Self::V>;

    fn animate(&self, other: &Self, procedure: Pr) -> (r: Result<Self, ()>)
        ensures
            match r {
                Ok(v) => self.animated(other, procedure) == Some(v@),
                Err(_) => self.animated(other, procedure) is None,
            },
    ;
}

/// A squared distance: a quantity with a zero that can be added up.
pub trait Distance: Sized {
    /// The distance of a value to itself.
    spec fn zero_spec() -> Self;

    /// The sum of two squared distances.
    spec fn plus_spec(self, other: Self) -> Self;

    fn zero() -> (d: Self)
        ensures
            d == Self::zero_spec(),
    ;

    fn plus(self, other: Self) -> (d: Self)
        ensures
            d == self.plus_spec(other),
    ;
}

/// The squared distance between two values.
pub trait ComputeSquaredDistance<D>: Sized {
    /// The squared distance from `self` to `other`, or `None` where the pair has none.
    spec fn squared_distance(&self, other: &Self) -> Option<D>;

    fn compute_squared_distance(&self, other: &Self) -> (r: Result<D, ()>)
        ensures
            match r {
                Ok(d) => self.squared_distance(other) == Some(d),
                Err(_) => self.squared_distance(other) is None,
            },
    ;
}

/// The sum of two squared distances, where both exist.
pub open spec fn plus_opt<D: Distance>(a: Option<D>, b: Option<D>) -> Option<D> {
    match (a, b) {
        (Some(x), Some(y)) => Some(x.plus_spec(y)),
        _ => None,
    }
}

/// Sends the CSS text of `item` after `done` has been sent since `start`.
pub(crate) fn put_item<T: ToCss>(
    item: &T,
    dest: &mut CssWriter<String>,
    Ghost(start): Ghost<CssWriter<String>>,
    Ghost(done): Ghost<Seq<char>>,
) -> (r: Result<(), std::fmt::Error>)
    requires
        item.serializable(),
        emitted(start, *old(dest), done),
    ensures
        r is Ok <==> item.succeeds(),
        r is Ok ==> emitted(start, *final(dest), done + item.css()),
{
    let ghost before = *dest;
    let r = item.to_css(dest);
    proof {
        if r is Ok {
            lemma_emitted_concat(start, before, *dest, done, item.css());
        }
    }
    r
}

/// One of the two values of a pair.
pub enum Endpoint {
    /// The value that is interpolated from.
    Start,
    /// The value that is interpolated towards.
    End,
}

impl Endpoint {
    /// The value of the pair that `self` points at.
    pub open spec fn of<V>(self, start: V, end: V) -> V {
        match self {
            Endpoint::Start => start,
            Endpoint::End => end,
        }
    }
}

/// At `procedure`, interpolating any pair of `T` that can be interpolated gives the
/// value of the pair that `endpoint` points at.
pub open spec fn yields_endpoint<T: Animate<Pr>, Pr>(procedure: Pr, endpoint: Endpoint) -> bool {
    forall|a: T, b: T|
        (#[trigger] a.animated(&b, procedure)) is Some ==> a.animated(&b, procedure) == Some(
            endpoint.of(a@, b@),
        )
}

/// Whether the pair can be interpolated whatever the procedure.
pub open spec fn always_animates<T: Animate<Pr>, Pr>(a: T, b: T) -> bool {
    forall|procedure: Pr| (#[trigger] a.animated(&b, procedure)) is Some
}

/// For every pair of `T`, there is a squared distance exactly when the pair can be
/// interpolated whatever the procedure.
pub open spec fn distance_agrees<T: Animate<Pr> + ComputeSquaredDistance<D>, Pr, D>() -> bool {
    forall|a: T, b: T|
        (#[trigger] a.squared_distance(&b)) is Some <==> always_animates::<T, Pr>(a, b)
}

} // verus!
