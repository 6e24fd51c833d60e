//! The shapes that are given by a few lengths: the inset rectangle, the circle and the
//! ellipse.

use crate::capability::{
    always_animates, distance_agrees, plus_opt, put_item, yields_endpoint, Animate,
    ComputeSquaredDistance, Distance, Endpoint, Text, ToCss, ValueEq, Zero,
};
use crate::position::{
    lemma_position_distance_agrees, lemma_position_yields_endpoint, GenericPositionOrAuto,
};
use crate::radius::{
    lemma_radius_distance_agrees, lemma_radius_yields_endpoint, GenericShapeRadius,
};
use crate::sides::{
    lemma_border_radius_distance_agrees, lemma_border_radius_yields_endpoint,
    lemma_rect_distance_agrees, lemma_rect_yields_endpoint, BorderRadius, Rect,
};
use crate::writer::{emitted, put_char, put_str};
use style_traits::CssWriter;
use vstd::prelude::*;

verus! {

/// `inset()`: a rectangle given by its distance from each edge of the reference box,
/// with corners that may be rounded.
#[derive(Clone, Debug, PartialEq)]
pub struct InsetRect<LengthPercentage, NonNegativeLengthPercentage> {
    pub rect: Rect<LengthPercentage>,
    pub round: BorderRadius<NonNegativeLengthPercentage>,
}

impl<L: View, N: View> View for InsetRect<L, N> {
    type V = InsetRect<L::V, N::V>;

    open spec fn view(&self) -> InsetRect<L::V, N::V> {
        InsetRect { rect: self.rect@, round: self.round@ }
    }
}

impl<L: ValueEq, N: ValueEq> ValueEq for InsetRect<L, N> {
    fn value_eq(&self, other: &Self) -> (b: bool) {
        self.rect.value_eq(&other.rect) && self.round.value_eq(&other.round)
    }
}

impl<L: ToCss + ValueEq, N: ToCss + ValueEq + Zero> ToCss for InsetRect<L, N> {
    /// `inset(<rect>)`, with ` round <radii>` after the rectangle unless all corners are
    /// square.
    open spec fn css(&self) -> Text {
        "inset("@ + self.rect.css() + (if self.round.is_zero_spec() {
            Seq::<char>::empty()
        } else {
            " round "@ + self.round.css()
        }) + seq![')']
    }

    open spec fn serializable(&self) -> bool {
        self.rect.serializable() && self.round.serializable()
    }

    open spec fn succeeds(&self) -> bool {
        self.rect.succeeds() && (self.round.is_zero_spec() || self.round.succeeds())
    }

    fn to_css(&self, dest: &mut CssWriter<String>) -> (r: Result<(), std::fmt::Error>) {
        let ghost start = *dest;
        let ghost mut sent = Seq::<char>::empty();
        put_str(dest, "inset(", Ghost(start), Ghost(sent))?;
        proof {
            sent = sent + "inset("@;
        }
        put_item(&self.rect, dest, Ghost(start), Ghost(sent))?;
        proof {
            sent = sent + self.rect.css();
        }
        if !self.round.is_zero() {
            put_str(dest, " round ", Ghost(start), Ghost(sent))?;
            proof {
                sent = sent + " round "@;
            }
            put_item(&self.round, dest, Ghost(start), Ghost(sent))?;
            proof {
                sent = sent + self.round.css();
            }
        }
        let r = put_char(dest, ')', Ghost(start), Ghost(sent));
        proof {
            sent = sent + seq![')'];
            assert(sent =~= self.css());
        }
        r
    }
}

impl<Pr: Copy, L: Animate<Pr>, N: Animate<Pr>> Animate<Pr> for InsetRect<L, N> {
    /// The rectangle and the radii are interpolated one by one. Both must succeed.
    open spec fn animated(&self, other: &Self, procedure: Pr) -> Option<InsetRect<L::V, N::V>> {
        match (
            self.rect.animated(&other.rect, procedure),
            self.round.animated(&other.round, procedure),
        ) {
            (Some(rect), Some(round)) => Some(InsetRect { rect, round }),
            _ => None,
        }
    }

    fn animate(&self, other: &Self, procedure: Pr) -> (r: Result<Self, ()>) {
        let rect = self.rect.animate(&other.rect, procedure)?;
        let round = self.round.animate(&other.round, procedure)?;
        Ok(InsetRect { rect, round })
    }
}

impl<
    D: Distance,
    L: ComputeSquaredDistance<D>,
    N: ComputeSquaredDistance<D>,
> ComputeSquaredDistance<D> for InsetRect<L, N> {
    /// The distance of the rectangles plus that of the radii.
    open spec fn squared_distance(&self, other: &Self) -> Option<D> {
        plus_opt(
            self.rect.squared_distance(&other.rect),
            self.round.squared_distance(&other.round),
        )
    }

    fn compute_squared_distance(&self, other: &Self) -> (r: Result<D, ()>) {
        let rect = self.rect.compute_squared_distance(&other.rect)?;
        let round = self.round.compute_squared_distance(&other.round)?;
        Ok(rect.plus(round))
    }
}

/// Where interpolating lengths at `procedure` gives one end of the pair, interpolating
/// inset rectangles does so too.
pub proof fn lemma_inset_yields_endpoint<Pr: Copy, L: Animate<Pr>, N: Animate<Pr>>(
    procedure: Pr,
    endpoint: Endpoint,
)
    requires
        yields_endpoint::<L, Pr>(procedure, endpoint),
        yields_endpoint::<N, Pr>(procedure, endpoint),
    ensures
        yields_endpoint::<InsetRect<L, N>, Pr>(procedure, endpoint),
{
    lemma_rect_yields_endpoint::<Pr, L>(procedure, endpoint);
    lemma_border_radius_yields_endpoint::<Pr, N>(procedure, endpoint);
}

/// Where lengths have a distance exactly when they can always be interpolated, so have
/// inset rectangles.
pub proof fn lemma_inset_distance_agrees<
    Pr: Copy,
    D: Distance,
    L: Animate<Pr> + ComputeSquaredDistance<D>,
    N: Animate<Pr> + ComputeSquaredDistance<D>,
>()
    requires
        distance_agrees::<L, Pr, D>(),
        distance_agrees::<N, Pr, D>(),
    ensures
        distance_agrees::<InsetRect<L, N>, Pr, D>(),
{
    lemma_rect_distance_agrees::<Pr, D, L>();
    lemma_border_radius_distance_agrees::<Pr, D, N>();
    assert forall|a: InsetRect<L, N>, b: InsetRect<L, N>|
        (#[trigger] a.squared_distance(&b)) is Some <==> always_animates::<InsetRect<L, N>, Pr>(
            a,
            b,
        ) by {
        assert(a.rect.squared_distance(&b.rect) is Some <==> always_animates::<Rect<L>, Pr>(
            a.rect,
            b.rect,
        ));
        assert(a.round.squared_distance(&b.round) is Some <==> always_animates::<
            BorderRadius<N>,
            Pr,
        >(a.round, b.round));
        if always_animates::<InsetRect<L, N>, Pr>(a, b) {
            assert forall|procedure: Pr| (#[trigger] a.rect.animated(&b.rect, procedure)) is Some by {
                assert(a.animated(&b, procedure) is Some);
            }
            assert forall|procedure: Pr| (#[trigger] a.round.animated(&b.round, procedure)) is Some by {
                assert(a.animated(&b, procedure) is Some);
            }
        }
        if a.squared_distance(&b) is Some {
            assert forall|procedure: Pr| (#[trigger] a.animated(&b, procedure)) is Some by {
                assert(a.rect.animated(&b.rect, procedure) is Some);
                assert(a.round.animated(&b.round, procedure) is Some);
            }
        }
    }
}

/// `circle()`: a circle given by its centre and its radius.
#[derive(Clone, Copy, Debug, PartialEq)]
pub struct Circle<Position, NonNegativeLengthPercentage> {
    pub position: GenericPositionOrAuto<Position>,
    pub radius: GenericShapeRadius<NonNegativeLengthPercentage>,
}

impl<P: View, N: View> View for Circle<P, N> {
    type V = Circle<P::V, N::V>;

    open spec fn view(&self) -> Circle<P::V, N::V> {
        Circle { position: self.position@, radius: self.radius@ }
    }
}

impl<P: ValueEq, N: ValueEq> ValueEq for Circle<P, N> {
    fn value_eq(&self, other: &Self) -> (b: bool) {
        self.position.value_eq(&other.position) && self.radius.value_eq(&other.radius)
    }
}

/// The part of the text of a circle or an ellipse that gives the centre: nothing for
/// `auto`, else `at <position>`, after a space where radii stand in front of it.
pub open spec fn at_position_css<P: ToCss>(
    position: GenericPositionOrAuto<P>,
    after_radii: bool,
) -> Text {
    if position is Auto {
        Seq::<char>::empty()
    } else {
        (if after_radii {
            seq![' ']
        } else {
            Seq::<char>::empty()
        }) + "at "@ + position.css()
    }
}

/// Sends the part of a circle or an ellipse that gives the centre, after `done` has been
/// sent since `start`.
fn put_at_position<P: ToCss>(
    position: &GenericPositionOrAuto<P>,
    after_radii: bool,
    dest: &mut CssWriter<String>,
    Ghost(start): Ghost<CssWriter<String>>,
    Ghost(done): Ghost<Seq<char>>,
) -> (r: Result<(), std::fmt::Error>)
    requires
        position.serializable(),
        emitted(start, *old(dest), done),
    ensures
        r is Ok <==> position.succeeds(),
        r is Ok ==> emitted(start, *final(dest), done + at_position_css(*position, after_radii)),
{
    let ghost mut sent = done;
    if !position.is_auto() {
        if after_radii {
            put_char(dest, ' ', Ghost(start), Ghost(sent))?;
            proof {
                sent = sent + seq![' '];
            }
        }
        put_str(dest, "at ", Ghost(start), Ghost(sent))?;
        proof {
            sent = sent + "at "@;
        }
        put_item(position, dest, Ghost(start), Ghost(sent))?;
        proof {
            sent = sent + position.css();
        }
    }
    assert(sent =~= done + at_position_css(*position, after_radii));
    Ok(())
}

impl<P, N> Circle<P, N> {
    /// Whether the radius is written: it is left out where it is the default.
    pub open spec fn has_radius(&self) -> bool {
        !(self.radius is ClosestSide)
    }
}

impl<P: ToCss, N: ToCss> ToCss for Circle<P, N> {
    /// `circle(<radius> at <position>)`. The radius is left out where it is the default,
    /// `closest-side`. The position is left out only where it is `auto`: one that was
    /// given is written, whatever it is.
    open spec fn css(&self) -> Text {
        "circle("@ + (if self.has_radius() {
            self.radius.css()
        } else {
            Seq::<char>::empty()
        }) + at_position_css(self.position, self.has_radius()) + seq![')']
    }

    open spec fn serializable(&self) -> bool {
        self.position.serializable() && self.radius.serializable()
    }

    open spec fn succeeds(&self) -> bool {
        self.position.succeeds() && self.radius.succeeds()
    }

    fn to_css(&self, dest: &mut CssWriter<String>) -> (r: Result<(), std::fmt::Error>) {
        let has_radius = !self.radius.is_closest_side();
        let ghost start = *dest;
        let ghost mut sent = Seq::<char>::empty();
        put_str(dest, "circle(", Ghost(start), Ghost(sent))?;
        proof {
            sent = sent + "circle("@;
        }
        if has_radius {
            put_item(&self.radius, dest, Ghost(start), Ghost(sent))?;
            proof {
                sent = sent + self.radius.css();
            }
        }
        put_at_position(&self.position, has_radius, dest, Ghost(start), Ghost(sent))?;
        proof {
            sent = sent + at_position_css(self.position, has_radius);
        }
        let r = put_char(dest, ')', Ghost(start), Ghost(sent));
        proof {
            sent = sent + seq![')'];
            assert(sent =~= self.css());
        }
        r
    }
}

impl<Pr: Copy, P: Animate<Pr>, N: Animate<Pr>> Animate<Pr> for Circle<P, N> {
    /// The centre and the radius are interpolated one by one. Both must succeed.
    open spec fn animated(&self, other: &Self, procedure: Pr) -> Option<Circle<P::V, N::V>> {
        match (
            self.position.animated(&other.position, procedure),
            self.radius.animated(&other.radius, procedure),
        ) {
            (Some(position), Some(radius)) => Some(Circle { position, radius }),
            _ => None,
        }
    }

    fn animate(&self, other: &Self, procedure: Pr) -> (r: Result<Self, ()>) {
        let position = self.position.animate(&other.position, procedure)?;
        let radius = self.radius.animate(&other.radius, procedure)?;
        Ok(Circle { position, radius })
    }
}

impl<
    D: Distance,
    P: ComputeSquaredDistance<D>,
    N: ComputeSquaredDistance<D>,
> ComputeSquaredDistance<D> for Circle<P, N> {
    /// The distance of the centres plus that of the radii.
    open spec fn squared_distance(&self, other: &Self) -> Option<D> {
        plus_opt(
            self.position.squared_distance(&other.position),
            self.radius.squared_distance(&other.radius),
        )
    }

    fn compute_squared_distance(&self, other: &Self) -> (r: Result<D, ()>) {
        let position = self.position.compute_squared_distance(&other.position)?;
        let radius = self.radius.compute_squared_distance(&other.radius)?;
        Ok(position.plus(radius))
    }
}

/// Where interpolating positions and lengths at `procedure` gives one end of the pair,
/// interpolating circles does so too.
pub proof fn lemma_circle_yields_endpoint<Pr: Copy, P: Animate<Pr>, N: Animate<Pr>>(
    procedure: Pr,
    endpoint: Endpoint,
)
    requires
        yields_endpoint::<P, Pr>(procedure, endpoint),
        yields_endpoint::<N, Pr>(procedure, endpoint),
    ensures
        yields_endpoint::<Circle<P, N>, Pr>(procedure, endpoint),
{
    lemma_position_yields_endpoint::<Pr, P>(procedure, endpoint);
    lemma_radius_yields_endpoint::<Pr, N>(procedure, endpoint);
}

/// Where positions and lengths have a distance exactly when they can always be
/// interpolated, so have circles.
pub proof fn lemma_circle_distance_agrees<
    Pr: Copy,
    D: Distance,
    P: Animate<Pr> + ComputeSquaredDistance<D>,
    N: Animate<Pr> + ComputeSquaredDistance<D>,
>()
    requires
        distance_agrees::<P, Pr, D>(),
        distance_agrees::<N, Pr, D>(),
    ensures
        distance_agrees::<Circle<P, N>, Pr, D>(),
{
    lemma_position_distance_agrees::<Pr, D, P>();
    lemma_radius_distance_agrees::<Pr, D, N>();
    assert forall|a: Circle<P, N>, b: Circle<P, N>|
        (#[trigger] a.squared_distance(&b)) is Some <==> always_animates::<Circle<P, N>, Pr>(
            a,
            b,
        ) by {
        assert(a.position.squared_distance(&b.position) is Some <==> always_animates::<
            GenericPositionOrAuto<P>,
            Pr,
        >(a.position, b.position));
        assert(a.radius.squared_distance(&b.radius) is Some <==> always_animates::<
            GenericShapeRadius<N>,
            Pr,
        >(a.radius, b.radius));
        if always_animates::<Circle<P, N>, Pr>(a, b) {
            assert forall|procedure: Pr| (#[trigger] a.position.animated(&b.position, procedure)) is Some by {
                assert(a.animated(&b, procedure) is Some);
            }
            assert forall|procedure: Pr| (#[trigger] a.radius.animated(&b.radius, procedure)) is Some by {
                assert(a.animated(&b, procedure) is Some);
            }
        }
        if a.squared_distance(&b) is Some {
            assert forall|procedure: Pr| (#[trigger] a.animated(&b, procedure)) is Some by {
                assert(a.position.animated(&b.position, procedure) is Some);
                assert(a.radius.animated(&b.radius, procedure) is Some);
            }
        }
    }
}

/// `ellipse()`: an ellipse given by its centre and its two radii.
#[derive(Clone, Copy, Debug, PartialEq)]
pub struct Ellipse<Position, NonNegativeLengthPercentage> {
    pub position: GenericPositionOrAuto<Position>,
    pub semiaxis_x: GenericShapeRadius<NonNegativeLengthPercentage>,
    pub semiaxis_y: GenericShapeRadius<NonNegativeLengthPercentage>,
}

impl<P: View, N: View> View for Ellipse<P, N> {
    type V = Ellipse<P::V, N::V>;

    open spec fn view(&self) -> Ellipse<P::V, N::V> {
        Ellipse {
            position: self.position@,
            semiaxis_x: self.semiaxis_x@,
            semiaxis_y: self.semiaxis_y@,
        }
    }
}

impl<P: ValueEq, N: ValueEq> ValueEq for Ellipse<P, N> {
    fn value_eq(&self, other: &Self) -> (b: bool) {
        self.position.value_eq(&other.position) && self.semiaxis_x.value_eq(&other.semiaxis_x)
            && self.semiaxis_y.value_eq(&other.semiaxis_y)
    }
}

impl<P, N> Ellipse<P, N> {
    /// Whether the radii are written: they are left out where both are the default.
    pub open spec fn has_radii(&self) -> bool {
        !(self.semiaxis_x is ClosestSide) || !(self.semiaxis_y is ClosestSide)
    }
}

impl<P: ToCss, N: ToCss> ToCss for Ellipse<P, N> {
    /// `ellipse(<radius> <radius> at <position>)`. The radii are written both or not at
    /// all: they are left out where both are the default, `closest-side`. The position
    /// is left out only where it is `auto`.
    open spec fn css(&self) -> Text {
        "ellipse("@ + (if self.has_radii() {
            self.semiaxis_x.css() + seq![' '] + self.semiaxis_y.css()
        } else {
            Seq::<char>::empty()
        }) + at_position_css(self.position, self.has_radii()) + seq![')']
    }

    open spec fn serializable(&self) -> bool {
        self.position.serializable() && self.semiaxis_x.serializable()
            && self.semiaxis_y.serializable()
    }

    open spec fn succeeds(&self) -> bool {
        self.position.succeeds() && self.semiaxis_x.succeeds() && self.semiaxis_y.succeeds()
    }

    fn to_css(&self, dest: &mut CssWriter<String>) -> (r: Result<(), std::fmt::Error>) {
        let has_radii = !self.semiaxis_x.is_closest_side() || !self.semiaxis_y.is_closest_side();
        let ghost start = *dest;
        let ghost mut sent = Seq::<char>::empty();
        put_str(dest, "ellipse(", Ghost(start), Ghost(sent))?;
        proof {
            sent = sent + "ellipse("@;
        }
        if has_radii {
            put_item(&self.semiaxis_x, dest, Ghost(start), Ghost(sent))?;
            proof {
                sent = sent + self.semiaxis_x.css();
            }
            put_char(dest, ' ', Ghost(start), Ghost(sent))?;
            proof {
                sent = sent + seq![' '];
            }
            put_item(&self.semiaxis_y, dest, Ghost(start), Ghost(sent))?;
            proof {
                sent = sent + self.semiaxis_y.css();
            }
        }
        put_at_position(&self.position, has_radii, dest, Ghost(start), Ghost(sent))?;
        proof {
            sent = sent + at_position_css(self.position, has_radii);
        }
        let r = put_char(dest, ')', Ghost(start), Ghost(sent));
        proof {
            sent = sent + seq![')'];
            assert(sent =~= self.css());
        }
        r
    }
}

impl<Pr: Copy, P: Animate<Pr>, N: Animate<Pr>> Animate<Pr> for Ellipse<P, N> {
    /// The centre and the two radii are interpolated one by one. All must succeed.
    open spec fn animated(&self, other: &Self, procedure: Pr) -> Option<Ellipse<P::V, N::V>> {
        match (
            self.position.animated(&other.position, procedure),
            self.semiaxis_x.animated(&other.semiaxis_x, procedure),
            self.semiaxis_y.animated(&other.semiaxis_y, procedure),
        ) {
            (Some(position), Some(semiaxis_x), Some(semiaxis_y)) => Some(
                Ellipse { position, semiaxis_x, semiaxis_y },
            ),
            _ => None,
        }
    }

    fn animate(&self, other: &Self, procedure: Pr) -> (r: Result<Self, ()>) {
        let position = self.position.animate(&other.position, procedure)?;
        let semiaxis_x = self.semiaxis_x.animate(&other.semiaxis_x, procedure)?;
        let semiaxis_y = self.semiaxis_y.animate(&other.semiaxis_y, procedure)?;
        Ok(Ellipse { position, semiaxis_x, semiaxis_y })
    }
}

impl<
    D: Distance,
    P: ComputeSquaredDistance<D>,
    N: ComputeSquaredDistance<D>,
> ComputeSquaredDistance<D> for Ellipse<P, N> {
    /// The distance of the centres plus those of the two radii.
    open spec fn squared_distance(&self, other: &Self) -> Option<D> {
        plus_opt(
            plus_opt(
                self.position.squared_distance(&other.position),
                self.semiaxis_x.squared_distance(&other.semiaxis_x),
            ),
            self.semiaxis_y.squared_distance(&other.semiaxis_y),
        )
    }

    fn compute_squared_distance(&self, other: &Self) -> (r: Result<D, ()>) {
        let position = self.position.compute_squared_distance(&other.position)?;
        let semiaxis_x = self.semiaxis_x.compute_squared_distance(&other.semiaxis_x)?;
        let semiaxis_y = self.semiaxis_y.compute_squared_distance(&other.semiaxis_y)?;
        Ok(position.plus(semiaxis_x).plus(semiaxis_y))
    }
}

/// Where interpolating positions and lengths at `procedure` gives one end of the pair,
/// interpolating ellipses does so too.
pub proof fn lemma_ellipse_yields_endpoint<Pr: Copy, P: Animate<Pr>, N: Animate<Pr>>(
    procedure: Pr,
    endpoint: Endpoint,
)
    requires
        yields_endpoint::<P, Pr>(procedure, endpoint),
        yields_endpoint::<N, Pr>(procedure, endpoint),
    ensures
        yields_endpoint::<Ellipse<P, N>, Pr>(procedure, endpoint),
{
    lemma_position_yields_endpoint::<Pr, P>(procedure, endpoint);
    lemma_radius_yields_endpoint::<Pr, N>(procedure, endpoint);
}

/// Where positions and lengths have a distance exactly when they can always be
/// interpolated, so have ellipses.
pub proof fn lemma_ellipse_distance_agrees<
    Pr: Copy,
    D: Distance,
    P: Animate<Pr> + ComputeSquaredDistance<D>,
    N: Animate<Pr> + ComputeSquaredDistance<D>,
>()
    requires
        distance_agrees::<P, Pr, D>(),
        distance_agrees::<N, Pr, D>(),
    ensures
        distance_agrees::<Ellipse<P, N>, Pr, D>(),
{
    lemma_position_distance_agrees::<Pr, D, P>();
    lemma_radius_distance_agrees::<Pr, D, N>();
    assert forall|a: Ellipse<P, N>, b: Ellipse<P, N>|
        (#[trigger] a.squared_distance(&b)) is Some <==> always_animates::<Ellipse<P, N>, Pr>(
            a,
            b,
        ) by {
        assert(a.position.squared_distance(&b.position) is Some <==> always_animates::<
            GenericPositionOrAuto<P>,
            Pr,
        >(a.position, b.position));
        assert(a.semiaxis_x.squared_distance(&b.semiaxis_x) is Some <==> always_animates::<
            GenericShapeRadius<N>,
            Pr,
        >(a.semiaxis_x, b.semiaxis_x));
        assert(a.semiaxis_y.squared_distance(&b.semiaxis_y) is Some <==> always_animates::<
            GenericShapeRadius<N>,
            Pr,
        >(a.semiaxis_y, b.semiaxis_y));
        if always_animates::<Ellipse<P, N>, Pr>(a, b) {
            assert forall|procedure: Pr| (#[trigger] a.position.animated(&b.position, procedure)) is Some by {
                assert(a.animated(&b, procedure) is Some);
            }
            assert forall|procedure: Pr| (#[trigger] a.semiaxis_x.animated(&b.semiaxis_x, procedure)) is Some by {
                assert(a.animated(&b, procedure) is Some);
            }
            assert forall|procedure: Pr| (#[trigger] a.semiaxis_y.animated(&b.semiaxis_y, procedure)) is Some by {
                assert(a.animated(&b, procedure) is Some);
            }
        }
        if a.squared_distance(&b) is Some {
            assert forall|procedure: Pr| (#[trigger] a.animated(&b, procedure)) is Some by {
                assert(a.position.animated(&b.position, procedure) is Some);
                assert(a.semiaxis_x.animated(&b.semiaxis_x, procedure) is Some);
                assert(a.semiaxis_y.animated(&b.semiaxis_y, procedure) is Some);
            }
        }
    }
}

} // verus!
