//! `polygon()`: a shape given by the list of its corners.

use crate::capability::{
    always_animates, distance_agrees, plus_opt, put_item, yields_endpoint, Animate,
    ComputeSquaredDistance, Distance, Endpoint, Text, ToCss, ValueEq,
};
use crate::keyword::{is_default, FillRule};
use crate::lists::{animated_list, items_animate, items_have_distance, list_distance, views};
use crate::writer::{emitted, lemma_emitted_concat, put_char, put_str};
use style_traits::CssWriter;
use vstd::prelude::*;

verus! {

/// One corner of a polygon: its horizontal and its vertical coordinate.
#[derive(Clone, Debug, PartialEq)]
pub struct PolygonCoord<LengthPercentage>(pub LengthPercentage, pub LengthPercentage);

impl<L: View> View for PolygonCoord<L> {
    type V = PolygonCoord<L::V>;

    open spec fn view(&self) -> PolygonCoord<L::V> {
        PolygonCoord(self.0@, self.1@)
    }
}

impl<L: ValueEq> ValueEq for PolygonCoord<L> {
    fn value_eq(&self, other: &Self) -> (b: bool) {
        self.0.value_eq(&other.0) && self.1.value_eq(&other.1)
    }
}

impl<L: ToCss> ToCss for PolygonCoord<L> {
    /// The two coordinates with a space between them.
    open spec fn css(&self) -> Text {
        self.0.css() + seq![' '] + self.1.css()
    }

    open spec fn serializable(&self) -> bool {
        self.0.serializable() && self.1.serializable()
    }

    open spec fn succeeds(&self) -> bool {
        self.0.succeeds() && self.1.succeeds()
    }

    fn to_css(&self, dest: &mut CssWriter<String>) -> (r: Result<(), std::fmt::Error>) {
        let ghost start = *dest;
        let ghost mut sent = Seq::<char>::empty();
        put_item(&self.0, dest, Ghost(start), Ghost(sent))?;
        proof {
            sent = sent + self.0.css();
        }
        put_char(dest, ' ', Ghost(start), Ghost(sent))?;
        proof {
            sent = sent + seq![' '];
        }
        let r = put_item(&self.1, dest, Ghost(start), Ghost(sent));
        proof {
            sent = sent + self.1.css();
            assert(sent =~= self.css());
        }
        r
    }
}

impl<Pr: Copy, L: Animate<Pr>> Animate<Pr> for PolygonCoord<L> {
    /// The two coordinates are interpolated one by one. Both must succeed.
    open spec fn animated(&self, other: &Self, procedure: Pr) -> Option<PolygonCoord<L::V>> {
        match (self.0.animated(&other.0, procedure), self.1.animated(&other.1, procedure)) {
            (Some(x), Some(y)) => Some(PolygonCoord(x, y)),
            _ => None,
        }
    }

    fn animate(&self, other: &Self, procedure: Pr) -> (r: Result<Self, ()>) {
        let x = self.0.animate(&other.0, procedure)?;
        let y = self.1.animate(&other.1, procedure)?;
        Ok(PolygonCoord(x, y))
    }
}

impl<D: Distance, L: ComputeSquaredDistance<D>> ComputeSquaredDistance<D> for PolygonCoord<L> {
    /// The distance of the horizontal coordinates plus that of the vertical ones.
    open spec fn squared_distance(&self, other: &Self) -> Option<D> {
        plus_opt(self.0.squared_distance(&other.0), self.1.squared_distance(&other.1))
    }

    fn compute_squared_distance(&self, other: &Self) -> (r: Result<D, ()>) {
        let x = self.0.compute_squared_distance(&other.0)?;
        let y = self.1.compute_squared_distance(&other.1)?;
        Ok(x.plus(y))
    }
}

/// Where interpolating coordinates at `procedure` gives one end of the pair,
/// interpolating corners does so too.
pub proof fn lemma_coord_yields_endpoint<Pr: Copy, L: Animate<Pr>>(
    procedure: Pr,
    endpoint: Endpoint,
)
    requires
        yields_endpoint::<L, Pr>(procedure, endpoint),
    ensures
        yields_endpoint::<PolygonCoord<L>, Pr>(procedure, endpoint),
{
}

/// Where coordinates have a distance exactly when they can always be interpolated, so
/// have corners.
pub proof fn lemma_coord_distance_agrees<
    Pr: Copy,
    D: Distance,
    L: Animate<Pr> + ComputeSquaredDistance<D>,
>()
    requires
        distance_agrees::<L, Pr, D>(),
    ensures
        distance_agrees::<PolygonCoord<L>, Pr, D>(),
{
    assert forall|a: PolygonCoord<L>, b: PolygonCoord<L>|
        (#[trigger] a.squared_distance(&b)) is Some <==> always_animates::<PolygonCoord<L>, Pr>(
            a,
            b,
        ) by {
        assert(a.0.squared_distance(&b.0) is Some <==> always_animates::<L, Pr>(a.0, b.0));
        assert(a.1.squared_distance(&b.1) is Some <==> always_animates::<L, Pr>(a.1, b.1));
        if always_animates::<PolygonCoord<L>, Pr>(a, b) {
            assert forall|procedure: Pr| (#[trigger] a.0.animated(&b.0, procedure)) is Some by {
                assert(a.animated(&b, procedure) is Some);
            }
            assert forall|procedure: Pr| (#[trigger] a.1.animated(&b.1, procedure)) is Some by {
                assert(a.animated(&b, procedure) is Some);
            }
        }
        if a.squared_distance(&b) is Some {
            assert forall|procedure: Pr| (#[trigger] a.animated(&b, procedure)) is Some by {
                assert(a.0.animated(&b.0, procedure) is Some);
                assert(a.1.animated(&b.1, procedure) is Some);
            }
        }
    }
}

/// A polygon: the fill rule and the corners, in the order in which the outline runs
/// through them.
#[derive(Clone, Debug, PartialEq)]
pub struct GenericPolygon<LengthPercentage> {
    /// The rule that tells the inside of the polygon from its outside.
    pub fill: FillRule,
    /// The corners. Their order is that of the outline and is kept as it is.
    pub coordinates: Vec<PolygonCoord<LengthPercentage>>,
}

pub use GenericPolygon as Polygon;

/// What a polygon stands for: its fill rule and the list of what its corners stand for.
pub struct PolygonModel<C> {
    pub fill: FillRule,
    pub coordinates: Seq<PolygonCoord<C>>,
}

impl<L: View> View for GenericPolygon<L> {
    type V = PolygonModel<L::V>;

    open spec fn view(&self) -> PolygonModel<L::V> {
        PolygonModel { fill: self.fill, coordinates: views(self.coordinates@) }
    }
}

impl<L: ValueEq> ValueEq for GenericPolygon<L> {
    /// Two polygons are equal where they have the same fill rule and the same corners in
    /// the same order.
    fn value_eq(&self, other: &Self) -> (b: bool) {
        if self.fill != other.fill || self.coordinates.len() != other.coordinates.len() {
            assert(self@.coordinates.len() != other@.coordinates.len() || self.fill != other.fill);
            return false;
        }
        let mut i: usize = 0;
        while i < self.coordinates.len()
            invariant
                i <= self.coordinates.len(),
                self.coordinates.len() == other.coordinates.len(),
                forall|j: int| 0 <= j < i ==> self.coordinates@[j]@ == other.coordinates@[j]@,
            decreases self.coordinates.len() - i,
        {
            if !self.coordinates[i].value_eq(&other.coordinates[i]) {
                assert(self@.coordinates[i as int] != other@.coordinates[i as int]);
                return false;
            }
            i += 1;
        }
        assert(self@.coordinates =~= other@.coordinates);
        true
    }
}

/// The corners with `, ` between one and the next.
pub open spec fn coordinates_css<L: ToCss>(coordinates: Seq<PolygonCoord<L>>) -> Text
    decreases coordinates.len(),
{
    if coordinates.len() == 0 {
        Seq::<char>::empty()
    } else if coordinates.len() == 1 {
        coordinates[0].css()
    } else {
        coordinates_css(coordinates.drop_last()) + ", "@ + coordinates.last().css()
    }
}

/// The fill rule in front of what it governs, followed by `separator`; nothing for the
/// default rule, `nonzero`.
pub open spec fn fill_css(fill: FillRule, separator: Text) -> Text {
    if fill == FillRule::Nonzero {
        Seq::<char>::empty()
    } else {
        fill.css() + separator
    }
}

/// Sends the fill rule and `separator`, unless the rule is the default, after `done` has
/// been sent since `start`.
pub(crate) fn put_fill(
    fill: &FillRule,
    separator: &str,
    dest: &mut CssWriter<String>,
    Ghost(start): Ghost<CssWriter<String>>,
    Ghost(done): Ghost<Seq<char>>,
) -> (r: Result<(), std::fmt::Error>)
    requires
        emitted(start, *old(dest), done),
    ensures
        r is Ok,
        emitted(start, *final(dest), done + fill_css(*fill, separator@)),
{
    let ghost mut sent = done;
    if !is_default(fill) {
        let ghost before = *dest;
        fill.to_css(dest)?;
        proof {
            lemma_emitted_concat(start, before, *dest, sent, fill.css());
            sent = sent + fill.css();
        }
        put_str(dest, separator, Ghost(start), Ghost(sent))?;
        proof {
            sent = sent + separator@;
        }
    }
    assert(sent =~= done + fill_css(*fill, separator@));
    Ok(())
}

impl<L: ToCss> ToCss for GenericPolygon<L> {
    /// `polygon(<fill-rule> <corner>, <corner>, ...)`. The fill rule is left out where
    /// it is the default, `nonzero`.
    open spec fn css(&self) -> Text {
        "polygon("@ + fill_css(self.fill, " "@) + coordinates_css(self.coordinates@) + seq![')']
    }

    open spec fn serializable(&self) -> bool {
        forall|i: int|
            0 <= i < self.coordinates@.len() ==> (#[trigger] self.coordinates@[i]).serializable()
    }

    open spec fn succeeds(&self) -> bool {
        forall|i: int|
            0 <= i < self.coordinates@.len() ==> (#[trigger] self.coordinates@[i]).succeeds()
    }

    fn to_css(&self, dest: &mut CssWriter<String>) -> (r: Result<(), std::fmt::Error>) {
        let ghost start = *dest;
        let ghost mut sent = Seq::<char>::empty();
        put_str(dest, "polygon(", Ghost(start), Ghost(sent))?;
        proof {
            sent = sent + "polygon("@;
        }
        put_fill(&self.fill, " ", dest, Ghost(start), Ghost(sent))?;
        proof {
            sent = sent + fill_css(self.fill, " "@);
        }
        let ghost head = sent;
        let mut i: usize = 0;
        while i < self.coordinates.len()
            invariant
                i <= self.coordinates.len(),
                self.serializable(),
                forall|j: int| 0 <= j < i ==> (#[trigger] self.coordinates@[j]).succeeds(),
                sent == head + coordinates_css(self.coordinates@.take(i as int)),
                emitted(start, *dest, sent),
            decreases self.coordinates.len() - i,
        {
            let ghost before = self.coordinates@.take(i as int);
            let ghost next = self.coordinates@.take(i + 1);
            proof {
                assert(next.drop_last() =~= before);
                assert(next.last() == self.coordinates@[i as int]);
            }
            if i > 0 {
                put_str(dest, ", ", Ghost(start), Ghost(sent))?;
                proof {
                    sent = sent + ", "@;
                }
            }
            put_item(&self.coordinates[i], dest, Ghost(start), Ghost(sent))?;
            proof {
                sent = sent + self.coordinates@[i as int].css();
                assert(sent =~= head + coordinates_css(next));
            }
            i += 1;
        }
        let r = put_char(dest, ')', Ghost(start), Ghost(sent));
        proof {
            assert(self.coordinates@.take(i as int) =~= self.coordinates@);
            sent = sent + seq![')'];
            assert(sent =~= self.css());
        }
        r
    }
}

impl<Pr: Copy, L: Animate<Pr>> Animate<Pr> for GenericPolygon<L> {
    /// Two polygons are interpolated corner by corner. They must have the same fill
    /// rule and as many corners as each other, and every pair of corners must succeed.
    open spec fn animated(&self, other: &Self, procedure: Pr) -> Option<PolygonModel<L::V>> {
        if self.fill != other.fill {
            None
        } else {
            match animated_list(self.coordinates@, other.coordinates@, procedure) {
                Some(coordinates) => Some(PolygonModel { fill: self.fill, coordinates }),
                None => None,
            }
        }
    }

    fn animate(&self, other: &Self, procedure: Pr) -> (r: Result<Self, ()>)
        ensures
            self.fill != other.fill ==> r is Err,
            self.coordinates@.len() != other.coordinates@.len() ==> r is Err,
    {
        if self.fill != other.fill {
            return Err(());
        }
        let coordinates = crate::lists::animate(&self.coordinates, &other.coordinates, procedure)?;
        Ok(GenericPolygon { fill: self.fill, coordinates })
    }
}

impl<D: Distance, L: ComputeSquaredDistance<D>> ComputeSquaredDistance<D> for GenericPolygon<L> {
    /// The sum of the distances of the corners, for two polygons with the same fill rule
    /// and as many corners as each other.
    open spec fn squared_distance(&self, other: &Self) -> Option<D> {
        if self.fill != other.fill {
            None
        } else {
            list_distance(self.coordinates@, other.coordinates@)
        }
    }

    fn compute_squared_distance(&self, other: &Self) -> (r: Result<D, ()>)
        ensures
            self.fill != other.fill ==> r is Err,
            self.coordinates@.len() != other.coordinates@.len() ==> r is Err,
    {
        if self.fill != other.fill {
            return Err(());
        }
        crate::lists::squared_distance(&self.coordinates, &other.coordinates)
    }
}

/// Where interpolating coordinates at `procedure` gives one end of the pair,
/// interpolating polygons does so too: the same fill rule and the same corners in the
/// same order.
pub proof fn lemma_polygon_yields_endpoint<Pr: Copy, L: Animate<Pr>>(
    procedure: Pr,
    endpoint: Endpoint,
)
    requires
        yields_endpoint::<L, Pr>(procedure, endpoint),
    ensures
        yields_endpoint::<GenericPolygon<L>, Pr>(procedure, endpoint),
{
    lemma_coord_yields_endpoint::<Pr, L>(procedure, endpoint);
    assert forall|a: GenericPolygon<L>, b: GenericPolygon<L>|
        (#[trigger] a.animated(&b, procedure)) is Some implies a.animated(&b, procedure) == Some(
        endpoint.of(a@, b@),
    ) by {
        let left = a.coordinates@;
        let right = b.coordinates@;
        assert(items_animate(left, right, procedure));
        let got = animated_list(left, right, procedure).unwrap();
        assert forall|i: int| 0 <= i < left.len() implies got[i] == endpoint.of(
            views(left),
            views(right),
        )[i] by {
            assert(left[i].animated(&right[i], procedure) is Some);
        }
        assert(got =~= endpoint.of(views(left), views(right)));
    }
}

/// Where coordinates have a distance exactly when they can always be interpolated, so
/// have polygons.
pub proof fn lemma_polygon_distance_agrees<
    Pr: Copy,
    D: Distance,
    L: Animate<Pr> + ComputeSquaredDistance<D>,
>()
    requires
        distance_agrees::<L, Pr, D>(),
    ensures
        distance_agrees::<GenericPolygon<L>, Pr, D>(),
{
    lemma_coord_distance_agrees::<Pr, D, L>();
    assert forall|a: GenericPolygon<L>, b: GenericPolygon<L>|
        (#[trigger] a.squared_distance(&b)) is Some <==> always_animates::<GenericPolygon<L>, Pr>(
            a,
            b,
        ) by {
        let left = a.coordinates@;
        let right = b.coordinates@;
        if a.squared_distance(&b) is Some {
            assert(items_have_distance::<D, PolygonCoord<L>>(left, right));
            assert forall|procedure: Pr| (#[trigger] a.animated(&b, procedure)) is Some by {
                assert forall|i: int| 0 <= i < left.len() implies (#[trigger] left[i].animated(
                    &right[i],
                    procedure,
                )) is Some by {
                    assert(left[i].squared_distance(&right[i]) is Some);
                    assert(always_animates::<PolygonCoord<L>, Pr>(left[i], right[i]));
                }
                assert(items_animate(left, right, procedure));
            }
        }
        if always_animates::<GenericPolygon<L>, Pr>(a, b) {
            assert(a.animated(&b, arbitrary::<Pr>()) is Some);
            assert forall|i: int| 0 <= i < left.len() implies (#[trigger] left[i].squared_distance(
                &right[i],
            )) is Some by {
                assert forall|procedure: Pr| (#[trigger] left[i].animated(
                    &right[i],
                    procedure,
                )) is Some by {
                    assert(a.animated(&b, procedure) is Some);
                    assert(items_animate(left, right, procedure));
                }
                assert(always_animates::<PolygonCoord<L>, Pr>(left[i], right[i]));
            }
            assert(items_have_distance::<D, PolygonCoord<L>>(left, right));
        }
    }
}

} // verus!
