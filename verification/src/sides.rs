//! Values given side by side for the four sides or the four corners of a box: the
//! offsets of an inset rectangle and the radii of its rounded corners.

use crate::capability::{
    always_animates, distance_agrees, plus_opt, put_item, yields_endpoint, Animate,
    ComputeSquaredDistance, Distance, Endpoint, Text, ToCss, ValueEq, Zero,
};
use crate::writer::{emitted, put_char, put_str};
use style_traits::CssWriter;
use vstd::prelude::*;

verus! {

/// The CSS text of four values that stand for the top, right, bottom and left of a box,
/// in the shortest of the four forms that CSS has for them: a value is left out where
/// it equals the one it would be taken from (left from right, bottom from top, right
/// from top).
pub open spec fn sides_css<T: ToCss + ValueEq>(top: T, right: T, bottom: T, left: T) -> Text {
    let same_vertical = top@ == bottom@;
    let same_horizontal = right@ == left@;
    if same_vertical && same_horizontal && top@ == right@ {
        top.css()
    } else if same_vertical && same_horizontal {
        top.css() + seq![' '] + right.css()
    } else if same_horizontal {
        top.css() + seq![' '] + right.css() + seq![' '] + bottom.css()
    } else {
        top.css() + seq![' '] + right.css() + seq![' '] + bottom.css() + seq![' '] + left.css()
    }
}

/// Whether every one of four sides that is written succeeds.
pub open spec fn sides_succeed<T: ToCss + ValueEq>(top: T, right: T, bottom: T, left: T) -> bool {
    let same_vertical = top@ == bottom@;
    let same_horizontal = right@ == left@;
    if same_vertical && same_horizontal && top@ == right@ {
        top.succeeds()
    } else if same_vertical && same_horizontal {
        top.succeeds() && right.succeeds()
    } else if same_horizontal {
        top.succeeds() && right.succeeds() && bottom.succeeds()
    } else {
        top.succeeds() && right.succeeds() && bottom.succeeds() && left.succeeds()
    }
}

/// Sends the text of four sides after `done` has been sent since `start`.
pub(crate) fn put_sides<T: ToCss + ValueEq>(
    top: &T,
    right: &T,
    bottom: &T,
    left: &T,
    dest: &mut CssWriter<String>,
    Ghost(start): Ghost<CssWriter<String>>,
    Ghost(done): Ghost<Seq<char>>,
) -> (r: Result<(), std::fmt::Error>)
    requires
        top.serializable(),
        right.serializable(),
        bottom.serializable(),
        left.serializable(),
        emitted(start, *old(dest), done),
    ensures
        r is Ok <==> sides_succeed(*top, *right, *bottom, *left),
        r is Ok ==> emitted(start, *final(dest), done + sides_css(*top, *right, *bottom, *left)),
{
    let ghost text = sides_css(*top, *right, *bottom, *left);
    let ghost mut sent = done;
    put_item(top, dest, Ghost(start), Ghost(sent))?;
    proof {
        sent = sent + top.css();
    }
    let same_vertical = top.value_eq(bottom);
    let same_horizontal = right.value_eq(left);
    if same_vertical && same_horizontal && top.value_eq(right) {
        assert(sent =~= done + text);
        return Ok(());
    }
    put_char(dest, ' ', Ghost(start), Ghost(sent))?;
    proof {
        sent = sent + seq![' '];
    }
    put_item(right, dest, Ghost(start), Ghost(sent))?;
    proof {
        sent = sent + right.css();
    }
    if same_vertical && same_horizontal {
        assert(sent =~= done + text);
        return Ok(());
    }
    put_char(dest, ' ', Ghost(start), Ghost(sent))?;
    proof {
        sent = sent + seq![' '];
    }
    put_item(bottom, dest, Ghost(start), Ghost(sent))?;
    proof {
        sent = sent + bottom.css();
    }
    if same_horizontal {
        assert(sent =~= done + text);
        return Ok(());
    }
    put_char(dest, ' ', Ghost(start), Ghost(sent))?;
    proof {
        sent = sent + seq![' '];
    }
    let r = put_item(left, dest, Ghost(start), Ghost(sent));
    proof {
        sent = sent + left.css();
        assert(sent =~= done + text);
    }
    r
}

/// Four values for the top, right, bottom and left of a box, in that order.
#[derive(Clone, Copy, Debug, PartialEq)]
pub struct Rect<T>(pub T, pub T, pub T, pub T);

impl<T> Rect<T> {
    pub fn new(top: T, right: T, bottom: T, left: T) -> (r: Self)
        ensures
            r == Rect(top, right, bottom, left),
    {
        Rect(top, right, bottom, left)
    }
}

impl<T: View> View for Rect<T> {
    type V = Rect<T::V>;

    open spec fn view(&self) -> Rect<T::V> {
        Rect(self.0@, self.1@, self.2@, self.3@)
    }
}

impl<T: ValueEq> ValueEq for Rect<T> {
    fn value_eq(&self, other: &Self) -> (b: bool) {
        self.0.value_eq(&other.0) && self.1.value_eq(&other.1) && self.2.value_eq(&other.2)
            && self.3.value_eq(&other.3)
    }
}

impl<T: ToCss + ValueEq> ToCss for Rect<T> {
    open spec fn css(&self) -> Text {
        sides_css(self.0, self.1, self.2, self.3)
    }

    open spec fn serializable(&self) -> bool {
        self.0.serializable() && self.1.serializable() && self.2.serializable()
            && self.3.serializable()
    }

    open spec fn succeeds(&self) -> bool {
        sides_succeed(self.0, self.1, self.2, self.3)
    }

    fn to_css(&self, dest: &mut CssWriter<String>) -> (r: Result<(), std::fmt::Error>) {
        let ghost start = *dest;
        let r = put_sides(
            &self.0,
            &self.1,
            &self.2,
            &self.3,
            dest,
            Ghost(start),
            Ghost(Seq::<char>::empty()),
        );
        assert(Seq::<char>::empty() + self.css() =~= self.css());
        r
    }
}

impl<Pr: Copy, T: Animate<Pr>> Animate<Pr> for Rect<T> {
    /// The four sides are interpolated one by one. All four must succeed.
    open spec fn animated(&self, other: &Self, procedure: Pr) -> Option<Rect<T::V>> {
        match (
            self.0.animated(&other.0, procedure),
            self.1.animated(&other.1, procedure),
            self.2.animated(&other.2, procedure),
            self.3.animated(&other.3, procedure),
        ) {
            (Some(top), Some(right), Some(bottom), Some(left)) => Some(
                Rect(top, right, bottom, left),
            ),
            _ => None,
        }
    }

    fn animate(&self, other: &Self, procedure: Pr) -> (r: Result<Self, ()>) {
        let top = self.0.animate(&other.0, procedure)?;
        let right = self.1.animate(&other.1, procedure)?;
        let bottom = self.2.animate(&other.2, procedure)?;
        let left = self.3.animate(&other.3, procedure)?;
        Ok(Rect(top, right, bottom, left))
    }
}

impl<D: Distance, T: ComputeSquaredDistance<D>> ComputeSquaredDistance<D> for Rect<T> {
    /// The distances of the four sides, added up from the top round to the left.
    open spec fn squared_distance(&self, other: &Self) -> Option<D> {
        plus_opt(
            plus_opt(
                plus_opt(self.0.squared_distance(&other.0), self.1.squared_distance(&other.1)),
                self.2.squared_distance(&other.2),
            ),
            self.3.squared_distance(&other.3),
        )
    }

    fn compute_squared_distance(&self, other: &Self) -> (r: Result<D, ()>) {
        let top = self.0.compute_squared_distance(&other.0)?;
        let right = self.1.compute_squared_distance(&other.1)?;
        let bottom = self.2.compute_squared_distance(&other.2)?;
        let left = self.3.compute_squared_distance(&other.3)?;
        Ok(top.plus(right).plus(bottom).plus(left))
    }
}

/// Where interpolating the sides at `procedure` gives one end of the pair, interpolating
/// the four of them does so too.
pub proof fn lemma_rect_yields_endpoint<Pr: Copy, T: Animate<Pr>>(procedure: Pr, endpoint: Endpoint)
    requires
        yields_endpoint::<T, Pr>(procedure, endpoint),
    ensures
        yields_endpoint::<Rect<T>, Pr>(procedure, endpoint),
{
}

/// Where sides have a distance exactly when they can always be interpolated, so have
/// the four of them together.
pub proof fn lemma_rect_distance_agrees<
    Pr: Copy,
    D: Distance,
    T: Animate<Pr> + ComputeSquaredDistance<D>,
>()
    requires
        distance_agrees::<T, Pr, D>(),
    ensures
        distance_agrees::<Rect<T>, Pr, D>(),
{
    assert forall|a: Rect<T>, b: Rect<T>|
        (#[trigger] a.squared_distance(&b)) is Some <==> always_animates::<Rect<T>, Pr>(a, b) by {
        assert(a.0.squared_distance(&b.0) is Some <==> always_animates::<T, Pr>(a.0, b.0));
        assert(a.1.squared_distance(&b.1) is Some <==> always_animates::<T, Pr>(a.1, b.1));
        assert(a.2.squared_distance(&b.2) is Some <==> always_animates::<T, Pr>(a.2, b.2));
        assert(a.3.squared_distance(&b.3) is Some <==> always_animates::<T, Pr>(a.3, b.3));
        if always_animates::<Rect<T>, Pr>(a, b) {
            assert forall|procedure: Pr| (#[trigger] a.0.animated(&b.0, procedure)) is Some by {
                assert(a.animated(&b, procedure) is Some);
            }
            assert forall|procedure: Pr| (#[trigger] a.1.animated(&b.1, procedure)) is Some by {
                assert(a.animated(&b, procedure) is Some);
            }
            assert forall|procedure: Pr| (#[trigger] a.2.animated(&b.2, procedure)) is Some by {
                assert(a.animated(&b, procedure) is Some);
            }
            assert forall|procedure: Pr| (#[trigger] a.3.animated(&b.3, procedure)) is Some by {
                assert(a.animated(&b, procedure) is Some);
            }
        }
        if a.squared_distance(&b) is Some {
            assert forall|procedure: Pr| (#[trigger] a.animated(&b, procedure)) is Some by {
                assert(a.0.animated(&b.0, procedure) is Some);
                assert(a.1.animated(&b.1, procedure) is Some);
                assert(a.2.animated(&b.2, procedure) is Some);
                assert(a.3.animated(&b.3, procedure) is Some);
            }
        }
    }
}

/// The radius of one rounded corner: how far the curve reaches along the horizontal
/// edge and along the vertical edge.
#[derive(Clone, Copy, Debug, PartialEq)]
pub struct BorderCornerRadius<L> {
    pub width: L,
    pub height: L,
}

impl<L> BorderCornerRadius<L> {
    pub fn new(width: L, height: L) -> (r: Self)
        ensures
            r == (BorderCornerRadius { width, height }),
    {
        BorderCornerRadius { width, height }
    }
}

impl<L: View> View for BorderCornerRadius<L> {
    type V = BorderCornerRadius<L::V>;

    open spec fn view(&self) -> BorderCornerRadius<L::V> {
        BorderCornerRadius { width: self.width@, height: self.height@ }
    }
}

impl<L: ValueEq> ValueEq for BorderCornerRadius<L> {
    fn value_eq(&self, other: &Self) -> (b: bool) {
        self.width.value_eq(&other.width) && self.height.value_eq(&other.height)
    }
}

impl<L: Zero> Zero for BorderCornerRadius<L> {
    open spec fn is_zero_spec(&self) -> bool {
        self.width.is_zero_spec() && self.height.is_zero_spec()
    }

    fn zero() -> (z: Self) {
        BorderCornerRadius { width: L::zero(), height: L::zero() }
    }

    fn is_zero(&self) -> (b: bool) {
        self.width.is_zero() && self.height.is_zero()
    }
}

impl<Pr: Copy, L: Animate<Pr>> Animate<Pr> for BorderCornerRadius<L> {
    /// Width and height are interpolated one by one. Both must succeed.
    open spec fn animated(&self, other: &Self, procedure: Pr) -> Option<BorderCornerRadius<L::V>> {
        match (
            self.width.animated(&other.width, procedure),
            self.height.animated(&other.height, procedure),
        ) {
            (Some(width), Some(height)) => Some(BorderCornerRadius { width, height }),
            _ => None,
        }
    }

    fn animate(&self, other: &Self, procedure: Pr) -> (r: Result<Self, ()>) {
        let width = self.width.animate(&other.width, procedure)?;
        let height = self.height.animate(&other.height, procedure)?;
        Ok(BorderCornerRadius { width, height })
    }
}

impl<D: Distance, L: ComputeSquaredDistance<D>> ComputeSquaredDistance<D> for BorderCornerRadius<
    L,
> {
    /// The distance of the widths plus that of the heights.
    open spec fn squared_distance(&self, other: &Self) -> Option<D> {
        plus_opt(
            self.width.squared_distance(&other.width),
            self.height.squared_distance(&other.height),
        )
    }

    fn compute_squared_distance(&self, other: &Self) -> (r: Result<D, ()>) {
        let width = self.width.compute_squared_distance(&other.width)?;
        let height = self.height.compute_squared_distance(&other.height)?;
        Ok(width.plus(height))
    }
}

/// Where interpolating lengths at `procedure` gives one end of the pair, interpolating
/// corner radii does so too.
pub proof fn lemma_corner_yields_endpoint<Pr: Copy, L: Animate<Pr>>(
    procedure: Pr,
    endpoint: Endpoint,
)
    requires
        yields_endpoint::<L, Pr>(procedure, endpoint),
    ensures
        yields_endpoint::<BorderCornerRadius<L>, Pr>(procedure, endpoint),
{
}

/// Where lengths have a distance exactly when they can always be interpolated, so have
/// corner radii.
pub proof fn lemma_corner_distance_agrees<
    Pr: Copy,
    D: Distance,
    L: Animate<Pr> + ComputeSquaredDistance<D>,
>()
    requires
        distance_agrees::<L, Pr, D>(),
    ensures
        distance_agrees::<BorderCornerRadius<L>, Pr, D>(),
{
    assert forall|a: BorderCornerRadius<L>, b: BorderCornerRadius<L>|
        (#[trigger] a.squared_distance(&b)) is Some <==> always_animates::<
            BorderCornerRadius<L>,
            Pr,
        >(a, b) by {
        assert(a.width.squared_distance(&b.width) is Some <==> always_animates::<L, Pr>(
            a.width,
            b.width,
        ));
        assert(a.height.squared_distance(&b.height) is Some <==> always_animates::<L, Pr>(
            a.height,
            b.height,
        ));
        if always_animates::<BorderCornerRadius<L>, Pr>(a, b) {
            assert forall|procedure: Pr| (#[trigger] a.width.animated(&b.width, procedure)) is Some by {
                assert(a.animated(&b, procedure) is Some);
            }
            assert forall|procedure: Pr| (#[trigger] a.height.animated(&b.height, procedure)) is Some by {
                assert(a.animated(&b, procedure) is Some);
            }
        }
        if a.squared_distance(&b) is Some {
            assert forall|procedure: Pr| (#[trigger] a.animated(&b, procedure)) is Some by {
                assert(a.width.animated(&b.width, procedure) is Some);
                assert(a.height.animated(&b.height, procedure) is Some);
            }
        }
    }
}

/// The radii of the four corners of a box, clockwise from the top left.
#[derive(Clone, Copy, Debug, PartialEq)]
pub struct BorderRadius<L> {
    pub top_left: BorderCornerRadius<L>,
    pub top_right: BorderCornerRadius<L>,
    pub bottom_right: BorderCornerRadius<L>,
    pub bottom_left: BorderCornerRadius<L>,
}

impl<L> BorderRadius<L> {
    pub fn new(
        top_left: BorderCornerRadius<L>,
        top_right: BorderCornerRadius<L>,
        bottom_right: BorderCornerRadius<L>,
        bottom_left: BorderCornerRadius<L>,
    ) -> (r: Self)
        ensures
            r == (BorderRadius { top_left, top_right, bottom_right, bottom_left }),
    {
        BorderRadius { top_left, top_right, bottom_right, bottom_left }
    }
}

impl<L: View> BorderRadius<L> {
    /// Whether every corner is as wide as it is high, so that the heights need not be
    /// written.
    pub open spec fn is_round(&self) -> bool {
        &&& self.top_left.width@ == self.top_left.height@
        &&& self.top_right.width@ == self.top_right.height@
        &&& self.bottom_right.width@ == self.bottom_right.height@
        &&& self.bottom_left.width@ == self.bottom_left.height@
    }
}

impl<L: View> View for BorderRadius<L> {
    type V = BorderRadius<L::V>;

    open spec fn view(&self) -> BorderRadius<L::V> {
        BorderRadius {
            top_left: self.top_left@,
            top_right: self.top_right@,
            bottom_right: self.bottom_right@,
            bottom_left: self.bottom_left@,
        }
    }
}

impl<L: ValueEq> ValueEq for BorderRadius<L> {
    fn value_eq(&self, other: &Self) -> (b: bool) {
        self.top_left.value_eq(&other.top_left) && self.top_right.value_eq(&other.top_right)
            && self.bottom_right.value_eq(&other.bottom_right) && self.bottom_left.value_eq(
            &other.bottom_left,
        )
    }
}

impl<L: Zero> Zero for BorderRadius<L> {
    /// All four corners are square.
    open spec fn is_zero_spec(&self) -> bool {
        self.top_left.is_zero_spec() && self.top_right.is_zero_spec()
            && self.bottom_right.is_zero_spec() && self.bottom_left.is_zero_spec()
    }

    fn zero() -> (z: Self) {
        BorderRadius {
            top_left: BorderCornerRadius::zero(),
            top_right: BorderCornerRadius::zero(),
            bottom_right: BorderCornerRadius::zero(),
            bottom_left: BorderCornerRadius::zero(),
        }
    }

    fn is_zero(&self) -> (b: bool) {
        self.top_left.is_zero() && self.top_right.is_zero() && self.bottom_right.is_zero()
            && self.bottom_left.is_zero()
    }
}

impl<L: ToCss + ValueEq> ToCss for BorderRadius<L> {
    /// The four widths, and after ` / ` the four heights unless every corner is as wide
    /// as it is high.
    open spec fn css(&self) -> Text {
        let widths = sides_css(
            self.top_left.width,
            self.top_right.width,
            self.bottom_right.width,
            self.bottom_left.width,
        );
        if self.is_round() {
            widths
        } else {
            widths + " / "@ + sides_css(
                self.top_left.height,
                self.top_right.height,
                self.bottom_right.height,
                self.bottom_left.height,
            )
        }
    }

    open spec fn serializable(&self) -> bool {
        &&& self.top_left.width.serializable()
        &&& self.top_left.height.serializable()
        &&& self.top_right.width.serializable()
        &&& self.top_right.height.serializable()
        &&& self.bottom_right.width.serializable()
        &&& self.bottom_right.height.serializable()
        &&& self.bottom_left.width.serializable()
        &&& self.bottom_left.height.serializable()
    }

    open spec fn succeeds(&self) -> bool {
        &&& sides_succeed(
            self.top_left.width,
            self.top_right.width,
            self.bottom_right.width,
            self.bottom_left.width,
        )
        &&& self.is_round() || sides_succeed(
            self.top_left.height,
            self.top_right.height,
            self.bottom_right.height,
            self.bottom_left.height,
        )
    }

    fn to_css(&self, dest: &mut CssWriter<String>) -> (r: Result<(), std::fmt::Error>) {
        let ghost start = *dest;
        let ghost mut sent = Seq::<char>::empty();
        put_sides(
            &self.top_left.width,
            &self.top_right.width,
            &self.bottom_right.width,
            &self.bottom_left.width,
            dest,
            Ghost(start),
            Ghost(sent),
        )?;
        proof {
            sent = sent + sides_css(
                self.top_left.width,
                self.top_right.width,
                self.bottom_right.width,
                self.bottom_left.width,
            );
        }
        let round = self.top_left.width.value_eq(&self.top_left.height)
            && self.top_right.width.value_eq(&self.top_right.height)
            && self.bottom_right.width.value_eq(&self.bottom_right.height)
            && self.bottom_left.width.value_eq(&self.bottom_left.height);
        if round {
            assert(sent =~= self.css());
            return Ok(());
        }
        put_str(dest, " / ", Ghost(start), Ghost(sent))?;
        proof {
            sent = sent + " / "@;
        }
        let r = put_sides(
            &self.top_left.height,
            &self.top_right.height,
            &self.bottom_right.height,
            &self.bottom_left.height,
            dest,
            Ghost(start),
            Ghost(sent),
        );
        proof {
            sent = sent + sides_css(
                self.top_left.height,
                self.top_right.height,
                self.bottom_right.height,
                self.bottom_left.height,
            );
            assert(sent =~= self.css());
        }
        r
    }
}

impl<Pr: Copy, L: Animate<Pr>> Animate<Pr> for BorderRadius<L> {
    /// The four corners are interpolated one by one. All four must succeed.
    open spec fn animated(&self, other: &Self, procedure: Pr) -> Option<BorderRadius<L::V>> {
        match (
            self.top_left.animated(&other.top_left, procedure),
            self.top_right.animated(&other.top_right, procedure),
            self.bottom_right.animated(&other.bottom_right, procedure),
            self.bottom_left.animated(&other.bottom_left, procedure),
        ) {
            (Some(top_left), Some(top_right), Some(bottom_right), Some(bottom_left)) => Some(
                BorderRadius { top_left, top_right, bottom_right, bottom_left },
            ),
            _ => None,
        }
    }

    fn animate(&self, other: &Self, procedure: Pr) -> (r: Result<Self, ()>) {
        let top_left = self.top_left.animate(&other.top_left, procedure)?;
        let top_right = self.top_right.animate(&other.top_right, procedure)?;
        let bottom_right = self.bottom_right.animate(&other.bottom_right, procedure)?;
        let bottom_left = self.bottom_left.animate(&other.bottom_left, procedure)?;
        Ok(BorderRadius { top_left, top_right, bottom_right, bottom_left })
    }
}

impl<D: Distance, L: ComputeSquaredDistance<D>> ComputeSquaredDistance<D> for BorderRadius<L> {
    /// The distances of the four corners, added up clockwise from the top left.
    open spec fn squared_distance(&self, other: &Self) -> Option<D> {
        plus_opt(
            plus_opt(
                plus_opt(
                    self.top_left.squared_distance(&other.top_left),
                    self.top_right.squared_distance(&other.top_right),
                ),
                self.bottom_right.squared_distance(&other.bottom_right),
            ),
            self.bottom_left.squared_distance(&other.bottom_left),
        )
    }

    fn compute_squared_distance(&self, other: &Self) -> (r: Result<D, ()>) {
        let top_left = self.top_left.compute_squared_distance(&other.top_left)?;
        let top_right = self.top_right.compute_squared_distance(&other.top_right)?;
        let bottom_right = self.bottom_right.compute_squared_distance(&other.bottom_right)?;
        let bottom_left = self.bottom_left.compute_squared_distance(&other.bottom_left)?;
        Ok(top_left.plus(top_right).plus(bottom_right).plus(bottom_left))
    }
}

/// Where interpolating lengths at `procedure` gives one end of the pair, interpolating
/// the radii of four corners does so too.
pub proof fn lemma_border_radius_yields_endpoint<Pr: Copy, L: Animate<Pr>>(
    procedure: Pr,
    endpoint: Endpoint,
)
    requires
        yields_endpoint::<L, Pr>(procedure, endpoint),
    ensures
        yields_endpoint::<BorderRadius<L>, Pr>(procedure, endpoint),
{
    lemma_corner_yields_endpoint::<Pr, L>(procedure, endpoint);
}

/// Where lengths have a distance exactly when they can always be interpolated, so have
/// the radii of four corners.
pub proof fn lemma_border_radius_distance_agrees<
    Pr: Copy,
    D: Distance,
    L: Animate<Pr> + ComputeSquaredDistance<D>,
>()
    requires
        distance_agrees::<L, Pr, D>(),
    ensures
        distance_agrees::<BorderRadius<L>, Pr, D>(),
{
    lemma_corner_distance_agrees::<Pr, D, L>();
    assert forall|a: BorderRadius<L>, b: BorderRadius<L>|
        (#[trigger] a.squared_distance(&b)) is Some <==> always_animates::<BorderRadius<L>, Pr>(
            a,
            b,
        ) by {
        let (a0, a1, a2, a3) = (a.top_left, a.top_right, a.bottom_right, a.bottom_left);
        let (b0, b1, b2, b3) = (b.top_left, b.top_right, b.bottom_right, b.bottom_left);
        assert(a0.squared_distance(&b0) is Some <==> always_animates::<
            BorderCornerRadius<L>,
            Pr,
        >(a0, b0));
        assert(a1.squared_distance(&b1) is Some <==> always_animates::<
            BorderCornerRadius<L>,
            Pr,
        >(a1, b1));
        assert(a2.squared_distance(&b2) is Some <==> always_animates::<
            BorderCornerRadius<L>,
            Pr,
        >(a2, b2));
        assert(a3.squared_distance(&b3) is Some <==> always_animates::<
            BorderCornerRadius<L>,
            Pr,
        >(a3, b3));
        if always_animates::<BorderRadius<L>, Pr>(a, b) {
            assert forall|procedure: Pr| (#[trigger] a0.animated(&b0, procedure)) is Some by {
                assert(a.animated(&b, procedure) is Some);
            }
            assert forall|procedure: Pr| (#[trigger] a1.animated(&b1, procedure)) is Some by {
                assert(a.animated(&b, procedure) is Some);
            }
            assert forall|procedure: Pr| (#[trigger] a2.animated(&b2, procedure)) is Some by {
                assert(a.animated(&b, procedure) is Some);
            }
            assert forall|procedure: Pr| (#[trigger] a3.animated(&b3, procedure)) is Some by {
                assert(a.animated(&b, procedure) is Some);
            }
        }
        if a.squared_distance(&b) is Some {
            assert forall|procedure: Pr| (#[trigger] a.animated(&b, procedure)) is Some by {
                assert(a0.animated(&b0, procedure) is Some);
                assert(a1.animated(&b1, procedure) is Some);
                assert(a2.animated(&b2, procedure) is Some);
                assert(a3.animated(&b3, procedure) is Some);
            }
        }
    }
}

} // verus!
