//! The values of the two properties that take a basic shape: `clip-path` and
//! `shape-outside`.

use crate::capability::{
    always_animates, distance_agrees, plus_opt, put_item, yields_endpoint, Animate,
    ComputeSquaredDistance, Distance, Endpoint, Text, ToCss, ValueEq,
};
use crate::keyword::{is_default, ShapeBox, ShapeGeometryBox};
use crate::writer::{lemma_emitted_concat, put_char, write_str};
use style_traits::CssWriter;
use vstd::prelude::*;

verus! {

/// A value of `clip-path`.
#[derive(Clone, Debug, PartialEq)]
pub enum GenericClipPath<BasicShape, U> {
    /// `none`: no clipping.
    Nothing,
    /// A reference to a clipping path that is defined elsewhere.
    Url(U),
    /// A shape, and the reference box that it is laid out in.
    Shape(Box<BasicShape>, ShapeGeometryBox),
    /// The edges of a reference box.
    Box(ShapeGeometryBox),
}

pub use GenericClipPath as ClipPath;

impl<S: View, U: View> View for GenericClipPath<S, U> {
    type V = GenericClipPath<S::V, U::V>;

    open spec fn view(&self) -> GenericClipPath<S::V, U::V> {
        match *self {
            GenericClipPath::Nothing => GenericClipPath::Nothing,
            GenericClipPath::Url(url) => GenericClipPath::Url(url@),
            GenericClipPath::Shape(shape, reference) => GenericClipPath::Shape(
                Box::new(shape@),
                reference,
            ),
            GenericClipPath::Box(reference) => GenericClipPath::Box(reference),
        }
    }
}

/// The reference box behind a shape: nothing where it is the default of its type, else
/// a space and the keyword of the box.
pub open spec fn geometry_box_css(reference: ShapeGeometryBox) -> Text {
    if reference == ShapeGeometryBox::ElementDependent {
        Seq::<char>::empty()
    } else {
        seq![' '] + reference.css()
    }
}

impl<S, U> GenericClipPath<S, U> {
    /// There is no zero to interpolate a `clip-path` from or towards: always fails.
    pub fn to_animated_zero(&self) -> (r: Result<Self, ()>)
        ensures
            r is Err,
    {
        Err(())
    }
}

impl<S: ValueEq, U: ValueEq> ValueEq for GenericClipPath<S, U> {
    fn value_eq(&self, other: &Self) -> (b: bool) {
        match (self, other) {
            (GenericClipPath::Nothing, GenericClipPath::Nothing) => true,
            (GenericClipPath::Url(a), GenericClipPath::Url(b)) => a.value_eq(b),
            (GenericClipPath::Shape(a, in_a), GenericClipPath::Shape(b, in_b)) => {
                a.value_eq(b) && *in_a == *in_b
            },
            (GenericClipPath::Box(a), GenericClipPath::Box(b)) => *a == *b,
            _ => false,
        }
    }
}

impl<S: ToCss, U: ToCss> ToCss for GenericClipPath<S, U> {
    /// `none`, the text of the reference, the keyword of the box, or the text of the
    /// shape followed by the keyword of its box unless that is the default.
    open spec fn css(&self) -> Text {
        match *self {
            GenericClipPath::Nothing => "none"@,
            GenericClipPath::Url(url) => url.css(),
            GenericClipPath::Shape(shape, reference) => shape.css() + geometry_box_css(reference),
            GenericClipPath::Box(reference) => reference.css(),
        }
    }

    /// A box that stands alone must have a keyword.
    open spec fn serializable(&self) -> bool {
        match *self {
            GenericClipPath::Nothing => true,
            GenericClipPath::Url(url) => url.serializable(),
            GenericClipPath::Shape(shape, reference) => shape.serializable(),
            GenericClipPath::Box(reference) => reference.serializable(),
        }
    }

    open spec fn succeeds(&self) -> bool {
        match *self {
            GenericClipPath::Url(url) => url.succeeds(),
            GenericClipPath::Shape(shape, reference) => shape.succeeds(),
            _ => true,
        }
    }

    fn to_css(&self, dest: &mut CssWriter<String>) -> (r: Result<(), std::fmt::Error>) {
        match self {
            GenericClipPath::Nothing => write_str(dest, "none"),
            GenericClipPath::Url(url) => url.to_css(dest),
            GenericClipPath::Shape(shape, reference) => {
                let ghost start = *dest;
                let ghost mut sent = Seq::<char>::empty();
                put_item(&**shape, dest, Ghost(start), Ghost(sent))?;
                proof {
                    sent = sent + shape.css();
                }
                if !is_default(reference) {
                    put_char(dest, ' ', Ghost(start), Ghost(sent))?;
                    proof {
                        sent = sent + seq![' '];
                    }
                    let ghost before = *dest;
                    reference.to_css(dest)?;
                    proof {
                        lemma_emitted_concat(start, before, *dest, sent, reference.css());
                        sent = sent + reference.css();
                    }
                }
                assert(sent =~= self.css());
                Ok(())
            },
            GenericClipPath::Box(reference) => reference.to_css(dest),
        }
    }
}

impl<Pr: Copy, S: Animate<Pr>, U: View> Animate<Pr> for GenericClipPath<S, U> {
    /// Only two shapes laid out in the same reference box are interpolated: by their
    /// shapes. `none`, a reference and a box alone are never interpolated, not even with
    /// themselves.
    open spec fn animated(&self, other: &Self, procedure: Pr) -> Option<GenericClipPath<S::V, U::V>> {
        match (*self, *other) {
            (GenericClipPath::Shape(a, in_a), GenericClipPath::Shape(b, in_b)) => {
                if in_a == in_b {
                    match a.animated(&b, procedure) {
                        Some(shape) => Some(GenericClipPath::Shape(Box::new(shape), in_a)),
                        None => None,
                    }
                } else {
                    None
                }
            },
            _ => None,
        }
    }

    fn animate(&self, other: &Self, procedure: Pr) -> (r: Result<Self, ()>)
        ensures
            !(self is Shape) || !(other is Shape) ==> r is Err,
            self is Shape && other is Shape && self->Shape_1 != other->Shape_1 ==> r is Err,
    {
        match (self, other) {
            (GenericClipPath::Shape(a, in_a), GenericClipPath::Shape(b, in_b)) => {
                let shape = a.animate(b, procedure)?;
                let reference = in_a.animate(in_b, procedure)?;
                Ok(GenericClipPath::Shape(Box::new(shape), reference))
            },
            _ => Err(()),
        }
    }
}

impl<D: Distance, S: ComputeSquaredDistance<D>, U> ComputeSquaredDistance<D> for GenericClipPath<
    S,
    U,
> {
    /// Only two shapes laid out in the same reference box have a distance: that of the
    /// shapes plus that of the boxes, which is zero.
    open spec fn squared_distance(&self, other: &Self) -> Option<D> {
        match (*self, *other) {
            (GenericClipPath::Shape(a, in_a), GenericClipPath::Shape(b, in_b)) => plus_opt(
                a.squared_distance(&b),
                if in_a == in_b {
                    Some(D::zero_spec())
                } else {
                    None
                },
            ),
            _ => None,
        }
    }

    fn compute_squared_distance(&self, other: &Self) -> (r: Result<D, ()>)
        ensures
            !(self is Shape) || !(other is Shape) ==> r is Err,
            self is Shape && other is Shape && self->Shape_1 != other->Shape_1 ==> r is Err,
    {
        match (self, other) {
            (GenericClipPath::Shape(a, in_a), GenericClipPath::Shape(b, in_b)) => {
                let shape = a.compute_squared_distance(b)?;
                let reference: D = in_a.compute_squared_distance(in_b)?;
                Ok(shape.plus(reference))
            },
            _ => Err(()),
        }
    }
}

/// Interpolation returns its ends: where interpolating shapes at `procedure` gives one
/// end of the pair, interpolating values of `clip-path` does so too.
pub proof fn lemma_clip_path_yields_endpoint<Pr: Copy, S: Animate<Pr>, U: View>(
    procedure: Pr,
    endpoint: Endpoint,
)
    requires
        yields_endpoint::<S, Pr>(procedure, endpoint),
    ensures
        yields_endpoint::<GenericClipPath<S, U>, Pr>(procedure, endpoint),
{
    assert forall|a: GenericClipPath<S, U>, b: GenericClipPath<S, U>|
        (#[trigger] a.animated(&b, procedure)) is Some implies a.animated(&b, procedure) == Some(
        endpoint.of(a@, b@),
    ) by {
        match (a, b) {
            (GenericClipPath::Shape(x, _), GenericClipPath::Shape(y, _)) => {
                assert(x.animated(&y, procedure) is Some);
            },
            _ => {},
        }
    }
}

/// A distance exists exactly where interpolation always succeeds: where that holds of
/// shapes, it holds of values of `clip-path`.
pub proof fn lemma_clip_path_distance_agrees<
    Pr: Copy,
    D: Distance,
    S: Animate<Pr> + ComputeSquaredDistance<D>,
    U: View,
>()
    requires
        distance_agrees::<S, Pr, D>(),
    ensures
        distance_agrees::<GenericClipPath<S, U>, Pr, D>(),
{
    assert forall|a: GenericClipPath<S, U>, b: GenericClipPath<S, U>|
        (#[trigger] a.squared_distance(&b)) is Some <==> always_animates::<
            GenericClipPath<S, U>,
            Pr,
        >(a, b) by {
        match (a, b) {
            (GenericClipPath::Shape(x, _), GenericClipPath::Shape(y, _)) => {
                let (x, y) = (*x, *y);
                assert(x.squared_distance(&y) is Some <==> always_animates::<S, Pr>(x, y));
                if a.squared_distance(&b) is Some {
                    assert forall|procedure: Pr| (#[trigger] a.animated(&b, procedure)) is Some by {
                        assert(x.animated(&y, procedure) is Some);
                    }
                }
                if always_animates::<GenericClipPath<S, U>, Pr>(a, b) {
                    assert(a.animated(&b, arbitrary::<Pr>()) is Some);
                    assert forall|procedure: Pr| (#[trigger] x.animated(&y, procedure)) is Some by {
                        assert(a.animated(&b, procedure) is Some);
                    }
                }
            },
            _ => {
                assert(a.animated(&b, arbitrary::<Pr>()) is None);
            },
        }
    }
}

/// A value of `shape-outside`.
#[derive(Clone, Debug, PartialEq)]
pub enum GenericShapeOutside<BasicShape, I> {
    /// `none`: no shape, text wraps round the box.
    Nothing,
    /// An image whose outline gives the shape.
    Image(I),
    /// A shape, and the reference box that it is laid out in.
    Shape(Box<BasicShape>, ShapeBox),
    /// The edges of a reference box.
    Box(ShapeBox),
}

pub use GenericShapeOutside as ShapeOutside;

impl<S: View, I: View> View for GenericShapeOutside<S, I> {
    type V = GenericShapeOutside<S::V, I::V>;

    open spec fn view(&self) -> GenericShapeOutside<S::V, I::V> {
        match *self {
            GenericShapeOutside::Nothing => GenericShapeOutside::Nothing,
            GenericShapeOutside::Image(image) => GenericShapeOutside::Image(image@),
            GenericShapeOutside::Shape(shape, reference) => GenericShapeOutside::Shape(
                Box::new(shape@),
                reference,
            ),
            GenericShapeOutside::Box(reference) => GenericShapeOutside::Box(reference),
        }
    }
}

/// The reference box behind a shape: nothing where it is the default of its type, else
/// a space and the keyword of the box.
pub open spec fn shape_box_css(reference: ShapeBox) -> Text {
    if reference == ShapeBox::MarginBox {
        Seq::<char>::empty()
    } else {
        seq![' '] + reference.css()
    }
}

impl<S, I> GenericShapeOutside<S, I> {
    /// There is no zero to interpolate a `shape-outside` from or towards: always fails.
    pub fn to_animated_zero(&self) -> (r: Result<Self, ()>)
        ensures
            r is Err,
    {
        Err(())
    }
}

impl<S: ValueEq, I: ValueEq> ValueEq for GenericShapeOutside<S, I> {
    fn value_eq(&self, other: &Self) -> (b: bool) {
        match (self, other) {
            (GenericShapeOutside::Nothing, GenericShapeOutside::Nothing) => true,
            (GenericShapeOutside::Image(a), GenericShapeOutside::Image(b)) => a.value_eq(b),
            (GenericShapeOutside::Shape(a, in_a), GenericShapeOutside::Shape(b, in_b)) => {
                a.value_eq(b) && *in_a == *in_b
            },
            (GenericShapeOutside::Box(a), GenericShapeOutside::Box(b)) => *a == *b,
            _ => false,
        }
    }
}

impl<S: ToCss, I: ToCss> ToCss for GenericShapeOutside<S, I> {
    /// `none`, the text of the image, the keyword of the box, or the text of the shape
    /// followed by the keyword of its box unless that is the default.
    open spec fn css(&self) -> Text {
        match *self {
            GenericShapeOutside::Nothing => "none"@,
            GenericShapeOutside::Image(image) => image.css(),
            GenericShapeOutside::Shape(shape, reference) => shape.css() + shape_box_css(reference),
            GenericShapeOutside::Box(reference) => reference.css(),
        }
    }

    open spec fn serializable(&self) -> bool {
        match *self {
            GenericShapeOutside::Nothing => true,
            GenericShapeOutside::Image(image) => image.serializable(),
            GenericShapeOutside::Shape(shape, reference) => shape.serializable(),
            GenericShapeOutside::Box(reference) => true,
        }
    }

    open spec fn succeeds(&self) -> bool {
        match *self {
            GenericShapeOutside::Image(image) => image.succeeds(),
            GenericShapeOutside::Shape(shape, reference) => shape.succeeds(),
            _ => true,
        }
    }

    fn to_css(&self, dest: &mut CssWriter<String>) -> (r: Result<(), std::fmt::Error>) {
        match self {
            GenericShapeOutside::Nothing => write_str(dest, "none"),
            GenericShapeOutside::Image(image) => image.to_css(dest),
            GenericShapeOutside::Shape(shape, reference) => {
                let ghost start = *dest;
                let ghost mut sent = Seq::<char>::empty();
                put_item(&**shape, dest, Ghost(start), Ghost(sent))?;
                proof {
                    sent = sent + shape.css();
                }
                if !is_default(reference) {
                    put_char(dest, ' ', Ghost(start), Ghost(sent))?;
                    proof {
                        sent = sent + seq![' '];
                    }
                    let ghost before = *dest;
                    reference.to_css(dest)?;
                    proof {
                        lemma_emitted_concat(start, before, *dest, sent, reference.css());
                        sent = sent + reference.css();
                    }
                }
                assert(sent =~= self.css());
                Ok(())
            },
            GenericShapeOutside::Box(reference) => reference.to_css(dest),
        }
    }
}

impl<Pr: Copy, S: Animate<Pr>, I: View> Animate<Pr> for GenericShapeOutside<S, I> {
    /// Only two shapes laid out in the same reference box are interpolated: by their
    /// shapes. `none`, an image and a box alone are never interpolated, not even with
    /// themselves.
    open spec fn animated(&self, other: &Self, procedure: Pr) -> Option<
        GenericShapeOutside<S::V, I::V>,
    > {
        match (*self, *other) {
            (GenericShapeOutside::Shape(a, in_a), GenericShapeOutside::Shape(b, in_b)) => {
                if in_a == in_b {
                    match a.animated(&b, procedure) {
                        Some(shape) => Some(GenericShapeOutside::Shape(Box::new(shape), in_a)),
                        None => None,
                    }
                } else {
                    None
                }
            },
            _ => None,
        }
    }

    fn animate(&self, other: &Self, procedure: Pr) -> (r: Result<Self, ()>)
        ensures
            !(self is Shape) || !(other is Shape) ==> r is Err,
            self is Shape && other is Shape && self->Shape_1 != other->Shape_1 ==> r is Err,
    {
        match (self, other) {
            (GenericShapeOutside::Shape(a, in_a), GenericShapeOutside::Shape(b, in_b)) => {
                let shape = a.animate(b, procedure)?;
                let reference = in_a.animate(in_b, procedure)?;
                Ok(GenericShapeOutside::Shape(Box::new(shape), reference))
            },
            _ => Err(()),
        }
    }
}

impl<
    D: Distance,
    S: ComputeSquaredDistance<D>,
    I,
> ComputeSquaredDistance<D> for GenericShapeOutside<S, I> {
    /// Only two shapes laid out in the same reference box have a distance: that of the
    /// shapes plus that of the boxes, which is zero.
    open spec fn squared_distance(&self, other: &Self) -> Option<D> {
        match (*self, *other) {
            (GenericShapeOutside::Shape(a, in_a), GenericShapeOutside::Shape(b, in_b)) => plus_opt(
                a.squared_distance(&b),
                if in_a == in_b {
                    Some(D::zero_spec())
                } else {
                    None
                },
            ),
            _ => None,
        }
    }

    fn compute_squared_distance(&self, other: &Self) -> (r: Result<D, ()>)
        ensures
            !(self is Shape) || !(other is Shape) ==> r is Err,
            self is Shape && other is Shape && self->Shape_1 != other->Shape_1 ==> r is Err,
    {
        match (self, other) {
            (GenericShapeOutside::Shape(a, in_a), GenericShapeOutside::Shape(b, in_b)) => {
                let shape = a.compute_squared_distance(b)?;
                let reference: D = in_a.compute_squared_distance(in_b)?;
                Ok(shape.plus(reference))
            },
            _ => Err(()),
        }
    }
}

/// Interpolation returns its ends: where interpolating shapes at `procedure` gives one
/// end of the pair, interpolating values of `shape-outside` does so too.
pub proof fn lemma_shape_outside_yields_endpoint<Pr: Copy, S: Animate<Pr>, I: View>(
    procedure: Pr,
    endpoint: Endpoint,
)
    requires
        yields_endpoint::<S, Pr>(procedure, endpoint),
    ensures
        yields_endpoint::<GenericShapeOutside<S, I>, Pr>(procedure, endpoint),
{
    assert forall|a: GenericShapeOutside<S, I>, b: GenericShapeOutside<S, I>|
        (#[trigger] a.animated(&b, procedure)) is Some implies a.animated(&b, procedure) == Some(
        endpoint.of(a@, b@),
    ) by {
        match (a, b) {
            (GenericShapeOutside::Shape(x, _), GenericShapeOutside::Shape(y, _)) => {
                assert(x.animated(&y, procedure) is Some);
            },
            _ => {},
        }
    }
}

/// A distance exists exactly where interpolation always succeeds: where that holds of
/// shapes, it holds of values of `shape-outside`.
pub proof fn lemma_shape_outside_distance_agrees<
    Pr: Copy,
    D: Distance,
    S: Animate<Pr> + ComputeSquaredDistance<D>,
    I: View,
>()
    requires
        distance_agrees::<S, Pr, D>(),
    ensures
        distance_agrees::<GenericShapeOutside<S, I>, Pr, D>(),
{
    assert forall|a: GenericShapeOutside<S, I>, b: GenericShapeOutside<S, I>|
        (#[trigger] a.squared_distance(&b)) is Some <==> always_animates::<
            GenericShapeOutside<S, I>,
            Pr,
        >(a, b) by {
        match (a, b) {
            (GenericShapeOutside::Shape(x, _), GenericShapeOutside::Shape(y, _)) => {
                let (x, y) = (*x, *y);
                assert(x.squared_distance(&y) is Some <==> always_animates::<S, Pr>(x, y));
                if a.squared_distance(&b) is Some {
                    assert forall|procedure: Pr| (#[trigger] a.animated(&b, procedure)) is Some by {
                        assert(x.animated(&y, procedure) is Some);
                    }
                }
                if always_animates::<GenericShapeOutside<S, I>, Pr>(a, b) {
                    assert(a.animated(&b, arbitrary::<Pr>()) is Some);
                    assert forall|procedure: Pr| (#[trigger] x.animated(&y, procedure)) is Some by {
                        assert(a.animated(&b, procedure) is Some);
                    }
                }
            },
            _ => {
                assert(a.animated(&b, arbitrary::<Pr>()) is None);
            },
        }
    }
}

} // verus!
