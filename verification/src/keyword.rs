//! The keyword vocabularies: reference boxes and fill rules.

use crate::capability::{
    always_animates, distance_agrees, yields_endpoint, Animate, ComputeSquaredDistance, Distance,
    Endpoint, Text, ToCss, ValueEq,
};
use crate::writer::write_str;
use style_traits::CssWriter;
use vstd::prelude::*;
use vstd::std_specs::cmp::{PartialEqSpec, PartialEqSpecImpl};

verus! {

/// Whether a value is the default of its type. A field that holds the default is left
/// out of the CSS text.
pub fn is_default<T: Default + PartialEq>(fill: &T) -> (b: bool)
    ensures
        T::obeys_eq_spec() ==> exists|d: T| #[trigger]
            call_ensures(T::default, (), d) && b == fill.eq_spec(&d),
{
    let d = T::default();
    fill.eq(&d)
}

/// The rule that tells the inside of a shape from its outside.
#[derive(Clone, Copy, Debug, Eq)]
pub enum FillRule {
    Nonzero,
    Evenodd,
}

impl PartialEq for FillRule {
    fn eq(&self, other: &Self) -> (b: bool) {
        match (self, other) {
            (FillRule::Nonzero, FillRule::Nonzero) => true,
            (FillRule::Evenodd, FillRule::Evenodd) => true,
            _ => false,
        }
    }
}

impl PartialEqSpecImpl for FillRule {
    open spec fn obeys_eq_spec() -> bool {
        true
    }

    open spec fn eq_spec(&self, other: &Self) -> bool {
        *self == *other
    }
}

impl Default for FillRule {
    fn default() -> (r: Self)
        ensures
            r == FillRule::Nonzero,
    {
        FillRule::Nonzero
    }
}

impl View for FillRule {
    type V = FillRule;

    open spec fn view(&self) -> FillRule {
        *self
    }
}

impl ValueEq for FillRule {
    fn value_eq(&self, other: &Self) -> (b: bool) {
        *self == *other
    }
}

impl ToCss for FillRule {
    open spec fn css(&self) -> Text {
        match self {
            FillRule::Nonzero => "nonzero"@,
            FillRule::Evenodd => "evenodd"@,
        }
    }

    open spec fn succeeds(&self) -> bool {
        true
    }

    fn to_css(&self, dest: &mut CssWriter<String>) -> (r: Result<(), std::fmt::Error>) {
        match self {
            FillRule::Nonzero => write_str(dest, "nonzero"),
            FillRule::Evenodd => write_str(dest, "evenodd"),
        }
    }
}

impl<Pr> Animate<Pr> for FillRule {
    /// A fill rule is not interpolated: a pair of equal rules stays, any other pair fails.
    open spec fn animated(&self, other: &Self, procedure: Pr) -> Option<FillRule> {
        if *self == *other {
            Some(*self)
        } else {
            None
        }
    }

    fn animate(&self, other: &Self, procedure: Pr) -> (r: Result<Self, ()>) {
        if *self == *other {
            Ok(*self)
        } else {
            Err(())
        }
    }
}

impl<D: Distance> ComputeSquaredDistance<D> for FillRule {
    open spec fn squared_distance(&self, other: &Self) -> Option<D> {
        if *self == *other {
            Some(D::zero_spec())
        } else {
            None
        }
    }

    fn compute_squared_distance(&self, other: &Self) -> (r: Result<D, ()>) {
        if *self == *other {
            Ok(D::zero())
        } else {
            Err(())
        }
    }
}

/// The reference boxes of `shape-outside`.
#[derive(Clone, Copy, Debug, Eq)]
pub enum ShapeBox {
    MarginBox,
    BorderBox,
    PaddingBox,
    ContentBox,
}

impl PartialEq for ShapeBox {
    fn eq(&self, other: &Self) -> (b: bool) {
        match (self, other) {
            (ShapeBox::MarginBox, ShapeBox::MarginBox) => true,
            (ShapeBox::BorderBox, ShapeBox::BorderBox) => true,
            (ShapeBox::PaddingBox, ShapeBox::PaddingBox) => true,
            (ShapeBox::ContentBox, ShapeBox::ContentBox) => true,
            _ => false,
        }
    }
}

impl PartialEqSpecImpl for ShapeBox {
    open spec fn obeys_eq_spec() -> bool {
        true
    }

    open spec fn eq_spec(&self, other: &Self) -> bool {
        *self == *other
    }
}

impl Default for ShapeBox {
    fn default() -> (r: Self)
        ensures
            r == ShapeBox::MarginBox,
    {
        ShapeBox::MarginBox
    }
}

impl View for ShapeBox {
    type V = ShapeBox;

    open spec fn view(&self) -> ShapeBox {
        *self
    }
}

impl ValueEq for ShapeBox {
    fn value_eq(&self, other: &Self) -> (b: bool) {
        *self == *other
    }
}

impl ToCss for ShapeBox {
    open spec fn css(&self) -> Text {
        match self {
            ShapeBox::MarginBox => "margin-box"@,
            ShapeBox::BorderBox => "border-box"@,
            ShapeBox::PaddingBox => "padding-box"@,
            ShapeBox::ContentBox => "content-box"@,
        }
    }

    open spec fn succeeds(&self) -> bool {
        true
    }

    fn to_css(&self, dest: &mut CssWriter<String>) -> (r: Result<(), std::fmt::Error>) {
        match self {
            ShapeBox::MarginBox => write_str(dest, "margin-box"),
            ShapeBox::BorderBox => write_str(dest, "border-box"),
            ShapeBox::PaddingBox => write_str(dest, "padding-box"),
            ShapeBox::ContentBox => write_str(dest, "content-box"),
        }
    }
}

impl<Pr> Animate<Pr> for ShapeBox {
    /// A reference box is not interpolated: a pair of equal boxes stays, any other pair
    /// fails.
    open spec fn animated(&self, other: &Self, procedure: Pr) -> Option<ShapeBox> {
        if *self == *other {
            Some(*self)
        } else {
            None
        }
    }

    fn animate(&self, other: &Self, procedure: Pr) -> (r: Result<Self, ()>) {
        if *self == *other {
            Ok(*self)
        } else {
            Err(())
        }
    }
}

impl<D: Distance> ComputeSquaredDistance<D> for ShapeBox {
    open spec fn squared_distance(&self, other: &Self) -> Option<D> {
        if *self == *other {
            Some(D::zero_spec())
        } else {
            None
        }
    }

    fn compute_squared_distance(&self, other: &Self) -> (r: Result<D, ()>) {
        if *self == *other {
            Ok(D::zero())
        } else {
            Err(())
        }
    }
}

/// The reference boxes of `clip-path`.
#[derive(Clone, Copy, Debug, Eq)]
pub enum ShapeGeometryBox {
    /// The box is still to be chosen by the kind of element the value applies to. It
    /// stands for "no box given" and has no keyword.
    ElementDependent,
    FillBox,
    StrokeBox,
    ViewBox,
    ShapeBox(ShapeBox),
}

impl PartialEq for ShapeGeometryBox {
    fn eq(&self, other: &Self) -> (b: bool) {
        match (self, other) {
            (ShapeGeometryBox::ElementDependent, ShapeGeometryBox::ElementDependent) => true,
            (ShapeGeometryBox::FillBox, ShapeGeometryBox::FillBox) => true,
            (ShapeGeometryBox::StrokeBox, ShapeGeometryBox::StrokeBox) => true,
            (ShapeGeometryBox::ViewBox, ShapeGeometryBox::ViewBox) => true,
            (ShapeGeometryBox::ShapeBox(a), ShapeGeometryBox::ShapeBox(b)) => *a == *b,
            _ => false,
        }
    }
}

impl PartialEqSpecImpl for ShapeGeometryBox {
    open spec fn obeys_eq_spec() -> bool {
        true
    }

    open spec fn eq_spec(&self, other: &Self) -> bool {
        *self == *other
    }
}

impl Default for ShapeGeometryBox {
    fn default() -> (r: Self)
        ensures
            r == ShapeGeometryBox::ElementDependent,
    {
        ShapeGeometryBox::ElementDependent
    }
}

impl View for ShapeGeometryBox {
    type V = ShapeGeometryBox;

    open spec fn view(&self) -> ShapeGeometryBox {
        *self
    }
}

impl ValueEq for ShapeGeometryBox {
    fn value_eq(&self, other: &Self) -> (b: bool) {
        *self == *other
    }
}

impl ToCss for ShapeGeometryBox {
    open spec fn css(&self) -> Text {
        match self {
            ShapeGeometryBox::ElementDependent => Seq::<char>::empty(),
            ShapeGeometryBox::FillBox => "fill-box"@,
            ShapeGeometryBox::StrokeBox => "stroke-box"@,
            ShapeGeometryBox::ViewBox => "view-box"@,
            ShapeGeometryBox::ShapeBox(b) => b.css(),
        }
    }

    /// Every box but `ElementDependent` has a keyword.
    open spec fn serializable(&self) -> bool {
        !(self is ElementDependent)
    }

    open spec fn succeeds(&self) -> bool {
        true
    }

    fn to_css(&self, dest: &mut CssWriter<String>) -> (r: Result<(), std::fmt::Error>) {
        match self {
            ShapeGeometryBox::ElementDependent => Ok(()),
            ShapeGeometryBox::FillBox => write_str(dest, "fill-box"),
            ShapeGeometryBox::StrokeBox => write_str(dest, "stroke-box"),
            ShapeGeometryBox::ViewBox => write_str(dest, "view-box"),
            ShapeGeometryBox::ShapeBox(b) => b.to_css(dest),
        }
    }
}

impl<Pr> Animate<Pr> for ShapeGeometryBox {
    /// A reference box is not interpolated: a pair of equal boxes stays, any other pair
    /// fails.
    open spec fn animated(&self, other: &Self, procedure: Pr) -> Option<ShapeGeometryBox> {
        if *self == *other {
            Some(*self)
        } else {
            None
        }
    }

    fn animate(&self, other: &Self, procedure: Pr) -> (r: Result<Self, ()>) {
        if *self == *other {
            Ok(*self)
        } else {
            Err(())
        }
    }
}

impl<D: Distance> ComputeSquaredDistance<D> for ShapeGeometryBox {
    open spec fn squared_distance(&self, other: &Self) -> Option<D> {
        if *self == *other {
            Some(D::zero_spec())
        } else {
            None
        }
    }

    fn compute_squared_distance(&self, other: &Self) -> (r: Result<D, ()>) {
        if *self == *other {
            Ok(D::zero())
        } else {
            Err(())
        }
    }
}

/// Interpolating a keyword with itself gives the keyword, which is both ends of the pair.
pub proof fn lemma_keywords_yield_endpoint<Pr>(procedure: Pr, endpoint: Endpoint)
    ensures
        yields_endpoint::<FillRule, Pr>(procedure, endpoint),
        yields_endpoint::<ShapeBox, Pr>(procedure, endpoint),
        yields_endpoint::<ShapeGeometryBox, Pr>(procedure, endpoint),
{
}

/// Two keywords have a distance exactly when they can always be interpolated: when they
/// are the same keyword.
pub proof fn lemma_keywords_distance_agrees<Pr, D: Distance>()
    ensures
        distance_agrees::<FillRule, Pr, D>(),
        distance_agrees::<ShapeBox, Pr, D>(),
        distance_agrees::<ShapeGeometryBox, Pr, D>(),
{
    assert forall|a: FillRule, b: FillRule|
        (#[trigger] ComputeSquaredDistance::<D>::squared_distance(&a, &b)) is Some
            <==> always_animates::<FillRule, Pr>(a, b) by {
        if a != b {
            assert(a.animated(&b, arbitrary::<Pr>()) is None);
        }
    }
    assert forall|a: ShapeBox, b: ShapeBox|
        (#[trigger] ComputeSquaredDistance::<D>::squared_distance(&a, &b)) is Some
            <==> always_animates::<ShapeBox, Pr>(a, b) by {
        if a != b {
            assert(a.animated(&b, arbitrary::<Pr>()) is None);
        }
    }
    assert forall|a: ShapeGeometryBox, b: ShapeGeometryBox|
        (#[trigger] ComputeSquaredDistance::<D>::squared_distance(&a, &b)) is Some
            <==> always_animates::<ShapeGeometryBox, Pr>(a, b) by {
        if a != b {
            assert(a.animated(&b, arbitrary::<Pr>()) is None);
        }
    }
}

/// Two fill rules with the same CSS text are the same rule.
pub proof fn lemma_fill_rule_css_injective(a: FillRule, b: FillRule)
    requires
        a.css() == b.css(),
    ensures
        a == b,
{
    reveal_strlit("nonzero");
    reveal_strlit("evenodd");
    assert("nonzero"@[0] == 'n' && "evenodd"@[0] == 'e');
}

/// Two reference boxes with the same keyword are the same box.
pub proof fn lemma_shape_box_css_injective(a: ShapeBox, b: ShapeBox)
    requires
        a.css() == b.css(),
    ensures
        a == b,
{
    reveal_strlit("margin-box");
    reveal_strlit("border-box");
    reveal_strlit("padding-box");
    reveal_strlit("content-box");
    assert("margin-box"@[0] == 'm' && "border-box"@[0] == 'b');
    assert("padding-box"@[0] == 'p' && "content-box"@[0] == 'c');
}

/// Two reference boxes with the same CSS text are the same box. `ElementDependent`,
/// which has no keyword, is the only one with an empty text.
pub proof fn lemma_geometry_box_css_injective(a: ShapeGeometryBox, b: ShapeGeometryBox)
    requires
        a.css() == b.css(),
    ensures
        a == b,
{
    reveal_strlit("fill-box");
    reveal_strlit("stroke-box");
    reveal_strlit("view-box");
    reveal_strlit("margin-box");
    reveal_strlit("border-box");
    reveal_strlit("padding-box");
    reveal_strlit("content-box");
    assert("fill-box"@[0] == 'f' && "stroke-box"@[0] == 's' && "view-box"@[0] == 'v');
    assert("margin-box"@[0] == 'm' && "border-box"@[0] == 'b');
    assert("padding-box"@[0] == 'p' && "content-box"@[0] == 'c');
    assert("fill-box"@.len() == 8 && "stroke-box"@.len() == 10 && "view-box"@.len() == 8);
    assert("margin-box"@.len() == 10 && "border-box"@.len() == 10);
    assert("padding-box"@.len() == 11 && "content-box"@.len() == 11);
}

} // verus!
