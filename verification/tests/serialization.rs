use css_shapes::{
    is_default, BasicShape, BorderCornerRadius, BorderRadius, Circle, ClipPath, Ellipse, FillRule,
    InsetRect, Path, Polygon, PolygonCoord, PositionOrAuto, Rect, ShapeBox, ShapeGeometryBox,
    ShapeOutside, ShapeRadius, Text, ToCss, ValueEq, View, Zero,
};
use std::fmt::Write;
use style_traits::values::SequenceWriter;
use style_traits::CssWriter;

/// A length in pixels.
#[derive(Clone, Copy, Debug, PartialEq)]
struct Px(f32);

impl View for Px {
    type V = Px;

    fn view(&self) -> Px {
        unreachable!()
    }
}

impl ToCss for Px {
    fn css(&self) -> Text {
        unreachable!()
    }

    fn succeeds(&self) -> bool {
        unreachable!()
    }

    fn to_css(&self, dest: &mut CssWriter<String>) -> Result<(), std::fmt::Error> {
        dest.write_str(&format!("{}px", self.0))
    }
}

impl ValueEq for Px {
    fn value_eq(&self, other: &Self) -> bool {
        self.0 == other.0
    }
}

impl Zero for Px {
    fn is_zero_spec(&self) -> bool {
        unreachable!()
    }

    fn zero() -> Self {
        Px(0.0)
    }

    fn is_zero(&self) -> bool {
        self.0 == 0.0
    }
}

/// A position: the centre of the box, or a point given by two lengths.
#[derive(Clone, Copy, Debug, PartialEq)]
enum Position {
    Center,
    At(Px, Px),
}

impl View for Position {
    type V = Position;

    fn view(&self) -> Position {
        unreachable!()
    }
}

impl ValueEq for Position {
    fn value_eq(&self, other: &Self) -> bool {
        self == other
    }
}

impl ToCss for Position {
    fn css(&self) -> Text {
        unreachable!()
    }

    fn succeeds(&self) -> bool {
        unreachable!()
    }

    fn to_css(&self, dest: &mut CssWriter<String>) -> Result<(), std::fmt::Error> {
        match self {
            Position::Center => dest.write_str("center"),
            Position::At(x, y) => {
                x.to_css(dest)?;
                dest.write_char(' ')?;
                y.to_css(dest)
            }
        }
    }
}

/// Something that is written as it stands: a reference, an image, path data.
#[derive(Clone, Debug, PartialEq)]
struct Raw(&'static str);

impl View for Raw {
    type V = Raw;

    fn view(&self) -> Raw {
        unreachable!()
    }
}

impl ValueEq for Raw {
    fn value_eq(&self, other: &Self) -> bool {
        self.0 == other.0
    }
}

impl ToCss for Raw {
    fn css(&self) -> Text {
        unreachable!()
    }

    fn succeeds(&self) -> bool {
        unreachable!()
    }

    fn to_css(&self, dest: &mut CssWriter<String>) -> Result<(), std::fmt::Error> {
        dest.write_str(self.0)
    }
}

/// A value whose serialization fails.
struct Broken;

impl ToCss for Broken {
    fn css(&self) -> Text {
        unreachable!()
    }

    fn succeeds(&self) -> bool {
        unreachable!()
    }

    fn to_css(&self, _dest: &mut CssWriter<String>) -> Result<(), std::fmt::Error> {
        Err(std::fmt::Error)
    }
}

type Shape = BasicShape<Position, Px, Px, Raw>;

fn text<T: ToCss>(value: &T) -> String {
    let mut s = String::new();
    {
        let mut dest = CssWriter::new(&mut s);
        value.to_css(&mut dest).unwrap();
    }
    s
}

fn square_corners() -> BorderRadius<Px> {
    BorderRadius::zero()
}

fn corners(width: f32, height: f32) -> BorderRadius<Px> {
    BorderRadius::new(
        BorderCornerRadius::new(Px(width), Px(height)),
        BorderCornerRadius::new(Px(width), Px(height)),
        BorderCornerRadius::new(Px(width), Px(height)),
        BorderCornerRadius::new(Px(width), Px(height)),
    )
}

fn inset(top: f32, right: f32, bottom: f32, left: f32, round: BorderRadius<Px>) -> InsetRect<Px, Px> {
    InsetRect {
        rect: Rect::new(Px(top), Px(right), Px(bottom), Px(left)),
        round,
    }
}

fn triangle(fill: FillRule) -> Polygon<Px> {
    Polygon {
        fill,
        coordinates: vec![
            PolygonCoord(Px(0.0), Px(0.0)),
            PolygonCoord(Px(10.0), Px(0.0)),
            PolygonCoord(Px(10.0), Px(10.0)),
        ],
    }
}

fn bare_circle() -> Circle<Position, Px> {
    Circle {
        position: PositionOrAuto::Auto,
        radius: ShapeRadius::ClosestSide,
    }
}

#[test]
fn circle_with_defaults_is_empty() {
    assert_eq!(text(&bare_circle()), "circle()");
}

#[test]
fn circle_with_radius() {
    let circle: Circle<Position, Px> = Circle {
        position: PositionOrAuto::Auto,
        radius: ShapeRadius::Length(Px(10.0)),
    };
    assert_eq!(text(&circle), "circle(10px)");
}

#[test]
fn circle_keeps_a_given_position() {
    let circle: Circle<Position, Px> = Circle {
        position: PositionOrAuto::Position(Position::Center),
        radius: ShapeRadius::ClosestSide,
    };
    assert_eq!(text(&circle), "circle(at center)");
}

#[test]
fn circle_with_radius_and_position() {
    let circle = Circle {
        position: PositionOrAuto::Position(Position::At(Px(1.0), Px(2.0))),
        radius: ShapeRadius::Length(Px(10.0)),
    };
    assert_eq!(text(&circle), "circle(10px at 1px 2px)");
}

#[test]
fn circle_with_farthest_side() {
    let circle: Circle<Position, Px> = Circle {
        position: PositionOrAuto::Position(Position::Center),
        radius: ShapeRadius::FarthestSide,
    };
    assert_eq!(text(&circle), "circle(farthest-side at center)");
}

#[test]
fn ellipse_with_defaults_is_empty() {
    let ellipse: Ellipse<Position, Px> = Ellipse {
        position: PositionOrAuto::Auto,
        semiaxis_x: ShapeRadius::ClosestSide,
        semiaxis_y: ShapeRadius::ClosestSide,
    };
    assert_eq!(text(&ellipse), "ellipse()");
}

#[test]
fn ellipse_writes_both_radii_or_none() {
    let first: Ellipse<Position, Px> = Ellipse {
        position: PositionOrAuto::Auto,
        semiaxis_x: ShapeRadius::Length(Px(5.0)),
        semiaxis_y: ShapeRadius::ClosestSide,
    };
    assert_eq!(text(&first), "ellipse(5px closest-side)");
    let second: Ellipse<Position, Px> = Ellipse {
        position: PositionOrAuto::Auto,
        semiaxis_x: ShapeRadius::ClosestSide,
        semiaxis_y: ShapeRadius::FarthestSide,
    };
    assert_eq!(text(&second), "ellipse(closest-side farthest-side)");
}

#[test]
fn ellipse_with_position() {
    let only_position: Ellipse<Position, Px> = Ellipse {
        position: PositionOrAuto::Position(Position::Center),
        semiaxis_x: ShapeRadius::ClosestSide,
        semiaxis_y: ShapeRadius::ClosestSide,
    };
    assert_eq!(text(&only_position), "ellipse(at center)");
    let all = Ellipse {
        position: PositionOrAuto::Position(Position::Center),
        semiaxis_x: ShapeRadius::Length(Px(3.0)),
        semiaxis_y: ShapeRadius::Length(Px(4.0)),
    };
    assert_eq!(text(&all), "ellipse(3px 4px at center)");
}

#[test]
fn inset_with_square_corners() {
    assert_eq!(
        text(&inset(1.0, 2.0, 3.0, 4.0, square_corners())),
        "inset(1px 2px 3px 4px)"
    );
}

#[test]
fn inset_with_round_corners() {
    assert_eq!(
        text(&inset(1.0, 2.0, 3.0, 4.0, corners(5.0, 5.0))),
        "inset(1px 2px 3px 4px round 5px)"
    );
}

#[test]
fn inset_with_elliptic_corners() {
    assert_eq!(
        text(&inset(1.0, 2.0, 3.0, 4.0, corners(5.0, 10.0))),
        "inset(1px 2px 3px 4px round 5px / 10px)"
    );
}

#[test]
fn inset_with_one_round_corner() {
    let round = BorderRadius::new(
        BorderCornerRadius::new(Px(5.0), Px(5.0)),
        BorderCornerRadius::zero(),
        BorderCornerRadius::zero(),
        BorderCornerRadius::zero(),
    );
    assert!(!round.is_zero());
    assert_eq!(
        text(&inset(0.0, 0.0, 0.0, 0.0, round)),
        "inset(0px round 5px 0px 0px)"
    );
}

#[test]
fn sides_are_written_in_the_shortest_form() {
    assert_eq!(text(&Rect::new(Px(1.0), Px(1.0), Px(1.0), Px(1.0))), "1px");
    assert_eq!(text(&Rect::new(Px(1.0), Px(2.0), Px(1.0), Px(2.0))), "1px 2px");
    assert_eq!(
        text(&Rect::new(Px(1.0), Px(2.0), Px(3.0), Px(2.0))),
        "1px 2px 3px"
    );
    assert_eq!(
        text(&Rect::new(Px(1.0), Px(2.0), Px(1.0), Px(4.0))),
        "1px 2px 1px 4px"
    );
    assert_eq!(
        text(&Rect::new(Px(1.0), Px(1.0), Px(3.0), Px(1.0))),
        "1px 1px 3px"
    );
}

#[test]
fn zero_radius() {
    assert!(square_corners().is_zero());
    assert!(!corners(0.0, 1.0).is_zero());
    assert!(BorderCornerRadius::<Px>::zero().is_zero());
    assert_eq!(text(&square_corners()), "0px");
}

#[test]
fn polygon_without_fill_rule() {
    assert_eq!(
        text(&triangle(FillRule::Nonzero)),
        "polygon(0px 0px, 10px 0px, 10px 10px)"
    );
}

#[test]
fn polygon_with_fill_rule() {
    assert_eq!(
        text(&triangle(FillRule::Evenodd)),
        "polygon(evenodd 0px 0px, 10px 0px, 10px 10px)"
    );
}

#[test]
fn polygon_without_corners() {
    let empty: Polygon<Px> = Polygon {
        fill: FillRule::Nonzero,
        coordinates: Vec::new(),
    };
    assert_eq!(text(&empty), "polygon()");
    let one = Polygon {
        fill: FillRule::Nonzero,
        coordinates: vec![PolygonCoord(Px(1.0), Px(2.0))],
    };
    assert_eq!(text(&one), "polygon(1px 2px)");
}

#[test]
fn polygon_keeps_the_order_of_its_corners() {
    let polygon = Polygon {
        fill: FillRule::Nonzero,
        coordinates: vec![
            PolygonCoord(Px(3.0), Px(3.0)),
            PolygonCoord(Px(1.0), Px(1.0)),
            PolygonCoord(Px(2.0), Px(2.0)),
        ],
    };
    assert_eq!(text(&polygon), "polygon(3px 3px, 1px 1px, 2px 2px)");
}

#[test]
fn path_with_and_without_fill_rule() {
    let plain = Path {
        fill: FillRule::Nonzero,
        path: Raw("\"M 0 0 L 10 10\""),
    };
    assert_eq!(text(&plain), "path(\"M 0 0 L 10 10\")");
    let evenodd = Path {
        fill: FillRule::Evenodd,
        path: Raw("\"M 0 0 L 10 10\""),
    };
    assert_eq!(text(&evenodd), "path(evenodd, \"M 0 0 L 10 10\")");
}

#[test]
fn keywords() {
    assert_eq!(text(&FillRule::Nonzero), "nonzero");
    assert_eq!(text(&FillRule::Evenodd), "evenodd");
    assert_eq!(text(&ShapeBox::MarginBox), "margin-box");
    assert_eq!(text(&ShapeBox::BorderBox), "border-box");
    assert_eq!(text(&ShapeBox::PaddingBox), "padding-box");
    assert_eq!(text(&ShapeBox::ContentBox), "content-box");
    assert_eq!(text(&ShapeGeometryBox::FillBox), "fill-box");
    assert_eq!(text(&ShapeGeometryBox::StrokeBox), "stroke-box");
    assert_eq!(text(&ShapeGeometryBox::ViewBox), "view-box");
    assert_eq!(
        text(&ShapeGeometryBox::ShapeBox(ShapeBox::PaddingBox)),
        "padding-box"
    );
    assert_eq!(text(&ShapeRadius::<Px>::ClosestSide), "closest-side");
    assert_eq!(text(&ShapeRadius::<Px>::FarthestSide), "farthest-side");
    assert_eq!(text(&ShapeRadius::Length(Px(2.5))), "2.5px");
    assert_eq!(text(&PositionOrAuto::<Position>::Auto), "auto");
    assert_eq!(text(&PositionOrAuto::Position(Position::Center)), "center");
}

#[test]
fn defaults() {
    assert_eq!(FillRule::default(), FillRule::Nonzero);
    assert_eq!(ShapeBox::default(), ShapeBox::MarginBox);
    assert_eq!(ShapeGeometryBox::default(), ShapeGeometryBox::ElementDependent);
    assert_eq!(ShapeRadius::<Px>::default(), ShapeRadius::ClosestSide);
    assert!(is_default(&FillRule::Nonzero));
    assert!(!is_default(&FillRule::Evenodd));
    assert!(is_default(&ShapeBox::MarginBox));
    assert!(!is_default(&ShapeBox::BorderBox));
    assert!(is_default(&ShapeGeometryBox::ElementDependent));
    assert!(!is_default(&ShapeGeometryBox::ShapeBox(ShapeBox::MarginBox)));
    assert!(!is_default(&ShapeGeometryBox::ViewBox));
    assert!(ShapeRadius::<Px>::ClosestSide.is_closest_side());
    assert!(!ShapeRadius::<Px>::FarthestSide.is_closest_side());
    assert!(!ShapeRadius::Length(Px(0.0)).is_closest_side());
    assert!(PositionOrAuto::<Position>::Auto.is_auto());
    assert!(!PositionOrAuto::Position(Position::Center).is_auto());
}

#[test]
fn basic_shape_writes_its_function() {
    let shapes: Vec<(Shape, &str)> = vec![
        (
            BasicShape::Inset(inset(1.0, 1.0, 1.0, 1.0, square_corners())),
            "inset(1px)",
        ),
        (BasicShape::Circle(bare_circle()), "circle()"),
        (
            BasicShape::Ellipse(Ellipse {
                position: PositionOrAuto::Auto,
                semiaxis_x: ShapeRadius::FarthestSide,
                semiaxis_y: ShapeRadius::FarthestSide,
            }),
            "ellipse(farthest-side farthest-side)",
        ),
        (
            BasicShape::Polygon(triangle(FillRule::Nonzero)),
            "polygon(0px 0px, 10px 0px, 10px 10px)",
        ),
        (
            BasicShape::Path(Path {
                fill: FillRule::Nonzero,
                path: Raw("\"M 0 0\""),
            }),
            "path(\"M 0 0\")",
        ),
    ];
    for (shape, expected) in shapes {
        assert_eq!(text(&shape), expected);
    }
}

#[test]
fn clip_path_values() {
    let none: ClipPath<Shape, Raw> = ClipPath::Nothing;
    assert_eq!(text(&none), "none");
    let url: ClipPath<Shape, Raw> = ClipPath::Url(Raw("url(#clip)"));
    assert_eq!(text(&url), "url(#clip)");
    let fill_box: ClipPath<Shape, Raw> = ClipPath::Box(ShapeGeometryBox::FillBox);
    assert_eq!(text(&fill_box), "fill-box");
    let border_box: ClipPath<Shape, Raw> =
        ClipPath::Box(ShapeGeometryBox::ShapeBox(ShapeBox::BorderBox));
    assert_eq!(text(&border_box), "border-box");
}

#[test]
fn clip_path_shape_leaves_out_the_default_box() {
    let plain: ClipPath<Shape, Raw> = ClipPath::Shape(
        Box::new(BasicShape::Circle(bare_circle())),
        ShapeGeometryBox::ElementDependent,
    );
    assert_eq!(text(&plain), "circle()");
    let in_view_box: ClipPath<Shape, Raw> = ClipPath::Shape(
        Box::new(BasicShape::Circle(bare_circle())),
        ShapeGeometryBox::ViewBox,
    );
    assert_eq!(text(&in_view_box), "circle() view-box");
    let in_margin_box: ClipPath<Shape, Raw> = ClipPath::Shape(
        Box::new(BasicShape::Polygon(triangle(FillRule::Nonzero))),
        ShapeGeometryBox::ShapeBox(ShapeBox::MarginBox),
    );
    assert_eq!(
        text(&in_margin_box),
        "polygon(0px 0px, 10px 0px, 10px 10px) margin-box"
    );
}

#[test]
fn shape_outside_values() {
    let none: ShapeOutside<Shape, Raw> = ShapeOutside::Nothing;
    assert_eq!(text(&none), "none");
    let image: ShapeOutside<Shape, Raw> = ShapeOutside::Image(Raw("url(a.png)"));
    assert_eq!(text(&image), "url(a.png)");
    let margin_box: ShapeOutside<Shape, Raw> = ShapeOutside::Box(ShapeBox::MarginBox);
    assert_eq!(text(&margin_box), "margin-box");
    let plain: ShapeOutside<Shape, Raw> =
        ShapeOutside::Shape(Box::new(BasicShape::Circle(bare_circle())), ShapeBox::MarginBox);
    assert_eq!(text(&plain), "circle()");
    let in_content_box: ShapeOutside<Shape, Raw> =
        ShapeOutside::Shape(Box::new(BasicShape::Circle(bare_circle())), ShapeBox::ContentBox);
    assert_eq!(text(&in_content_box), "circle() content-box");
}

#[test]
fn text_is_appended_to_what_the_sink_holds() {
    let mut s = String::from("clip-path: ");
    {
        let mut dest = CssWriter::new(&mut s);
        bare_circle().to_css(&mut dest).unwrap();
        dest.write_str(";").unwrap();
    }
    assert_eq!(s, "clip-path: circle();");
}

#[test]
fn separator_held_back_is_written_first() {
    let mut s = String::new();
    {
        let mut dest = CssWriter::new(&mut s);
        let mut list = SequenceWriter::new(&mut dest, ", ");
        list.write_item(|dest| bare_circle().to_css(dest)).unwrap();
        list.write_item(|dest| ShapeGeometryBox::ElementDependent.to_css(dest))
            .unwrap();
        list.write_item(|dest| FillRule::Evenodd.to_css(dest)).unwrap();
        list.write_item(|dest| triangle(FillRule::Nonzero).to_css(dest))
            .unwrap();
    }
    assert_eq!(
        s,
        "circle(), evenodd, polygon(0px 0px, 10px 0px, 10px 10px)"
    );
}

#[test]
fn a_field_that_is_not_written_cannot_fail() {
    let circle: Circle<Broken, Broken> = Circle {
        position: PositionOrAuto::Auto,
        radius: ShapeRadius::FarthestSide,
    };
    assert_eq!(text(&circle), "circle(farthest-side)");
    let polygon: Polygon<Broken> = Polygon {
        fill: FillRule::Nonzero,
        coordinates: Vec::new(),
    };
    assert_eq!(text(&polygon), "polygon()");
    let clip: ClipPath<Broken, Broken> = ClipPath::Box(ShapeGeometryBox::StrokeBox);
    assert_eq!(text(&clip), "stroke-box");
}

#[test]
fn failure_of_a_field_is_handed_on() {
    let circle: Circle<Broken, Px> = Circle {
        position: PositionOrAuto::Position(Broken),
        radius: ShapeRadius::ClosestSide,
    };
    let mut s = String::new();
    let mut dest = CssWriter::new(&mut s);
    assert!(circle.to_css(&mut dest).is_err());
    let clip: ClipPath<Circle<Broken, Px>, Broken> = ClipPath::Url(Broken);
    assert!(clip.to_css(&mut dest).is_err());
    let polygon = Polygon {
        fill: FillRule::Nonzero,
        coordinates: vec![PolygonCoord(Broken, Broken)],
    };
    assert!(polygon.to_css(&mut dest).is_err());
}

#[test]
fn structural_equality() {
    assert_eq!(bare_circle(), bare_circle());
    assert_ne!(
        bare_circle(),
        Circle {
            position: PositionOrAuto::Auto,
            radius: ShapeRadius::FarthestSide
        }
    );
    assert_eq!(triangle(FillRule::Nonzero), triangle(FillRule::Nonzero));
    assert_ne!(triangle(FillRule::Nonzero), triangle(FillRule::Evenodd));
    assert_ne!(ShapeGeometryBox::FillBox, ShapeGeometryBox::StrokeBox);
    assert_eq!(
        ShapeGeometryBox::ShapeBox(ShapeBox::BorderBox),
        ShapeGeometryBox::ShapeBox(ShapeBox::BorderBox)
    );
    assert_ne!(
        ShapeGeometryBox::ShapeBox(ShapeBox::BorderBox),
        ShapeGeometryBox::ShapeBox(ShapeBox::ContentBox)
    );
}

#[test]
fn verified_equality_agrees_with_structure() {
    let shapes: Vec<Shape> = vec![
        BasicShape::Inset(inset(1.0, 2.0, 3.0, 4.0, square_corners())),
        BasicShape::Inset(inset(1.0, 2.0, 3.0, 4.0, corners(1.0, 2.0))),
        BasicShape::Inset(inset(1.0, 2.0, 3.0, 5.0, square_corners())),
        BasicShape::Circle(bare_circle()),
        BasicShape::Circle(Circle {
            position: PositionOrAuto::Position(Position::Center),
            radius: ShapeRadius::ClosestSide,
        }),
        BasicShape::Circle(Circle {
            position: PositionOrAuto::Position(Position::Center),
            radius: ShapeRadius::Length(Px(1.0)),
        }),
        BasicShape::Circle(Circle {
            position: PositionOrAuto::Position(Position::Center),
            radius: ShapeRadius::Length(Px(2.0)),
        }),
        BasicShape::Ellipse(Ellipse {
            position: PositionOrAuto::Auto,
            semiaxis_x: ShapeRadius::FarthestSide,
            semiaxis_y: ShapeRadius::ClosestSide,
        }),
        BasicShape::Ellipse(Ellipse {
            position: PositionOrAuto::Auto,
            semiaxis_x: ShapeRadius::ClosestSide,
            semiaxis_y: ShapeRadius::FarthestSide,
        }),
        BasicShape::Polygon(triangle(FillRule::Nonzero)),
        BasicShape::Polygon(triangle(FillRule::Evenodd)),
        BasicShape::Polygon(Polygon {
            fill: FillRule::Nonzero,
            coordinates: vec![PolygonCoord(Px(0.0), Px(0.0)), PolygonCoord(Px(10.0), Px(0.0))],
        }),
        BasicShape::Polygon(Polygon {
            fill: FillRule::Nonzero,
            coordinates: vec![
                PolygonCoord(Px(10.0), Px(0.0)),
                PolygonCoord(Px(0.0), Px(0.0)),
                PolygonCoord(Px(10.0), Px(10.0)),
            ],
        }),
        BasicShape::Path(Path {
            fill: FillRule::Nonzero,
            path: Raw("\"M 0 0\""),
        }),
        BasicShape::Path(Path {
            fill: FillRule::Evenodd,
            path: Raw("\"M 0 0\""),
        }),
        BasicShape::Path(Path {
            fill: FillRule::Nonzero,
            path: Raw("\"M 1 1\""),
        }),
    ];
    for a in &shapes {
        for b in &shapes {
            assert_eq!(a.value_eq(b), a == b);
        }
    }
    let mut clips: Vec<ClipPath<Shape, Raw>> = vec![
        ClipPath::Nothing,
        ClipPath::Url(Raw("url(#a)")),
        ClipPath::Url(Raw("url(#b)")),
        ClipPath::Box(ShapeGeometryBox::FillBox),
        ClipPath::Box(ShapeGeometryBox::ShapeBox(ShapeBox::BorderBox)),
        ClipPath::Box(ShapeGeometryBox::ShapeBox(ShapeBox::PaddingBox)),
    ];
    let mut outsides: Vec<ShapeOutside<Shape, Raw>> = vec![
        ShapeOutside::Nothing,
        ShapeOutside::Image(Raw("url(a.png)")),
        ShapeOutside::Image(Raw("url(b.png)")),
        ShapeOutside::Box(ShapeBox::MarginBox),
        ShapeOutside::Box(ShapeBox::ContentBox),
    ];
    for shape in shapes.iter().take(5) {
        clips.push(ClipPath::Shape(
            Box::new(shape.clone()),
            ShapeGeometryBox::ElementDependent,
        ));
        clips.push(ClipPath::Shape(Box::new(shape.clone()), ShapeGeometryBox::ViewBox));
        outsides.push(ShapeOutside::Shape(Box::new(shape.clone()), ShapeBox::MarginBox));
        outsides.push(ShapeOutside::Shape(Box::new(shape.clone()), ShapeBox::BorderBox));
    }
    for a in &clips {
        for b in &clips {
            assert_eq!(a.value_eq(b), a == b);
        }
    }
    for a in &outsides {
        for b in &outsides {
            assert_eq!(a.value_eq(b), a == b);
        }
    }
}

#[test]
fn keywords_are_told_apart_by_their_text() {
    let boxes = [
        ShapeGeometryBox::FillBox,
        ShapeGeometryBox::StrokeBox,
        ShapeGeometryBox::ViewBox,
        ShapeGeometryBox::ShapeBox(ShapeBox::MarginBox),
        ShapeGeometryBox::ShapeBox(ShapeBox::BorderBox),
        ShapeGeometryBox::ShapeBox(ShapeBox::PaddingBox),
        ShapeGeometryBox::ShapeBox(ShapeBox::ContentBox),
    ];
    for a in &boxes {
        for b in &boxes {
            assert_eq!(text(a) == text(b), a == b);
        }
    }
    assert_ne!(text(&FillRule::Nonzero), text(&FillRule::Evenodd));
}
