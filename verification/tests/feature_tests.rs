//! Behavioural properties of the rendered form: self-closing tags,
//! optional-attribute omission, child order, and the leaf value types.

use easy_svg::strutil::bool_text;
use easy_svg::circle::Circle;
use easy_svg::line::Line;
use easy_svg::path::Path;
use easy_svg::rect::Rect;
use easy_svg::shape::Shape;
use easy_svg::strutil::i32_text;
use easy_svg::svg::Svg;
use easy_svg::text::Text;
use easy_svg::values::AutoOrLengthOrPercentage;
use easy_svg::values::Length;
use easy_svg::values::LengthOrPercentage;
use easy_svg::values::LineCap;
use easy_svg::values::PreserveAspectRatio;
use easy_svg::values::Target;
use easy_svg::values::ViewBoxSize;

fn num(x: f64) -> String {
    format!("{}", x)
}

#[test]
fn self_closing_without_children() {
    let circle = Circle::new().r(num(4.));
    let rendered = circle.render();
    assert_eq!(rendered, "<circle r=\"4\"/>");
    assert!(rendered.ends_with("/>"));
    assert!(!rendered.contains("</circle>"));
}

#[test]
fn open_and_close_with_children() {
    let text = Text::new().add_child_string("hi".to_string());
    let rendered = text.render();
    assert_eq!(rendered, "<text>hi</text>");
    assert!(!rendered.ends_with("/>"));
    assert!(rendered.contains("</text>"));
}

#[test]
fn empty_svg_self_closes() {
    let svg = Svg::new(num(500.), num(500.));
    assert_eq!(svg.render(), "<svg width=\"500\" height=\"500\"/>");
}

#[test]
fn unset_attribute_never_appears() {
    let circle = Circle::new().cx(num(1.));
    let rendered = circle.render();
    assert!(!rendered.contains("fill"));
    assert!(!rendered.contains("cy"));
    assert_eq!(rendered, "<circle cx=\"1\"/>");
}

#[test]
fn set_attribute_appears_exactly_once() {
    let circle = Circle::new().cx(num(1.)).fill("red".to_string());
    let rendered = circle.render();
    assert_eq!(rendered.matches(" fill=\"red\"").count(), 1);
    assert_eq!(rendered, "<circle cx=\"1\" fill=\"red\"/>");
    let again = circle.render();
    assert_eq!(rendered, again);
}

#[test]
fn children_render_in_append_order() {
    let c1 = Circle::new().cx(num(1.));
    let c2 = Circle::new().cx(num(2.));
    let c3 = Circle::new().cx(num(3.));
    let svg = Svg::new(num(9.), num(9.))
        .add_child_shape_element(c1)
        .add_child_shape_element(c2)
        .add_child_shape_element(c3);
    let rendered = svg.render();
    let p1 = rendered.find("cx=\"1\"").unwrap();
    let p2 = rendered.find("cx=\"2\"").unwrap();
    let p3 = rendered.find("cx=\"3\"").unwrap();
    assert!(p1 < p2 && p2 < p3);
}

#[test]
fn constructor_values_always_render() {
    let svg = Svg::new(num(120.), num(80.));
    let rendered = svg.render();
    assert!(rendered.contains("width=\"120\""));
    assert!(rendered.contains("height=\"80\""));
}

#[test]
fn boolean_and_integer_attributes() {
    let circle = Circle::new().autofocus(true).tab_index(-12);
    assert_eq!(circle.render(), "<circle autofocus=\"true\" tabIndex=\"-12\"/>");
    assert_eq!(bool_text(false), "false");
    assert_eq!(i32_text(0), "0");
    assert_eq!(i32_text(2147483647), "2147483647");
    assert_eq!(i32_text(-2147483648), "-2147483648");
}

#[test]
fn target_attribute_renders() {
    let a = easy_svg::a::A::new().target(Target::_Blank);
    assert_eq!(a.render(), "<a target=\"_blank\"/>");
    assert_eq!(Target::Custom("frame".to_string()).text(), "frame");
    assert_eq!(Target::_Self.text(), "_self");
    assert_eq!(Target::_Parent.text(), "_parent");
    assert_eq!(Target::_Top.text(), "_top");
}

#[test]
fn line_cap_text_values() {
    assert_eq!(LineCap::Butt.text(), "butt");
    assert_eq!(LineCap::Round.text(), "round");
    assert_eq!(LineCap::Square.text(), "square");
    assert_eq!(LineCap::RevertLayer.text(), "revert-layer");
    assert_eq!(LineCap::Unset.text(), "unset");
}

#[test]
fn preserve_aspect_ratio_text_values() {
    assert_eq!(PreserveAspectRatio::Unaligned.text(), "None");
    assert_eq!(PreserveAspectRatio::XMidYMid.text(), "xMidYMid");
    assert_eq!(PreserveAspectRatio::XMaxYMax.text(), "xMaxYMax");
}

#[test]
fn path_commands_render() {
    let path = Path::new()
        .M(num(1.), num(2.))
        .m(num(3.), num(4.))
        .H(num(5.))
        .v(num(6.))
        .C(num(1.), num(2.), num(3.), num(4.), num(5.), num(6.))
        .Q(num(7.), num(8.), num(9.), num(10.))
        .T(num(11.), num(12.))
        .Z()
        .z();
    assert_eq!(
        path.render(),
        "M 1 2 m 3 4 H 5 v 6 C 1 2, 3 4, 5 6 Q  7 8, 9 10 T 11 12 Z z"
    );
}

#[test]
fn raw_text_children_render_verbatim() {
    let shape = Shape::String("plain text".to_string());
    assert_eq!(shape.render(), "plain text");
    let line = Line::new().add_child_string("note".to_string());
    assert_eq!(line.render(), "<line>note</line>");
}

#[test]
fn rect_defaults_match_new() {
    let rendered = Rect::default().render();
    assert_eq!(rendered, "<rect/>");
}

#[test]
fn length_and_percentage_values() {
    assert_eq!(Length::new("12".to_string()).text(), "12");
    assert_eq!(easy_svg::values::Percentage::new("50".to_string()).text(), "50%");
    assert_eq!(
        LengthOrPercentage::from(easy_svg::values::Percentage::new("7".to_string())).text(),
        "7%"
    );
    assert_eq!(LengthOrPercentage::from(Length::new("3".to_string())).text(), "3");
    assert_eq!(
        AutoOrLengthOrPercentage::from(Length::new("9".to_string())).text(),
        "9"
    );
    assert_eq!(
        AutoOrLengthOrPercentage::from(easy_svg::values::Percentage::new("1".to_string())).text(),
        "1%"
    );
    assert_eq!(AutoOrLengthOrPercentage::Auto.text(), "auto");
    assert_eq!(
        ViewBoxSize::new(
            "0".to_string(),
            "0".to_string(),
            "24".to_string(),
            "24".to_string()
        )
        .text(),
        "0, 0, 24, 24"
    );
}

#[test]
fn remaining_elements_render() {
    let defs = easy_svg::defs::Defs::new()
        .width(num(10.))
        .height(num(20.))
        .id("defs1".to_string());
    assert_eq!(defs.render(), "<defs height=\"20\" id=\"defs1\" width=\"10\"/>");

    let desc = easy_svg::desc::Desc::new().slot("s".to_string());
    assert_eq!(desc.render(), "<desc slot=\"s\"/>");

    let ellipse = easy_svg::ellipse::Ellipse::new()
        .cx(num(5.))
        .cy(num(6.))
        .rx(num(7.))
        .ry(num(8.))
        .stroke("blue".to_string());
    assert_eq!(
        ellipse.render(),
        "<ellipse cx=\"5\" cy=\"6\" rx=\"7\" ry=\"8\" stroke=\"blue\"/>"
    );
}

#[test]
fn nested_layers_render_nested() {
    let inner = Svg::new(num(10.), num(10.)).add_child_shape_element(Circle::new().r(num(1.)));
    let outer = Svg::new(num(20.), num(20.)).add_layer(inner);
    assert_eq!(
        outer.render(),
        "<svg width=\"20\" height=\"20\"><svg width=\"10\" height=\"10\"><circle r=\"1\"/></svg></svg>"
    );
}

#[test]
fn container_children_through_categories() {
    let a = easy_svg::a::A::new()
        .download("file".to_string())
        .add_child_shape_element(Line::new().x1(num(0.)).y1(num(0.)));
    assert_eq!(
        a.render(),
        "<a download=\"file\"><line x1=\"0\" y1=\"0\"/></a>"
    );
    let defs = easy_svg::defs::Defs::new().add_child_a(easy_svg::a::A::new());
    assert_eq!(defs.render(), "<defs><a/></defs>");
}

#[test]
fn clones_render_identically() {
    let svg = Svg::new(num(5.), num(5.)).add_child_shape_element(Circle::new().cx(num(1.)));
    let copy = svg.clone();
    assert_eq!(svg.render(), copy.render());
    let shape = Shape::Svg(svg);
    assert_eq!(shape.clone().render(), shape.render());
    let path = Path::new().M(num(1.), num(2.));
    assert_eq!(path.clone().render(), path.render());
    let target = Target::Custom("frame2".to_string());
    assert_eq!(target.clone().text(), target.text());
}
