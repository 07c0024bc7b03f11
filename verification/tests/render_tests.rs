//! Rendering behaviour of the element builders, end to end.

use easy_svg::a::A;
use easy_svg::circle::Circle;
use easy_svg::line::Line;
use easy_svg::path::Path;
use easy_svg::path_element::PathElement;
use easy_svg::rect::Rect;
use easy_svg::svg::Svg;
use easy_svg::text::Text;

fn n(x: f64) -> String {
    format!("{}", x)
}

#[test]
fn test_rect_and_circle() {
    let svg = Svg::new(n(500.), n(500.))
        .add_child_shape_element(
            Circle::new()
                .fill("aqua".to_string())
                .r(n(20.))
                .cx(n(15.))
                .cy(n(30.)),
        )
        .add_child_shape_element(
            Rect::new()
                .width(n(200.))
                .height(n(400.))
                .x(n(20.))
                .fill("darkolivegreen".to_string()),
        );

    println!("{}", svg.render());

    assert_eq!(
        svg.render(),
        "<svg width=\"500\" height=\"500\"><circle cx=\"15\" cy=\"30\" fill=\"aqua\" r=\"20\"/><rect fill=\"darkolivegreen\" height=\"400\" width=\"200\" x=\"20\"/></svg>"
    );
}

#[test]
fn test_a() {
    let svg = Svg::new(n(500.), n(500.)).add_child_a(
        A::new().href("https://google.com".to_string()).add_child_rect(
            Rect::new()
                .width(n(200.))
                .height(n(400.))
                .x(n(20.))
                .fill("darkolivegreen".to_string()),
        ),
    );
    println!("{}", svg.render());
    assert_eq!(
        svg.render(),
        "<svg width=\"500\" height=\"500\"><a href=\"https://google.com\"><rect fill=\"darkolivegreen\" height=\"400\" width=\"200\" x=\"20\"/></a></svg>"
    );
}

#[test]
fn test_rect_and_text() {
    let svg = Svg::new(n(500.), n(500.))
        .add_child_shape_element(
            Rect::new()
                .width(n(200.))
                .height(n(400.))
                .x(n(20.))
                .fill("darkolivegreen".to_string()),
        )
        .add_child_text(
            Text::new()
                .x(n(30.))
                .y(n(70.))
                .fill("darkmagenta".to_string())
                .add_child_string("Hello World".to_string())
                .font_family("Arial".to_string()),
        )
        .add_child_shape_element(
            Circle::new()
                .fill("darkblue".to_string())
                .r(n(20.))
                .cx(n(80.))
                .cy(n(85.)),
        );

    println!("{}", svg.render());

    assert_eq!(
        svg.render(),
        "<svg width=\"500\" height=\"500\"><rect fill=\"darkolivegreen\" height=\"400\" width=\"200\" x=\"20\"/><text fill=\"darkmagenta\" font-family=\"Arial\" x=\"30\" y=\"70\">Hello World</text><circle cx=\"80\" cy=\"85\" fill=\"darkblue\" r=\"20\"/></svg>"
    );
}

#[test]
fn test_line() {
    let svg = Svg::new(n(500.), n(500.)).add_child_shape_element(
        Line::new()
            .x1(n(10.))
            .y1(n(10.))
            .x2(n(100.))
            .y2(n(100.))
            .stroke("red".to_string()),
    );

    println!("{}", svg.render());

    assert_eq!(
        svg.render(),
        "<svg width=\"500\" height=\"500\"><line stroke=\"red\" x1=\"10\" x2=\"100\" y1=\"10\" y2=\"100\"/></svg>"
    );
}

#[test]
fn test_path_arc() {
    let path_data = Path::new()
        .M(n(10.), n(315.))
        .L(n(110.), n(215.))
        .A(n(30.), n(50.), n(0.), false, true, n(162.55), n(162.45))
        .L(n(172.55), n(152.45))
        .A(n(30.), n(50.), n(-45.), false, true, n(215.1), n(109.9))
        .L(n(315.), n(10.));

    let svg = Svg::new(n(500.), n(500.)).add_child_shape_element(
        PathElement::new()
            .d(path_data)
            .stroke("black".to_string())
            .fill("green".to_string())
            .stroke_width(n(2.))
            .fill_opacity(n(0.5)),
    );
    assert_eq!(
        svg.render(),
        "<svg width=\"500\" height=\"500\"><path d=\"M 10 315 L 110 215 A 30 50 0 0 1 162.55 162.45 L 172.55 152.45 A 30 50 -45 0 1 215.1 109.9 L 315 10\" fill=\"green\" fill-opacity=\"0.5\" stroke=\"black\" stroke-width=\"2\"/></svg>"
    )
}

#[test]
fn test_new_svg() {
    let svg = Svg::new(n(100.), n(200.));
    assert_eq!(svg.width, n(100.));
    assert_eq!(svg.height, n(200.));
    assert!(svg.children.is_empty());
}

#[test]
fn test_add_element() {
    let rect = Rect::new().width(n(10.)).height(n(20.));
    let svg = Svg::new(n(100.), n(200.)).add_element(rect);
    assert_eq!(svg.children.len(), 1);
}

#[test]
fn test_add_layer() {
    let inner_svg = Svg::new(n(50.), n(50.));
    let svg = Svg::new(n(100.), n(200.)).add_layer(inner_svg);
    assert_eq!(svg.children.len(), 1);
}

#[test]
fn test_x_and_y() {
    let svg = Svg::new(n(100.), n(200.)).x(n(10.)).y(n(20.));
    assert_eq!(svg.x, Some(n(10.)));
    assert_eq!(svg.y, Some(n(20.)));
}

#[test]
fn test_display() {
    let rect = Rect::new().width(n(10.)).height(n(20.));
    let svg = Svg::new(n(100.), n(200.)).add_element(rect);
    let svg_string = svg.render();
    assert!(svg_string.starts_with("<svg width=\"100\" height=\"200\">"));
    assert!(svg_string.contains("height=\"20\""));
    assert!(svg_string.contains("width=\"10\""));
    assert!(svg_string.ends_with("</svg>"));
}
