//! The schema-resolution and code-synthesis pipeline: mixin flattening,
//! cycle handling, attribute injection, and the emitted source text.

use easy_svg::emit::wellformed_generated;
use easy_svg::inject::inject_attributes;
use easy_svg::pipeline::check_config_constructors;
use easy_svg::pipeline::transform;
use easy_svg::resolve::resolve_element;
use easy_svg::schema::AttributeSpec;
use easy_svg::schema::CategorySpec;
use easy_svg::schema::Config;
use easy_svg::schema::ElementSpec;
use easy_svg::schema::FieldSpec;
use easy_svg::schema::MixinSpec;
use easy_svg::schema::ParamSpec;
use easy_svg::strutil::camel_to_snake;
use easy_svg::strutil::capitalize;
use easy_svg::strutil::str_lt;
use easy_svg::synth::generate_category_traits;
use easy_svg::synth::generate_impl;
use easy_svg::synth::generate_shape_enum;
use easy_svg::synth::generate_shape_from;
use easy_svg::synth::generate_struct;
use easy_svg::synth::generate_to_string;
use easy_svg::synth::generate_unit;
use easy_svg::synth::strip_option;

fn field(name: &str, ty: &str) -> (String, FieldSpec) {
    (
        name.to_string(),
        FieldSpec { type_token: ty.to_string(), from_constructor: false },
    )
}

fn ctor_field(name: &str, ty: &str) -> (String, FieldSpec) {
    (
        name.to_string(),
        FieldSpec { type_token: ty.to_string(), from_constructor: true },
    )
}

fn mixin(name: &str, fields: Vec<(String, FieldSpec)>, derives: Vec<&str>) -> MixinSpec {
    MixinSpec {
        name: name.to_string(),
        fields,
        derives: derives.into_iter().map(|d| d.to_string()).collect(),
    }
}

fn element(name: &str, derives: Vec<&str>, fields: Vec<(String, FieldSpec)>) -> ElementSpec {
    ElementSpec {
        name: name.to_string(),
        derives: derives.into_iter().map(|d| d.to_string()).collect(),
        fields,
        element_types: Vec::new(),
        valid_child_types: Vec::new(),
        constructor_params: Vec::new(),
    }
}

fn field_names(e: &ElementSpec) -> Vec<String> {
    e.fields.iter().map(|p| p.0.clone()).collect()
}

#[test]
fn resolves_fields_from_mixins() {
    let mixins = vec![
        mixin("geometry", vec![field("cx", "Option<f64>"), field("cy", "Option<f64>")], vec![]),
        mixin("paint", vec![field("fill", "Option<Color>")], vec!["geometry"]),
    ];
    let elem = element("circle", vec!["paint"], vec![field("r", "Option<f64>")]);
    let out = resolve_element(elem, &mixins).unwrap();
    assert_eq!(field_names(&out), vec!["cx", "cy", "fill", "r"]);
    assert_eq!(out.derives, vec!["paint", "geometry"]);
}

#[test]
fn cyclic_mixins_terminate_without_duplicates() {
    let mixins = vec![
        mixin("a", vec![field("one", "Option<f64>")], vec!["b"]),
        mixin("b", vec![field("two", "Option<f64>")], vec!["a"]),
    ];
    let elem = element("x", vec!["a"], vec![]);
    let out = resolve_element(elem, &mixins).unwrap();
    assert_eq!(out.derives, vec!["a", "b"]);
    assert_eq!(field_names(&out), vec!["one", "two"]);
}

#[test]
fn derive_order_does_not_change_field_names() {
    let mixins = vec![
        mixin("m1", vec![field("alpha", "Option<f64>")], vec![]),
        mixin("m2", vec![field("beta", "Option<f64>")], vec![]),
    ];
    let one = resolve_element(element("e", vec!["m1", "m2"], vec![]), &mixins).unwrap();
    let two = resolve_element(element("e", vec!["m2", "m1"], vec![]), &mixins).unwrap();
    assert_eq!(field_names(&one), field_names(&two));
    assert_eq!(field_names(&one), vec!["alpha", "beta"]);
}

#[test]
fn missing_mixin_is_fatal() {
    let mixins = vec![mixin("known", vec![], vec![])];
    let err = resolve_element(element("e", vec!["unknown"], vec![]), &mixins).unwrap_err();
    assert_eq!(err, "Derivable unknown not found");
}

#[test]
fn last_expanded_mixin_wins_on_shared_name() {
    // the queue is a stack: the last listed mixin is expanded first, so
    // the first listed one is expanded last and its value wins
    let mixins = vec![
        mixin("m1", vec![field("shared", "Option<First>")], vec![]),
        mixin("m2", vec![field("shared", "Option<Second>")], vec![]),
    ];
    let out = resolve_element(element("e", vec!["m1", "m2"], vec![]), &mixins).unwrap();
    assert_eq!(out.fields.len(), 1);
    assert_eq!(out.fields[0].1.type_token, "Option<First>");
}

#[test]
fn injector_adds_and_overwrites_fields() {
    let mut elements = vec![element(
        "circle",
        vec![],
        vec![field("fill", "Option<Color>"), field("r", "Option<f64>")],
    )];
    let attributes = vec![AttributeSpec {
        name: "fill".to_string(),
        elements: vec!["circle".to_string()],
        attribute_type: "Option<Paint>".to_string(),
    }, AttributeSpec {
        name: "id".to_string(),
        elements: vec!["circle".to_string()],
        attribute_type: "Option<String>".to_string(),
    }];
    inject_attributes(&mut elements, &attributes).unwrap();
    assert_eq!(field_names(&elements[0]), vec!["fill", "id", "r"]);
    assert_eq!(elements[0].fields[0].1.type_token, "Option<Paint>");
    assert!(!elements[0].fields[0].1.from_constructor);
}

#[test]
fn injector_rejects_unknown_element() {
    let mut elements = vec![element("circle", vec![], vec![])];
    let attributes = vec![AttributeSpec {
        name: "id".to_string(),
        elements: vec!["square".to_string()],
        attribute_type: "Option<String>".to_string(),
    }];
    let err = inject_attributes(&mut elements, &attributes).unwrap_err();
    assert_eq!(err, "Element square not found");
}

#[test]
fn snake_and_capital_names() {
    assert_eq!(camel_to_snake("scrollLeft"), "scroll_left");
    assert_eq!(camel_to_snake("font-family"), "font_family");
    assert_eq!(camel_to_snake("innerHtml"), "inner_html");
    assert_eq!(camel_to_snake("cx"), "cx");
    assert_eq!(capitalize("circle"), "Circle");
    assert_eq!(capitalize(""), "");
    assert_eq!(capitalize("Rect"), "Rect");
    assert!(str_lt("className", "cx"));
    assert!(!str_lt("cx", "className"));
    assert!(!str_lt("cx", "cx"));
}

#[test]
fn strip_option_unwraps_one_layer() {
    assert_eq!(strip_option("Option<f64>"), "f64");
    assert_eq!(strip_option("f64"), "f64");
    assert_eq!(strip_option("Option<Option<T>>"), "Option<T>");
}

#[test]
fn category_trait_synthesis() {
    let categories = vec![
        CategorySpec { name: "BasicShape".to_string() },
        CategorySpec { name: "ContainerElement".to_string() },
    ];
    assert_eq!(
        generate_category_traits(&categories),
        "pub trait BasicShape: Into<Shape> + Clone {}\npub trait ContainerElement: Into<Shape> + Clone {}\n"
    );
}

#[test]
fn struct_synthesis() {
    let elem = element(
        "circle",
        vec![],
        vec![field("cx", "Option<f64>"), field("scrollLeft", "Option<f64>")],
    );
    assert_eq!(
        generate_struct("circle", &elem),
        "#[derive(Debug, Clone, Serialize, Deserialize)]\npub struct Circle {\n    pub cx: Option<f64>,\n    pub scroll_left: Option<f64>,\n    children: Vec<Shape>,\n}\n"
    );
}

#[test]
fn shape_from_synthesis() {
    assert_eq!(
        generate_shape_from("circle"),
        "impl From<Circle> for Shape {\n    fn from(circle: Circle) -> Self {\n        Self::Circle(circle)\n    }\n}\n"
    );
}

#[test]
fn shape_enum_synthesis_lists_every_element() {
    let elements = vec![element("circle", vec![], vec![]), element("rect", vec![], vec![])];
    let text = generate_shape_enum(&elements);
    assert!(text.contains("pub enum Shape {\n    Circle(Circle),\n    Rect(Rect),\n    String(String),\n}"));
    assert!(text.contains("Shape::Circle(circle) => circle.to_string(),"));
    assert!(text.contains("Shape::String(string) => string.to_string(),"));
}

#[test]
fn renderer_synthesis_embeds_wire_names() {
    let mut elem = element("text", vec![], vec![field("font-family", "Option<String>")]);
    elem.constructor_params = vec![ParamSpec {
        name: "x".to_string(),
        type_token: "f64".to_string(),
    }];
    let text = generate_to_string("text", &elem);
    assert!(text.contains("svg.push_str(\"<text\");"));
    assert!(text.contains("svg.push_str(&format!(\" x=\\\"{}\\\"\", self.x));"));
    assert!(text.contains("if let Some(value) = &self.font_family {"));
    assert!(text.contains("svg.push_str(&format!(\" font-family=\\\"{}\\\"\", value));"));
    assert!(text.contains("svg.push_str(\"</text>\");"));
}

#[test]
fn impl_synthesis_builders_and_children() {
    let mut elem = element("circle", vec![], vec![field("cx", "Option<f64>")]);
    elem.element_types = vec!["BasicShape".to_string()];
    elem.valid_child_types = vec!["BasicShape".to_string(), "rect".to_string()];
    let categories = vec![CategorySpec { name: "BasicShape".to_string() }];
    let text = generate_impl("circle", &elem, &categories);
    assert!(text.contains("impl BasicShape for Circle {}\n"));
    assert!(text.contains("impl Default for Circle {"));
    assert!(text.contains("pub fn new() -> Self {"));
    assert!(text.contains("            cx: None,\n"));
    assert!(text.contains("pub fn cx(mut self, value: f64) -> Self {"));
    assert!(text.contains("pub fn add_child_basic_shape<T>(mut self, child: T) -> Self"));
    assert!(text.contains("T: Into<Shape> + BasicShape,"));
    assert!(text.contains("pub fn add_child_rect(mut self, child: Rect) -> Self {"));
}

#[test]
fn constructor_parameters_suppress_default() {
    let mut elem = element("svg", vec![], vec![ctor_field("width", "f64")]);
    elem.constructor_params = vec![ParamSpec {
        name: "width".to_string(),
        type_token: "f64".to_string(),
    }];
    let text = generate_impl("svg", &elem, &Vec::new());
    assert!(!text.contains("impl Default"));
    assert!(text.contains("pub fn new(width: f64) -> Self {"));
    assert!(text.contains("            width,\n"));
}

#[test]
fn pipeline_resolves_injects_and_generates() {
    let config = Config {
        elements: vec![element("circle", vec!["paint"], vec![field("r", "Option<f64>")])],
        derives: vec![mixin("paint", vec![field("fill", "Option<Color>")], vec![])],
        element_types: vec![CategorySpec { name: "BasicShape".to_string() }],
        attributes: vec![AttributeSpec {
            name: "id".to_string(),
            elements: vec!["circle".to_string()],
            attribute_type: "Option<String>".to_string(),
        }],
    };
    let (resolved, trace) = transform(config).unwrap();
    assert_eq!(field_names(&resolved.elements[0]), vec!["fill", "id", "r"]);
    assert_eq!(trace, vec!["Starting on circle"]);
    let unit = generate_unit(&resolved);
    assert!(unit.starts_with("use crate::types::color::Color;\n"));
    assert!(unit.contains("pub trait BasicShape: Into<Shape> + Clone {}\n"));
    assert!(unit.contains("pub struct Circle {"));
    assert!(unit.contains("pub fn fill(mut self, value: Color) -> Self {"));
    assert!(unit.contains("impl From<Circle> for Shape {"));
}

#[test]
fn malformed_unit_is_detected() {
    assert!(wellformed_generated("pub struct X { pub a: u8 }"));
    assert!(!wellformed_generated("pub struct X {"));
    assert!(!wellformed_generated("fn"));
    assert!(wellformed_generated(""));
}

#[test]
fn wellformed_unit_pretty_prints() {
    let valid = "pub  struct   X{pub a:u8}";
    assert!(wellformed_generated(valid));
    let file = syn::parse_file(valid).unwrap();
    let formatted = prettyplease::unparse(&file);
    assert_ne!(formatted, valid);
    assert_eq!(formatted, "pub struct X {\n    pub a: u8,\n}\n");
}

#[test]
fn generated_unit_parses_as_source() {
    let config = Config {
        elements: vec![element(
            "circle",
            vec![],
            vec![field("cx", "Option<f64>"), field("fill", "Option<String>")],
        )],
        derives: Vec::new(),
        element_types: vec![CategorySpec { name: "BasicShape".to_string() }],
        attributes: Vec::new(),
    };
    let (resolved, _trace) = transform(config).unwrap();
    let unit = generate_unit(&resolved);
    assert!(wellformed_generated(unit.as_str()));
    assert!(unit.contains("pub struct Circle"));
}

#[test]
fn constructor_fields_need_matching_parameters() {
    let mut good = element("svg", vec![], vec![ctor_field("width", "f64")]);
    good.constructor_params = vec![ParamSpec {
        name: "width".to_string(),
        type_token: "f64".to_string(),
    }];
    let mut bad = element("svg", vec![], vec![ctor_field("width", "f64")]);
    bad.constructor_params = vec![ParamSpec {
        name: "height".to_string(),
        type_token: "f64".to_string(),
    }];
    let ok_config = Config {
        elements: vec![good],
        derives: Vec::new(),
        element_types: Vec::new(),
        attributes: Vec::new(),
    };
    assert!(check_config_constructors(&ok_config).is_ok());
    let bad_config = Config {
        elements: vec![bad],
        derives: Vec::new(),
        element_types: Vec::new(),
        attributes: Vec::new(),
    };
    let err = check_config_constructors(&bad_config).unwrap_err();
    assert_eq!(err, "Constructor field width has no matching parameter");
}
