//! Builders for SVG-like markup documents, together with the schema-driven
//! generator that synthesizes such builder code from a declarative
//! configuration of elements, attribute mixins, and element categories.

pub mod a;
pub mod attrs;
pub mod circle;
pub mod defs;
pub mod desc;
pub mod ellipse;
pub mod emit;
pub mod inject;
pub mod laws;
pub mod line;
pub mod path;
pub mod path_element;
pub mod pipeline;
pub mod rect;
pub mod resolve;
pub mod schema;
pub mod shape;
pub mod strutil;
pub mod svg;
pub mod synth;
pub mod text;
pub mod values;
