//! The `path` element.

use vstd::prelude::*;

use crate::attrs::ElemModel;
use crate::attrs::elem_text;
use crate::attrs::open_text;
use crate::attrs::open_prefix;
use crate::attrs::lemma_open_prefix_zero;
use crate::attrs::lemma_open_prefix_step;
use crate::attrs::lemma_open_prefix_full;
use crate::attrs::ov;
use crate::attrs::push_opt_attr;
use crate::path::Path;
use crate::path::spec_render_path;
use crate::shape::Shape;
use crate::shape::IntoShape;
use crate::shape::AnimationElement;
use crate::shape::BasicShape;
use crate::shape::DescriptiveElement;
use crate::shape::GraphicsElement;
use crate::shape::RenderableElement;
use crate::shape::ShapeElement;
use crate::attrs::clone_opt_string;
use crate::shape::clone_children;
use crate::shape::lemma_render_children_congruent;
use crate::shape::spec_render_children;
use crate::shape::body_prefix;
use crate::shape::lemma_body_prefix_zero;
use crate::shape::lemma_body_prefix_step;
use crate::shape::lemma_body_prefix_full;

verus! {

/// The `path` element; attribute values hold the text they render to.
#[derive(Debug)]
pub struct PathElement {
    pub d: Option<String>,
    pub fill: Option<String>,
    pub fill_opacity: Option<String>,
    pub stroke: Option<String>,
    pub stroke_width: Option<String>,
    pub children: Vec<Shape>,
}

/// The markup model of a `path`: its wire names in field order.
pub open spec fn path_element_model(c: PathElement) -> ElemModel {
    ElemModel {
        tag: "path"@,
        ctor: Seq::empty(),
        opt: seq![
            ("d"@, ov(c.d)),
            ("fill"@, ov(c.fill)),
            ("fill-opacity"@, ov(c.fill_opacity)),
            ("stroke"@, ov(c.stroke)),
            ("stroke-width"@, ov(c.stroke_width)),
        ],
    }
}

/// The rendered text of a `path` element.
pub open spec fn spec_render_path_element(c: PathElement) -> Seq<char>
    decreases c,
{
    elem_text(path_element_model(c), c.children@.len() > 0, spec_render_children(c.children@))
}

impl PathElement {
    /// A `path` with every attribute unset and no children.
    pub fn new() -> (r: Self)
        ensures
            r.d is None,
            r.fill is None,
            r.fill_opacity is None,
            r.stroke is None,
            r.stroke_width is None,
            r.children@ == Seq::<Shape>::empty(),
    {
        PathElement {
            d: None,
            fill: None,
            fill_opacity: None,
            stroke: None,
            stroke_width: None,
            children: Vec::new(),
        }
    }

    /// Sets the `d` attribute from a path-data value.
    pub fn d(self, value: Path) -> (r: Self)
        ensures
            r.d == Some(r.d->Some_0),
            r.d->Some_0@ == spec_render_path(value),
            r == (PathElement { d: r.d, ..self }),
    {
        let mut s = self;
        s.d = Some(value.render());
        s
    }

    /// Sets the `fill` attribute.
    pub fn fill(self, value: String) -> (r: Self)
        ensures
            r == (PathElement { fill: Some(value), ..self }),
    {
        let mut s = self;
        s.fill = Some(value);
        s
    }

    /// Sets the `fill-opacity` attribute.
    pub fn fill_opacity(self, value: String) -> (r: Self)
        ensures
            r == (PathElement { fill_opacity: Some(value), ..self }),
    {
        let mut s = self;
        s.fill_opacity = Some(value);
        s
    }

    /// Sets the `stroke` attribute.
    pub fn stroke(self, value: String) -> (r: Self)
        ensures
            r == (PathElement { stroke: Some(value), ..self }),
    {
        let mut s = self;
        s.stroke = Some(value);
        s
    }

    /// Sets the `stroke-width` attribute.
    pub fn stroke_width(self, value: String) -> (r: Self)
        ensures
            r == (PathElement { stroke_width: Some(value), ..self }),
    {
        let mut s = self;
        s.stroke_width = Some(value);
        s
    }

    /// Appends a child of the `AnimationElement` category.
    pub fn add_child_animation_element<T: AnimationElement>(self, child: T) -> (r: Self)
        ensures
            r.children@ == self.children@.push(child.shape_of()),
            r == (PathElement { children: r.children, ..self }),
    {
        let mut s = self;
        s.children.push(child.into_shape());
        s
    }

    /// Appends a child of the `DescriptiveElement` category.
    pub fn add_child_descriptive_element<T: DescriptiveElement>(self, child: T) -> (r: Self)
        ensures
            r.children@ == self.children@.push(child.shape_of()),
            r == (PathElement { children: r.children, ..self }),
    {
        let mut s = self;
        s.children.push(child.into_shape());
        s
    }

    /// Renders the `path` element to markup text.
    #[verifier::loop_isolation(false)]
    pub fn render(&self) -> (out: String)
        ensures
            out@ == spec_render_path_element(*self),
        decreases *self,
    {
        let ghost m = path_element_model(*self);
        let mut out = String::new();
        out.append("<");
        out.append("path");
        proof {
            lemma_open_prefix_zero(m);
            assert(out@ =~= open_prefix(m, 0));
        }
        push_opt_attr(&mut out, "d", &self.d);
        proof {
            lemma_open_prefix_step(m, 1);
            assert(out@ == open_prefix(m, 1));
        }
        push_opt_attr(&mut out, "fill", &self.fill);
        proof {
            lemma_open_prefix_step(m, 2);
            assert(out@ == open_prefix(m, 2));
        }
        push_opt_attr(&mut out, "fill-opacity", &self.fill_opacity);
        proof {
            lemma_open_prefix_step(m, 3);
            assert(out@ == open_prefix(m, 3));
        }
        push_opt_attr(&mut out, "stroke", &self.stroke);
        proof {
            lemma_open_prefix_step(m, 4);
            assert(out@ == open_prefix(m, 4));
        }
        push_opt_attr(&mut out, "stroke-width", &self.stroke_width);
        proof {
            lemma_open_prefix_step(m, 5);
            assert(out@ == open_prefix(m, 5));
        }
        proof {
            lemma_open_prefix_full(m);
            assert(out@ == open_text(m));
        }
        if self.children.len() == 0 {
            out.append("/>");
            proof {
                assert(out@ == spec_render_path_element(*self));
            }
            return out;
        }
        out.append(">");
        proof {
            lemma_body_prefix_zero(m, self.children@);
            assert(out@ == body_prefix(m, self.children@, 0));
        }
        let n = self.children.len();
        let mut j: usize = 0;
        while j < n
            invariant
                j <= n,
                out@ == body_prefix(m, self.children@, j as int),
            decreases n - j,
        {
            let child = &self.children[j];
            let t = child.render();
            out.append(t.as_str());
            proof {
                lemma_body_prefix_step(m, self.children@, j as int + 1);
                assert(out@ == body_prefix(m, self.children@, j as int + 1));
            }
            j = j + 1;
        }
        proof {
            lemma_body_prefix_full(m, self.children@);
        }
        out.append("</");
        out.append("path");
        out.append(">");
        proof {
            assert(out@ == spec_render_path_element(*self));
        }
        out
    }
}

impl Clone for PathElement {
    /// The clone renders to the same text.
    fn clone(&self) -> (r: Self)
        ensures
            spec_render_path_element(r) == spec_render_path_element(*self),
        decreases *self,
    {
        let r = PathElement {
            d: clone_opt_string(&self.d),
            fill: clone_opt_string(&self.fill),
            fill_opacity: clone_opt_string(&self.fill_opacity),
            stroke: clone_opt_string(&self.stroke),
            stroke_width: clone_opt_string(&self.stroke_width),
            children: clone_children(&self.children),
        };
        proof {
            lemma_render_children_congruent(r.children@, self.children@);
            assert(path_element_model(r).opt =~= path_element_model(*self).opt);
            assert(path_element_model(r).ctor =~= path_element_model(*self).ctor);
            assert(path_element_model(r) == path_element_model(*self));
            assert(spec_render_path_element(r) == spec_render_path_element(*self));
        }
        r
    }
}

impl IntoShape for PathElement {
    open spec fn shape_of(self) -> Shape {
        Shape::PathElement(self)
    }

    fn into_shape(self) -> (s: Shape) {
        Shape::PathElement(self)
    }
}

impl BasicShape for PathElement {

}

impl GraphicsElement for PathElement {

}

impl RenderableElement for PathElement {

}

impl ShapeElement for PathElement {

}

impl Default for PathElement {
    /// The same value `new` builds.
    fn default() -> (r: Self)
        ensures
            r.d is None,
            r.fill is None,
            r.fill_opacity is None,
            r.stroke is None,
            r.stroke_width is None,
            r.children@ == Seq::<Shape>::empty(),
    {
        Self::new()
    }
}

} // verus!
