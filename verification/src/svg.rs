//! The `svg` element.

use vstd::prelude::*;

use crate::attrs::ElemModel;
use crate::attrs::elem_text;
use crate::attrs::open_text;
use crate::attrs::open_prefix;
use crate::attrs::lemma_open_prefix_zero;
use crate::attrs::lemma_open_prefix_step;
use crate::attrs::lemma_open_prefix_full;
use crate::attrs::ctor_prefix;
use crate::attrs::lemma_ctor_prefix_zero;
use crate::attrs::lemma_ctor_prefix_step;
use crate::attrs::lemma_ctor_prefix_full;
use crate::attrs::push_attr;
use crate::attrs::ov;
use crate::attrs::push_opt_attr;
use crate::shape::Shape;
use crate::shape::IntoShape;
use crate::shape::ContainerElement;
use crate::shape::RenderableElement;
use crate::shape::ShapeElement;
use crate::shape::StructuralElement;
use crate::a::A;
use crate::text::Text;
use crate::attrs::clone_opt_string;
use crate::shape::clone_children;
use crate::shape::lemma_render_children_congruent;
use crate::shape::spec_render_children;
use crate::shape::body_prefix;
use crate::shape::lemma_body_prefix_zero;
use crate::shape::lemma_body_prefix_step;
use crate::shape::lemma_body_prefix_full;

verus! {

/// The `svg` element; attribute values hold the text they render to.
#[derive(Debug)]
pub struct Svg {
    pub width: String,
    pub height: String,
    pub x: Option<String>,
    pub y: Option<String>,
    pub children: Vec<Shape>,
}

/// The markup model of an `svg`: its wire names in field order.
pub open spec fn svg_model(c: Svg) -> ElemModel {
    ElemModel {
        tag: "svg"@,
        ctor: seq![
            ("width"@, c.width@),
            ("height"@, c.height@),
        ],
        opt: seq![
            ("x"@, ov(c.x)),
            ("y"@, ov(c.y)),
        ],
    }
}

/// The rendered text of an `svg` element.
pub open spec fn spec_render_svg(c: Svg) -> Seq<char>
    decreases c,
{
    elem_text(svg_model(c), c.children@.len() > 0, spec_render_children(c.children@))
}

impl Svg {
    /// An `svg` with the given mandatory values, every optional
    /// attribute unset, and no children.
    pub fn new(width: String, height: String) -> (r: Self)
        ensures
            r.width == width,
            r.height == height,
            r.x is None,
            r.y is None,
            r.children@ == Seq::<Shape>::empty(),
    {
        Svg {
            width,
            height,
            x: None,
            y: None,
            children: Vec::new(),
        }
    }

    /// Sets the `x` attribute.
    pub fn x(self, value: String) -> (r: Self)
        ensures
            r == (Svg { x: Some(value), ..self }),
    {
        let mut s = self;
        s.x = Some(value);
        s
    }

    /// Sets the `y` attribute.
    pub fn y(self, value: String) -> (r: Self)
        ensures
            r == (Svg { y: Some(value), ..self }),
    {
        let mut s = self;
        s.y = Some(value);
        s
    }

    /// Appends a child of the `ShapeElement` category.
    pub fn add_child_shape_element<T: ShapeElement>(self, child: T) -> (r: Self)
        ensures
            r.children@ == self.children@.push(child.shape_of()),
            r == (Svg { children: r.children, ..self }),
    {
        let mut s = self;
        s.children.push(child.into_shape());
        s
    }

    /// Appends a `A` child.
    pub fn add_child_a(self, child: A) -> (r: Self)
        ensures
            r.children@ == self.children@.push(Shape::A(child)),
            r == (Svg { children: r.children, ..self }),
    {
        let mut s = self;
        s.children.push(Shape::A(child));
        s
    }

    /// Appends a `Text` child.
    pub fn add_child_text(self, child: Text) -> (r: Self)
        ensures
            r.children@ == self.children@.push(Shape::Text(child)),
            r == (Svg { children: r.children, ..self }),
    {
        let mut s = self;
        s.children.push(Shape::Text(child));
        s
    }

    /// Appends any value convertible to the union as a child.
    pub fn add_element<T: IntoShape>(self, element: T) -> (r: Self)
        ensures
            r.children@ == self.children@.push(element.shape_of()),
            r == (Svg { children: r.children, ..self }),
    {
        let mut s = self;
        s.children.push(element.into_shape());
        s
    }

    /// Appends a nested layer as a child.
    pub fn add_layer(self, element: Svg) -> (r: Self)
        ensures
            r.children@ == self.children@.push(Shape::Svg(element)),
            r == (Svg { children: r.children, ..self }),
    {
        let mut s = self;
        s.children.push(Shape::Svg(element));
        s
    }

    /// Renders the `svg` element to markup text.
    #[verifier::loop_isolation(false)]
    pub fn render(&self) -> (out: String)
        ensures
            out@ == spec_render_svg(*self),
        decreases *self,
    {
        let ghost m = svg_model(*self);
        let mut out = String::new();
        out.append("<");
        out.append("svg");
        proof {
            lemma_ctor_prefix_zero(m);
            assert(out@ =~= ctor_prefix(m, 0));
        }
        push_attr(&mut out, "width", self.width.as_str());
        proof {
            lemma_ctor_prefix_step(m, 1);
            assert(out@ == ctor_prefix(m, 1));
        }
        push_attr(&mut out, "height", self.height.as_str());
        proof {
            lemma_ctor_prefix_step(m, 2);
            assert(out@ == ctor_prefix(m, 2));
        }
        proof {
            lemma_ctor_prefix_full(m);
            lemma_open_prefix_zero(m);
            assert(out@ == open_prefix(m, 0));
        }
        push_opt_attr(&mut out, "x", &self.x);
        proof {
            lemma_open_prefix_step(m, 1);
            assert(out@ == open_prefix(m, 1));
        }
        push_opt_attr(&mut out, "y", &self.y);
        proof {
            lemma_open_prefix_step(m, 2);
            assert(out@ == open_prefix(m, 2));
        }
        proof {
            lemma_open_prefix_full(m);
            assert(out@ == open_text(m));
        }
        if self.children.len() == 0 {
            out.append("/>");
            proof {
                assert(out@ == spec_render_svg(*self));
            }
            return out;
        }
        out.append(">");
        proof {
            lemma_body_prefix_zero(m, self.children@);
            assert(out@ == body_prefix(m, self.children@, 0));
        }
        let n = self.children.len();
        let mut j: usize = 0;
        while j < n
            invariant
                j <= n,
                out@ == body_prefix(m, self.children@, j as int),
            decreases n - j,
        {
            let child = &self.children[j];
            let t = child.render();
            out.append(t.as_str());
            proof {
                lemma_body_prefix_step(m, self.children@, j as int + 1);
                assert(out@ == body_prefix(m, self.children@, j as int + 1));
            }
            j = j + 1;
        }
        proof {
            lemma_body_prefix_full(m, self.children@);
        }
        out.append("</");
        out.append("svg");
        out.append(">");
        proof {
            assert(out@ == spec_render_svg(*self));
        }
        out
    }
}

impl Clone for Svg {
    /// The clone renders to the same text.
    fn clone(&self) -> (r: Self)
        ensures
            spec_render_svg(r) == spec_render_svg(*self),
        decreases *self,
    {
        let r = Svg {
            width: self.width.clone(),
            height: self.height.clone(),
            x: clone_opt_string(&self.x),
            y: clone_opt_string(&self.y),
            children: clone_children(&self.children),
        };
        proof {
            lemma_render_children_congruent(r.children@, self.children@);
            assert(svg_model(r).opt =~= svg_model(*self).opt);
            assert(svg_model(r).ctor =~= svg_model(*self).ctor);
            assert(svg_model(r) == svg_model(*self));
            assert(spec_render_svg(r) == spec_render_svg(*self));
        }
        r
    }
}

impl IntoShape for Svg {
    open spec fn shape_of(self) -> Shape {
        Shape::Svg(self)
    }

    fn into_shape(self) -> (s: Shape) {
        Shape::Svg(self)
    }
}

impl ContainerElement for Svg {

}

impl StructuralElement for Svg {

}

impl RenderableElement for Svg {

}

} // verus!
