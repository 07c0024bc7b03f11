//! The `a` element.

use vstd::prelude::*;

use crate::attrs::ElemModel;
use crate::attrs::elem_text;
use crate::attrs::open_text;
use crate::attrs::open_prefix;
use crate::attrs::lemma_open_prefix_zero;
use crate::attrs::lemma_open_prefix_step;
use crate::attrs::lemma_open_prefix_full;
use crate::attrs::ov;
use crate::attrs::push_opt_attr;
use crate::values::Target;
use crate::values::ov_target;
use crate::values::push_opt_target_attr;
use crate::shape::Shape;
use crate::shape::IntoShape;
use crate::shape::AnimationElement;
use crate::shape::ContainerElement;
use crate::shape::DescriptiveElement;
use crate::shape::GradientElement;
use crate::shape::ShapeElement;
use crate::shape::StructuralElement;
use crate::rect::Rect;
use crate::attrs::clone_opt_string;
use crate::values::clone_opt_target;
use crate::shape::clone_children;
use crate::shape::lemma_render_children_congruent;
use crate::shape::spec_render_children;
use crate::shape::body_prefix;
use crate::shape::lemma_body_prefix_zero;
use crate::shape::lemma_body_prefix_step;
use crate::shape::lemma_body_prefix_full;

verus! {

/// The `a` element; attribute values hold the text they render to.
#[derive(Debug)]
pub struct A {
    pub download: Option<String>,
    pub href: Option<String>,
    pub hreflang: Option<String>,
    pub referrerpolicy: Option<String>,
    pub target: Option<Target>,
    pub children: Vec<Shape>,
}

/// The markup model of an `a`: its wire names in field order.
pub open spec fn a_model(c: A) -> ElemModel {
    ElemModel {
        tag: "a"@,
        ctor: Seq::empty(),
        opt: seq![
            ("download"@, ov(c.download)),
            ("href"@, ov(c.href)),
            ("hreflang"@, ov(c.hreflang)),
            ("referrerpolicy"@, ov(c.referrerpolicy)),
            ("target"@, ov_target(c.target)),
        ],
    }
}

/// The rendered text of an `a` element.
pub open spec fn spec_render_a(c: A) -> Seq<char>
    decreases c,
{
    elem_text(a_model(c), c.children@.len() > 0, spec_render_children(c.children@))
}

impl A {
    /// An `a` with every attribute unset and no children.
    pub fn new() -> (r: Self)
        ensures
            r.download is None,
            r.href is None,
            r.hreflang is None,
            r.referrerpolicy is None,
            r.target is None,
            r.children@ == Seq::<Shape>::empty(),
    {
        A {
            download: None,
            href: None,
            hreflang: None,
            referrerpolicy: None,
            target: None,
            children: Vec::new(),
        }
    }

    /// Sets the `download` attribute.
    pub fn download(self, value: String) -> (r: Self)
        ensures
            r == (A { download: Some(value), ..self }),
    {
        let mut s = self;
        s.download = Some(value);
        s
    }

    /// Sets the `href` attribute.
    pub fn href(self, value: String) -> (r: Self)
        ensures
            r == (A { href: Some(value), ..self }),
    {
        let mut s = self;
        s.href = Some(value);
        s
    }

    /// Sets the `hreflang` attribute.
    pub fn hreflang(self, value: String) -> (r: Self)
        ensures
            r == (A { hreflang: Some(value), ..self }),
    {
        let mut s = self;
        s.hreflang = Some(value);
        s
    }

    /// Sets the `referrerpolicy` attribute.
    pub fn referrerpolicy(self, value: String) -> (r: Self)
        ensures
            r == (A { referrerpolicy: Some(value), ..self }),
    {
        let mut s = self;
        s.referrerpolicy = Some(value);
        s
    }

    /// Sets the `target` attribute.
    pub fn target(self, value: Target) -> (r: Self)
        ensures
            r == (A { target: Some(value), ..self }),
    {
        let mut s = self;
        s.target = Some(value);
        s
    }

    /// Appends a child of the `AnimationElement` category.
    pub fn add_child_animation_element<T: AnimationElement>(self, child: T) -> (r: Self)
        ensures
            r.children@ == self.children@.push(child.shape_of()),
            r == (A { children: r.children, ..self }),
    {
        let mut s = self;
        s.children.push(child.into_shape());
        s
    }

    /// Appends a child of the `DescriptiveElement` category.
    pub fn add_child_descriptive_element<T: DescriptiveElement>(self, child: T) -> (r: Self)
        ensures
            r.children@ == self.children@.push(child.shape_of()),
            r == (A { children: r.children, ..self }),
    {
        let mut s = self;
        s.children.push(child.into_shape());
        s
    }

    /// Appends a child of the `ShapeElement` category.
    pub fn add_child_shape_element<T: ShapeElement>(self, child: T) -> (r: Self)
        ensures
            r.children@ == self.children@.push(child.shape_of()),
            r == (A { children: r.children, ..self }),
    {
        let mut s = self;
        s.children.push(child.into_shape());
        s
    }

    /// Appends a child of the `StructuralElement` category.
    pub fn add_child_structural_element<T: StructuralElement>(self, child: T) -> (r: Self)
        ensures
            r.children@ == self.children@.push(child.shape_of()),
            r == (A { children: r.children, ..self }),
    {
        let mut s = self;
        s.children.push(child.into_shape());
        s
    }

    /// Appends a child of the `GradientElement` category.
    pub fn add_child_gradient_element<T: GradientElement>(self, child: T) -> (r: Self)
        ensures
            r.children@ == self.children@.push(child.shape_of()),
            r == (A { children: r.children, ..self }),
    {
        let mut s = self;
        s.children.push(child.into_shape());
        s
    }

    /// Appends a `Rect` child.
    pub fn add_child_rect(self, child: Rect) -> (r: Self)
        ensures
            r.children@ == self.children@.push(Shape::Rect(child)),
            r == (A { children: r.children, ..self }),
    {
        let mut s = self;
        s.children.push(Shape::Rect(child));
        s
    }

    /// Renders the `a` element to markup text.
    #[verifier::loop_isolation(false)]
    pub fn render(&self) -> (out: String)
        ensures
            out@ == spec_render_a(*self),
        decreases *self,
    {
        let ghost m = a_model(*self);
        let mut out = String::new();
        out.append("<");
        out.append("a");
        proof {
            lemma_open_prefix_zero(m);
            assert(out@ =~= open_prefix(m, 0));
        }
        push_opt_attr(&mut out, "download", &self.download);
        proof {
            lemma_open_prefix_step(m, 1);
            assert(out@ == open_prefix(m, 1));
        }
        push_opt_attr(&mut out, "href", &self.href);
        proof {
            lemma_open_prefix_step(m, 2);
            assert(out@ == open_prefix(m, 2));
        }
        push_opt_attr(&mut out, "hreflang", &self.hreflang);
        proof {
            lemma_open_prefix_step(m, 3);
            assert(out@ == open_prefix(m, 3));
        }
        push_opt_attr(&mut out, "referrerpolicy", &self.referrerpolicy);
        proof {
            lemma_open_prefix_step(m, 4);
            assert(out@ == open_prefix(m, 4));
        }
        push_opt_target_attr(&mut out, "target", &self.target);
        proof {
            lemma_open_prefix_step(m, 5);
            assert(out@ == open_prefix(m, 5));
        }
        proof {
            lemma_open_prefix_full(m);
            assert(out@ == open_text(m));
        }
        if self.children.len() == 0 {
            out.append("/>");
            proof {
                assert(out@ == spec_render_a(*self));
            }
            return out;
        }
        out.append(">");
        proof {
            lemma_body_prefix_zero(m, self.children@);
            assert(out@ == body_prefix(m, self.children@, 0));
        }
        let n = self.children.len();
        let mut j: usize = 0;
        while j < n
            invariant
                j <= n,
                out@ == body_prefix(m, self.children@, j as int),
            decreases n - j,
        {
            let child = &self.children[j];
            let t = child.render();
            out.append(t.as_str());
            proof {
                lemma_body_prefix_step(m, self.children@, j as int + 1);
                assert(out@ == body_prefix(m, self.children@, j as int + 1));
            }
            j = j + 1;
        }
        proof {
            lemma_body_prefix_full(m, self.children@);
        }
        out.append("</");
        out.append("a");
        out.append(">");
        proof {
            assert(out@ == spec_render_a(*self));
        }
        out
    }
}

impl Clone for A {
    /// The clone renders to the same text.
    fn clone(&self) -> (r: Self)
        ensures
            spec_render_a(r) == spec_render_a(*self),
        decreases *self,
    {
        let r = A {
            download: clone_opt_string(&self.download),
            href: clone_opt_string(&self.href),
            hreflang: clone_opt_string(&self.hreflang),
            referrerpolicy: clone_opt_string(&self.referrerpolicy),
            target: clone_opt_target(&self.target),
            children: clone_children(&self.children),
        };
        proof {
            lemma_render_children_congruent(r.children@, self.children@);
            assert(a_model(r).opt =~= a_model(*self).opt);
            assert(a_model(r).ctor =~= a_model(*self).ctor);
            assert(a_model(r) == a_model(*self));
            assert(spec_render_a(r) == spec_render_a(*self));
        }
        r
    }
}

impl IntoShape for A {
    open spec fn shape_of(self) -> Shape {
        Shape::A(self)
    }

    fn into_shape(self) -> (s: Shape) {
        Shape::A(self)
    }
}

impl ContainerElement for A {

}

impl Default for A {
    /// The same value `new` builds.
    fn default() -> (r: Self)
        ensures
            r.download is None,
            r.href is None,
            r.hreflang is None,
            r.referrerpolicy is None,
            r.target is None,
            r.children@ == Seq::<Shape>::empty(),
    {
        Self::new()
    }
}

} // verus!
