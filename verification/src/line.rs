//! The `line` element.

use vstd::prelude::*;

use crate::attrs::ElemModel;
use crate::attrs::elem_text;
use crate::attrs::open_text;
use crate::attrs::open_prefix;
use crate::attrs::lemma_open_prefix_zero;
use crate::attrs::lemma_open_prefix_step;
use crate::attrs::lemma_open_prefix_full;
use crate::attrs::ov;
use crate::attrs::ov_bool;
use crate::attrs::ov_i32;
use crate::attrs::push_opt_attr;
use crate::attrs::push_opt_bool_attr;
use crate::attrs::push_opt_i32_attr;
use crate::shape::Shape;
use crate::shape::IntoShape;
use crate::shape::AnimationElement;
use crate::shape::BasicShape;
use crate::shape::DescriptiveElement;
use crate::shape::GraphicsElement;
use crate::shape::RenderableElement;
use crate::shape::ShapeElement;
use crate::shape::TextContentChildElement;
use crate::a::A;
use crate::attrs::clone_opt_string;
use crate::shape::clone_children;
use crate::shape::lemma_render_children_congruent;
use crate::shape::spec_render_children;
use crate::shape::body_prefix;
use crate::shape::lemma_body_prefix_zero;
use crate::shape::lemma_body_prefix_step;
use crate::shape::lemma_body_prefix_full;

verus! {

/// The `line` element; attribute values hold the text they render to.
#[derive(Debug)]
pub struct Line {
    pub autofocus: Option<bool>,
    pub class_name: Option<String>,
    pub element_timing: Option<String>,
    pub id: Option<String>,
    pub inner_html: Option<String>,
    pub nonce: Option<String>,
    pub outer_html: Option<String>,
    pub path_length: Option<String>,
    pub scroll_left: Option<String>,
    pub scroll_top: Option<String>,
    pub slot: Option<String>,
    pub stroke: Option<String>,
    pub style: Option<String>,
    pub tab_index: Option<i32>,
    pub x1: Option<String>,
    pub x2: Option<String>,
    pub y1: Option<String>,
    pub y2: Option<String>,
    pub children: Vec<Shape>,
}

/// The markup model of a `line`: its wire names in field order.
pub open spec fn line_model(c: Line) -> ElemModel {
    ElemModel {
        tag: "line"@,
        ctor: Seq::empty(),
        opt: seq![
            ("autofocus"@, ov_bool(c.autofocus)),
            ("className"@, ov(c.class_name)),
            ("elementTiming"@, ov(c.element_timing)),
            ("id"@, ov(c.id)),
            ("innerHtml"@, ov(c.inner_html)),
            ("nonce"@, ov(c.nonce)),
            ("outerHtml"@, ov(c.outer_html)),
            ("pathLength"@, ov(c.path_length)),
            ("scrollLeft"@, ov(c.scroll_left)),
            ("scrollTop"@, ov(c.scroll_top)),
            ("slot"@, ov(c.slot)),
            ("stroke"@, ov(c.stroke)),
            ("style"@, ov(c.style)),
            ("tabIndex"@, ov_i32(c.tab_index)),
            ("x1"@, ov(c.x1)),
            ("x2"@, ov(c.x2)),
            ("y1"@, ov(c.y1)),
            ("y2"@, ov(c.y2)),
        ],
    }
}

/// The rendered text of a `line` element.
pub open spec fn spec_render_line(c: Line) -> Seq<char>
    decreases c,
{
    elem_text(line_model(c), c.children@.len() > 0, spec_render_children(c.children@))
}

impl Line {
    /// A `line` with every attribute unset and no children.
    pub fn new() -> (r: Self)
        ensures
            r.autofocus is None,
            r.class_name is None,
            r.element_timing is None,
            r.id is None,
            r.inner_html is None,
            r.nonce is None,
            r.outer_html is None,
            r.path_length is None,
            r.scroll_left is None,
            r.scroll_top is None,
            r.slot is None,
            r.stroke is None,
            r.style is None,
            r.tab_index is None,
            r.x1 is None,
            r.x2 is None,
            r.y1 is None,
            r.y2 is None,
            r.children@ == Seq::<Shape>::empty(),
    {
        Line {
            autofocus: None,
            class_name: None,
            element_timing: None,
            id: None,
            inner_html: None,
            nonce: None,
            outer_html: None,
            path_length: None,
            scroll_left: None,
            scroll_top: None,
            slot: None,
            stroke: None,
            style: None,
            tab_index: None,
            x1: None,
            x2: None,
            y1: None,
            y2: None,
            children: Vec::new(),
        }
    }

    /// Sets the `autofocus` attribute.
    pub fn autofocus(self, value: bool) -> (r: Self)
        ensures
            r == (Line { autofocus: Some(value), ..self }),
    {
        let mut s = self;
        s.autofocus = Some(value);
        s
    }

    /// Sets the `className` attribute.
    pub fn class_name(self, value: String) -> (r: Self)
        ensures
            r == (Line { class_name: Some(value), ..self }),
    {
        let mut s = self;
        s.class_name = Some(value);
        s
    }

    /// Sets the `elementTiming` attribute.
    pub fn element_timing(self, value: String) -> (r: Self)
        ensures
            r == (Line { element_timing: Some(value), ..self }),
    {
        let mut s = self;
        s.element_timing = Some(value);
        s
    }

    /// Sets the `id` attribute.
    pub fn id(self, value: String) -> (r: Self)
        ensures
            r == (Line { id: Some(value), ..self }),
    {
        let mut s = self;
        s.id = Some(value);
        s
    }

    /// Sets the `innerHtml` attribute.
    pub fn inner_html(self, value: String) -> (r: Self)
        ensures
            r == (Line { inner_html: Some(value), ..self }),
    {
        let mut s = self;
        s.inner_html = Some(value);
        s
    }

    /// Sets the `nonce` attribute.
    pub fn nonce(self, value: String) -> (r: Self)
        ensures
            r == (Line { nonce: Some(value), ..self }),
    {
        let mut s = self;
        s.nonce = Some(value);
        s
    }

    /// Sets the `outerHtml` attribute.
    pub fn outer_html(self, value: String) -> (r: Self)
        ensures
            r == (Line { outer_html: Some(value), ..self }),
    {
        let mut s = self;
        s.outer_html = Some(value);
        s
    }

    /// Sets the `pathLength` attribute.
    pub fn path_length(self, value: String) -> (r: Self)
        ensures
            r == (Line { path_length: Some(value), ..self }),
    {
        let mut s = self;
        s.path_length = Some(value);
        s
    }

    /// Sets the `scrollLeft` attribute.
    pub fn scroll_left(self, value: String) -> (r: Self)
        ensures
            r == (Line { scroll_left: Some(value), ..self }),
    {
        let mut s = self;
        s.scroll_left = Some(value);
        s
    }

    /// Sets the `scrollTop` attribute.
    pub fn scroll_top(self, value: String) -> (r: Self)
        ensures
            r == (Line { scroll_top: Some(value), ..self }),
    {
        let mut s = self;
        s.scroll_top = Some(value);
        s
    }

    /// Sets the `slot` attribute.
    pub fn slot(self, value: String) -> (r: Self)
        ensures
            r == (Line { slot: Some(value), ..self }),
    {
        let mut s = self;
        s.slot = Some(value);
        s
    }

    /// Sets the `stroke` attribute.
    pub fn stroke(self, value: String) -> (r: Self)
        ensures
            r == (Line { stroke: Some(value), ..self }),
    {
        let mut s = self;
        s.stroke = Some(value);
        s
    }

    /// Sets the `style` attribute.
    pub fn style(self, value: String) -> (r: Self)
        ensures
            r == (Line { style: Some(value), ..self }),
    {
        let mut s = self;
        s.style = Some(value);
        s
    }

    /// Sets the `tabIndex` attribute.
    pub fn tab_index(self, value: i32) -> (r: Self)
        ensures
            r == (Line { tab_index: Some(value), ..self }),
    {
        let mut s = self;
        s.tab_index = Some(value);
        s
    }

    /// Sets the `x1` attribute.
    pub fn x1(self, value: String) -> (r: Self)
        ensures
            r == (Line { x1: Some(value), ..self }),
    {
        let mut s = self;
        s.x1 = Some(value);
        s
    }

    /// Sets the `x2` attribute.
    pub fn x2(self, value: String) -> (r: Self)
        ensures
            r == (Line { x2: Some(value), ..self }),
    {
        let mut s = self;
        s.x2 = Some(value);
        s
    }

    /// Sets the `y1` attribute.
    pub fn y1(self, value: String) -> (r: Self)
        ensures
            r == (Line { y1: Some(value), ..self }),
    {
        let mut s = self;
        s.y1 = Some(value);
        s
    }

    /// Sets the `y2` attribute.
    pub fn y2(self, value: String) -> (r: Self)
        ensures
            r == (Line { y2: Some(value), ..self }),
    {
        let mut s = self;
        s.y2 = Some(value);
        s
    }

    /// Appends a child of the `AnimationElement` category.
    pub fn add_child_animation_element<T: AnimationElement>(self, child: T) -> (r: Self)
        ensures
            r.children@ == self.children@.push(child.shape_of()),
            r == (Line { children: r.children, ..self }),
    {
        let mut s = self;
        s.children.push(child.into_shape());
        s
    }

    /// Appends a child of the `DescriptiveElement` category.
    pub fn add_child_descriptive_element<T: DescriptiveElement>(self, child: T) -> (r: Self)
        ensures
            r.children@ == self.children@.push(child.shape_of()),
            r == (Line { children: r.children, ..self }),
    {
        let mut s = self;
        s.children.push(child.into_shape());
        s
    }

    /// Appends a child of the `TextContentChildElement` category.
    pub fn add_child_text_content_child_element<T: TextContentChildElement>(self, child: T) -> (r: Self)
        ensures
            r.children@ == self.children@.push(child.shape_of()),
            r == (Line { children: r.children, ..self }),
    {
        let mut s = self;
        s.children.push(child.into_shape());
        s
    }

    /// Appends a `A` child.
    pub fn add_child_a(self, child: A) -> (r: Self)
        ensures
            r.children@ == self.children@.push(Shape::A(child)),
            r == (Line { children: r.children, ..self }),
    {
        let mut s = self;
        s.children.push(Shape::A(child));
        s
    }

    /// Appends a `String` child.
    pub fn add_child_string(self, child: String) -> (r: Self)
        ensures
            r.children@ == self.children@.push(Shape::String(child)),
            r == (Line { children: r.children, ..self }),
    {
        let mut s = self;
        s.children.push(Shape::String(child));
        s
    }

    /// Renders the `line` element to markup text.
    #[verifier::loop_isolation(false)]
    pub fn render(&self) -> (out: String)
        ensures
            out@ == spec_render_line(*self),
        decreases *self,
    {
        let ghost m = line_model(*self);
        let mut out = String::new();
        out.append("<");
        out.append("line");
        proof {
            lemma_open_prefix_zero(m);
            assert(out@ =~= open_prefix(m, 0));
        }
        push_opt_bool_attr(&mut out, "autofocus", &self.autofocus);
        proof {
            lemma_open_prefix_step(m, 1);
            assert(out@ == open_prefix(m, 1));
        }
        push_opt_attr(&mut out, "className", &self.class_name);
        proof {
            lemma_open_prefix_step(m, 2);
            assert(out@ == open_prefix(m, 2));
        }
        push_opt_attr(&mut out, "elementTiming", &self.element_timing);
        proof {
            lemma_open_prefix_step(m, 3);
            assert(out@ == open_prefix(m, 3));
        }
        push_opt_attr(&mut out, "id", &self.id);
        proof {
            lemma_open_prefix_step(m, 4);
            assert(out@ == open_prefix(m, 4));
        }
        push_opt_attr(&mut out, "innerHtml", &self.inner_html);
        proof {
            lemma_open_prefix_step(m, 5);
            assert(out@ == open_prefix(m, 5));
        }
        push_opt_attr(&mut out, "nonce", &self.nonce);
        proof {
            lemma_open_prefix_step(m, 6);
            assert(out@ == open_prefix(m, 6));
        }
        push_opt_attr(&mut out, "outerHtml", &self.outer_html);
        proof {
            lemma_open_prefix_step(m, 7);
            assert(out@ == open_prefix(m, 7));
        }
        push_opt_attr(&mut out, "pathLength", &self.path_length);
        proof {
            lemma_open_prefix_step(m, 8);
            assert(out@ == open_prefix(m, 8));
        }
        push_opt_attr(&mut out, "scrollLeft", &self.scroll_left);
        proof {
            lemma_open_prefix_step(m, 9);
            assert(out@ == open_prefix(m, 9));
        }
        push_opt_attr(&mut out, "scrollTop", &self.scroll_top);
        proof {
            lemma_open_prefix_step(m, 10);
            assert(out@ == open_prefix(m, 10));
        }
        push_opt_attr(&mut out, "slot", &self.slot);
        proof {
            lemma_open_prefix_step(m, 11);
            assert(out@ == open_prefix(m, 11));
        }
        push_opt_attr(&mut out, "stroke", &self.stroke);
        proof {
            lemma_open_prefix_step(m, 12);
            assert(out@ == open_prefix(m, 12));
        }
        push_opt_attr(&mut out, "style", &self.style);
        proof {
            lemma_open_prefix_step(m, 13);
            assert(out@ == open_prefix(m, 13));
        }
        push_opt_i32_attr(&mut out, "tabIndex", &self.tab_index);
        proof {
            lemma_open_prefix_step(m, 14);
            assert(out@ == open_prefix(m, 14));
        }
        push_opt_attr(&mut out, "x1", &self.x1);
        proof {
            lemma_open_prefix_step(m, 15);
            assert(out@ == open_prefix(m, 15));
        }
        push_opt_attr(&mut out, "x2", &self.x2);
        proof {
            lemma_open_prefix_step(m, 16);
            assert(out@ == open_prefix(m, 16));
        }
        push_opt_attr(&mut out, "y1", &self.y1);
        proof {
            lemma_open_prefix_step(m, 17);
            assert(out@ == open_prefix(m, 17));
        }
        push_opt_attr(&mut out, "y2", &self.y2);
        proof {
            lemma_open_prefix_step(m, 18);
            assert(out@ == open_prefix(m, 18));
        }
        proof {
            lemma_open_prefix_full(m);
            assert(out@ == open_text(m));
        }
        if self.children.len() == 0 {
            out.append("/>");
            proof {
                assert(out@ == spec_render_line(*self));
            }
            return out;
        }
        out.append(">");
        proof {
            lemma_body_prefix_zero(m, self.children@);
            assert(out@ == body_prefix(m, self.children@, 0));
        }
        let n = self.children.len();
        let mut j: usize = 0;
        while j < n
            invariant
                j <= n,
                out@ == body_prefix(m, self.children@, j as int),
            decreases n - j,
        {
            let child = &self.children[j];
            let t = child.render();
            out.append(t.as_str());
            proof {
                lemma_body_prefix_step(m, self.children@, j as int + 1);
                assert(out@ == body_prefix(m, self.children@, j as int + 1));
            }
            j = j + 1;
        }
        proof {
            lemma_body_prefix_full(m, self.children@);
        }
        out.append("</");
        out.append("line");
        out.append(">");
        proof {
            assert(out@ == spec_render_line(*self));
        }
        out
    }
}

impl Clone for Line {
    /// The clone renders to the same text.
    fn clone(&self) -> (r: Self)
        ensures
            spec_render_line(r) == spec_render_line(*self),
        decreases *self,
    {
        let r = Line {
            autofocus: self.autofocus,
            class_name: clone_opt_string(&self.class_name),
            element_timing: clone_opt_string(&self.element_timing),
            id: clone_opt_string(&self.id),
            inner_html: clone_opt_string(&self.inner_html),
            nonce: clone_opt_string(&self.nonce),
            outer_html: clone_opt_string(&self.outer_html),
            path_length: clone_opt_string(&self.path_length),
            scroll_left: clone_opt_string(&self.scroll_left),
            scroll_top: clone_opt_string(&self.scroll_top),
            slot: clone_opt_string(&self.slot),
            stroke: clone_opt_string(&self.stroke),
            style: clone_opt_string(&self.style),
            tab_index: self.tab_index,
            x1: clone_opt_string(&self.x1),
            x2: clone_opt_string(&self.x2),
            y1: clone_opt_string(&self.y1),
            y2: clone_opt_string(&self.y2),
            children: clone_children(&self.children),
        };
        proof {
            lemma_render_children_congruent(r.children@, self.children@);
            assert(line_model(r).opt =~= line_model(*self).opt);
            assert(line_model(r).ctor =~= line_model(*self).ctor);
            assert(line_model(r) == line_model(*self));
            assert(spec_render_line(r) == spec_render_line(*self));
        }
        r
    }
}

impl IntoShape for Line {
    open spec fn shape_of(self) -> Shape {
        Shape::Line(self)
    }

    fn into_shape(self) -> (s: Shape) {
        Shape::Line(self)
    }
}

impl BasicShape for Line {

}

impl GraphicsElement for Line {

}

impl RenderableElement for Line {

}

impl ShapeElement for Line {

}

impl Default for Line {
    /// The same value `new` builds.
    fn default() -> (r: Self)
        ensures
            r.autofocus is None,
            r.class_name is None,
            r.element_timing is None,
            r.id is None,
            r.inner_html is None,
            r.nonce is None,
            r.outer_html is None,
            r.path_length is None,
            r.scroll_left is None,
            r.scroll_top is None,
            r.slot is None,
            r.stroke is None,
            r.style is None,
            r.tab_index is None,
            r.x1 is None,
            r.x2 is None,
            r.y1 is None,
            r.y2 is None,
            r.children@ == Seq::<Shape>::empty(),
    {
        Self::new()
    }
}

} // verus!
