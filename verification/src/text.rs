//! The `text` element.

use vstd::prelude::*;

use crate::attrs::ElemModel;
use crate::attrs::elem_text;
use crate::attrs::open_text;
use crate::attrs::open_prefix;
use crate::attrs::lemma_open_prefix_zero;
use crate::attrs::lemma_open_prefix_step;
use crate::attrs::lemma_open_prefix_full;
use crate::attrs::ov;
use crate::attrs::ov_bool;
use crate::attrs::ov_i32;
use crate::attrs::push_opt_attr;
use crate::attrs::push_opt_bool_attr;
use crate::attrs::push_opt_i32_attr;
use crate::shape::Shape;
use crate::shape::IntoShape;
use crate::shape::AnimationElement;
use crate::shape::DescriptiveElement;
use crate::shape::RenderableElement;
use crate::shape::TextContentChildElement;
use crate::shape::TextContentElement;
use crate::a::A;
use crate::attrs::clone_opt_string;
use crate::shape::clone_children;
use crate::shape::lemma_render_children_congruent;
use crate::shape::spec_render_children;
use crate::shape::body_prefix;
use crate::shape::lemma_body_prefix_zero;
use crate::shape::lemma_body_prefix_step;
use crate::shape::lemma_body_prefix_full;

verus! {

/// The `text` element; attribute values hold the text they render to.
#[derive(Debug)]
pub struct Text {
    pub autofocus: Option<bool>,
    pub class_name: Option<String>,
    pub dx: Option<String>,
    pub dy: Option<String>,
    pub element_timing: Option<String>,
    pub fill: Option<String>,
    pub font_family: Option<String>,
    pub font_size: Option<String>,
    pub font_size_adjust: Option<String>,
    pub id: Option<String>,
    pub inner_html: Option<String>,
    pub length_adjust: Option<String>,
    pub nonce: Option<String>,
    pub outer_html: Option<String>,
    pub rotate: Option<String>,
    pub scroll_left: Option<String>,
    pub scroll_top: Option<String>,
    pub slot: Option<String>,
    pub stroke: Option<String>,
    pub style: Option<String>,
    pub tab_index: Option<i32>,
    pub text_length: Option<String>,
    pub x: Option<String>,
    pub y: Option<String>,
    pub children: Vec<Shape>,
}

/// The markup model of a `text`: its wire names in field order.
pub open spec fn text_model(c: Text) -> ElemModel {
    ElemModel {
        tag: "text"@,
        ctor: Seq::empty(),
        opt: seq![
            ("autofocus"@, ov_bool(c.autofocus)),
            ("className"@, ov(c.class_name)),
            ("dx"@, ov(c.dx)),
            ("dy"@, ov(c.dy)),
            ("elementTiming"@, ov(c.element_timing)),
            ("fill"@, ov(c.fill)),
            ("font-family"@, ov(c.font_family)),
            ("font-size"@, ov(c.font_size)),
            ("font-size-adjust"@, ov(c.font_size_adjust)),
            ("id"@, ov(c.id)),
            ("innerHtml"@, ov(c.inner_html)),
            ("lengthAdjust"@, ov(c.length_adjust)),
            ("nonce"@, ov(c.nonce)),
            ("outerHtml"@, ov(c.outer_html)),
            ("rotate"@, ov(c.rotate)),
            ("scrollLeft"@, ov(c.scroll_left)),
            ("scrollTop"@, ov(c.scroll_top)),
            ("slot"@, ov(c.slot)),
            ("stroke"@, ov(c.stroke)),
            ("style"@, ov(c.style)),
            ("tabIndex"@, ov_i32(c.tab_index)),
            ("textLength"@, ov(c.text_length)),
            ("x"@, ov(c.x)),
            ("y"@, ov(c.y)),
        ],
    }
}

/// The rendered text of a `text` element.
pub open spec fn spec_render_text(c: Text) -> Seq<char>
    decreases c,
{
    elem_text(text_model(c), c.children@.len() > 0, spec_render_children(c.children@))
}

impl Text {
    /// A `text` with every attribute unset and no children.
    pub fn new() -> (r: Self)
        ensures
            r.autofocus is None,
            r.class_name is None,
            r.dx is None,
            r.dy is None,
            r.element_timing is None,
            r.fill is None,
            r.font_family is None,
            r.font_size is None,
            r.font_size_adjust is None,
            r.id is None,
            r.inner_html is None,
            r.length_adjust is None,
            r.nonce is None,
            r.outer_html is None,
            r.rotate is None,
            r.scroll_left is None,
            r.scroll_top is None,
            r.slot is None,
            r.stroke is None,
            r.style is None,
            r.tab_index is None,
            r.text_length is None,
            r.x is None,
            r.y is None,
            r.children@ == Seq::<Shape>::empty(),
    {
        Text {
            autofocus: None,
            class_name: None,
            dx: None,
            dy: None,
            element_timing: None,
            fill: None,
            font_family: None,
            font_size: None,
            font_size_adjust: None,
            id: None,
            inner_html: None,
            length_adjust: None,
            nonce: None,
            outer_html: None,
            rotate: None,
            scroll_left: None,
            scroll_top: None,
            slot: None,
            stroke: None,
            style: None,
            tab_index: None,
            text_length: None,
            x: None,
            y: None,
            children: Vec::new(),
        }
    }

    /// Sets the `autofocus` attribute.
    pub fn autofocus(self, value: bool) -> (r: Self)
        ensures
            r == (Text { autofocus: Some(value), ..self }),
    {
        let mut s = self;
        s.autofocus = Some(value);
        s
    }

    /// Sets the `className` attribute.
    pub fn class_name(self, value: String) -> (r: Self)
        ensures
            r == (Text { class_name: Some(value), ..self }),
    {
        let mut s = self;
        s.class_name = Some(value);
        s
    }

    /// Sets the `dx` attribute.
    pub fn dx(self, value: String) -> (r: Self)
        ensures
            r == (Text { dx: Some(value), ..self }),
    {
        let mut s = self;
        s.dx = Some(value);
        s
    }

    /// Sets the `dy` attribute.
    pub fn dy(self, value: String) -> (r: Self)
        ensures
            r == (Text { dy: Some(value), ..self }),
    {
        let mut s = self;
        s.dy = Some(value);
        s
    }

    /// Sets the `elementTiming` attribute.
    pub fn element_timing(self, value: String) -> (r: Self)
        ensures
            r == (Text { element_timing: Some(value), ..self }),
    {
        let mut s = self;
        s.element_timing = Some(value);
        s
    }

    /// Sets the `fill` attribute.
    pub fn fill(self, value: String) -> (r: Self)
        ensures
            r == (Text { fill: Some(value), ..self }),
    {
        let mut s = self;
        s.fill = Some(value);
        s
    }

    /// Sets the `font-family` attribute.
    pub fn font_family(self, value: String) -> (r: Self)
        ensures
            r == (Text { font_family: Some(value), ..self }),
    {
        let mut s = self;
        s.font_family = Some(value);
        s
    }

    /// Sets the `font-size` attribute.
    pub fn font_size(self, value: String) -> (r: Self)
        ensures
            r == (Text { font_size: Some(value), ..self }),
    {
        let mut s = self;
        s.font_size = Some(value);
        s
    }

    /// Sets the `font-size-adjust` attribute.
    pub fn font_size_adjust(self, value: String) -> (r: Self)
        ensures
            r == (Text { font_size_adjust: Some(value), ..self }),
    {
        let mut s = self;
        s.font_size_adjust = Some(value);
        s
    }

    /// Sets the `id` attribute.
    pub fn id(self, value: String) -> (r: Self)
        ensures
            r == (Text { id: Some(value), ..self }),
    {
        let mut s = self;
        s.id = Some(value);
        s
    }

    /// Sets the `innerHtml` attribute.
    pub fn inner_html(self, value: String) -> (r: Self)
        ensures
            r == (Text { inner_html: Some(value), ..self }),
    {
        let mut s = self;
        s.inner_html = Some(value);
        s
    }

    /// Sets the `lengthAdjust` attribute.
    pub fn length_adjust(self, value: String) -> (r: Self)
        ensures
            r == (Text { length_adjust: Some(value), ..self }),
    {
        let mut s = self;
        s.length_adjust = Some(value);
        s
    }

    /// Sets the `nonce` attribute.
    pub fn nonce(self, value: String) -> (r: Self)
        ensures
            r == (Text { nonce: Some(value), ..self }),
    {
        let mut s = self;
        s.nonce = Some(value);
        s
    }

    /// Sets the `outerHtml` attribute.
    pub fn outer_html(self, value: String) -> (r: Self)
        ensures
            r == (Text { outer_html: Some(value), ..self }),
    {
        let mut s = self;
        s.outer_html = Some(value);
        s
    }

    /// Sets the `rotate` attribute.
    pub fn rotate(self, value: String) -> (r: Self)
        ensures
            r == (Text { rotate: Some(value), ..self }),
    {
        let mut s = self;
        s.rotate = Some(value);
        s
    }

    /// Sets the `scrollLeft` attribute.
    pub fn scroll_left(self, value: String) -> (r: Self)
        ensures
            r == (Text { scroll_left: Some(value), ..self }),
    {
        let mut s = self;
        s.scroll_left = Some(value);
        s
    }

    /// Sets the `scrollTop` attribute.
    pub fn scroll_top(self, value: String) -> (r: Self)
        ensures
            r == (Text { scroll_top: Some(value), ..self }),
    {
        let mut s = self;
        s.scroll_top = Some(value);
        s
    }

    /// Sets the `slot` attribute.
    pub fn slot(self, value: String) -> (r: Self)
        ensures
            r == (Text { slot: Some(value), ..self }),
    {
        let mut s = self;
        s.slot = Some(value);
        s
    }

    /// Sets the `stroke` attribute.
    pub fn stroke(self, value: String) -> (r: Self)
        ensures
            r == (Text { stroke: Some(value), ..self }),
    {
        let mut s = self;
        s.stroke = Some(value);
        s
    }

    /// Sets the `style` attribute.
    pub fn style(self, value: String) -> (r: Self)
        ensures
            r == (Text { style: Some(value), ..self }),
    {
        let mut s = self;
        s.style = Some(value);
        s
    }

    /// Sets the `tabIndex` attribute.
    pub fn tab_index(self, value: i32) -> (r: Self)
        ensures
            r == (Text { tab_index: Some(value), ..self }),
    {
        let mut s = self;
        s.tab_index = Some(value);
        s
    }

    /// Sets the `textLength` attribute.
    pub fn text_length(self, value: String) -> (r: Self)
        ensures
            r == (Text { text_length: Some(value), ..self }),
    {
        let mut s = self;
        s.text_length = Some(value);
        s
    }

    /// Sets the `x` attribute.
    pub fn x(self, value: String) -> (r: Self)
        ensures
            r == (Text { x: Some(value), ..self }),
    {
        let mut s = self;
        s.x = Some(value);
        s
    }

    /// Sets the `y` attribute.
    pub fn y(self, value: String) -> (r: Self)
        ensures
            r == (Text { y: Some(value), ..self }),
    {
        let mut s = self;
        s.y = Some(value);
        s
    }

    /// Appends a child of the `AnimationElement` category.
    pub fn add_child_animation_element<T: AnimationElement>(self, child: T) -> (r: Self)
        ensures
            r.children@ == self.children@.push(child.shape_of()),
            r == (Text { children: r.children, ..self }),
    {
        let mut s = self;
        s.children.push(child.into_shape());
        s
    }

    /// Appends a child of the `DescriptiveElement` category.
    pub fn add_child_descriptive_element<T: DescriptiveElement>(self, child: T) -> (r: Self)
        ensures
            r.children@ == self.children@.push(child.shape_of()),
            r == (Text { children: r.children, ..self }),
    {
        let mut s = self;
        s.children.push(child.into_shape());
        s
    }

    /// Appends a child of the `TextContentChildElement` category.
    pub fn add_child_text_content_child_element<T: TextContentChildElement>(self, child: T) -> (r: Self)
        ensures
            r.children@ == self.children@.push(child.shape_of()),
            r == (Text { children: r.children, ..self }),
    {
        let mut s = self;
        s.children.push(child.into_shape());
        s
    }

    /// Appends a `A` child.
    pub fn add_child_a(self, child: A) -> (r: Self)
        ensures
            r.children@ == self.children@.push(Shape::A(child)),
            r == (Text { children: r.children, ..self }),
    {
        let mut s = self;
        s.children.push(Shape::A(child));
        s
    }

    /// Appends a `String` child.
    pub fn add_child_string(self, child: String) -> (r: Self)
        ensures
            r.children@ == self.children@.push(Shape::String(child)),
            r == (Text { children: r.children, ..self }),
    {
        let mut s = self;
        s.children.push(Shape::String(child));
        s
    }

    /// Renders the `text` element to markup text.
    #[verifier::loop_isolation(false)]
    pub fn render(&self) -> (out: String)
        ensures
            out@ == spec_render_text(*self),
        decreases *self,
    {
        let ghost m = text_model(*self);
        let mut out = String::new();
        out.append("<");
        out.append("text");
        proof {
            lemma_open_prefix_zero(m);
            assert(out@ =~= open_prefix(m, 0));
        }
        push_opt_bool_attr(&mut out, "autofocus", &self.autofocus);
        proof {
            lemma_open_prefix_step(m, 1);
            assert(out@ == open_prefix(m, 1));
        }
        push_opt_attr(&mut out, "className", &self.class_name);
        proof {
            lemma_open_prefix_step(m, 2);
            assert(out@ == open_prefix(m, 2));
        }
        push_opt_attr(&mut out, "dx", &self.dx);
        proof {
            lemma_open_prefix_step(m, 3);
            assert(out@ == open_prefix(m, 3));
        }
        push_opt_attr(&mut out, "dy", &self.dy);
        proof {
            lemma_open_prefix_step(m, 4);
            assert(out@ == open_prefix(m, 4));
        }
        push_opt_attr(&mut out, "elementTiming", &self.element_timing);
        proof {
            lemma_open_prefix_step(m, 5);
            assert(out@ == open_prefix(m, 5));
        }
        push_opt_attr(&mut out, "fill", &self.fill);
        proof {
            lemma_open_prefix_step(m, 6);
            assert(out@ == open_prefix(m, 6));
        }
        push_opt_attr(&mut out, "font-family", &self.font_family);
        proof {
            lemma_open_prefix_step(m, 7);
            assert(out@ == open_prefix(m, 7));
        }
        push_opt_attr(&mut out, "font-size", &self.font_size);
        proof {
            lemma_open_prefix_step(m, 8);
            assert(out@ == open_prefix(m, 8));
        }
        push_opt_attr(&mut out, "font-size-adjust", &self.font_size_adjust);
        proof {
            lemma_open_prefix_step(m, 9);
            assert(out@ == open_prefix(m, 9));
        }
        push_opt_attr(&mut out, "id", &self.id);
        proof {
            lemma_open_prefix_step(m, 10);
            assert(out@ == open_prefix(m, 10));
        }
        push_opt_attr(&mut out, "innerHtml", &self.inner_html);
        proof {
            lemma_open_prefix_step(m, 11);
            assert(out@ == open_prefix(m, 11));
        }
        push_opt_attr(&mut out, "lengthAdjust", &self.length_adjust);
        proof {
            lemma_open_prefix_step(m, 12);
            assert(out@ == open_prefix(m, 12));
        }
        push_opt_attr(&mut out, "nonce", &self.nonce);
        proof {
            lemma_open_prefix_step(m, 13);
            assert(out@ == open_prefix(m, 13));
        }
        push_opt_attr(&mut out, "outerHtml", &self.outer_html);
        proof {
            lemma_open_prefix_step(m, 14);
            assert(out@ == open_prefix(m, 14));
        }
        push_opt_attr(&mut out, "rotate", &self.rotate);
        proof {
            lemma_open_prefix_step(m, 15);
            assert(out@ == open_prefix(m, 15));
        }
        push_opt_attr(&mut out, "scrollLeft", &self.scroll_left);
        proof {
            lemma_open_prefix_step(m, 16);
            assert(out@ == open_prefix(m, 16));
        }
        push_opt_attr(&mut out, "scrollTop", &self.scroll_top);
        proof {
            lemma_open_prefix_step(m, 17);
            assert(out@ == open_prefix(m, 17));
        }
        push_opt_attr(&mut out, "slot", &self.slot);
        proof {
            lemma_open_prefix_step(m, 18);
            assert(out@ == open_prefix(m, 18));
        }
        push_opt_attr(&mut out, "stroke", &self.stroke);
        proof {
            lemma_open_prefix_step(m, 19);
            assert(out@ == open_prefix(m, 19));
        }
        push_opt_attr(&mut out, "style", &self.style);
        proof {
            lemma_open_prefix_step(m, 20);
            assert(out@ == open_prefix(m, 20));
        }
        push_opt_i32_attr(&mut out, "tabIndex", &self.tab_index);
        proof {
            lemma_open_prefix_step(m, 21);
            assert(out@ == open_prefix(m, 21));
        }
        push_opt_attr(&mut out, "textLength", &self.text_length);
        proof {
            lemma_open_prefix_step(m, 22);
            assert(out@ == open_prefix(m, 22));
        }
        push_opt_attr(&mut out, "x", &self.x);
        proof {
            lemma_open_prefix_step(m, 23);
            assert(out@ == open_prefix(m, 23));
        }
        push_opt_attr(&mut out, "y", &self.y);
        proof {
            lemma_open_prefix_step(m, 24);
            assert(out@ == open_prefix(m, 24));
        }
        proof {
            lemma_open_prefix_full(m);
            assert(out@ == open_text(m));
        }
        if self.children.len() == 0 {
            out.append("/>");
            proof {
                assert(out@ == spec_render_text(*self));
            }
            return out;
        }
        out.append(">");
        proof {
            lemma_body_prefix_zero(m, self.children@);
            assert(out@ == body_prefix(m, self.children@, 0));
        }
        let n = self.children.len();
        let mut j: usize = 0;
        while j < n
            invariant
                j <= n,
                out@ == body_prefix(m, self.children@, j as int),
            decreases n - j,
        {
            let child = &self.children[j];
            let t = child.render();
            out.append(t.as_str());
            proof {
                lemma_body_prefix_step(m, self.children@, j as int + 1);
                assert(out@ == body_prefix(m, self.children@, j as int + 1));
            }
            j = j + 1;
        }
        proof {
            lemma_body_prefix_full(m, self.children@);
        }
        out.append("</");
        out.append("text");
        out.append(">");
        proof {
            assert(out@ == spec_render_text(*self));
        }
        out
    }
}

impl Clone for Text {
    /// The clone renders to the same text.
    fn clone(&self) -> (r: Self)
        ensures
            spec_render_text(r) == spec_render_text(*self),
        decreases *self,
    {
        let r = Text {
            autofocus: self.autofocus,
            class_name: clone_opt_string(&self.class_name),
            dx: clone_opt_string(&self.dx),
            dy: clone_opt_string(&self.dy),
            element_timing: clone_opt_string(&self.element_timing),
            fill: clone_opt_string(&self.fill),
            font_family: clone_opt_string(&self.font_family),
            font_size: clone_opt_string(&self.font_size),
            font_size_adjust: clone_opt_string(&self.font_size_adjust),
            id: clone_opt_string(&self.id),
            inner_html: clone_opt_string(&self.inner_html),
            length_adjust: clone_opt_string(&self.length_adjust),
            nonce: clone_opt_string(&self.nonce),
            outer_html: clone_opt_string(&self.outer_html),
            rotate: clone_opt_string(&self.rotate),
            scroll_left: clone_opt_string(&self.scroll_left),
            scroll_top: clone_opt_string(&self.scroll_top),
            slot: clone_opt_string(&self.slot),
            stroke: clone_opt_string(&self.stroke),
            style: clone_opt_string(&self.style),
            tab_index: self.tab_index,
            text_length: clone_opt_string(&self.text_length),
            x: clone_opt_string(&self.x),
            y: clone_opt_string(&self.y),
            children: clone_children(&self.children),
        };
        proof {
            lemma_render_children_congruent(r.children@, self.children@);
            assert(text_model(r).opt =~= text_model(*self).opt);
            assert(text_model(r).ctor =~= text_model(*self).ctor);
            assert(text_model(r) == text_model(*self));
            assert(spec_render_text(r) == spec_render_text(*self));
        }
        r
    }
}

impl IntoShape for Text {
    open spec fn shape_of(self) -> Shape {
        Shape::Text(self)
    }

    fn into_shape(self) -> (s: Shape) {
        Shape::Text(self)
    }
}

impl TextContentElement for Text {

}

impl RenderableElement for Text {

}

impl Default for Text {
    /// The same value `new` builds.
    fn default() -> (r: Self)
        ensures
            r.autofocus is None,
            r.class_name is None,
            r.dx is None,
            r.dy is None,
            r.element_timing is None,
            r.fill is None,
            r.font_family is None,
            r.font_size is None,
            r.font_size_adjust is None,
            r.id is None,
            r.inner_html is None,
            r.length_adjust is None,
            r.nonce is None,
            r.outer_html is None,
            r.rotate is None,
            r.scroll_left is None,
            r.scroll_top is None,
            r.slot is None,
            r.stroke is None,
            r.style is None,
            r.tab_index is None,
            r.text_length is None,
            r.x is None,
            r.y is None,
            r.children@ == Seq::<Shape>::empty(),
    {
        Self::new()
    }
}

} // verus!
