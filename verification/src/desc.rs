//! The `desc` element.

use vstd::prelude::*;

use crate::attrs::ElemModel;
use crate::attrs::elem_text;
use crate::attrs::open_text;
use crate::attrs::open_prefix;
use crate::attrs::lemma_open_prefix_zero;
use crate::attrs::lemma_open_prefix_step;
use crate::attrs::lemma_open_prefix_full;
use crate::attrs::ov;
use crate::attrs::ov_bool;
use crate::attrs::ov_i32;
use crate::attrs::push_opt_attr;
use crate::attrs::push_opt_bool_attr;
use crate::attrs::push_opt_i32_attr;
use crate::shape::Shape;
use crate::shape::IntoShape;
use crate::shape::AnimationElement;
use crate::shape::BasicShape;
use crate::shape::ContainerElement;
use crate::shape::DescriptiveElement;
use crate::shape::FilterPrimitiveElement;
use crate::shape::GradientElement;
use crate::shape::GraphicsElement;
use crate::shape::GraphicsReferencingElement;
use crate::shape::LightSourceElement;
use crate::shape::NeverRenderedElement;
use crate::shape::PaintServerElement;
use crate::shape::RenderableElement;
use crate::shape::ShapeElement;
use crate::shape::StructuralElement;
use crate::shape::TextContentChildElement;
use crate::shape::TextContentElement;
use crate::shape::UncategorizedElement;
use crate::attrs::clone_opt_string;
use crate::shape::clone_children;
use crate::shape::lemma_render_children_congruent;
use crate::shape::spec_render_children;
use crate::shape::body_prefix;
use crate::shape::lemma_body_prefix_zero;
use crate::shape::lemma_body_prefix_step;
use crate::shape::lemma_body_prefix_full;

verus! {

/// The `desc` element; attribute values hold the text they render to.
#[derive(Debug)]
pub struct Desc {
    pub autofocus: Option<bool>,
    pub class_name: Option<String>,
    pub element_timing: Option<String>,
    pub id: Option<String>,
    pub inner_html: Option<String>,
    pub nonce: Option<String>,
    pub outer_html: Option<String>,
    pub scroll_left: Option<String>,
    pub scroll_top: Option<String>,
    pub slot: Option<String>,
    pub style: Option<String>,
    pub tab_index: Option<i32>,
    pub children: Vec<Shape>,
}

/// The markup model of a `desc`: its wire names in field order.
pub open spec fn desc_model(c: Desc) -> ElemModel {
    ElemModel {
        tag: "desc"@,
        ctor: Seq::empty(),
        opt: seq![
            ("autofocus"@, ov_bool(c.autofocus)),
            ("className"@, ov(c.class_name)),
            ("elementTiming"@, ov(c.element_timing)),
            ("id"@, ov(c.id)),
            ("innerHtml"@, ov(c.inner_html)),
            ("nonce"@, ov(c.nonce)),
            ("outerHtml"@, ov(c.outer_html)),
            ("scrollLeft"@, ov(c.scroll_left)),
            ("scrollTop"@, ov(c.scroll_top)),
            ("slot"@, ov(c.slot)),
            ("style"@, ov(c.style)),
            ("tabIndex"@, ov_i32(c.tab_index)),
        ],
    }
}

/// The rendered text of a `desc` element.
pub open spec fn spec_render_desc(c: Desc) -> Seq<char>
    decreases c,
{
    elem_text(desc_model(c), c.children@.len() > 0, spec_render_children(c.children@))
}

impl Desc {
    /// A `desc` with every attribute unset and no children.
    pub fn new() -> (r: Self)
        ensures
            r.autofocus is None,
            r.class_name is None,
            r.element_timing is None,
            r.id is None,
            r.inner_html is None,
            r.nonce is None,
            r.outer_html is None,
            r.scroll_left is None,
            r.scroll_top is None,
            r.slot is None,
            r.style is None,
            r.tab_index is None,
            r.children@ == Seq::<Shape>::empty(),
    {
        Desc {
            autofocus: None,
            class_name: None,
            element_timing: None,
            id: None,
            inner_html: None,
            nonce: None,
            outer_html: None,
            scroll_left: None,
            scroll_top: None,
            slot: None,
            style: None,
            tab_index: None,
            children: Vec::new(),
        }
    }

    /// Sets the `autofocus` attribute.
    pub fn autofocus(self, value: bool) -> (r: Self)
        ensures
            r == (Desc { autofocus: Some(value), ..self }),
    {
        let mut s = self;
        s.autofocus = Some(value);
        s
    }

    /// Sets the `className` attribute.
    pub fn class_name(self, value: String) -> (r: Self)
        ensures
            r == (Desc { class_name: Some(value), ..self }),
    {
        let mut s = self;
        s.class_name = Some(value);
        s
    }

    /// Sets the `elementTiming` attribute.
    pub fn element_timing(self, value: String) -> (r: Self)
        ensures
            r == (Desc { element_timing: Some(value), ..self }),
    {
        let mut s = self;
        s.element_timing = Some(value);
        s
    }

    /// Sets the `id` attribute.
    pub fn id(self, value: String) -> (r: Self)
        ensures
            r == (Desc { id: Some(value), ..self }),
    {
        let mut s = self;
        s.id = Some(value);
        s
    }

    /// Sets the `innerHtml` attribute.
    pub fn inner_html(self, value: String) -> (r: Self)
        ensures
            r == (Desc { inner_html: Some(value), ..self }),
    {
        let mut s = self;
        s.inner_html = Some(value);
        s
    }

    /// Sets the `nonce` attribute.
    pub fn nonce(self, value: String) -> (r: Self)
        ensures
            r == (Desc { nonce: Some(value), ..self }),
    {
        let mut s = self;
        s.nonce = Some(value);
        s
    }

    /// Sets the `outerHtml` attribute.
    pub fn outer_html(self, value: String) -> (r: Self)
        ensures
            r == (Desc { outer_html: Some(value), ..self }),
    {
        let mut s = self;
        s.outer_html = Some(value);
        s
    }

    /// Sets the `scrollLeft` attribute.
    pub fn scroll_left(self, value: String) -> (r: Self)
        ensures
            r == (Desc { scroll_left: Some(value), ..self }),
    {
        let mut s = self;
        s.scroll_left = Some(value);
        s
    }

    /// Sets the `scrollTop` attribute.
    pub fn scroll_top(self, value: String) -> (r: Self)
        ensures
            r == (Desc { scroll_top: Some(value), ..self }),
    {
        let mut s = self;
        s.scroll_top = Some(value);
        s
    }

    /// Sets the `slot` attribute.
    pub fn slot(self, value: String) -> (r: Self)
        ensures
            r == (Desc { slot: Some(value), ..self }),
    {
        let mut s = self;
        s.slot = Some(value);
        s
    }

    /// Sets the `style` attribute.
    pub fn style(self, value: String) -> (r: Self)
        ensures
            r == (Desc { style: Some(value), ..self }),
    {
        let mut s = self;
        s.style = Some(value);
        s
    }

    /// Sets the `tabIndex` attribute.
    pub fn tab_index(self, value: i32) -> (r: Self)
        ensures
            r == (Desc { tab_index: Some(value), ..self }),
    {
        let mut s = self;
        s.tab_index = Some(value);
        s
    }

    /// Appends a child of the `AnimationElement` category.
    pub fn add_child_animation_element<T: AnimationElement>(self, child: T) -> (r: Self)
        ensures
            r.children@ == self.children@.push(child.shape_of()),
            r == (Desc { children: r.children, ..self }),
    {
        let mut s = self;
        s.children.push(child.into_shape());
        s
    }

    /// Appends a child of the `BasicShape` category.
    pub fn add_child_basic_shape<T: BasicShape>(self, child: T) -> (r: Self)
        ensures
            r.children@ == self.children@.push(child.shape_of()),
            r == (Desc { children: r.children, ..self }),
    {
        let mut s = self;
        s.children.push(child.into_shape());
        s
    }

    /// Appends a child of the `ContainerElement` category.
    pub fn add_child_container_element<T: ContainerElement>(self, child: T) -> (r: Self)
        ensures
            r.children@ == self.children@.push(child.shape_of()),
            r == (Desc { children: r.children, ..self }),
    {
        let mut s = self;
        s.children.push(child.into_shape());
        s
    }

    /// Appends a child of the `DescriptiveElement` category.
    pub fn add_child_descriptive_element<T: DescriptiveElement>(self, child: T) -> (r: Self)
        ensures
            r.children@ == self.children@.push(child.shape_of()),
            r == (Desc { children: r.children, ..self }),
    {
        let mut s = self;
        s.children.push(child.into_shape());
        s
    }

    /// Appends a child of the `FilterPrimitiveElement` category.
    pub fn add_child_filter_primitive_element<T: FilterPrimitiveElement>(self, child: T) -> (r: Self)
        ensures
            r.children@ == self.children@.push(child.shape_of()),
            r == (Desc { children: r.children, ..self }),
    {
        let mut s = self;
        s.children.push(child.into_shape());
        s
    }

    /// Appends a child of the `GradientElement` category.
    pub fn add_child_gradient_element<T: GradientElement>(self, child: T) -> (r: Self)
        ensures
            r.children@ == self.children@.push(child.shape_of()),
            r == (Desc { children: r.children, ..self }),
    {
        let mut s = self;
        s.children.push(child.into_shape());
        s
    }

    /// Appends a child of the `GraphicsElement` category.
    pub fn add_child_graphics_element<T: GraphicsElement>(self, child: T) -> (r: Self)
        ensures
            r.children@ == self.children@.push(child.shape_of()),
            r == (Desc { children: r.children, ..self }),
    {
        let mut s = self;
        s.children.push(child.into_shape());
        s
    }

    /// Appends a child of the `GraphicsReferencingElement` category.
    pub fn add_child_graphics_referencing_element<T: GraphicsReferencingElement>(self, child: T) -> (r: Self)
        ensures
            r.children@ == self.children@.push(child.shape_of()),
            r == (Desc { children: r.children, ..self }),
    {
        let mut s = self;
        s.children.push(child.into_shape());
        s
    }

    /// Appends a child of the `LightSourceElement` category.
    pub fn add_child_light_source_element<T: LightSourceElement>(self, child: T) -> (r: Self)
        ensures
            r.children@ == self.children@.push(child.shape_of()),
            r == (Desc { children: r.children, ..self }),
    {
        let mut s = self;
        s.children.push(child.into_shape());
        s
    }

    /// Appends a child of the `NeverRenderedElement` category.
    pub fn add_child_never_rendered_element<T: NeverRenderedElement>(self, child: T) -> (r: Self)
        ensures
            r.children@ == self.children@.push(child.shape_of()),
            r == (Desc { children: r.children, ..self }),
    {
        let mut s = self;
        s.children.push(child.into_shape());
        s
    }

    /// Appends a child of the `PaintServerElement` category.
    pub fn add_child_paint_server_element<T: PaintServerElement>(self, child: T) -> (r: Self)
        ensures
            r.children@ == self.children@.push(child.shape_of()),
            r == (Desc { children: r.children, ..self }),
    {
        let mut s = self;
        s.children.push(child.into_shape());
        s
    }

    /// Appends a child of the `RenderableElement` category.
    pub fn add_child_renderable_element<T: RenderableElement>(self, child: T) -> (r: Self)
        ensures
            r.children@ == self.children@.push(child.shape_of()),
            r == (Desc { children: r.children, ..self }),
    {
        let mut s = self;
        s.children.push(child.into_shape());
        s
    }

    /// Appends a child of the `ShapeElement` category.
    pub fn add_child_shape_element<T: ShapeElement>(self, child: T) -> (r: Self)
        ensures
            r.children@ == self.children@.push(child.shape_of()),
            r == (Desc { children: r.children, ..self }),
    {
        let mut s = self;
        s.children.push(child.into_shape());
        s
    }

    /// Appends a child of the `StructuralElement` category.
    pub fn add_child_structural_element<T: StructuralElement>(self, child: T) -> (r: Self)
        ensures
            r.children@ == self.children@.push(child.shape_of()),
            r == (Desc { children: r.children, ..self }),
    {
        let mut s = self;
        s.children.push(child.into_shape());
        s
    }

    /// Appends a child of the `TextContentElement` category.
    pub fn add_child_text_content_element<T: TextContentElement>(self, child: T) -> (r: Self)
        ensures
            r.children@ == self.children@.push(child.shape_of()),
            r == (Desc { children: r.children, ..self }),
    {
        let mut s = self;
        s.children.push(child.into_shape());
        s
    }

    /// Appends a child of the `TextContentChildElement` category.
    pub fn add_child_text_content_child_element<T: TextContentChildElement>(self, child: T) -> (r: Self)
        ensures
            r.children@ == self.children@.push(child.shape_of()),
            r == (Desc { children: r.children, ..self }),
    {
        let mut s = self;
        s.children.push(child.into_shape());
        s
    }

    /// Appends a child of the `UncategorizedElement` category.
    pub fn add_child_uncategorized_element<T: UncategorizedElement>(self, child: T) -> (r: Self)
        ensures
            r.children@ == self.children@.push(child.shape_of()),
            r == (Desc { children: r.children, ..self }),
    {
        let mut s = self;
        s.children.push(child.into_shape());
        s
    }

    /// Renders the `desc` element to markup text.
    #[verifier::loop_isolation(false)]
    pub fn render(&self) -> (out: String)
        ensures
            out@ == spec_render_desc(*self),
        decreases *self,
    {
        let ghost m = desc_model(*self);
        let mut out = String::new();
        out.append("<");
        out.append("desc");
        proof {
            lemma_open_prefix_zero(m);
            assert(out@ =~= open_prefix(m, 0));
        }
        push_opt_bool_attr(&mut out, "autofocus", &self.autofocus);
        proof {
            lemma_open_prefix_step(m, 1);
            assert(out@ == open_prefix(m, 1));
        }
        push_opt_attr(&mut out, "className", &self.class_name);
        proof {
            lemma_open_prefix_step(m, 2);
            assert(out@ == open_prefix(m, 2));
        }
        push_opt_attr(&mut out, "elementTiming", &self.element_timing);
        proof {
            lemma_open_prefix_step(m, 3);
            assert(out@ == open_prefix(m, 3));
        }
        push_opt_attr(&mut out, "id", &self.id);
        proof {
            lemma_open_prefix_step(m, 4);
            assert(out@ == open_prefix(m, 4));
        }
        push_opt_attr(&mut out, "innerHtml", &self.inner_html);
        proof {
            lemma_open_prefix_step(m, 5);
            assert(out@ == open_prefix(m, 5));
        }
        push_opt_attr(&mut out, "nonce", &self.nonce);
        proof {
            lemma_open_prefix_step(m, 6);
            assert(out@ == open_prefix(m, 6));
        }
        push_opt_attr(&mut out, "outerHtml", &self.outer_html);
        proof {
            lemma_open_prefix_step(m, 7);
            assert(out@ == open_prefix(m, 7));
        }
        push_opt_attr(&mut out, "scrollLeft", &self.scroll_left);
        proof {
            lemma_open_prefix_step(m, 8);
            assert(out@ == open_prefix(m, 8));
        }
        push_opt_attr(&mut out, "scrollTop", &self.scroll_top);
        proof {
            lemma_open_prefix_step(m, 9);
            assert(out@ == open_prefix(m, 9));
        }
        push_opt_attr(&mut out, "slot", &self.slot);
        proof {
            lemma_open_prefix_step(m, 10);
            assert(out@ == open_prefix(m, 10));
        }
        push_opt_attr(&mut out, "style", &self.style);
        proof {
            lemma_open_prefix_step(m, 11);
            assert(out@ == open_prefix(m, 11));
        }
        push_opt_i32_attr(&mut out, "tabIndex", &self.tab_index);
        proof {
            lemma_open_prefix_step(m, 12);
            assert(out@ == open_prefix(m, 12));
        }
        proof {
            lemma_open_prefix_full(m);
            assert(out@ == open_text(m));
        }
        if self.children.len() == 0 {
            out.append("/>");
            proof {
                assert(out@ == spec_render_desc(*self));
            }
            return out;
        }
        out.append(">");
        proof {
            lemma_body_prefix_zero(m, self.children@);
            assert(out@ == body_prefix(m, self.children@, 0));
        }
        let n = self.children.len();
        let mut j: usize = 0;
        while j < n
            invariant
                j <= n,
                out@ == body_prefix(m, self.children@, j as int),
            decreases n - j,
        {
            let child = &self.children[j];
            let t = child.render();
            out.append(t.as_str());
            proof {
                lemma_body_prefix_step(m, self.children@, j as int + 1);
                assert(out@ == body_prefix(m, self.children@, j as int + 1));
            }
            j = j + 1;
        }
        proof {
            lemma_body_prefix_full(m, self.children@);
        }
        out.append("</");
        out.append("desc");
        out.append(">");
        proof {
            assert(out@ == spec_render_desc(*self));
        }
        out
    }
}

impl Clone for Desc {
    /// The clone renders to the same text.
    fn clone(&self) -> (r: Self)
        ensures
            spec_render_desc(r) == spec_render_desc(*self),
        decreases *self,
    {
        let r = Desc {
            autofocus: self.autofocus,
            class_name: clone_opt_string(&self.class_name),
            element_timing: clone_opt_string(&self.element_timing),
            id: clone_opt_string(&self.id),
            inner_html: clone_opt_string(&self.inner_html),
            nonce: clone_opt_string(&self.nonce),
            outer_html: clone_opt_string(&self.outer_html),
            scroll_left: clone_opt_string(&self.scroll_left),
            scroll_top: clone_opt_string(&self.scroll_top),
            slot: clone_opt_string(&self.slot),
            style: clone_opt_string(&self.style),
            tab_index: self.tab_index,
            children: clone_children(&self.children),
        };
        proof {
            lemma_render_children_congruent(r.children@, self.children@);
            assert(desc_model(r).opt =~= desc_model(*self).opt);
            assert(desc_model(r).ctor =~= desc_model(*self).ctor);
            assert(desc_model(r) == desc_model(*self));
            assert(spec_render_desc(r) == spec_render_desc(*self));
        }
        r
    }
}

impl IntoShape for Desc {
    open spec fn shape_of(self) -> Shape {
        Shape::Desc(self)
    }

    fn into_shape(self) -> (s: Shape) {
        Shape::Desc(self)
    }
}

impl DescriptiveElement for Desc {

}

impl Default for Desc {
    /// The same value `new` builds.
    fn default() -> (r: Self)
        ensures
            r.autofocus is None,
            r.class_name is None,
            r.element_timing is None,
            r.id is None,
            r.inner_html is None,
            r.nonce is None,
            r.outer_html is None,
            r.scroll_left is None,
            r.scroll_top is None,
            r.slot is None,
            r.style is None,
            r.tab_index is None,
            r.children@ == Seq::<Shape>::empty(),
    {
        Self::new()
    }
}

} // verus!
