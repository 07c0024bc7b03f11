//! The closed union over all elements plus a raw-text variant, its renderer,
//! and the capability categories that group elements for child acceptance.

use vstd::prelude::*;

use crate::attrs::ElemModel;
use crate::attrs::open_text;
use crate::a::A;
use crate::circle::Circle;
use crate::defs::Defs;
use crate::desc::Desc;
use crate::ellipse::Ellipse;
use crate::line::Line;
use crate::path_element::PathElement;
use crate::rect::Rect;
use crate::svg::Svg;
use crate::text::Text;

verus! {

/// The closed union: one variant per element, plus raw text.
#[derive(Debug)]
pub enum Shape {
    A(A),
    Circle(Circle),
    Defs(Defs),
    Desc(Desc),
    Ellipse(Ellipse),
    Line(Line),
    PathElement(PathElement),
    Rect(Rect),
    Svg(Svg),
    Text(Text),
    String(String),
}

/// The rendered text of one union value.
pub open spec fn spec_render_shape(s: Shape) -> Seq<char>
    decreases s,
{
    match s {
        Shape::A(e) => crate::a::spec_render_a(e),
        Shape::Circle(e) => crate::circle::spec_render_circle(e),
        Shape::Defs(e) => crate::defs::spec_render_defs(e),
        Shape::Desc(e) => crate::desc::spec_render_desc(e),
        Shape::Ellipse(e) => crate::ellipse::spec_render_ellipse(e),
        Shape::Line(e) => crate::line::spec_render_line(e),
        Shape::PathElement(e) => crate::path_element::spec_render_path_element(e),
        Shape::Rect(e) => crate::rect::spec_render_rect(e),
        Shape::Svg(e) => crate::svg::spec_render_svg(e),
        Shape::Text(e) => crate::text::spec_render_text(e),
        Shape::String(t) => t@,
    }
}

/// The concatenated rendered text of a children sequence, in order.
pub open spec fn spec_render_children(s: Seq<Shape>) -> Seq<char>
    decreases s,
{
    if s.len() == 0 {
        Seq::empty()
    } else {
        spec_render_children(s.drop_last()) + spec_render_shape(s.last())
    }
}

/// Appending one child appends exactly its rendered text.
pub proof fn lemma_children_take_step(s: Seq<Shape>, k: int)
    requires
        0 < k <= s.len(),
    ensures
        spec_render_children(s.take(k)) == spec_render_children(s.take(k - 1))
            + spec_render_shape(s[k - 1]),
{
    assert(s.take(k).drop_last() =~= s.take(k - 1));
    assert(s.take(k).last() == s[k - 1]);
}

/// The element text emitted once the opening tag is closed and the first
/// `j` children have been rendered.
pub open spec fn body_prefix(m: ElemModel, children: Seq<Shape>, j: int) -> Seq<char> {
    open_text(m) + ">"@ + spec_render_children(children.take(j))
}

/// Before any child, the emitted text is the closed opening tag alone.
pub proof fn lemma_body_prefix_zero(m: ElemModel, children: Seq<Shape>)
    ensures
        body_prefix(m, children, 0) == open_text(m) + ">"@,
{
    assert(children.take(0) =~= Seq::<Shape>::empty());
    assert(body_prefix(m, children, 0) =~= open_text(m) + ">"@);
}

/// Rendering child `j - 1` extends the text by exactly its rendering.
pub proof fn lemma_body_prefix_step(m: ElemModel, children: Seq<Shape>, j: int)
    requires
        0 < j <= children.len(),
    ensures
        body_prefix(m, children, j) == body_prefix(m, children, j - 1) + spec_render_shape(
            children[j - 1],
        ),
{
    lemma_children_take_step(children, j);
    vstd::seq_lib::lemma_concat_associative(
        open_text(m) + ">"@,
        spec_render_children(children.take(j - 1)),
        spec_render_shape(children[j - 1]),
    );
}

/// After the last child, the emitted text holds every child in order.
pub proof fn lemma_body_prefix_full(m: ElemModel, children: Seq<Shape>)
    ensures
        body_prefix(m, children, children.len() as int) == open_text(m) + ">"@
            + spec_render_children(children),
{
    assert(children.take(children.len() as int) =~= children);
}

impl Shape {
    /// Renders the union value: dispatches to the contained element's own
    /// renderer, or returns raw text verbatim.
    pub fn render(&self) -> (r: String)
        ensures
            r@ == spec_render_shape(*self),
        decreases *self,
    {
        match self {
            Shape::A(e) => e.render(),
            Shape::Circle(e) => e.render(),
            Shape::Defs(e) => e.render(),
            Shape::Desc(e) => e.render(),
            Shape::Ellipse(e) => e.render(),
            Shape::Line(e) => e.render(),
            Shape::PathElement(e) => e.render(),
            Shape::Rect(e) => e.render(),
            Shape::Svg(e) => e.render(),
            Shape::Text(e) => e.render(),
            Shape::String(t) => t.clone(),
        }
    }
}

/// Children that render alike make the whole children text alike.
pub proof fn lemma_render_children_congruent(a: Seq<Shape>, b: Seq<Shape>)
    requires
        a.len() == b.len(),
        forall|j: int|
            0 <= j < a.len() ==> spec_render_shape(#[trigger] a[j]) == spec_render_shape(b[j]),
    ensures
        spec_render_children(a) == spec_render_children(b),
    decreases a.len(),
{
    if a.len() > 0 {
        assert forall|j: int|
            0 <= j < a.drop_last().len() implies spec_render_shape(
            #[trigger] a.drop_last()[j],
        ) == spec_render_shape(b.drop_last()[j]) by {
            assert(a.drop_last()[j] == a[j]);
            assert(b.drop_last()[j] == b[j]);
        }
        lemma_render_children_congruent(a.drop_last(), b.drop_last());
        assert(spec_render_shape(a.last()) == spec_render_shape(b.last()));
    }
}

/// Clones a children list; every clone renders to the same text.
pub fn clone_children(children: &Vec<Shape>) -> (r: Vec<Shape>)
    ensures
        r@.len() == children@.len(),
        forall|j: int|
            0 <= j < children@.len() ==> spec_render_shape(#[trigger] r@[j])
                == spec_render_shape(children@[j]),
    decreases *children,
{
    let mut out: Vec<Shape> = Vec::new();
    let n = children.len();
    let mut j: usize = 0;
    #[verifier::loop_isolation(false)]
    while j < n
        invariant
            j <= n,
            out@.len() == j,
            forall|k: int|
                0 <= k < j ==> spec_render_shape(#[trigger] out@[k]) == spec_render_shape(
                    children@[k],
                ),
        decreases n - j,
    {
        let c = children[j].clone();
        out.push(c);
        j = j + 1;
    }
    out
}

impl Clone for Shape {
    /// The clone renders to the same text.
    fn clone(&self) -> (r: Self)
        ensures
            spec_render_shape(r) == spec_render_shape(*self),
        decreases *self,
    {
        match self {
            Shape::A(e) => Shape::A(e.clone()),
            Shape::Circle(e) => Shape::Circle(e.clone()),
            Shape::Defs(e) => Shape::Defs(e.clone()),
            Shape::Desc(e) => Shape::Desc(e.clone()),
            Shape::Ellipse(e) => Shape::Ellipse(e.clone()),
            Shape::Line(e) => Shape::Line(e.clone()),
            Shape::PathElement(e) => Shape::PathElement(e.clone()),
            Shape::Rect(e) => Shape::Rect(e.clone()),
            Shape::Svg(e) => Shape::Svg(e.clone()),
            Shape::Text(e) => Shape::Text(e.clone()),
            Shape::String(t) => Shape::String(t.clone()),
        }
    }
}

/// Conversion into the closed union, required of every element category.
pub trait IntoShape: Sized + Clone {
    /// The union value this element wraps into.
    spec fn shape_of(self) -> Shape;

    /// Wraps the element into the union.
    fn into_shape(self) -> (s: Shape)
        ensures
            s == self.shape_of(),
    ;
}

impl IntoShape for String {
    open spec fn shape_of(self) -> Shape {
        Shape::String(self)
    }

    fn into_shape(self) -> (s: Shape) {
        Shape::String(self)
    }
}

pub trait AnimationElement: IntoShape {

}

pub trait BasicShape: IntoShape {

}

pub trait ContainerElement: IntoShape {

}

pub trait DescriptiveElement: IntoShape {

}

pub trait FilterPrimitiveElement: IntoShape {

}

pub trait GradientElement: IntoShape {

}

pub trait GraphicsElement: IntoShape {

}

pub trait GraphicsReferencingElement: IntoShape {

}

pub trait LightSourceElement: IntoShape {

}

pub trait NeverRenderedElement: IntoShape {

}

pub trait PaintServerElement: IntoShape {

}

pub trait RenderableElement: IntoShape {

}

pub trait ShapeElement: IntoShape {

}

pub trait StructuralElement: IntoShape {

}

pub trait TextContentChildElement: IntoShape {

}

pub trait TextContentElement: IntoShape {

}

pub trait UncategorizedElement: IntoShape {

}

} // verus!
