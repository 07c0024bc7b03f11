//! The laws of the rendered form, stated over the element models:
//! self-closing behaviour, omission and single inclusion of optional
//! attributes, and preservation of child order.

use vstd::prelude::*;

use crate::attrs::attr_frag;
use crate::attrs::open_text;
use crate::attrs::opt_attrs_text;
use crate::attrs::lemma_self_closing;
use crate::attrs::lemma_set_row_included;
use crate::attrs::lemma_unset_row_vanishes;
use crate::shape::Shape;
use crate::shape::spec_render_children;
use crate::shape::spec_render_shape;
use crate::a::A;
use crate::a::a_model;
use crate::a::spec_render_a;
use crate::circle::Circle;
use crate::circle::circle_model;
use crate::circle::spec_render_circle;
use crate::defs::Defs;
use crate::defs::defs_model;
use crate::defs::spec_render_defs;
use crate::desc::Desc;
use crate::desc::desc_model;
use crate::desc::spec_render_desc;
use crate::ellipse::Ellipse;
use crate::ellipse::ellipse_model;
use crate::ellipse::spec_render_ellipse;
use crate::line::Line;
use crate::line::line_model;
use crate::line::spec_render_line;
use crate::path_element::PathElement;
use crate::path_element::path_element_model;
use crate::path_element::spec_render_path_element;
use crate::rect::Rect;
use crate::rect::rect_model;
use crate::rect::spec_render_rect;
use crate::svg::Svg;
use crate::svg::svg_model;
use crate::svg::spec_render_svg;
use crate::text::Text;
use crate::text::text_model;
use crate::text::spec_render_text;

verus! {

/// A `a` with no children renders self-closed, one with children
/// never does: the text ends in `/>` exactly in the first case.
pub proof fn lemma_self_closing_a(c: A) -> (t: Seq<char>)
    ensures
        t == spec_render_a(c),
        t.len() >= 2,
        c.children@.len() == 0 <==> t.skip(t.len() - 2) == "/>"@,
{
    reveal_strlit("a");
    lemma_self_closing(a_model(c), c.children@.len() > 0, spec_render_children(c.children@));
    spec_render_a(c)
}

/// A `circle` with no children renders self-closed, one with children
/// never does: the text ends in `/>` exactly in the first case.
pub proof fn lemma_self_closing_circle(c: Circle) -> (t: Seq<char>)
    ensures
        t == spec_render_circle(c),
        t.len() >= 2,
        c.children@.len() == 0 <==> t.skip(t.len() - 2) == "/>"@,
{
    reveal_strlit("circle");
    lemma_self_closing(circle_model(c), c.children@.len() > 0, spec_render_children(c.children@));
    spec_render_circle(c)
}

/// A `defs` with no children renders self-closed, one with children
/// never does: the text ends in `/>` exactly in the first case.
pub proof fn lemma_self_closing_defs(c: Defs) -> (t: Seq<char>)
    ensures
        t == spec_render_defs(c),
        t.len() >= 2,
        c.children@.len() == 0 <==> t.skip(t.len() - 2) == "/>"@,
{
    reveal_strlit("defs");
    lemma_self_closing(defs_model(c), c.children@.len() > 0, spec_render_children(c.children@));
    spec_render_defs(c)
}

/// A `desc` with no children renders self-closed, one with children
/// never does: the text ends in `/>` exactly in the first case.
pub proof fn lemma_self_closing_desc(c: Desc) -> (t: Seq<char>)
    ensures
        t == spec_render_desc(c),
        t.len() >= 2,
        c.children@.len() == 0 <==> t.skip(t.len() - 2) == "/>"@,
{
    reveal_strlit("desc");
    lemma_self_closing(desc_model(c), c.children@.len() > 0, spec_render_children(c.children@));
    spec_render_desc(c)
}

/// A `ellipse` with no children renders self-closed, one with children
/// never does: the text ends in `/>` exactly in the first case.
pub proof fn lemma_self_closing_ellipse(c: Ellipse) -> (t: Seq<char>)
    ensures
        t == spec_render_ellipse(c),
        t.len() >= 2,
        c.children@.len() == 0 <==> t.skip(t.len() - 2) == "/>"@,
{
    reveal_strlit("ellipse");
    lemma_self_closing(ellipse_model(c), c.children@.len() > 0, spec_render_children(c.children@));
    spec_render_ellipse(c)
}

/// A `line` with no children renders self-closed, one with children
/// never does: the text ends in `/>` exactly in the first case.
pub proof fn lemma_self_closing_line(c: Line) -> (t: Seq<char>)
    ensures
        t == spec_render_line(c),
        t.len() >= 2,
        c.children@.len() == 0 <==> t.skip(t.len() - 2) == "/>"@,
{
    reveal_strlit("line");
    lemma_self_closing(line_model(c), c.children@.len() > 0, spec_render_children(c.children@));
    spec_render_line(c)
}

/// A `path` with no children renders self-closed, one with children
/// never does: the text ends in `/>` exactly in the first case.
pub proof fn lemma_self_closing_path_element(c: PathElement) -> (t: Seq<char>)
    ensures
        t == spec_render_path_element(c),
        t.len() >= 2,
        c.children@.len() == 0 <==> t.skip(t.len() - 2) == "/>"@,
{
    reveal_strlit("path");
    lemma_self_closing(path_element_model(c), c.children@.len() > 0, spec_render_children(c.children@));
    spec_render_path_element(c)
}

/// A `rect` with no children renders self-closed, one with children
/// never does: the text ends in `/>` exactly in the first case.
pub proof fn lemma_self_closing_rect(c: Rect) -> (t: Seq<char>)
    ensures
        t == spec_render_rect(c),
        t.len() >= 2,
        c.children@.len() == 0 <==> t.skip(t.len() - 2) == "/>"@,
{
    reveal_strlit("rect");
    lemma_self_closing(rect_model(c), c.children@.len() > 0, spec_render_children(c.children@));
    spec_render_rect(c)
}

/// A `svg` with no children renders self-closed, one with children
/// never does: the text ends in `/>` exactly in the first case.
pub proof fn lemma_self_closing_svg(c: Svg) -> (t: Seq<char>)
    ensures
        t == spec_render_svg(c),
        t.len() >= 2,
        c.children@.len() == 0 <==> t.skip(t.len() - 2) == "/>"@,
{
    reveal_strlit("svg");
    lemma_self_closing(svg_model(c), c.children@.len() > 0, spec_render_children(c.children@));
    spec_render_svg(c)
}

/// A `text` with no children renders self-closed, one with children
/// never does: the text ends in `/>` exactly in the first case.
pub proof fn lemma_self_closing_text(c: Text) -> (t: Seq<char>)
    ensures
        t == spec_render_text(c),
        t.len() >= 2,
        c.children@.len() == 0 <==> t.skip(t.len() - 2) == "/>"@,
{
    reveal_strlit("text");
    lemma_self_closing(text_model(c), c.children@.len() > 0, spec_render_children(c.children@));
    spec_render_text(c)
}

/// An unset optional attribute leaves no trace: the attribute text
/// equals that of the same element with the attribute's row removed.
/// Stated here for a circle's `cx`; `lemma_unset_row_vanishes` gives
/// the same for every row of every element model.
pub proof fn lemma_unset_attribute_omitted(c: Circle)
    requires
        c.cx is None,
    ensures
        opt_attrs_text(circle_model(c).opt) == opt_attrs_text(circle_model(c).opt.remove(2)),
{
    lemma_unset_row_vanishes(circle_model(c).opt, 2);
}

/// A set optional attribute appears exactly once: the attribute text
/// splits as the rows before it, its own fragment, and the rows after
/// it. Stated here for a circle's `cx`; `lemma_set_row_included` gives
/// the same for every row of every element model.
pub proof fn lemma_set_attribute_included_once(c: Circle, v: String)
    ensures
        opt_attrs_text(circle_model(Circle { cx: Some(v), ..c }).opt) == opt_attrs_text(
            circle_model(Circle { cx: Some(v), ..c }).opt.take(2),
        ) + attr_frag("cx"@, v@) + opt_attrs_text(
            circle_model(Circle { cx: Some(v), ..c }).opt.skip(3),
        ),
{
    let c2 = Circle { cx: Some(v), ..c };
    lemma_set_row_included(circle_model(c2).opt, 2);
}

/// Appending a child appends exactly its rendering: render order is
/// append order.
pub proof fn lemma_render_children_push(s: Seq<Shape>, x: Shape)
    ensures
        spec_render_children(s.push(x)) == spec_render_children(s) + spec_render_shape(x),
{
    assert(s.push(x).drop_last() =~= s);
    assert(s.push(x).last() == x);
}

/// Three children appended in order render in exactly that order.
pub proof fn lemma_order_preserved(s: Svg, c1: Shape, c2: Shape, c3: Shape)
    requires
        s.children@ == seq![c1, c2, c3],
    ensures
        spec_render_children(s.children@) == spec_render_shape(c1) + spec_render_shape(c2)
            + spec_render_shape(c3),
        spec_render_svg(s) == open_text(svg_model(s)) + ">"@ + (spec_render_shape(c1)
            + spec_render_shape(c2) + spec_render_shape(c3)) + "</"@ + "svg"@ + ">"@,
{
    let e = Seq::<Shape>::empty();
    lemma_render_children_push(e, c1);
    lemma_render_children_push(e.push(c1), c2);
    lemma_render_children_push(e.push(c1).push(c2), c3);
    assert(e.push(c1).push(c2).push(c3) =~= s.children@);
    assert(spec_render_children(e) + spec_render_shape(c1) =~= spec_render_shape(c1));
    assert(spec_render_children(s.children@) == spec_render_shape(c1) + spec_render_shape(c2)
        + spec_render_shape(c3));
}

} // verus!
