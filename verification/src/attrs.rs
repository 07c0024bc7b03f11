//! The textual model of one rendered element: its tag, its mandatory
//! (constructor-sourced) attributes and its optional attributes, together
//! with verified helpers that append attribute text to a buffer.

use vstd::prelude::*;

use crate::strutil::spec_i32_text;

verus! {

/// One rendered attribute: ` name="value"`.
pub open spec fn attr_frag(name: Seq<char>, value: Seq<char>) -> Seq<char> {
    " "@ + name + "=\""@ + value + "\""@
}

/// What an optional attribute contributes to the rendered text:
/// nothing at all when it is unset.
pub open spec fn opt_attr_frag(name: Seq<char>, value: Option<Seq<char>>) -> Seq<char> {
    match value {
        Option::Some(v) => attr_frag(name, v),
        Option::None => Seq::empty(),
    }
}

/// Rendered text of mandatory attribute rows, in row order.
pub open spec fn ctor_attrs_text(rows: Seq<(Seq<char>, Seq<char>)>) -> Seq<char>
    decreases rows.len(),
{
    if rows.len() == 0 {
        Seq::empty()
    } else {
        ctor_attrs_text(rows.drop_last()) + attr_frag(rows.last().0, rows.last().1)
    }
}

/// Rendered text of optional attribute rows, in row order; unset rows vanish.
pub open spec fn opt_attrs_text(rows: Seq<(Seq<char>, Option<Seq<char>>)>) -> Seq<char>
    decreases rows.len(),
{
    if rows.len() == 0 {
        Seq::empty()
    } else {
        opt_attrs_text(rows.drop_last()) + opt_attr_frag(rows.last().0, rows.last().1)
    }
}

/// The non-recursive shape of one element's markup: the literal tag name,
/// the constructor-sourced attributes in declared order, and the optional
/// attributes in field order.
pub struct ElemModel {
    pub tag: Seq<char>,
    pub ctor: Seq<(Seq<char>, Seq<char>)>,
    pub opt: Seq<(Seq<char>, Option<Seq<char>>)>,
}

/// The opening run of an element's text: `<tag` plus all attribute text.
pub open spec fn open_text(m: ElemModel) -> Seq<char> {
    "<"@ + m.tag + ctor_attrs_text(m.ctor) + opt_attrs_text(m.opt)
}

/// The whole element text around the already-rendered children text:
/// self-closing exactly when there are no children.
pub open spec fn elem_text(m: ElemModel, has_children: bool, kids: Seq<char>) -> Seq<char> {
    if !has_children {
        open_text(m) + "/>"@
    } else {
        open_text(m) + ">"@ + kids + "</"@ + m.tag + ">"@
    }
}

// ---------------------------------------------------------------------------
// Step lemmas used when a renderer emits its attributes one at a time.
// ---------------------------------------------------------------------------

pub proof fn lemma_ctor_attrs_take_step(rows: Seq<(Seq<char>, Seq<char>)>, k: int)
    requires
        0 < k <= rows.len(),
    ensures
        ctor_attrs_text(rows.take(k)) == ctor_attrs_text(rows.take(k - 1)) + attr_frag(
            rows[k - 1].0,
            rows[k - 1].1,
        ),
{
    assert(rows.take(k).drop_last() =~= rows.take(k - 1));
    assert(rows.take(k).last() == rows[k - 1]);
}

pub proof fn lemma_opt_attrs_take_step(rows: Seq<(Seq<char>, Option<Seq<char>>)>, k: int)
    requires
        0 < k <= rows.len(),
    ensures
        opt_attrs_text(rows.take(k)) == opt_attrs_text(rows.take(k - 1)) + opt_attr_frag(
            rows[k - 1].0,
            rows[k - 1].1,
        ),
{
    assert(rows.take(k).drop_last() =~= rows.take(k - 1));
    assert(rows.take(k).last() == rows[k - 1]);
}

// ---------------------------------------------------------------------------
// Prefixes of the opening run, for renderers that emit one attribute at
// a time.
// ---------------------------------------------------------------------------

/// The opening run after the first `k` optional rows have been emitted.
pub open spec fn open_prefix(m: ElemModel, k: int) -> Seq<char> {
    "<"@ + m.tag + ctor_attrs_text(m.ctor) + opt_attrs_text(m.opt.take(k))
}

/// Before any optional row, the opening run is the tag and the mandatory
/// attributes alone.
pub proof fn lemma_open_prefix_zero(m: ElemModel)
    ensures
        open_prefix(m, 0) == "<"@ + m.tag + ctor_attrs_text(m.ctor),
{
    assert(m.opt.take(0) =~= Seq::<(Seq<char>, Option<Seq<char>>)>::empty());
    assert(open_prefix(m, 0) =~= "<"@ + m.tag + ctor_attrs_text(m.ctor));
}

/// Emitting row `k - 1` extends the opening run by exactly its fragment.
pub proof fn lemma_open_prefix_step(m: ElemModel, k: int)
    requires
        0 < k <= m.opt.len(),
    ensures
        open_prefix(m, k) == open_prefix(m, k - 1) + opt_attr_frag(m.opt[k - 1].0, m.opt[k - 1].1),
{
    lemma_opt_attrs_take_step(m.opt, k);
    vstd::seq_lib::lemma_concat_associative(
        "<"@ + m.tag + ctor_attrs_text(m.ctor),
        opt_attrs_text(m.opt.take(k - 1)),
        opt_attr_frag(m.opt[k - 1].0, m.opt[k - 1].1),
    );
}

/// After every optional row, the opening run is complete.
pub proof fn lemma_open_prefix_full(m: ElemModel)
    ensures
        open_prefix(m, m.opt.len() as int) == open_text(m),
{
    assert(m.opt.take(m.opt.len() as int) =~= m.opt);
}

/// The opening run after the first `k` mandatory rows have been emitted.
pub open spec fn ctor_prefix(m: ElemModel, k: int) -> Seq<char> {
    "<"@ + m.tag + ctor_attrs_text(m.ctor.take(k))
}

/// Before any mandatory row, the opening run is `<tag` alone.
pub proof fn lemma_ctor_prefix_zero(m: ElemModel)
    ensures
        ctor_prefix(m, 0) == "<"@ + m.tag,
{
    assert(m.ctor.take(0) =~= Seq::<(Seq<char>, Seq<char>)>::empty());
    assert(ctor_prefix(m, 0) =~= "<"@ + m.tag);
}

/// Emitting mandatory row `k - 1` extends the run by exactly its fragment.
pub proof fn lemma_ctor_prefix_step(m: ElemModel, k: int)
    requires
        0 < k <= m.ctor.len(),
    ensures
        ctor_prefix(m, k) == ctor_prefix(m, k - 1) + attr_frag(m.ctor[k - 1].0, m.ctor[k - 1].1),
{
    lemma_ctor_attrs_take_step(m.ctor, k);
    vstd::seq_lib::lemma_concat_associative(
        "<"@ + m.tag,
        ctor_attrs_text(m.ctor.take(k - 1)),
        attr_frag(m.ctor[k - 1].0, m.ctor[k - 1].1),
    );
}

/// After every mandatory row, the run matches the opening prefix at zero.
pub proof fn lemma_ctor_prefix_full(m: ElemModel)
    ensures
        ctor_prefix(m, m.ctor.len() as int) == "<"@ + m.tag + ctor_attrs_text(m.ctor),
{
    assert(m.ctor.take(m.ctor.len() as int) =~= m.ctor);
}

// ---------------------------------------------------------------------------
// Views of optional field values as optional attribute text.
// ---------------------------------------------------------------------------

/// The attribute text of an optional string-valued field.
pub open spec fn ov(v: Option<String>) -> Option<Seq<char>> {
    match v {
        Option::Some(s) => Option::Some(s@),
        Option::None => Option::None,
    }
}

/// The attribute text of an optional boolean field.
pub open spec fn ov_bool(v: Option<bool>) -> Option<Seq<char>> {
    match v {
        Option::Some(b) => Option::Some(crate::strutil::spec_bool_text(b)),
        Option::None => Option::None,
    }
}

/// The attribute text of an optional signed-integer field.
pub open spec fn ov_i32(v: Option<i32>) -> Option<Seq<char>> {
    match v {
        Option::Some(n) => Option::Some(spec_i32_text(n as int)),
        Option::None => Option::None,
    }
}

/// Clones an optional string value, preserving its attribute text.
pub fn clone_opt_string(v: &Option<String>) -> (r: Option<String>)
    ensures
        ov(r) == ov(*v),
{
    match v {
        Option::Some(s) => Option::Some(s.clone()),
        Option::None => Option::None,
    }
}

// ---------------------------------------------------------------------------
// Verified buffer helpers.
// ---------------------------------------------------------------------------

/// Appends ` name="value"` to `out`.
pub fn push_attr(out: &mut String, name: &str, value: &str)
    ensures
        final(out)@ == old(out)@ + attr_frag(name@, value@),
{
    out.append(" ");
    out.append(name);
    out.append("=\"");
    out.append(value);
    out.append("\"");
}

/// Appends the fragment of an optional string attribute to `out`.
pub fn push_opt_attr(out: &mut String, name: &str, value: &Option<String>)
    ensures
        final(out)@ == old(out)@ + opt_attr_frag(name@, ov(*value)),
{
    match value {
        Option::Some(v) => push_attr(out, name, v.as_str()),
        Option::None => (),
    }
}

/// Appends the fragment of an optional boolean attribute to `out`.
pub fn push_opt_bool_attr(out: &mut String, name: &str, value: &Option<bool>)
    ensures
        final(out)@ == old(out)@ + opt_attr_frag(name@, ov_bool(*value)),
{
    match value {
        Option::Some(b) => {
            let text = crate::strutil::bool_text(*b);
            push_attr(out, name, text.as_str());
        },
        Option::None => (),
    }
}

/// Appends the fragment of an optional signed-integer attribute to `out`.
pub fn push_opt_i32_attr(out: &mut String, name: &str, value: &Option<i32>)
    ensures
        final(out)@ == old(out)@ + opt_attr_frag(name@, ov_i32(*value)),
{
    match value {
        Option::Some(n) => {
            let text = crate::strutil::i32_text(*n);
            push_attr(out, name, text.as_str());
        },
        Option::None => (),
    }
}

// ---------------------------------------------------------------------------
// Laws of the rendered form.
// ---------------------------------------------------------------------------

/// An element's text ends in `/>` exactly when it has no children,
/// provided the tag name does not itself end in `/`.
pub proof fn lemma_self_closing(m: ElemModel, has_children: bool, kids: Seq<char>)
    requires
        m.tag.len() > 0,
        m.tag.last() != '/',
    ensures
        elem_text(m, has_children, kids).len() >= 2,
        !has_children <==> (elem_text(m, has_children, kids).skip(
            elem_text(m, has_children, kids).len() - 2,
        ) == "/>"@),
{
    reveal_strlit("<");
    reveal_strlit("/>");
    reveal_strlit(">");
    reveal_strlit("</");
    let t = elem_text(m, has_children, kids);
    if !has_children {
        assert(t.skip(t.len() - 2) =~= "/>"@);
    } else {
        let tail = t.skip(t.len() - 2);
        assert(tail.len() == 2);
        assert(t[t.len() - 1] == '>');
        assert(t[t.len() - 2] == m.tag.last());
        if tail == "/>"@ {
            assert(tail[0] == '/');
            assert(false);
        }
    }
}

/// Removing an unset optional row leaves the rendered attribute text
/// unchanged: an unset attribute's name appears nowhere on its account.
pub proof fn lemma_unset_row_vanishes(rows: Seq<(Seq<char>, Option<Seq<char>>)>, i: int)
    requires
        0 <= i < rows.len(),
        rows[i].1 is None,
    ensures
        opt_attrs_text(rows) == opt_attrs_text(rows.remove(i)),
    decreases rows.len(),
{
    if i == rows.len() - 1 {
        assert(rows.remove(i) =~= rows.drop_last());
    } else {
        lemma_unset_row_vanishes(rows.drop_last(), i);
        assert(rows.remove(i).drop_last() =~= rows.drop_last().remove(i));
        assert(rows.remove(i).last() == rows.last());
    }
}

/// A set optional row contributes its fragment exactly once, between the
/// text of the rows before it and the text of the rows after it.
pub proof fn lemma_set_row_included(rows: Seq<(Seq<char>, Option<Seq<char>>)>, i: int)
    requires
        0 <= i < rows.len(),
        rows[i].1 is Some,
    ensures
        opt_attrs_text(rows) == opt_attrs_text(rows.take(i)) + attr_frag(
            rows[i].0,
            rows[i].1->Some_0,
        ) + opt_attrs_text(rows.skip(i + 1)),
    decreases rows.len(),
{
    if i == rows.len() - 1 {
        assert(rows.take(i) =~= rows.drop_last());
        assert(rows.skip(i + 1) =~= Seq::<(Seq<char>, Option<Seq<char>>)>::empty());
        assert(opt_attrs_text(rows.skip(i + 1)) == Seq::<char>::empty());
        assert(opt_attrs_text(rows) =~= opt_attrs_text(rows.take(i)) + attr_frag(
            rows[i].0,
            rows[i].1->Some_0,
        ) + opt_attrs_text(rows.skip(i + 1)));
    } else {
        lemma_set_row_included(rows.drop_last(), i);
        assert(rows.drop_last().take(i) =~= rows.take(i));
        assert(rows.drop_last().skip(i + 1) =~= rows.skip(i + 1).drop_last());
        assert(rows.skip(i + 1).last() == rows.last());
        assert(opt_attrs_text(rows) =~= opt_attrs_text(rows.take(i)) + attr_frag(
            rows[i].0,
            rows[i].1->Some_0,
        ) + opt_attrs_text(rows.skip(i + 1)));
    }
}

} // verus!
