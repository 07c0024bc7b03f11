//! The attribute injector: after mixin resolution, each global attribute
//! binding inserts its attribute into the field map of every element it
//! names, overwriting any prior field of the same name. An element name
//! absent from the element table is a fatal configuration error.

use vstd::prelude::*;

use crate::schema::AttrV;
use crate::schema::AttributeSpec;
use crate::schema::ElementSpec;
use crate::schema::ElementV;
use crate::schema::FieldSpec;
use crate::schema::FieldV;
use crate::schema::assoc_set;
use crate::schema::assoc_set_v;
use crate::schema::attrs_v;
use crate::schema::elem_v;
use crate::schema::elems_v;
use crate::schema::fields_v;
use crate::schema::find_element_index;
use crate::schema::sorted_keys;

verus! {

/// The first position of an element by name, or a negative value when
/// the table holds none.
pub open spec fn elem_index(es: Seq<ElementV>, name: Seq<char>) -> int
    decreases es.len(),
{
    if es.len() == 0 {
        -1
    } else if es[0].name == name {
        0
    } else {
        let r = elem_index(es.drop_first(), name);
        if r < 0 {
            -1
        } else {
            r + 1
        }
    }
}

/// The index found is in range and bears the name; a negative result
/// means no entry bears it.
pub proof fn lemma_elem_index(es: Seq<ElementV>, name: Seq<char>)
    ensures
        elem_index(es, name) >= 0 ==> elem_index(es, name) < es.len() && es[elem_index(
            es,
            name,
        )].name == name,
        elem_index(es, name) < 0 ==> forall|j: int| 0 <= j < es.len() ==> es[j].name != name,
    decreases es.len(),
{
    if es.len() > 0 && es[0].name != name {
        lemma_elem_index(es.drop_first(), name);
        assert forall|j: int| 1 <= j < es.len() implies es.drop_first()[j - 1] == es[j] by {}
    }
}

/// The view of the field the binding inserts: the binding's type, never
/// constructor-sourced.
pub open spec fn binding_field(ty: Seq<char>) -> FieldV {
    FieldV { ty, from_ctor: false }
}

/// Applies one binding to each element it names, in order.
pub open spec fn apply_binding_rec(
    es: Seq<ElementV>,
    aname: Seq<char>,
    ty: Seq<char>,
    targets: Seq<Seq<char>>,
) -> Result<Seq<ElementV>, Seq<char>>
    decreases targets.len(),
{
    if targets.len() == 0 {
        Ok(es)
    } else {
        let tgt = targets[0];
        let i = elem_index(es, tgt);
        if i < 0 {
            Err(tgt)
        } else {
            apply_binding_rec(
                es.update(
                    i,
                    ElementV { fields: assoc_set_v(es[i].fields, aname, binding_field(ty)), ..es[i] },
                ),
                aname,
                ty,
                targets.drop_first(),
            )
        }
    }
}

/// Applies the remaining bindings after the current one finishes.
pub open spec fn inject_cont(
    es: Seq<ElementV>,
    aname: Seq<char>,
    ty: Seq<char>,
    targets: Seq<Seq<char>>,
    rest: Seq<AttrV>,
) -> Result<Seq<ElementV>, Seq<char>>
    decreases rest.len(), targets.len() + 1,
{
    match apply_binding_rec(es, aname, ty, targets) {
        Ok(es2) => inject_rec(es2, rest),
        Err(e) => Err(e),
    }
}

/// Applies every binding, in table order.
pub open spec fn inject_rec(es: Seq<ElementV>, attrs: Seq<AttrV>) -> Result<
    Seq<ElementV>,
    Seq<char>,
>
    decreases attrs.len(), 0int,
{
    if attrs.len() == 0 {
        Ok(es)
    } else {
        inject_cont(es, attrs[0].name, attrs[0].ty, attrs[0].elements, attrs.drop_first())
    }
}

/// Whether every element's field keys are sorted.
pub open spec fn all_fields_sorted(s: Seq<ElementSpec>) -> bool {
    forall|i: int| 0 <= i < s.len() ==> sorted_keys(fields_v(#[trigger] s[i].fields@))
}

/// Injects every global attribute binding into the elements it names.
/// An element name with no entry is a fatal configuration error,
/// reported with the offending name.
pub fn inject_attributes(elements: &mut Vec<ElementSpec>, attributes: &Vec<AttributeSpec>) -> (r:
    Result<(), String>)
    requires
        all_fields_sorted(old(elements)@),
    ensures
        match r {
            Ok(()) => {
                &&& inject_rec(elems_v(old(elements)@), attrs_v(attributes@)) matches Ok(expect)
                &&& elems_v(final(elements)@) == expect
                &&& all_fields_sorted(final(elements)@)
            },
            Err(msg) => {
                &&& inject_rec(elems_v(old(elements)@), attrs_v(attributes@)) matches Err(missing)
                &&& msg@ == "Element "@ + missing + " not found"@
            },
        },
{
    let an = attributes.len();
    let mut ai: usize = 0;
    proof {
        assert(attrs_v(attributes@).skip(0) =~= attrs_v(attributes@));
    }
    #[verifier::loop_isolation(false)]
    while ai < an
        invariant
            ai <= an,
            all_fields_sorted(elements@),
            inject_rec(elems_v(elements@), attrs_v(attributes@).skip(ai as int)) == inject_rec(
                elems_v(old(elements)@),
                attrs_v(attributes@),
            ),
        decreases an - ai,
    {
        let attr = &attributes[ai];
        let ghost aname = attr.name@;
        let ghost ty = attr.attribute_type@;
        let ghost rest = attrs_v(attributes@).skip(ai as int + 1);
        proof {
            assert(attrs_v(attributes@).skip(ai as int)[0] == attrs_v(attributes@)[ai as int]);
            assert(attrs_v(attributes@).skip(ai as int).drop_first() =~= rest);
        }
        let tn = attr.elements.len();
        let mut ti: usize = 0;
        proof {
            assert(crate::schema::names_v(attr.elements@).skip(0) =~= crate::schema::names_v(
                attr.elements@,
            ));
        }
        #[verifier::loop_isolation(false)]
        while ti < tn
            invariant
                ti <= tn,
                all_fields_sorted(elements@),
                inject_cont(
                    elems_v(elements@),
                    aname,
                    ty,
                    crate::schema::names_v(attr.elements@).skip(ti as int),
                    rest,
                ) == inject_rec(elems_v(old(elements)@), attrs_v(attributes@)),
            decreases tn - ti,
        {
            let ghost targets = crate::schema::names_v(attr.elements@).skip(ti as int);
            proof {
                assert(targets[0] == attr.elements@[ti as int]@);
                assert(targets.drop_first() =~= crate::schema::names_v(attr.elements@).skip(
                    ti as int + 1,
                ));
            }
            let tgt = &attr.elements[ti];
            match find_element_index(elements, tgt.as_str()) {
                None => {
                    proof {
                        lemma_elem_index(elems_v(elements@), tgt@);
                        assert forall|j: int| 0 <= j < elems_v(elements@).len() implies elems_v(
                            elements@,
                        )[j].name != tgt@ by {
                            assert(elems_v(elements@)[j] == elem_v(elements@[j]));
                        }
                        if elem_index(elems_v(elements@), tgt@) >= 0 {
                            assert(false);
                        }
                    }
                    let mut msg = String::new();
                    msg.append("Element ");
                    msg.append(tgt.as_str());
                    msg.append(" not found");
                    proof {
                        assert(msg@ =~= "Element "@ + tgt@ + " not found"@);
                    }
                    return Err(msg);
                },
                Some(i) => {
                    let ghost es0 = elems_v(elements@);
                    proof {
                        lemma_elem_index(es0, tgt@);
                        if elem_index(es0, tgt@) < 0 {
                            assert(es0[i as int] == elem_v(elements@[i as int]));
                            assert(false);
                        }
                    }
                    let mut e = elements.remove(i);
                    let field = FieldSpec {
                        type_token: attr.attribute_type.clone(),
                        from_constructor: false,
                    };
                    proof {
                        assert(fields_v(e.fields@) == es0[i as int].fields);
                    }
                    assoc_set(&mut e.fields, attr.name.clone(), field);
                    elements.insert(i, e);
                    proof {
                        let idx = elem_index(es0, tgt@);
                        // the found index is the first bearing the name,
                        // which is the index the specification updates
                        assert(es0[idx].name == tgt@);
                        lemma_elem_index_first(es0, tgt@, i as int);
                        assert(idx == i as int);
                        assert(elems_v(elements@) =~= es0.update(
                            i as int,
                            ElementV {
                                fields: assoc_set_v(es0[i as int].fields, aname, binding_field(ty)),
                                ..es0[i as int]
                            },
                        ));
                        assert(apply_binding_rec(es0, aname, ty, targets) == apply_binding_rec(
                            elems_v(elements@),
                            aname,
                            ty,
                            targets.drop_first(),
                        ));
                        assert forall|j: int| 0 <= j < elements@.len() implies sorted_keys(
                            fields_v(#[trigger] elements@[j].fields@),
                        ) by {
                            assert(elems_v(elements@)[j] == elem_v(elements@[j]));
                        }
                    }
                },
            }
            ti = ti + 1;
        }
        proof {
            assert(crate::schema::names_v(attr.elements@).skip(tn as int) =~= Seq::<
                Seq<char>,
            >::empty());
        }
        ai = ai + 1;
    }
    proof {
        assert(attrs_v(attributes@).skip(an as int) =~= Seq::<AttrV>::empty());
    }
    Ok(())
}

/// The position `find_element_index` returns is the one `elem_index`
/// denotes: both take the first entry bearing the name.
proof fn lemma_elem_index_first(es: Seq<ElementV>, name: Seq<char>, i: int)
    requires
        0 <= i < es.len(),
        es[i].name == name,
        forall|j: int| 0 <= j < i ==> es[j].name != name,
    ensures
        elem_index(es, name) == i,
    decreases es.len(),
{
    if i > 0 {
        assert forall|j: int| 0 <= j < i - 1 implies es.drop_first()[j].name != name by {
            assert(es.drop_first()[j] == es[j + 1]);
        }
        assert(es.drop_first()[i - 1] == es[i]);
        lemma_elem_index_first(es.drop_first(), name, i - 1);
    }
}

} // verus!
