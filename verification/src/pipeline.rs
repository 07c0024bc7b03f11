//! The generation pipeline: mixin resolution over every element, then
//! attribute injection, then code synthesis. Configuration errors abort
//! the run with the offending name; no partial artifact is produced.

use vstd::prelude::*;

use crate::inject::inject_attributes;
use crate::inject::inject_rec;
use crate::inject::all_fields_sorted;
use crate::resolve::resolve_element;
use crate::resolve::resolve_of;
use crate::schema::Config;
use crate::schema::ElementSpec;
use crate::schema::ElementV;
use crate::schema::MixinV;
use crate::schema::attrs_v;
use crate::schema::elem_v;
use crate::schema::elems_v;
use crate::schema::fields_v;
use crate::schema::mixin_map;

verus! {

/// The view of one element after resolution.
pub open spec fn resolve_elem_v(t: Map<Seq<char>, MixinV>, e: ElementV) -> Result<
    ElementV,
    Seq<char>,
> {
    match resolve_of(t, e.derives, e.fields) {
        Ok(out) => Ok(ElementV { derives: out.0, fields: out.1, ..e }),
        Err(n) => Err(n),
    }
}

/// Resolves every element independently, in table order; the first
/// missing mixin aborts.
pub open spec fn resolve_all_rec(t: Map<Seq<char>, MixinV>, es: Seq<ElementV>) -> Result<
    Seq<ElementV>,
    Seq<char>,
>
    decreases es.len(),
{
    if es.len() == 0 {
        Ok(Seq::empty())
    } else {
        match resolve_elem_v(t, es[0]) {
            Ok(e0) => match resolve_all_rec(t, es.drop_first()) {
                Ok(rest) => Ok(seq![e0] + rest),
                Err(n) => Err(n),
            },
            Err(n) => Err(n),
        }
    }
}

/// Resolution of the remaining elements, after some are already done.
pub open spec fn resolve_all_cont(
    t: Map<Seq<char>, MixinV>,
    done: Seq<ElementV>,
    rem: Seq<ElementV>,
) -> Result<Seq<ElementV>, Seq<char>> {
    match resolve_all_rec(t, rem) {
        Ok(rest) => Ok(done + rest),
        Err(n) => Err(n),
    }
}

/// The whole schema transformation: every element mixin-resolved, then
/// every global attribute binding injected.
pub open spec fn transform_config(
    t: Map<Seq<char>, MixinV>,
    es: Seq<ElementV>,
    attrs: Seq<crate::schema::AttrV>,
) -> Result<Seq<ElementV>, Seq<char>> {
    match resolve_all_rec(t, es) {
        Ok(resolved) => inject_rec(resolved, attrs),
        Err(n) => Err(n),
    }
}

/// Resolution keeps every element's place and name.
proof fn lemma_resolve_all_names(t: Map<Seq<char>, MixinV>, es: Seq<ElementV>)
    requires
        resolve_all_rec(t, es) is Ok,
    ensures
        (resolve_all_rec(t, es)->Ok_0).len() == es.len(),
        forall|i: int|
            0 <= i < es.len() ==> (#[trigger] (resolve_all_rec(t, es)->Ok_0)[i]).name
                == es[i].name,
    decreases es.len(),
{
    if es.len() > 0 {
        lemma_resolve_all_names(t, es.drop_first());
        let r = resolve_all_rec(t, es)->Ok_0;
        let e0 = resolve_elem_v(t, es[0])->Ok_0;
        let rest = resolve_all_rec(t, es.drop_first())->Ok_0;
        assert(r == seq![e0] + rest);
        assert forall|i: int| 0 <= i < es.len() implies (#[trigger] r[i]).name == es[i].name by {
            if i > 0 {
                assert(r[i] == rest[i - 1]);
                assert(es.drop_first()[i - 1] == es[i]);
            }
        }
    }
}

/// Runs mixin resolution over every element and then attribute
/// injection, returning the transformed configuration and the diagnostic
/// trace of elements processed. A missing mixin or element name is a
/// fatal configuration error carrying the offending name; nothing
/// partial is returned.
pub fn transform(config: Config) -> (r: Result<(Config, Vec<String>), String>)
    requires
        all_fields_sorted(config.elements@),
    ensures
        match r {
            Ok(out) => {
                &&& transform_config(
                    mixin_map(config.derives@),
                    elems_v(config.elements@),
                    attrs_v(config.attributes@),
                ) matches Ok(expect)
                &&& elems_v(out.0.elements@) == expect
                &&& all_fields_sorted(out.0.elements@)
                &&& out.0.derives@ == config.derives@
                &&& out.0.element_types@ == config.element_types@
                &&& out.0.attributes@ == config.attributes@
                &&& out.1@.len() == config.elements@.len()
                &&& forall|i: int|
                    0 <= i < out.1@.len() ==> (#[trigger] out.1@[i])@ == "Starting on "@
                        + elems_v(config.elements@)[i].name
            },
            Err(msg) => {
                &&& transform_config(
                    mixin_map(config.derives@),
                    elems_v(config.elements@),
                    attrs_v(config.attributes@),
                ) matches Err(missing)
                &&& (resolve_all_rec(mixin_map(config.derives@), elems_v(config.elements@))
                    is Err ==> msg@ == "Derivable "@ + missing + " not found"@)
                &&& (resolve_all_rec(mixin_map(config.derives@), elems_v(config.elements@))
                    is Ok ==> msg@ == "Element "@ + missing + " not found"@)
            },
        },
{
    let ghost t = mixin_map(config.derives@);
    let ghost es0 = elems_v(config.elements@);
    let Config { elements: mut remaining, derives, element_types, attributes } = config;
    let mut resolved: Vec<ElementSpec> = Vec::new();
    let mut trace: Vec<String> = Vec::new();
    proof {
        assert(elems_v(resolved@) =~= Seq::<ElementV>::empty());
        assert(elems_v(remaining@) == es0);
    }
    #[verifier::loop_isolation(false)]
    while remaining.len() > 0
        invariant
            all_fields_sorted(resolved@),
            all_fields_sorted(remaining@),
            resolve_all_cont(t, elems_v(resolved@), elems_v(remaining@)) == resolve_all_cont(
                t,
                Seq::empty(),
                es0,
            ),
            trace@.len() == resolved@.len(),
            forall|i: int|
                0 <= i < trace@.len() ==> (#[trigger] trace@[i])@ == "Starting on "@ + elems_v(
                    resolved@,
                )[i].name,
        decreases remaining@.len(),
    {
        let ghost rem0 = elems_v(remaining@);
        let ghost done0 = elems_v(resolved@);
        let element = remaining.remove(0);
        proof {
            assert(elems_v(remaining@) =~= rem0.drop_first());
            assert(elem_v(element) == rem0[0]);
            assert forall|j: int| 0 <= j < remaining@.len() implies crate::schema::sorted_keys(
                fields_v(#[trigger] remaining@[j].fields@),
            ) by {}
        }
        let mut line = String::new();
        line.append("Starting on ");
        line.append(element.name.as_str());
        let ghost ename = element.name@;
        proof {
            assert(line@ =~= "Starting on "@ + ename);
        }
        match resolve_element(element, &derives) {
            Ok(out) => {
                proof {
                    assert(resolve_elem_v(t, rem0[0]) == Ok::<ElementV, Seq<char>>(elem_v(out)));
                }
                resolved.push(out);
                trace.push(line);
                proof {
                    assert(elems_v(resolved@) =~= done0.push(elem_v(resolved@.last())));
                    assert(done0.push(elems_v(resolved@).last()) =~= done0 + seq![
                        elems_v(resolved@).last(),
                    ]);
                    if resolve_all_rec(t, rem0) is Ok {
                        assert(resolve_all_rec(t, rem0)->Ok_0 =~= seq![
                            elems_v(resolved@).last(),
                        ] + resolve_all_rec(t, rem0.drop_first())->Ok_0);
                        if resolve_all_rec(t, rem0.drop_first()) is Ok {
                            assert(done0 + (seq![elems_v(resolved@).last()] + resolve_all_rec(
                                t,
                                rem0.drop_first(),
                            )->Ok_0) =~= elems_v(resolved@) + resolve_all_rec(
                                t,
                                rem0.drop_first(),
                            )->Ok_0);
                        }
                    }
                    assert(resolve_all_cont(t, elems_v(resolved@), elems_v(remaining@))
                        == resolve_all_cont(t, done0, rem0));
                }
            },
            Err(msg) => {
                proof {
                    assert(resolve_elem_v(t, rem0[0]) is Err);
                    assert(resolve_all_rec(t, rem0) is Err);
                    assert(resolve_all_cont(t, done0, rem0) is Err);
                }
                return Err(msg);
            },
        }
    }
    proof {
        assert(elems_v(remaining@).len() == 0);
        assert(resolve_all_rec(t, elems_v(remaining@)) == Ok::<Seq<ElementV>, Seq<char>>(
            Seq::empty(),
        ));
        assert(elems_v(resolved@) + Seq::<ElementV>::empty() =~= elems_v(resolved@));
        assert(resolve_all_rec(t, es0) == Ok::<Seq<ElementV>, Seq<char>>(elems_v(resolved@)))
            by {
            assert(resolve_all_cont(t, elems_v(resolved@), elems_v(remaining@))
                == resolve_all_cont(t, Seq::empty(), es0));
            if resolve_all_rec(t, es0) is Ok {
                assert(Seq::<ElementV>::empty() + resolve_all_rec(t, es0)->Ok_0
                    =~= resolve_all_rec(t, es0)->Ok_0);
            }
        }
    }
    let ghost resolved_v = elems_v(resolved@);
    proof {
        lemma_resolve_all_names(t, es0);
        assert forall|i: int| 0 <= i < trace@.len() implies (#[trigger] trace@[i])@
            == "Starting on "@ + es0[i].name by {
            assert(resolved_v[i].name == es0[i].name);
        }
    }
    match inject_attributes(&mut resolved, &attributes) {
        Ok(()) => {
            let out = Config { elements: resolved, derives, element_types, attributes };
            Ok((out, trace))
        },
        Err(msg) => Err(msg),
    }
}

} // verus!

verus! {

/// Whether a parameter list holds an entry whose normalized name matches
/// the normalized field name.
pub open spec fn param_matches(params: Seq<(Seq<char>, Seq<char>)>, fname: Seq<char>) -> bool {
    exists|j: int|
        0 <= j < params.len() && crate::strutil::spec_camel_to_snake(#[trigger] params[j].0)
            == crate::strutil::spec_camel_to_snake(fname)
}

/// Whether every constructor-sourced field of an element has a matching
/// constructor parameter.
pub open spec fn ctor_fields_matched(e: ElementV) -> bool {
    forall|i: int|
        0 <= i < e.fields.len() && (#[trigger] e.fields[i]).1.from_ctor ==> param_matches(
            e.ctor_params,
            e.fields[i].0,
        )
}

/// Whether some constructor parameter's normalized name matches the
/// normalized field name.
fn find_matching_param(params: &Vec<crate::schema::ParamSpec>, fname: &str) -> (r: bool)
    ensures
        r == param_matches(
            params@.map_values(|p: crate::schema::ParamSpec| (p.name@, p.type_token@)),
            fname@,
        ),
{
    let ghost pv = params@.map_values(|p: crate::schema::ParamSpec| (p.name@, p.type_token@));
    let fsnake = crate::strutil::camel_to_snake(fname);
    let n = params.len();
    let mut j: usize = 0;
    #[verifier::loop_isolation(false)]
    while j < n
        invariant
            j <= n,
            forall|k: int|
                0 <= k < j ==> crate::strutil::spec_camel_to_snake(#[trigger] pv[k].0)
                    != crate::strutil::spec_camel_to_snake(fname@),
        decreases n - j,
    {
        proof {
            assert(pv[j as int] == (params@[j as int].name@, params@[j as int].type_token@));
        }
        let psnake = crate::strutil::camel_to_snake(params[j].name.as_str());
        if crate::strutil::str_eq(psnake.as_str(), fsnake.as_str()) {
            proof {
                assert(crate::strutil::spec_camel_to_snake(pv[j as int].0)
                    == crate::strutil::spec_camel_to_snake(fname@));
            }
            return true;
        }
        j = j + 1;
    }
    false
}

/// Checks that every constructor-sourced field of the element has an
/// identically (case-insensitively) named constructor parameter; a field
/// without one is a fatal configuration error naming the field.
pub fn check_constructor_fields(e: &ElementSpec) -> (r: Result<(), String>)
    ensures
        r is Ok <==> ctor_fields_matched(elem_v(*e)),
        r matches Err(msg) ==> exists|i: int|
            0 <= i < e.fields@.len() && (#[trigger] elem_v(*e).fields[i]).1.from_ctor
                && !param_matches(elem_v(*e).ctor_params, elem_v(*e).fields[i].0) && msg@
                == "Constructor field "@ + elem_v(*e).fields[i].0 + " has no matching parameter"@,
{
    let ghost ev = elem_v(*e);
    let n = e.fields.len();
    let mut i: usize = 0;
    #[verifier::loop_isolation(false)]
    while i < n
        invariant
            i <= n,
            forall|k: int|
                0 <= k < i && (#[trigger] ev.fields[k]).1.from_ctor ==> param_matches(
                    ev.ctor_params,
                    ev.fields[k].0,
                ),
        decreases n - i,
    {
        proof {
            assert(ev.fields[i as int] == (
                e.fields@[i as int].0@,
                crate::schema::field_v(e.fields@[i as int].1),
            ));
        }
        if e.fields[i].1.from_constructor {
            let found = find_matching_param(&e.constructor_params, e.fields[i].0.as_str());
            if !found {
                let mut msg = String::new();
                msg.append("Constructor field ");
                msg.append(e.fields[i].0.as_str());
                msg.append(" has no matching parameter");
                proof {
                    assert(msg@ =~= "Constructor field "@ + ev.fields[i as int].0
                        + " has no matching parameter"@);
                }
                return Err(msg);
            }
            proof {
                assert(param_matches(ev.ctor_params, ev.fields[i as int].0));
            }
        }
        i = i + 1;
    }
    Ok(())
}

/// Checks every element of the configuration; the first element with an
/// unmatched constructor-sourced field aborts.
pub fn check_config_constructors(config: &Config) -> (r: Result<(), String>)
    ensures
        r is Ok <==> forall|i: int|
            0 <= i < config.elements@.len() ==> ctor_fields_matched(
                #[trigger] elems_v(config.elements@)[i],
            ),
{
    let n = config.elements.len();
    let mut i: usize = 0;
    #[verifier::loop_isolation(false)]
    while i < n
        invariant
            i <= n,
            forall|k: int|
                0 <= k < i ==> ctor_fields_matched(#[trigger] elems_v(config.elements@)[k]),
        decreases n - i,
    {
        proof {
            assert(elems_v(config.elements@)[i as int] == elem_v(config.elements@[i as int]));
        }
        match check_constructor_fields(&config.elements[i]) {
            Ok(()) => (),
            Err(msg) => {
                return Err(msg);
            },
        }
        i = i + 1;
    }
    Ok(())
}

} // verus!
