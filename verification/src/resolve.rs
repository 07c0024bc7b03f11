//! The mixin resolver: expands an element's `derives` list into a
//! flattened, deduplicated attribute set.
//!
//! The work queue is treated as a stack: the last listed mixin is expanded
//! first, a mixin already processed is skipped (which bounds the walk on
//! cyclic graphs), its fields overwrite same-named entries (last expanded
//! wins), and its own `derives` are pushed in turn. A mixin name absent
//! from the table is a fatal configuration error.

use vstd::prelude::*;

use crate::schema::ElementSpec;
use crate::schema::FieldSpec;
use crate::schema::FieldV;
use crate::schema::MixinSpec;
use crate::schema::MixinV;
use crate::schema::assoc_set;
use crate::schema::assoc_set_v;
use crate::schema::field_keys;
use crate::schema::fields_v;
use crate::schema::find_mixin;
use crate::schema::has_key;
use crate::schema::lemma_assoc_set_v_keys;
use crate::schema::lemma_assoc_set_v_sorted;
use crate::schema::lemma_has_key_uncons;
use crate::schema::lemma_mixin_map_finite;
use crate::schema::mixin_map;
use crate::schema::mixin_v;
use crate::schema::names_v;
use crate::schema::sorted_keys;
use crate::strutil::str_eq;

verus! {

// ---------------------------------------------------------------------------
// Copying one mixin's fields into a field list.
// ---------------------------------------------------------------------------

/// Copies mixin fields into a field list in order, overwriting entries of
/// the same name: last writer wins.
pub open spec fn set_all_v(
    f: Seq<(Seq<char>, FieldV)>,
    mf: Seq<(Seq<char>, FieldV)>,
) -> Seq<(Seq<char>, FieldV)>
    decreases mf.len(),
{
    if mf.len() == 0 {
        f
    } else {
        set_all_v(assoc_set_v(f, mf[0].0, mf[0].1), mf.drop_first())
    }
}

/// Copying mixin fields adds exactly the mixin's keys.
pub proof fn lemma_set_all_v_keys(f: Seq<(Seq<char>, FieldV)>, mf: Seq<(Seq<char>, FieldV)>)
    ensures
        field_keys(set_all_v(f, mf)) == field_keys(f) + field_keys(mf),
    decreases mf.len(),
{
    if mf.len() == 0 {
        assert(field_keys(set_all_v(f, mf)) =~= field_keys(f) + field_keys(mf));
    } else {
        lemma_assoc_set_v_keys(f, mf[0].0, mf[0].1);
        lemma_set_all_v_keys(assoc_set_v(f, mf[0].0, mf[0].1), mf.drop_first());
        assert forall|x: Seq<char>| #[trigger] has_key(mf, x) <==> (mf[0].0 == x || has_key(
            mf.drop_first(),
            x,
        )) by {
            lemma_has_key_uncons(mf, x);
        }
        assert(field_keys(set_all_v(f, mf)) =~= field_keys(f) + field_keys(mf));
    }
}

/// Copying mixin fields keeps the keys sorted.
pub proof fn lemma_set_all_v_sorted(f: Seq<(Seq<char>, FieldV)>, mf: Seq<(Seq<char>, FieldV)>)
    requires
        sorted_keys(f),
    ensures
        sorted_keys(set_all_v(f, mf)),
    decreases mf.len(),
{
    if mf.len() > 0 {
        lemma_assoc_set_v_sorted(f, mf[0].0, mf[0].1);
        lemma_set_all_v_sorted(assoc_set_v(f, mf[0].0, mf[0].1), mf.drop_first());
    }
}

/// Copies a mixin's fields into a sorted field list.
fn set_all(fields: &mut Vec<(String, FieldSpec)>, mf: &Vec<(String, FieldSpec)>)
    requires
        sorted_keys(fields_v(old(fields)@)),
    ensures
        fields_v(final(fields)@) == set_all_v(fields_v(old(fields)@), fields_v(mf@)),
        sorted_keys(fields_v(final(fields)@)),
{
    let n = mf.len();
    let mut i: usize = 0;
    proof {
        assert(fields_v(mf@).skip(0) =~= fields_v(mf@));
    }
    #[verifier::loop_isolation(false)]
    while i < n
        invariant
            i <= n,
            sorted_keys(fields_v(fields@)),
            set_all_v(fields_v(fields@), fields_v(mf@).skip(i as int)) == set_all_v(
                fields_v(old(fields)@),
                fields_v(mf@),
            ),
        decreases n - i,
    {
        let (name, spec) = (&mf[i].0, &mf[i].1);
        proof {
            assert(fields_v(mf@).skip(i as int)[0] == fields_v(mf@)[i as int]);
            assert(fields_v(mf@).skip(i as int).drop_first() =~= fields_v(mf@).skip(i as int + 1));
        }
        assoc_set(fields, name.clone(), spec.clone());
        i = i + 1;
    }
    proof {
        assert(fields_v(mf@).skip(n as int) =~= Seq::<(Seq<char>, FieldV)>::empty());
    }
}

// ---------------------------------------------------------------------------
// The resolution walk, as a specification.
// ---------------------------------------------------------------------------

/// One step of the mixin walk from the end of the queue. `Err` carries the
/// name of a referenced mixin absent from the table.
pub open spec fn resolve_rec(
    t: Map<Seq<char>, MixinV>,
    queue: Seq<Seq<char>>,
    visited: Set<Seq<char>>,
    order: Seq<Seq<char>>,
    fields: Seq<(Seq<char>, FieldV)>,
) -> Result<(Seq<Seq<char>>, Seq<(Seq<char>, FieldV)>), Seq<char>>
    decreases t.dom().len() - visited.len(), queue.len(),
        when t.dom().finite() && visited.finite() && visited.subset_of(t.dom())
        via resolve_rec_decreases
{
    if queue.len() == 0 {
        Ok((order, fields))
    } else {
        let name = queue.last();
        let rest = queue.drop_last();
        if visited.contains(name) {
            resolve_rec(t, rest, visited, order, fields)
        } else if !t.dom().contains(name) {
            Err(name)
        } else {
            resolve_rec(
                t,
                rest + t[name].derives,
                visited.insert(name),
                order.push(name),
                set_all_v(fields, t[name].fields),
            )
        }
    }
}

#[via_fn]
proof fn resolve_rec_decreases(
    t: Map<Seq<char>, MixinV>,
    queue: Seq<Seq<char>>,
    visited: Set<Seq<char>>,
    order: Seq<Seq<char>>,
    fields: Seq<(Seq<char>, FieldV)>,
) {
    broadcast use vstd::set::group_set_axioms;

    vstd::set_lib::lemma_len_subset(visited, t.dom());
    if queue.len() > 0 {
        let name = queue.last();
        if !visited.contains(name) && t.dom().contains(name) {
            vstd::set_lib::lemma_len_subset(visited.insert(name), t.dom());
        }
    }
}

/// The resolution an element's own derives list starts.
pub open spec fn resolve_of(
    t: Map<Seq<char>, MixinV>,
    derives: Seq<Seq<char>>,
    fields: Seq<(Seq<char>, FieldV)>,
) -> Result<(Seq<Seq<char>>, Seq<(Seq<char>, FieldV)>), Seq<char>> {
    resolve_rec(t, derives, Set::empty(), Seq::empty(), fields)
}

// ---------------------------------------------------------------------------
// Reachability in the mixin graph.
// ---------------------------------------------------------------------------

/// One edge: mixin `a` is in the table and lists `b` among its derives.
pub open spec fn step_ok(t: Map<Seq<char>, MixinV>, a: Seq<char>, b: Seq<char>) -> bool {
    t.dom().contains(a) && t[a].derives.contains(b)
}

/// A walk from some root to `x` along derive edges.
pub open spec fn is_path(
    t: Map<Seq<char>, MixinV>,
    roots: Set<Seq<char>>,
    p: Seq<Seq<char>>,
    x: Seq<char>,
) -> bool {
    &&& p.len() > 0
    &&& roots.contains(p[0])
    &&& p.last() == x
    &&& forall|i: int| 0 <= i < p.len() - 1 ==> step_ok(t, p[i], #[trigger] p[i + 1])
}

/// `x` is a root or lies on a derive walk from one.
pub open spec fn reaches(
    t: Map<Seq<char>, MixinV>,
    roots: Set<Seq<char>>,
    x: Seq<char>,
) -> bool {
    exists|p: Seq<Seq<char>>| is_path(t, roots, p, x)
}

/// Every name some derive walk reaches from the roots.
pub open spec fn reach_set(t: Map<Seq<char>, MixinV>, roots: Set<Seq<char>>) -> Set<Seq<char>> {
    Set::new(|x: Seq<char>| reaches(t, roots, x))
}

/// Each root reaches itself.
pub proof fn lemma_reaches_root(t: Map<Seq<char>, MixinV>, roots: Set<Seq<char>>, x: Seq<char>)
    requires
        roots.contains(x),
    ensures
        reaches(t, roots, x),
{
    let p = seq![x];
    assert(is_path(t, roots, p, x));
}

/// A derive edge extends reachability.
pub proof fn lemma_reaches_step(
    t: Map<Seq<char>, MixinV>,
    roots: Set<Seq<char>>,
    x: Seq<char>,
    y: Seq<char>,
)
    requires
        reaches(t, roots, x),
        step_ok(t, x, y),
    ensures
        reaches(t, roots, y),
{
    let p = choose|p: Seq<Seq<char>>| is_path(t, roots, p, x);
    let p2 = p.push(y);
    assert forall|i: int| 0 <= i < p2.len() - 1 implies step_ok(t, p2[i], #[trigger] p2[i + 1]) by {
        if i < p.len() - 1 {
            assert(p2[i] == p[i]);
            assert(p2[i + 1] == p[i + 1]);
        } else {
            assert(p2[i] == p.last());
            assert(p2[i + 1] == y);
        }
    }
    assert(is_path(t, roots, p2, y));
}

/// A set that holds the roots and is closed under derive edges.
pub open spec fn closed_under_derives(t: Map<Seq<char>, MixinV>, c: Set<Seq<char>>) -> bool {
    forall|a: Seq<char>, b: Seq<char>|
        c.contains(a) && #[trigger] step_ok(t, a, b) ==> c.contains(b)
}

proof fn lemma_path_in_closed(
    t: Map<Seq<char>, MixinV>,
    roots: Set<Seq<char>>,
    c: Set<Seq<char>>,
    p: Seq<Seq<char>>,
    x: Seq<char>,
)
    requires
        is_path(t, roots, p, x),
        roots.subset_of(c),
        closed_under_derives(t, c),
    ensures
        c.contains(x),
    decreases p.len(),
{
    if p.len() == 1 {
        assert(x == p[0]);
    } else {
        let p0 = p.drop_last();
        assert forall|i: int| 0 <= i < p0.len() - 1 implies step_ok(
            t,
            p0[i],
            #[trigger] p0[i + 1],
        ) by {
            assert(p0[i] == p[i]);
            assert(p0[i + 1] == p[i + 1]);
        }
        assert(is_path(t, roots, p0, p0.last()));
        lemma_path_in_closed(t, roots, c, p0, p0.last());
        assert(p0.last() == p[p.len() - 2]);
        assert(step_ok(t, p[p.len() - 2], p[p.len() - 2 + 1]));
    }
}

/// A closed set holding the roots holds everything they reach.
pub proof fn lemma_reach_in_closed(
    t: Map<Seq<char>, MixinV>,
    roots: Set<Seq<char>>,
    c: Set<Seq<char>>,
    x: Seq<char>,
)
    requires
        reaches(t, roots, x),
        roots.subset_of(c),
        closed_under_derives(t, c),
    ensures
        c.contains(x),
{
    let p = choose|p: Seq<Seq<char>>| is_path(t, roots, p, x);
    lemma_path_in_closed(t, roots, c, p, x);
}

/// What the reachable mixins contribute to a field map: every key of a
/// field of a reachable mixin that the table holds.
pub open spec fn mixin_contrib(t: Map<Seq<char>, MixinV>, s: Set<Seq<char>>) -> Set<Seq<char>> {
    Set::new(
        |x: Seq<char>|
            exists|v: Seq<char>|
                #[trigger] s.contains(v) && t.dom().contains(v) && has_key(t[v].fields, x),
    )
}

// ---------------------------------------------------------------------------
// The characterization of a completed walk.
// ---------------------------------------------------------------------------

/// A completed walk visits exactly the reachable names, each once, and its
/// field map gains exactly the keys the reachable mixins contribute.
pub proof fn lemma_resolve_characterization(
    t: Map<Seq<char>, MixinV>,
    roots: Set<Seq<char>>,
    queue: Seq<Seq<char>>,
    visited: Set<Seq<char>>,
    order: Seq<Seq<char>>,
    fields: Seq<(Seq<char>, FieldV)>,
)
    requires
        t.dom().finite(),
        visited.finite(),
        visited.subset_of(t.dom()),
        order.to_set() == visited,
        order.no_duplicates(),
        forall|v: Seq<char>, b: Seq<char>|
            visited.contains(v) && #[trigger] step_ok(t, v, b) ==> visited.contains(b)
                || queue.contains(b),
        forall|x: Seq<char>| #[trigger] visited.contains(x) ==> reaches(t, roots, x),
        forall|x: Seq<char>| #[trigger] queue.contains(x) ==> reaches(t, roots, x),
        forall|x: Seq<char>|
            #[trigger] roots.contains(x) ==> visited.contains(x) || queue.contains(x),
        resolve_rec(t, queue, visited, order, fields) is Ok,
    ensures
        (resolve_rec(t, queue, visited, order, fields)->Ok_0).0.to_set() == reach_set(t, roots),
        (resolve_rec(t, queue, visited, order, fields)->Ok_0).0.no_duplicates(),
        field_keys((resolve_rec(t, queue, visited, order, fields)->Ok_0).1) == field_keys(fields)
            + mixin_contrib(t, reach_set(t, roots) - visited),
    decreases t.dom().len() - visited.len(), queue.len(),
{
    broadcast use vstd::set::group_set_axioms;

    vstd::set_lib::lemma_len_subset(visited, t.dom());
    let r = resolve_rec(t, queue, visited, order, fields);
    if queue.len() == 0 {
        // the walk is complete: the visited set is closed and holds the
        // roots, so it is exactly the reachable set
        assert forall|x: Seq<char>| reach_set(t, roots).contains(x) implies visited.contains(
            x,
        ) by {
            lemma_reach_in_closed(t, roots, visited, x);
        }
        assert forall|x: Seq<char>| visited.contains(x) implies reach_set(t, roots).contains(
            x,
        ) by {}
        assert(order.to_set() =~= reach_set(t, roots));
        assert(reach_set(t, roots) - visited =~= Set::<Seq<char>>::empty());
        assert(field_keys(fields) =~= field_keys(fields) + mixin_contrib(
            t,
            reach_set(t, roots) - visited,
        ));
    } else {
        let name = queue.last();
        let rest = queue.drop_last();
        assert(queue.contains(name));
        if visited.contains(name) {
            assert forall|b: Seq<char>| #[trigger] rest.contains(b) implies queue.contains(b) by {
                let i = choose|i: int| 0 <= i < rest.len() && rest[i] == b;
                assert(queue[i] == b);
            }
            assert forall|v: Seq<char>, b: Seq<char>|
                visited.contains(v) && #[trigger] step_ok(t, v, b) implies visited.contains(b)
                || rest.contains(b) by {
                if !visited.contains(b) {
                    let i = choose|i: int| 0 <= i < queue.len() && queue[i] == b;
                    if i == queue.len() - 1 {
                        assert(b == name);
                    } else {
                        assert(rest[i] == b);
                    }
                }
            }
            assert forall|x: Seq<char>| #[trigger] roots.contains(x) implies visited.contains(x)
                || rest.contains(x) by {
                if queue.contains(x) && !visited.contains(x) {
                    let i = choose|i: int| 0 <= i < queue.len() && queue[i] == x;
                    if i == queue.len() - 1 {
                        assert(x == name);
                    } else {
                        assert(rest[i] == x);
                    }
                }
            }
            lemma_resolve_characterization(t, roots, rest, visited, order, fields);
        } else {
            assert(t.dom().contains(name));
            let q2 = rest + t[name].derives;
            let visited2 = visited.insert(name);
            let order2 = order.push(name);
            let fields2 = set_all_v(fields, t[name].fields);
            assert(!order.contains(name));
            assert(order2.to_set() =~= visited2) by {
                assert forall|x: Seq<char>| order2.contains(x) <==> (order.contains(x) || x
                    == name) by {
                    if order2.contains(x) {
                        let i = choose|i: int| 0 <= i < order2.len() && order2[i] == x;
                        if i < order.len() {
                            assert(order[i] == x);
                        }
                    }
                    if order.contains(x) {
                        let i = choose|i: int| 0 <= i < order.len() && order[i] == x;
                        assert(order2[i] == x);
                    }
                    assert(order2[order.len() as int] == name);
                }
            }
            assert(order2.no_duplicates()) by {
                assert forall|i: int, j: int|
                    0 <= i < order2.len() && 0 <= j < order2.len() && i != j implies order2[i]
                    != order2[j] by {
                    if i < order.len() && j < order.len() {
                    } else if i < order.len() {
                        assert(order.contains(order[i]));
                    } else if j < order.len() {
                        assert(order.contains(order[j]));
                    }
                }
            }
            // every queue member still queued or newly queued stays covered
            assert forall|b: Seq<char>| #[trigger] rest.contains(b) implies q2.contains(b) by {
                let i = choose|i: int| 0 <= i < rest.len() && rest[i] == b;
                assert(q2[i] == b);
            }
            assert forall|b: Seq<char>| #[trigger] t[name].derives.contains(b) implies q2.contains(
                b,
            ) by {
                let i = choose|i: int| 0 <= i < t[name].derives.len() && t[name].derives[i] == b;
                assert(q2[rest.len() + i] == b);
            }
            assert forall|v: Seq<char>, b: Seq<char>|
                visited2.contains(v) && #[trigger] step_ok(t, v, b) implies visited2.contains(b)
                || q2.contains(b) by {
                if v == name {
                    assert(t[name].derives.contains(b));
                    assert(q2.contains(b));
                } else {
                    assert(visited.contains(v));
                    assert(visited.contains(b) || queue.contains(b));
                    if visited.contains(b) {
                        assert(visited2.contains(b));
                    } else {
                        let i = choose|i: int| 0 <= i < queue.len() && queue[i] == b;
                        if i == queue.len() - 1 {
                            assert(b == name);
                            assert(visited2.contains(b));
                        } else {
                            assert(rest[i] == b);
                            assert(rest.contains(b));
                            assert(q2.contains(b));
                        }
                    }
                }
            }
            assert(reaches(t, roots, name));
            assert forall|x: Seq<char>| #[trigger] visited2.contains(x) implies reaches(
                t,
                roots,
                x,
            ) by {}
            assert forall|x: Seq<char>| #[trigger] q2.contains(x) implies reaches(t, roots, x) by {
                let i = choose|i: int| 0 <= i < q2.len() && q2[i] == x;
                if i < rest.len() {
                    assert(queue[i] == x);
                    assert(queue.contains(x));
                } else {
                    assert(t[name].derives[i - rest.len()] == x);
                    assert(step_ok(t, name, x));
                    lemma_reaches_step(t, roots, name, x);
                }
            }
            assert forall|x: Seq<char>| #[trigger] roots.contains(x) implies visited2.contains(x)
                || q2.contains(x) by {
                assert(visited.contains(x) || queue.contains(x));
                if visited.contains(x) {
                    assert(visited2.contains(x));
                } else {
                    let i = choose|i: int| 0 <= i < queue.len() && queue[i] == x;
                    if i == queue.len() - 1 {
                        assert(x == name);
                        assert(visited2.contains(x));
                    } else {
                        assert(rest[i] == x);
                        assert(rest.contains(x));
                        assert(q2.contains(x));
                    }
                }
            }
            vstd::set_lib::lemma_len_subset(visited2, t.dom());
            lemma_resolve_characterization(t, roots, q2, visited2, order2, fields2);
            // recompose the key-set equation around the newly visited mixin
            lemma_set_all_v_keys(fields, t[name].fields);
            assert(reach_set(t, roots).contains(name));
            assert(reach_set(t, roots) - visited =~= (reach_set(t, roots) - visited2).insert(
                name,
            ));
            assert(mixin_contrib(t, (reach_set(t, roots) - visited2).insert(name))
                =~= mixin_contrib(t, reach_set(t, roots) - visited2) + field_keys(
                t[name].fields,
            )) by {
                let s2 = reach_set(t, roots) - visited2;
                assert forall|x: Seq<char>|
                    mixin_contrib(t, s2.insert(name)).contains(x) implies mixin_contrib(
                    t,
                    s2,
                ).contains(x) || field_keys(t[name].fields).contains(x) by {
                    let v = choose|v: Seq<char>|
                        #[trigger] s2.insert(name).contains(v) && t.dom().contains(v) && has_key(
                            t[v].fields,
                            x,
                        );
                    if v != name {
                        assert(s2.contains(v));
                    }
                }
                assert forall|x: Seq<char>|
                    mixin_contrib(t, s2).contains(x) || field_keys(t[name].fields).contains(
                    x,
                ) implies mixin_contrib(t, s2.insert(name)).contains(x) by {
                    if mixin_contrib(t, s2).contains(x) {
                        let v = choose|v: Seq<char>|
                            #[trigger] s2.contains(v) && t.dom().contains(v) && has_key(
                                t[v].fields,
                                x,
                            );
                        assert(s2.insert(name).contains(v));
                    } else {
                        assert(s2.insert(name).contains(name));
                    }
                }
            }
            assert(field_keys((r->Ok_0).1) =~= field_keys(fields) + mixin_contrib(
                t,
                reach_set(t, roots) - visited,
            ));
        }
    }
}

// ---------------------------------------------------------------------------
// The executable resolver.
// ---------------------------------------------------------------------------

/// Whether a name list holds a given name.
fn contains_name(v: &Vec<String>, name: &str) -> (r: bool)
    ensures
        r == names_v(v@).contains(name@),
{
    let n = v.len();
    let mut i: usize = 0;
    loop
        invariant
            i <= n,
            n == v@.len(),
            forall|j: int| 0 <= j < i ==> names_v(v@)[j] != name@,
        decreases n - i,
    {
        if i >= n {
            return false;
        }
        if str_eq(v[i].as_str(), name) {
            assert(names_v(v@)[i as int] == name@);
            return true;
        }
        i = i + 1;
    }
}

/// Resolves one element against the mixin table: its `derives` become the
/// deduplicated list of every mixin reached, in the order expanded, and
/// its fields absorb every reached mixin's fields, later expansions
/// overwriting earlier entries of the same name. A missing mixin is a
/// fatal configuration error, reported with the offending name.
pub fn resolve_element(elem: ElementSpec, mixins: &Vec<MixinSpec>) -> (r: Result<
    ElementSpec,
    String,
>)
    requires
        sorted_keys(fields_v(elem.fields@)),
    ensures
        match r {
            Ok(out) => {
                &&& resolve_of(mixin_map(mixins@), names_v(elem.derives@), fields_v(elem.fields@))
                    matches Ok(expect)
                &&& names_v(out.derives@) == expect.0
                &&& fields_v(out.fields@) == expect.1
                &&& sorted_keys(fields_v(out.fields@))
                &&& names_v(out.derives@).no_duplicates()
                &&& out.name@ == elem.name@
                &&& out.element_types@ == elem.element_types@
                &&& out.valid_child_types@ == elem.valid_child_types@
                &&& out.constructor_params@ == elem.constructor_params@
            },
            Err(msg) => {
                &&& resolve_of(mixin_map(mixins@), names_v(elem.derives@), fields_v(elem.fields@))
                    matches Err(missing)
                &&& msg@ == "Derivable "@ + missing + " not found"@
            },
        },
{
    broadcast use vstd::set::group_set_axioms;

    let ghost t = mixin_map(mixins@);
    proof {
        lemma_mixin_map_finite(mixins@);
    }
    let ElementSpec {
        name: elem_name,
        derives: elem_derives,
        fields: mut fields,
        element_types,
        valid_child_types,
        constructor_params,
    } = elem;
    let mut queue: Vec<String> = elem_derives;
    let mut processed: Vec<String> = Vec::new();
    let mut all_derives: Vec<String> = Vec::new();
    proof {
        assert(names_v(processed@) =~= Seq::<Seq<char>>::empty());
        assert(names_v(all_derives@) =~= Seq::<Seq<char>>::empty());
        assert(names_v(processed@).to_set() =~= Set::<Seq<char>>::empty());
    }
    #[verifier::loop_isolation(false)]
    while queue.len() > 0
        invariant
            sorted_keys(fields_v(fields@)),
            names_v(processed@).to_set().finite(),
            names_v(processed@).to_set().subset_of(t.dom()),
            names_v(all_derives@) == names_v(processed@),
            resolve_rec(
                t,
                names_v(queue@),
                names_v(processed@).to_set(),
                names_v(all_derives@),
                fields_v(fields@),
            ) == resolve_of(t, names_v(elem.derives@), fields_v(elem.fields@)),
        decreases t.dom().len() - names_v(processed@).to_set().len(), queue@.len(),
    {
        let ghost q0 = names_v(queue@);
        let ghost v0 = names_v(processed@).to_set();
        let ghost o0 = names_v(all_derives@);
        let ghost f0 = fields_v(fields@);
        proof {
            vstd::set_lib::lemma_len_subset(v0, t.dom());
        }
        let name = match queue.pop() {
            Some(n) => n,
            None => {
                break ;
            },
        };
        proof {
            assert(names_v(queue@) =~= q0.drop_last());
            assert(q0.last() == name@);
        }
        if contains_name(&processed, name.as_str()) {
            proof {
                assert(v0.contains(name@));
                assert(resolve_rec(t, q0, v0, o0, f0) == resolve_rec(
                    t,
                    q0.drop_last(),
                    v0,
                    o0,
                    f0,
                ));
            }
            continue ;
        }
        proof {
            assert(!names_v(processed@).contains(name@));
            assert(!v0.contains(name@));
        }
        match find_mixin(mixins, name.as_str()) {
            None => {
                let mut msg = String::new();
                msg.append("Derivable ");
                msg.append(name.as_str());
                msg.append(" not found");
                proof {
                    assert(resolve_rec(t, q0, v0, o0, f0) == Err::<
                        (Seq<Seq<char>>, Seq<(Seq<char>, FieldV)>),
                        Seq<char>,
                    >(name@));
                    assert(msg@ =~= "Derivable "@ + name@ + " not found"@);
                }
                return Err(msg);
            },
            Some(mixin) => {
                proof {
                    assert(t.dom().contains(name@));
                    assert(mixin_v(*mixin) == t[name@]);
                    assert(resolve_rec(t, q0, v0, o0, f0) == resolve_rec(
                        t,
                        q0.drop_last() + t[name@].derives,
                        v0.insert(name@),
                        o0.push(name@),
                        set_all_v(f0, t[name@].fields),
                    ));
                }
                all_derives.push(name.clone());
                set_all(&mut fields, &mixin.fields);
                let ghost qbase = names_v(queue@);
                let dn = mixin.derives.len();
                let mut di: usize = 0;
                #[verifier::loop_isolation(false)]
                while di < dn
                    invariant
                        di <= dn,
                        names_v(queue@) == qbase + names_v(mixin.derives@).take(di as int),
                    decreases dn - di,
                {
                    let ghost qq = names_v(queue@);
                    queue.push(mixin.derives[di].clone());
                    proof {
                        assert(names_v(queue@) =~= qq.push(names_v(mixin.derives@)[di as int]));
                        assert(qq.push(names_v(mixin.derives@)[di as int]) =~= qbase + names_v(
                            mixin.derives@,
                        ).take(di as int + 1));
                    }
                    di = di + 1;
                }
                let ghost pp = names_v(processed@);
                processed.push(name);
                proof {
                    assert(names_v(mixin.derives@).take(dn as int) =~= names_v(mixin.derives@));
                    assert(names_v(queue@) == qbase + t[name@].derives);
                    assert(qbase =~= q0.drop_last());
                    assert(names_v(all_derives@) =~= o0.push(name@));
                    assert(names_v(processed@) =~= pp.push(name@));
                    assert(pp.to_set() == v0);
                    pp.lemma_push_to_set_commute(name@);
                    assert(names_v(processed@).to_set() =~= v0.insert(name@));
                    assert(fields_v(fields@) == set_all_v(f0, t[name@].fields));
                    vstd::set::axiom_set_insert_len(v0, name@);
                    vstd::set_lib::lemma_len_subset(names_v(processed@).to_set(), t.dom());
                    assert(names_v(processed@).to_set().len() == v0.len() + 1);
                }
            },
        }
    }
    proof {
        assert(names_v(queue@).len() == 0);
        assert(resolve_rec(
            t,
            names_v(queue@),
            names_v(processed@).to_set(),
            names_v(all_derives@),
            fields_v(fields@),
        ) == Ok::<(Seq<Seq<char>>, Seq<(Seq<char>, FieldV)>), Seq<char>>((
            names_v(all_derives@),
            fields_v(fields@),
        )));
        let r0 = resolve_of(t, names_v(elem.derives@), fields_v(elem.fields@));
        lemma_resolve_of_characterized(t, names_v(elem.derives@), fields_v(elem.fields@));
    }
    let out = ElementSpec {
        name: elem_name,
        derives: all_derives,
        fields,
        element_types,
        valid_child_types,
        constructor_params,
    };
    Ok(out)
}

// ---------------------------------------------------------------------------
// The laws of resolution.
// ---------------------------------------------------------------------------

/// Resolution from an empty visited state: the provenance list holds
/// exactly the reachable mixins, each once, and the field keys grow by
/// exactly what those mixins contribute.
pub proof fn lemma_resolve_of_characterized(
    t: Map<Seq<char>, MixinV>,
    derives: Seq<Seq<char>>,
    fields: Seq<(Seq<char>, FieldV)>,
)
    requires
        t.dom().finite(),
        resolve_of(t, derives, fields) is Ok,
    ensures
        (resolve_of(t, derives, fields)->Ok_0).0.to_set() == reach_set(t, derives.to_set()),
        (resolve_of(t, derives, fields)->Ok_0).0.no_duplicates(),
        field_keys((resolve_of(t, derives, fields)->Ok_0).1) == field_keys(fields) + mixin_contrib(
            t,
            reach_set(t, derives.to_set()),
        ),
{
    broadcast use vstd::set::group_set_axioms;

    let roots = derives.to_set();
    assert forall|x: Seq<char>| #[trigger] derives.contains(x) implies reaches(t, roots, x) by {
        lemma_reaches_root(t, roots, x);
    }
    assert(Seq::<Seq<char>>::empty().to_set() =~= Set::<Seq<char>>::empty());
    lemma_resolve_characterization(t, roots, derives, Set::empty(), Seq::empty(), fields);
    assert(reach_set(t, roots) - Set::<Seq<char>>::empty() =~= reach_set(t, roots));
}


/// A walk completes exactly when every name reachable from the roots is
/// in the mixin table; the queue's order never decides success.
pub proof fn lemma_resolve_success_criterion(
    t: Map<Seq<char>, MixinV>,
    roots: Set<Seq<char>>,
    queue: Seq<Seq<char>>,
    visited: Set<Seq<char>>,
    order: Seq<Seq<char>>,
    fields: Seq<(Seq<char>, FieldV)>,
)
    requires
        t.dom().finite(),
        visited.finite(),
        visited.subset_of(t.dom()),
        forall|v: Seq<char>, b: Seq<char>|
            visited.contains(v) && #[trigger] step_ok(t, v, b) ==> visited.contains(b)
                || queue.contains(b),
        forall|x: Seq<char>| #[trigger] visited.contains(x) ==> reaches(t, roots, x),
        forall|x: Seq<char>| #[trigger] queue.contains(x) ==> reaches(t, roots, x),
        forall|x: Seq<char>|
            #[trigger] roots.contains(x) ==> visited.contains(x) || queue.contains(x),
    ensures
        resolve_rec(t, queue, visited, order, fields) is Ok <==> (forall|x: Seq<char>|
            #[trigger] reaches(t, roots, x) ==> t.dom().contains(x)),
    decreases t.dom().len() - visited.len(), queue.len(),
{
    broadcast use vstd::set::group_set_axioms;

    vstd::set_lib::lemma_len_subset(visited, t.dom());
    if queue.len() == 0 {
        assert forall|x: Seq<char>| #[trigger] reaches(t, roots, x) implies t.dom().contains(
            x,
        ) by {
            lemma_reach_in_closed(t, roots, visited, x);
        }
    } else {
        let name = queue.last();
        let rest = queue.drop_last();
        assert(queue.contains(name));
        if visited.contains(name) {
            assert forall|v: Seq<char>, b: Seq<char>|
                visited.contains(v) && #[trigger] step_ok(t, v, b) implies visited.contains(b)
                || rest.contains(b) by {
                if !visited.contains(b) {
                    let i = choose|i: int| 0 <= i < queue.len() && queue[i] == b;
                    if i == queue.len() - 1 {
                        assert(b == name);
                    } else {
                        assert(rest[i] == b);
                    }
                }
            }
            assert forall|b: Seq<char>| #[trigger] rest.contains(b) implies queue.contains(b) by {
                let i = choose|i: int| 0 <= i < rest.len() && rest[i] == b;
                assert(queue[i] == b);
            }
            assert forall|x: Seq<char>| #[trigger] roots.contains(x) implies visited.contains(x)
                || rest.contains(x) by {
                if !visited.contains(x) {
                    let i = choose|i: int| 0 <= i < queue.len() && queue[i] == x;
                    if i == queue.len() - 1 {
                        assert(x == name);
                    } else {
                        assert(rest[i] == x);
                    }
                }
            }
            lemma_resolve_success_criterion(t, roots, rest, visited, order, fields);
        } else if !t.dom().contains(name) {
            assert(reaches(t, roots, name));
        } else {
            let q2 = rest + t[name].derives;
            let visited2 = visited.insert(name);
            assert forall|b: Seq<char>| #[trigger] rest.contains(b) implies q2.contains(b) by {
                let i = choose|i: int| 0 <= i < rest.len() && rest[i] == b;
                assert(q2[i] == b);
            }
            assert forall|b: Seq<char>| #[trigger] t[name].derives.contains(b) implies q2.contains(
                b,
            ) by {
                let i = choose|i: int| 0 <= i < t[name].derives.len() && t[name].derives[i] == b;
                assert(q2[rest.len() + i] == b);
            }
            assert forall|v: Seq<char>, b: Seq<char>|
                visited2.contains(v) && #[trigger] step_ok(t, v, b) implies visited2.contains(b)
                || q2.contains(b) by {
                if v == name {
                    assert(t[name].derives.contains(b));
                    assert(q2.contains(b));
                } else {
                    assert(visited.contains(v));
                    assert(visited.contains(b) || queue.contains(b));
                    if visited.contains(b) {
                        assert(visited2.contains(b));
                    } else {
                        let i = choose|i: int| 0 <= i < queue.len() && queue[i] == b;
                        if i == queue.len() - 1 {
                            assert(b == name);
                            assert(visited2.contains(b));
                        } else {
                            assert(rest[i] == b);
                            assert(rest.contains(b));
                            assert(q2.contains(b));
                        }
                    }
                }
            }
            assert(reaches(t, roots, name));
            assert forall|x: Seq<char>| #[trigger] visited2.contains(x) implies reaches(
                t,
                roots,
                x,
            ) by {}
            assert forall|x: Seq<char>| #[trigger] q2.contains(x) implies reaches(t, roots, x) by {
                let i = choose|i: int| 0 <= i < q2.len() && q2[i] == x;
                if i < rest.len() {
                    assert(queue[i] == x);
                    assert(queue.contains(x));
                } else {
                    assert(t[name].derives[i - rest.len()] == x);
                    assert(step_ok(t, name, x));
                    lemma_reaches_step(t, roots, name, x);
                }
            }
            assert forall|x: Seq<char>| #[trigger] roots.contains(x) implies visited2.contains(x)
                || q2.contains(x) by {
                assert(visited.contains(x) || queue.contains(x));
                if visited.contains(x) {
                    assert(visited2.contains(x));
                } else {
                    let i = choose|i: int| 0 <= i < queue.len() && queue[i] == x;
                    if i == queue.len() - 1 {
                        assert(x == name);
                        assert(visited2.contains(x));
                    } else {
                        assert(rest[i] == x);
                        assert(rest.contains(x));
                        assert(q2.contains(x));
                    }
                }
            }
            vstd::set_lib::lemma_len_subset(visited2, t.dom());
            lemma_resolve_success_criterion(
                t,
                roots,
                q2,
                visited2,
                order.push(name),
                set_all_v(fields, t[name].fields),
            );
        }
    }
}

/// Whether a resolution completes depends only on the set of names the
/// derives list holds, never on their order or multiplicity, and not on
/// the fields it starts from.
pub proof fn lemma_resolution_success_order_independent(
    t: Map<Seq<char>, MixinV>,
    derives1: Seq<Seq<char>>,
    derives2: Seq<Seq<char>>,
    fields1: Seq<(Seq<char>, FieldV)>,
    fields2: Seq<(Seq<char>, FieldV)>,
)
    requires
        t.dom().finite(),
        derives1.to_set() == derives2.to_set(),
    ensures
        resolve_of(t, derives1, fields1) is Ok <==> resolve_of(t, derives2, fields2) is Ok,
{
    broadcast use vstd::set::group_set_axioms;

    let roots = derives1.to_set();
    assert forall|x: Seq<char>| #[trigger] derives1.contains(x) implies reaches(t, roots, x) by {
        lemma_reaches_root(t, roots, x);
    }
    assert forall|x: Seq<char>| #[trigger] derives2.contains(x) implies reaches(t, roots, x) by {
        assert(roots.contains(x));
        lemma_reaches_root(t, roots, x);
    }
    assert forall|x: Seq<char>| #[trigger] roots.contains(x) implies derives1.contains(x) by {}
    assert forall|x: Seq<char>| #[trigger] roots.contains(x) implies derives2.contains(x) by {
        assert(derives2.to_set().contains(x));
    }
    lemma_resolve_success_criterion(t, roots, derives1, Set::empty(), Seq::empty(), fields1);
    lemma_resolve_success_criterion(t, roots, derives2, Set::empty(), Seq::empty(), fields2);
}

/// Mixin flattening is order-independent on the resulting field-name set:
/// two derives lists naming the same mixins, in any order and multiplicity,
/// give the same resolved field names (and the same provenance set).
pub proof fn lemma_resolution_order_independent(
    t: Map<Seq<char>, MixinV>,
    derives1: Seq<Seq<char>>,
    derives2: Seq<Seq<char>>,
    fields: Seq<(Seq<char>, FieldV)>,
)
    requires
        t.dom().finite(),
        derives1.to_set() == derives2.to_set(),
        resolve_of(t, derives1, fields) is Ok,
        resolve_of(t, derives2, fields) is Ok,
    ensures
        field_keys((resolve_of(t, derives1, fields)->Ok_0).1) == field_keys(
            (resolve_of(t, derives2, fields)->Ok_0).1,
        ),
        (resolve_of(t, derives1, fields)->Ok_0).0.to_set() == (resolve_of(
            t,
            derives2,
            fields,
        )->Ok_0).0.to_set(),
{
    lemma_resolve_of_characterized(t, derives1, fields);
    lemma_resolve_of_characterized(t, derives2, fields);
}

/// Mixin flattening is idempotent on the field-name set: resolving again
/// from the flattened fields and the recorded provenance adds no name.
pub proof fn lemma_resolution_idempotent(
    t: Map<Seq<char>, MixinV>,
    derives: Seq<Seq<char>>,
    fields: Seq<(Seq<char>, FieldV)>,
)
    requires
        t.dom().finite(),
        resolve_of(t, derives, fields) is Ok,
        resolve_of(
            t,
            (resolve_of(t, derives, fields)->Ok_0).0,
            (resolve_of(t, derives, fields)->Ok_0).1,
        ) is Ok,
    ensures
        field_keys(
            (resolve_of(
                t,
                (resolve_of(t, derives, fields)->Ok_0).0,
                (resolve_of(t, derives, fields)->Ok_0).1,
            )->Ok_0).1,
        ) == field_keys((resolve_of(t, derives, fields)->Ok_0).1),
{
    broadcast use vstd::set::group_set_axioms;

    let r1 = resolve_of(t, derives, fields)->Ok_0;
    lemma_resolve_of_characterized(t, derives, fields);
    lemma_resolve_of_characterized(t, r1.0, r1.1);
    let roots = derives.to_set();
    let rs = reach_set(t, roots);
    // the provenance set is exactly the reachable set, which is closed,
    // so a second walk reaches nothing new
    assert(r1.0.to_set() == rs);
    assert forall|x: Seq<char>| reach_set(t, rs).contains(x) implies rs.contains(x) by {
        assert forall|a: Seq<char>, b: Seq<char>|
            rs.contains(a) && #[trigger] step_ok(t, a, b) implies rs.contains(b) by {
            lemma_reaches_step(t, roots, a, b);
        }
        lemma_reach_in_closed(t, rs, rs, x);
    }
    assert forall|x: Seq<char>| rs.contains(x) implies reach_set(t, rs).contains(x) by {
        lemma_reaches_root(t, rs, x);
    }
    assert(reach_set(t, rs) =~= rs);
    // and its contributions are already among the resolved keys
    assert(field_keys(r1.1) == field_keys(fields) + mixin_contrib(t, rs));
    assert(field_keys(r1.1) + mixin_contrib(t, rs) =~= field_keys(r1.1));
}

} // verus!
