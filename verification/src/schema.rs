//! The schema model: elements, attribute mixins ("derivables"), categories
//! and global attribute bindings, as loaded from the configuration, with
//! their mathematical views and the sorted association-list operations the
//! resolution passes use.

use vstd::prelude::*;

use crate::strutil::lex_lt;
use crate::strutil::lemma_lex_lt_irreflexive;
use crate::strutil::lemma_lex_lt_trichotomy;
use crate::strutil::lemma_lex_lt_transitive;
use crate::strutil::str_eq;
use crate::strutil::str_lt;

verus! {

/// One attribute slot: its type token, and whether the value is supplied
/// through the constructor rather than a builder method.
#[derive(Debug)]
pub struct FieldSpec {
    pub type_token: String,
    pub from_constructor: bool,
}

impl Clone for FieldSpec {
    /// The clone carries the same view.
    fn clone(&self) -> (r: Self)
        ensures
            field_v(r) == field_v(*self),
    {
        FieldSpec { type_token: self.type_token.clone(), from_constructor: self.from_constructor }
    }
}

/// The view of one attribute slot.
pub struct FieldV {
    pub ty: Seq<char>,
    pub from_ctor: bool,
}

/// The view of a field specification.
pub open spec fn field_v(f: FieldSpec) -> FieldV {
    FieldV { ty: f.type_token@, from_ctor: f.from_constructor }
}

/// The view of a named-field list.
pub open spec fn fields_v(s: Seq<(String, FieldSpec)>) -> Seq<(Seq<char>, FieldV)> {
    s.map_values(|p: (String, FieldSpec)| (p.0@, field_v(p.1)))
}

/// The view of a name list.
pub open spec fn names_v(s: Seq<String>) -> Seq<Seq<char>> {
    s.map_values(|x: String| x@)
}

/// A required constructor argument.
#[derive(Debug)]
pub struct ParamSpec {
    pub name: String,
    pub type_token: String,
}

/// A reusable named bundle of attribute fields; it may itself derive
/// further bundles, forming a graph that need not be acyclic.
#[derive(Debug)]
pub struct MixinSpec {
    pub name: String,
    pub fields: Vec<(String, FieldSpec)>,
    pub derives: Vec<String>,
}

/// The view of one mixin.
pub struct MixinV {
    pub fields: Seq<(Seq<char>, FieldV)>,
    pub derives: Seq<Seq<char>>,
}

/// The view of a mixin specification.
pub open spec fn mixin_v(m: MixinSpec) -> MixinV {
    MixinV { fields: fields_v(m.fields@), derives: names_v(m.derives@) }
}

/// The mixin table as a map from mixin name to its view; a repeated name
/// shadows earlier entries.
pub open spec fn mixin_map(t: Seq<MixinSpec>) -> Map<Seq<char>, MixinV>
    decreases t.len(),
{
    if t.len() == 0 {
        Map::empty()
    } else {
        mixin_map(t.drop_last()).insert(t.last().name@, mixin_v(t.last()))
    }
}

/// The mixin table's domain is finite.
pub proof fn lemma_mixin_map_finite(t: Seq<MixinSpec>)
    ensures
        mixin_map(t).dom().finite(),
    decreases t.len(),
{
    if t.len() > 0 {
        lemma_mixin_map_finite(t.drop_last());
    }
}

/// The last entry bearing a name decides what the table maps it to.
pub proof fn lemma_mixin_map_get(t: Seq<MixinSpec>, i: int)
    requires
        0 <= i < t.len(),
        forall|j: int| i < j < t.len() ==> t[j].name@ != t[i].name@,
    ensures
        mixin_map(t).dom().contains(t[i].name@),
        mixin_map(t)[t[i].name@] == mixin_v(t[i]),
    decreases t.len(),
{
    if i < t.len() - 1 {
        lemma_mixin_map_get(t.drop_last(), i);
        assert(t.drop_last()[i] == t[i]);
    }
}

/// A name no entry bears is absent from the table.
pub proof fn lemma_mixin_map_absent(t: Seq<MixinSpec>, k: Seq<char>)
    requires
        forall|j: int| 0 <= j < t.len() ==> t[j].name@ != k,
    ensures
        !mixin_map(t).dom().contains(k),
    decreases t.len(),
{
    if t.len() > 0 {
        lemma_mixin_map_absent(t.drop_last(), k);
    }
}

/// Looks a mixin up by name; with repeated names the last entry wins,
/// as in the table view.
pub fn find_mixin<'a>(t: &'a Vec<MixinSpec>, name: &str) -> (r: Option<&'a MixinSpec>)
    ensures
        match r {
            Some(m) => mixin_map(t@).dom().contains(name@) && mixin_v(*m) == mixin_map(t@)[name@],
            None => !mixin_map(t@).dom().contains(name@),
        },
{
    let n = t.len();
    let mut i: usize = n;
    loop
        invariant
            i <= n,
            n == t@.len(),
            forall|j: int| i <= j < n ==> t@[j].name@ != name@,
        decreases i,
    {
        if i == 0 {
            proof {
                lemma_mixin_map_absent(t@, name@);
            }
            return None;
        }
        i = i - 1;
        if str_eq(t[i].name.as_str(), name) {
            proof {
                lemma_mixin_map_get(t@, i as int);
            }
            return Some(&t[i]);
        }
    }
}

/// One element of the schema.
#[derive(Debug)]
pub struct ElementSpec {
    pub name: String,
    pub derives: Vec<String>,
    pub fields: Vec<(String, FieldSpec)>,
    pub element_types: Vec<String>,
    pub valid_child_types: Vec<String>,
    pub constructor_params: Vec<ParamSpec>,
}

/// One element category: a marker with no data beyond its name.
#[derive(Debug)]
pub struct CategorySpec {
    pub name: String,
}

/// One global attribute binding: an attribute injected into the field
/// maps of the named elements.
#[derive(Debug)]
pub struct AttributeSpec {
    pub name: String,
    pub elements: Vec<String>,
    pub attribute_type: String,
}

/// The whole configuration.
#[derive(Debug)]
pub struct Config {
    pub elements: Vec<ElementSpec>,
    pub derives: Vec<MixinSpec>,
    pub element_types: Vec<CategorySpec>,
    pub attributes: Vec<AttributeSpec>,
}

/// Finds the position of an element by name.
pub fn find_element_index(t: &Vec<ElementSpec>, name: &str) -> (r: Option<usize>)
    ensures
        match r {
            Some(i) => i < t@.len() && t@[i as int].name@ == name@ && forall|j: int|
                0 <= j < i ==> t@[j].name@ != name@,
            None => forall|j: int| 0 <= j < t@.len() ==> t@[j].name@ != name@,
        },
{
    let n = t.len();
    let mut i: usize = 0;
    loop
        invariant
            i <= n,
            n == t@.len(),
            forall|j: int| 0 <= j < i ==> t@[j].name@ != name@,
        decreases n - i,
    {
        if i >= n {
            return None;
        }
        if str_eq(t[i].name.as_str(), name) {
            return Some(i);
        }
        i = i + 1;
    }
}

/// The view of one element.
pub struct ElementV {
    pub name: Seq<char>,
    pub derives: Seq<Seq<char>>,
    pub fields: Seq<(Seq<char>, FieldV)>,
    pub element_types: Seq<Seq<char>>,
    pub valid_child_types: Seq<Seq<char>>,
    pub ctor_params: Seq<(Seq<char>, Seq<char>)>,
}

/// The view of an element specification.
pub open spec fn elem_v(e: ElementSpec) -> ElementV {
    ElementV {
        name: e.name@,
        derives: names_v(e.derives@),
        fields: fields_v(e.fields@),
        element_types: names_v(e.element_types@),
        valid_child_types: names_v(e.valid_child_types@),
        ctor_params: e.constructor_params@.map_values(
            |p: ParamSpec| (p.name@, p.type_token@),
        ),
    }
}

/// The view of an element table.
pub open spec fn elems_v(s: Seq<ElementSpec>) -> Seq<ElementV> {
    s.map_values(|e: ElementSpec| elem_v(e))
}

/// The view of one global attribute binding.
pub struct AttrV {
    pub name: Seq<char>,
    pub elements: Seq<Seq<char>>,
    pub ty: Seq<char>,
}

/// The view of an attribute specification.
pub open spec fn attr_v(a: AttributeSpec) -> AttrV {
    AttrV { name: a.name@, elements: names_v(a.elements@), ty: a.attribute_type@ }
}

/// The view of an attribute table.
pub open spec fn attrs_v(s: Seq<AttributeSpec>) -> Seq<AttrV> {
    s.map_values(|a: AttributeSpec| attr_v(a))
}

// ---------------------------------------------------------------------------
// Sorted association lists of fields.
// ---------------------------------------------------------------------------

/// Keys strictly ascending in lexicographic order; this implies they are
/// pairwise distinct.
pub open spec fn sorted_keys(s: Seq<(Seq<char>, FieldV)>) -> bool {
    forall|i: int, j: int| 0 <= i < j < s.len() ==> lex_lt(s[i].0, s[j].0)
}

/// Whether a field list holds an entry with the given key.
pub open spec fn has_key(s: Seq<(Seq<char>, FieldV)>, x: Seq<char>) -> bool {
    exists|i: int| 0 <= i < s.len() && s[i].0 == x
}

/// The set of keys of a field list.
pub open spec fn field_keys(s: Seq<(Seq<char>, FieldV)>) -> Set<Seq<char>> {
    Set::new(|x: Seq<char>| has_key(s, x))
}

/// Inserting a field: replaces the entry bearing the key, or places a new
/// entry at its sorted position.
pub open spec fn assoc_set_v(
    s: Seq<(Seq<char>, FieldV)>,
    k: Seq<char>,
    v: FieldV,
) -> Seq<(Seq<char>, FieldV)>
    decreases s.len(),
{
    if s.len() == 0 {
        seq![(k, v)]
    } else if lex_lt(s[0].0, k) {
        seq![s[0]] + assoc_set_v(s.drop_first(), k, v)
    } else if s[0].0 == k {
        seq![(k, v)] + s.drop_first()
    } else {
        seq![(k, v)] + s
    }
}

/// Prepending an entry adds exactly its key to what a list holds.
pub proof fn lemma_has_key_cons(hd: (Seq<char>, FieldV), tl: Seq<(Seq<char>, FieldV)>, x: Seq<char>)
    ensures
        has_key(seq![hd] + tl, x) <==> (hd.0 == x || has_key(tl, x)),
{
    let s = seq![hd] + tl;
    if has_key(s, x) {
        let i = choose|i: int| 0 <= i < s.len() && s[i].0 == x;
        if i > 0 {
            assert(tl[i - 1] == s[i]);
        }
    }
    if hd.0 == x {
        assert(s[0].0 == x);
    }
    if has_key(tl, x) {
        let i = choose|i: int| 0 <= i < tl.len() && tl[i].0 == x;
        assert(s[i + 1] == tl[i]);
    }
}

/// A nonempty list holds its head key and its tail's keys, nothing else.
pub proof fn lemma_has_key_uncons(s: Seq<(Seq<char>, FieldV)>, x: Seq<char>)
    requires
        s.len() > 0,
    ensures
        has_key(s, x) <==> (s[0].0 == x || has_key(s.drop_first(), x)),
{
    assert(seq![s[0]] + s.drop_first() =~= s);
    lemma_has_key_cons(s[0], s.drop_first(), x);
}

/// Inserting a field adds exactly its key to the key set.
pub proof fn lemma_assoc_set_v_keys(s: Seq<(Seq<char>, FieldV)>, k: Seq<char>, v: FieldV)
    ensures
        field_keys(assoc_set_v(s, k, v)) == field_keys(s).insert(k),
    decreases s.len(),
{
    let out = assoc_set_v(s, k, v);
    if s.len() == 0 {
        assert forall|x: Seq<char>| #[trigger] has_key(out, x) <==> (x == k || has_key(s, x)) by {
            lemma_has_key_cons((k, v), Seq::empty(), x);
            assert(out =~= seq![(k, v)] + Seq::<(Seq<char>, FieldV)>::empty());
        }
    } else if lex_lt(s[0].0, k) {
        let rest = s.drop_first();
        lemma_assoc_set_v_keys(rest, k, v);
        assert forall|x: Seq<char>| #[trigger] has_key(out, x) <==> (x == k || has_key(s, x)) by {
            lemma_has_key_cons(s[0], assoc_set_v(rest, k, v), x);
            lemma_has_key_uncons(s, x);
            assert(has_key(assoc_set_v(rest, k, v), x) <==> field_keys(assoc_set_v(rest, k, v))
                .contains(x));
            assert(field_keys(assoc_set_v(rest, k, v)).contains(x) <==> field_keys(rest).insert(
                k,
            ).contains(x));
        }
    } else if s[0].0 == k {
        assert forall|x: Seq<char>| #[trigger] has_key(out, x) <==> (x == k || has_key(s, x)) by {
            lemma_has_key_cons((k, v), s.drop_first(), x);
            lemma_has_key_uncons(s, x);
        }
    } else {
        assert forall|x: Seq<char>| #[trigger] has_key(out, x) <==> (x == k || has_key(s, x)) by {
            lemma_has_key_cons((k, v), s, x);
        }
    }
    assert(field_keys(out) =~= field_keys(s).insert(k));
}

/// Inserting a field keeps the keys sorted.
pub proof fn lemma_assoc_set_v_sorted(s: Seq<(Seq<char>, FieldV)>, k: Seq<char>, v: FieldV)
    requires
        sorted_keys(s),
    ensures
        sorted_keys(assoc_set_v(s, k, v)),
    decreases s.len(),
{
    if s.len() == 0 {
    } else if lex_lt(s[0].0, k) {
        assert forall|i: int, j: int| 0 <= i < j < s.drop_first().len() implies lex_lt(
            s.drop_first()[i].0,
            s.drop_first()[j].0,
        ) by {
            assert(s[i + 1] == s.drop_first()[i]);
            assert(s[j + 1] == s.drop_first()[j]);
        }
        lemma_assoc_set_v_sorted(s.drop_first(), k, v);
        let out = seq![s[0]] + assoc_set_v(s.drop_first(), k, v);
        // every key in the recursive result is either a tail key or `k`,
        // and both lie strictly above the head key
        assert forall|i: int, j: int| 0 <= i < j < out.len() implies lex_lt(out[i].0, out[j].0) by {
            if i == 0 {
                lemma_assoc_set_v_key_lower(s.drop_first(), k, v, out[j].0, j - 1, s[0].0);
            }
        }
    } else if s[0].0 == k {
        assert forall|i: int, j: int| 0 <= i < j < assoc_set_v(s, k, v).len() implies lex_lt(
            assoc_set_v(s, k, v)[i].0,
            assoc_set_v(s, k, v)[j].0,
        ) by {
            if i == 0 {
                assert(assoc_set_v(s, k, v)[j] == s[j]);
            } else {
                assert(assoc_set_v(s, k, v)[i] == s[i]);
                assert(assoc_set_v(s, k, v)[j] == s[j]);
            }
        }
    } else {
        lemma_lex_lt_trichotomy(s[0].0, k);
        assert(lex_lt(k, s[0].0));
        assert forall|i: int, j: int| 0 <= i < j < assoc_set_v(s, k, v).len() implies lex_lt(
            assoc_set_v(s, k, v)[i].0,
            assoc_set_v(s, k, v)[j].0,
        ) by {
            if i == 0 {
                if j == 1 {
                } else {
                    assert(assoc_set_v(s, k, v)[j] == s[j - 1]);
                    lemma_lex_lt_transitive(k, s[0].0, s[j - 1].0);
                }
            } else {
                assert(assoc_set_v(s, k, v)[i] == s[i - 1]);
                assert(assoc_set_v(s, k, v)[j] == s[j - 1]);
            }
        }
    }
}

/// Every key of the inserted list above a lower bound below both `k` and
/// the old keys stays above that bound.
proof fn lemma_assoc_set_v_key_lower(
    s: Seq<(Seq<char>, FieldV)>,
    k: Seq<char>,
    v: FieldV,
    key: Seq<char>,
    j: int,
    lo: Seq<char>,
)
    requires
        lex_lt(lo, k),
        forall|i: int| 0 <= i < s.len() ==> lex_lt(lo, s[i].0),
        0 <= j < assoc_set_v(s, k, v).len(),
        assoc_set_v(s, k, v)[j].0 == key,
    ensures
        lex_lt(lo, key),
    decreases s.len(),
{
    if s.len() == 0 {
    } else if lex_lt(s[0].0, k) {
        if j > 0 {
            assert forall|i: int| 0 <= i < s.drop_first().len() implies lex_lt(
                lo,
                s.drop_first()[i].0,
            ) by {
                assert(s.drop_first()[i] == s[i + 1]);
            }
            lemma_assoc_set_v_key_lower(s.drop_first(), k, v, key, j - 1, lo);
        }
    } else if s[0].0 == k {
        if j > 0 {
            assert(assoc_set_v(s, k, v)[j] == s[j]);
        }
    } else {
        if j > 0 {
            assert(assoc_set_v(s, k, v)[j] == s[j - 1]);
        }
    }
}

/// Inserts a field into a sorted field list, replacing an entry bearing
/// the same name.
pub fn assoc_set(fields: &mut Vec<(String, FieldSpec)>, key: String, val: FieldSpec)
    requires
        sorted_keys(fields_v(old(fields)@)),
    ensures
        fields_v(final(fields)@) == assoc_set_v(fields_v(old(fields)@), key@, field_v(val)),
        sorted_keys(fields_v(final(fields)@)),
{
    proof {
        lemma_assoc_set_v_sorted(fields_v(fields@), key@, field_v(val));
    }
    let ghost orig = fields_v(old(fields)@);
    let n = fields.len();
    let i = lower_bound(fields, key.as_str());
    if i < n && str_eq(fields[i].0.as_str(), key.as_str()) {
        fields.remove(i);
        fields.insert(i, (key, val));
        proof {
            lemma_assoc_set_unfold(orig, key@, field_v(val), i as int, true);
            assert(fields_v(fields@) =~= orig.take(i as int) + (seq![(key@, field_v(val))]
                + orig.skip(i as int).drop_first()));
        }
    } else {
        if i < n {
            proof {
                lemma_lex_lt_trichotomy(fields_v(fields@)[i as int].0, key@);
            }
        }
        fields.insert(i, (key, val));
        proof {
            lemma_assoc_set_unfold(orig, key@, field_v(val), i as int, false);
            assert(fields_v(fields@) =~= orig.take(i as int) + (seq![(key@, field_v(val))]
                + orig.skip(i as int)));
        }
    }
}

/// The position of the first key not below `key`.
fn lower_bound(fields: &Vec<(String, FieldSpec)>, key: &str) -> (i: usize)
    ensures
        i <= fields@.len(),
        forall|j: int| 0 <= j < i ==> lex_lt(fields_v(fields@)[j].0, key@),
        i < fields@.len() ==> !lex_lt(fields_v(fields@)[i as int].0, key@),
{
    let n = fields.len();
    let mut i: usize = 0;
    loop
        invariant
            i <= n,
            n == fields@.len(),
            forall|j: int| 0 <= j < i ==> lex_lt(fields_v(fields@)[j].0, key@),
        decreases n - i,
    {
        if i >= n {
            return i;
        }
        if str_lt(fields[i].0.as_str(), key) {
            i = i + 1;
        } else {
            return i;
        }
    }
}

/// Unrolls the insertion spec past a sorted prefix of keys below `k`:
/// the result is that prefix, then the new entry, then what follows
/// (without the replaced entry, when one is replaced).
proof fn lemma_assoc_set_unfold(
    s: Seq<(Seq<char>, FieldV)>,
    k: Seq<char>,
    v: FieldV,
    i: int,
    replacing: bool,
)
    requires
        0 <= i <= s.len(),
        forall|j: int| 0 <= j < i ==> lex_lt(s[j].0, k),
        replacing ==> i < s.len() && s[i].0 == k,
        !replacing && i < s.len() ==> !lex_lt(s[i].0, k) && s[i].0 != k,
    ensures
        replacing ==> assoc_set_v(s, k, v) == s.take(i) + (seq![(k, v)] + s.skip(i).drop_first()),
        !replacing ==> assoc_set_v(s, k, v) == s.take(i) + (seq![(k, v)] + s.skip(i)),
    decreases i,
{
    if i == 0 {
        assert(s.take(0) =~= Seq::<(Seq<char>, FieldV)>::empty());
        if s.len() == 0 {
            assert(s.skip(0) =~= s);
            assert(assoc_set_v(s, k, v) =~= s.take(0) + (seq![(k, v)] + s.skip(0)));
        } else {
            assert(s.skip(0) =~= s);
            if replacing {
                lemma_lex_lt_irreflexive(s[0].0);
                assert(assoc_set_v(s, k, v) =~= s.take(0) + (seq![(k, v)] + s.skip(0).drop_first()));
            } else {
                lemma_lex_lt_irreflexive(s[0].0);
                assert(assoc_set_v(s, k, v) =~= s.take(0) + (seq![(k, v)] + s.skip(0)));
            }
        }
    } else {
        assert(lex_lt(s[0].0, k));
        let rest = s.drop_first();
        assert forall|j: int| 0 <= j < i - 1 implies lex_lt(rest[j].0, k) by {
            assert(rest[j] == s[j + 1]);
        }
        if replacing {
            assert(rest[i - 1] == s[i]);
        } else if i < s.len() {
            assert(rest[i - 1] == s[i]);
        }
        lemma_assoc_set_unfold(rest, k, v, i - 1, replacing);
        if replacing {
            assert(rest.skip(i - 1) =~= s.skip(i));
            assert(seq![s[0]] + (rest.take(i - 1) + (seq![(k, v)] + rest.skip(i - 1).drop_first()))
                =~= s.take(i) + (seq![(k, v)] + s.skip(i).drop_first()));
        } else {
            assert(rest.skip(i - 1) =~= s.skip(i));
            assert(seq![s[0]] + (rest.take(i - 1) + (seq![(k, v)] + rest.skip(i - 1))) =~= s.take(i)
                + (seq![(k, v)] + s.skip(i)));
        }
    }
}

} // verus!
