//! The code synthesizers: from a resolved schema they emit, as source
//! text, one capability trait per category, a record type, constructor,
//! builder methods, child-acceptance methods and a renderer per element,
//! the conversion of each element into the closed union, and the union
//! itself.

use vstd::prelude::*;

use crate::schema::ElementSpec;
use crate::schema::fields_v;
use crate::schema::names_v;
use crate::strutil::camel_to_snake;
use crate::strutil::capitalize;
use crate::strutil::spec_camel_to_snake;
use crate::strutil::spec_capitalize;
use crate::strutil::str_eq;

verus! {

// ---------------------------------------------------------------------------
// Generic folds over item texts.
// ---------------------------------------------------------------------------

/// The concatenation of a sequence of texts, in order.
pub open spec fn concat_all(s: Seq<Seq<char>>) -> Seq<char>
    decreases s.len(),
{
    if s.len() == 0 {
        Seq::empty()
    } else {
        concat_all(s.drop_last()) + s.last()
    }
}

/// Growing a prefix of the fold by one item appends exactly its text.
pub proof fn lemma_concat_prefix_step(base: Seq<char>, s: Seq<Seq<char>>, k: int)
    requires
        0 < k <= s.len(),
    ensures
        base + concat_all(s.take(k)) == (base + concat_all(s.take(k - 1))) + s[k - 1],
{
    assert(s.take(k).drop_last() =~= s.take(k - 1));
    assert(s.take(k).last() == s[k - 1]);
    vstd::seq_lib::lemma_concat_associative(base, concat_all(s.take(k - 1)), s[k - 1]);
}

/// An empty prefix adds nothing.
pub proof fn lemma_concat_prefix_zero(base: Seq<char>, s: Seq<Seq<char>>)
    ensures
        base + concat_all(s.take(0)) == base,
{
    assert(s.take(0) =~= Seq::<Seq<char>>::empty());
    assert(base + concat_all(s.take(0)) =~= base);
}

/// The full prefix is the whole fold.
pub proof fn lemma_concat_prefix_full(base: Seq<char>, s: Seq<Seq<char>>)
    ensures
        base + concat_all(s.take(s.len() as int)) == base + concat_all(s),
{
    assert(s.take(s.len() as int) =~= s);
}

/// Texts joined by a separator.
pub open spec fn sep_concat(s: Seq<Seq<char>>, sep: Seq<char>) -> Seq<char>
    decreases s.len(),
{
    if s.len() == 0 {
        Seq::empty()
    } else if s.len() == 1 {
        s[0]
    } else {
        sep_concat(s.drop_last(), sep) + sep + s.last()
    }
}

/// Growing a joined prefix appends the separator (except first) and the item.
pub proof fn lemma_sep_prefix_step(base: Seq<char>, s: Seq<Seq<char>>, sep: Seq<char>, k: int)
    requires
        0 < k <= s.len(),
    ensures
        base + sep_concat(s.take(k), sep) == if k == 1 {
            base + s[0]
        } else {
            ((base + sep_concat(s.take(k - 1), sep)) + sep) + s[k - 1]
        },
{
    assert(s.take(k).drop_last() =~= s.take(k - 1));
    assert(s.take(k).last() == s[k - 1]);
    if k == 1 {
        assert(s.take(1)[0] == s[0]);
        assert(base + sep_concat(s.take(1), sep) =~= base + s[0]);
    } else {
        vstd::seq_lib::lemma_concat_associative(base, sep_concat(s.take(k - 1), sep), sep);
        vstd::seq_lib::lemma_concat_associative(
            base + sep_concat(s.take(k - 1), sep),
            sep,
            s[k - 1],
        );
        assert(base + (sep_concat(s.take(k - 1), sep) + sep + s[k - 1]) =~= ((base + sep_concat(
            s.take(k - 1),
            sep,
        )) + sep) + s[k - 1]);
    }
}

// ---------------------------------------------------------------------------
// Category traits.
// ---------------------------------------------------------------------------

/// The capability declaration one category becomes.
pub open spec fn cat_trait_text(name: Seq<char>) -> Seq<char> {
    "pub trait "@ + name + ": Into<Shape> + Clone {}\n"@
}

/// The capability declarations of every category, in table order.
pub open spec fn cat_traits_text(names: Seq<Seq<char>>) -> Seq<char> {
    concat_all(names.map_values(|n: Seq<char>| cat_trait_text(n)))
}

/// Emits one capability marker per category.
pub fn generate_category_traits(categories: &Vec<crate::schema::CategorySpec>) -> (r: String)
    ensures
        r@ == cat_traits_text(
            categories@.map_values(|c: crate::schema::CategorySpec| c.name@),
        ),
{
    let ghost items = categories@.map_values(|c: crate::schema::CategorySpec| c.name@).map_values(
        |n: Seq<char>| cat_trait_text(n),
    );
    let mut out = String::new();
    let n = categories.len();
    let mut i: usize = 0;
    proof {
        lemma_concat_prefix_zero(Seq::empty(), items);
        assert(out@ =~= Seq::<char>::empty() + concat_all(items.take(0)));
    }
    #[verifier::loop_isolation(false)]
    while i < n
        invariant
            i <= n,
            out@ == Seq::<char>::empty() + concat_all(items.take(i as int)),
        decreases n - i,
    {
        out.append("pub trait ");
        out.append(categories[i].name.as_str());
        out.append(": Into<Shape> + Clone {}\n");
        proof {
            lemma_concat_prefix_step(Seq::empty(), items, i as int + 1);
            assert(items[i as int] == cat_trait_text(categories@[i as int].name@));
        }
        i = i + 1;
    }
    proof {
        lemma_concat_prefix_full(Seq::empty(), items);
        assert(Seq::<char>::empty() + concat_all(items) =~= concat_all(items));
    }
    out
}

// ---------------------------------------------------------------------------
// The conversion of one element into the union.
// ---------------------------------------------------------------------------

/// The conversion impl one element gets: wrapping itself in its variant.
pub open spec fn shape_from_text(name: Seq<char>) -> Seq<char> {
    let cap = spec_capitalize(name);
    let snake = spec_camel_to_snake(name);
    "impl From<"@ + cap + "> for Shape {\n    fn from("@ + snake + ": "@ + cap
        + ") -> Self {\n        Self::"@ + cap + "("@ + snake + ")\n    }\n}\n"@
}

/// Emits the conversion of one element type into the union.
pub fn generate_shape_from(name: &str) -> (r: String)
    ensures
        r@ == shape_from_text(name@),
{
    let cap = capitalize(name);
    let snake = camel_to_snake(name);
    let mut out = String::new();
    out.append("impl From<");
    out.append(cap.as_str());
    out.append("> for Shape {\n    fn from(");
    out.append(snake.as_str());
    out.append(": ");
    out.append(cap.as_str());
    out.append(") -> Self {\n        Self::");
    out.append(cap.as_str());
    out.append("(");
    out.append(snake.as_str());
    out.append(")\n    }\n}\n");
    proof {
        assert(out@ =~= shape_from_text(name@));
    }
    out
}

// ---------------------------------------------------------------------------
// The record type of one element.
// ---------------------------------------------------------------------------

/// One struct field line: the identifier name with the type token verbatim.
pub open spec fn struct_field_text(fname: Seq<char>, ty: Seq<char>) -> Seq<char> {
    "    pub "@ + spec_camel_to_snake(fname) + ": "@ + ty + ",\n"@
}

/// The record type of one element: one field per resolved attribute, in
/// field order, plus the children slot, always present so that rendering
/// can decide between a self-closing and an open tag.
pub open spec fn struct_text(
    name: Seq<char>,
    fields: Seq<(Seq<char>, crate::schema::FieldV)>,
) -> Seq<char> {
    "#[derive(Debug, Clone, Serialize, Deserialize)]\npub struct "@ + spec_capitalize(name)
        + " {\n"@ + concat_all(
        fields.map_values(
            |p: (Seq<char>, crate::schema::FieldV)| struct_field_text(p.0, p.1.ty),
        ),
    ) + "    children: Vec<Shape>,\n}\n"@
}

/// Emits the record type of one element.
pub fn generate_struct(name: &str, element: &ElementSpec) -> (r: String)
    ensures
        r@ == struct_text(name@, fields_v(element.fields@)),
{
    let ghost items = fields_v(element.fields@).map_values(
        |p: (Seq<char>, crate::schema::FieldV)| struct_field_text(p.0, p.1.ty),
    );
    let mut out = String::new();
    out.append("#[derive(Debug, Clone, Serialize, Deserialize)]\npub struct ");
    let cap = capitalize(name);
    out.append(cap.as_str());
    out.append(" {\n");
    let ghost base = "#[derive(Debug, Clone, Serialize, Deserialize)]\npub struct "@
        + spec_capitalize(name@) + " {\n"@;
    let n = element.fields.len();
    let mut i: usize = 0;
    proof {
        lemma_concat_prefix_zero(base, items);
        assert(out@ == base + concat_all(items.take(0)));
    }
    #[verifier::loop_isolation(false)]
    while i < n
        invariant
            i <= n,
            out@ == base + concat_all(items.take(i as int)),
        decreases n - i,
    {
        out.append("    pub ");
        let snake = camel_to_snake(element.fields[i].0.as_str());
        out.append(snake.as_str());
        out.append(": ");
        out.append(element.fields[i].1.type_token.as_str());
        out.append(",\n");
        proof {
            lemma_concat_prefix_step(base, items, i as int + 1);
            assert(fields_v(element.fields@)[i as int] == (
                element.fields@[i as int].0@,
                crate::schema::field_v(element.fields@[i as int].1),
            ));
            assert(items[i as int] == struct_field_text(
                element.fields@[i as int].0@,
                element.fields@[i as int].1.type_token@,
            ));
        }
        i = i + 1;
    }
    proof {
        lemma_concat_prefix_full(base, items);
    }
    out.append("    children: Vec<Shape>,\n}\n");
    proof {
        assert(out@ == struct_text(name@, fields_v(element.fields@)));
    }
    out
}

} // verus!

verus! {

// ---------------------------------------------------------------------------
// The closed union.
// ---------------------------------------------------------------------------

/// One union variant line.
pub open spec fn enum_variant_text(name: Seq<char>) -> Seq<char> {
    "    "@ + spec_capitalize(name) + "("@ + spec_capitalize(name) + "),\n"@
}

/// One dispatch arm of the union's renderer.
pub open spec fn enum_arm_text(name: Seq<char>) -> Seq<char> {
    "            Shape::"@ + spec_capitalize(name) + "("@ + spec_camel_to_snake(name) + ") => "@
        + spec_camel_to_snake(name) + ".to_string(),\n"@
}

/// The head of the union declaration.
pub open spec fn enum_head_text() -> Seq<char> {
    "#[derive(Debug, Clone, Serialize, Deserialize)]\n#[serde(tag = \"type\")]\npub enum Shape {\n"@
}

/// The text between the variants and the renderer arms: the raw-text
/// variant, its conversion, and the renderer's head.
pub open spec fn enum_mid_text() -> Seq<char> {
    "    String(String),\n}\nimpl From<String> for Shape {\n    fn from(string: String) -> Self {\n        Self::String(string)\n    }\n}\nimpl std::fmt::Display for Shape {\n    fn fmt(&self, f: &mut std::fmt::Formatter<'_>) -> std::fmt::Result {\n        let display_str = match self {\n"@
}

/// The tail of the union's renderer: the raw-text arm returns the literal
/// text verbatim.
pub open spec fn enum_tail_text() -> Seq<char> {
    "            Shape::String(string) => string.to_string(),\n        };\n        write!(f, \"{}\", display_str)\n    }\n}\n"@
}

/// The closed union over every element plus raw text, with its renderer.
pub open spec fn shape_enum_text(names: Seq<Seq<char>>) -> Seq<char> {
    enum_head_text() + concat_all(names.map_values(|n: Seq<char>| enum_variant_text(n)))
        + enum_mid_text() + concat_all(names.map_values(|n: Seq<char>| enum_arm_text(n)))
        + enum_tail_text()
}

/// Emits the closed union: exactly one variant per element plus the
/// raw-text variant, and a renderer that dispatches on the variant tag.
pub fn generate_shape_enum(elements: &Vec<ElementSpec>) -> (r: String)
    ensures
        r@ == shape_enum_text(elements@.map_values(|e: ElementSpec| e.name@)),
{
    let ghost names = elements@.map_values(|e: ElementSpec| e.name@);
    let ghost variants = names.map_values(|n: Seq<char>| enum_variant_text(n));
    let ghost arms = names.map_values(|n: Seq<char>| enum_arm_text(n));
    let mut out = String::new();
    out.append(
        "#[derive(Debug, Clone, Serialize, Deserialize)]\n#[serde(tag = \"type\")]\npub enum Shape {\n",
    );
    let ghost base1 = enum_head_text();
    let n = elements.len();
    let mut i: usize = 0;
    proof {
        lemma_concat_prefix_zero(base1, variants);
        assert(out@ == base1 + concat_all(variants.take(0)));
    }
    #[verifier::loop_isolation(false)]
    while i < n
        invariant
            i <= n,
            out@ == base1 + concat_all(variants.take(i as int)),
        decreases n - i,
    {
        let cap = capitalize(elements[i].name.as_str());
        out.append("    ");
        out.append(cap.as_str());
        out.append("(");
        out.append(cap.as_str());
        out.append("),\n");
        proof {
            lemma_concat_prefix_step(base1, variants, i as int + 1);
            assert(names[i as int] == elements@[i as int].name@);
            assert(variants[i as int] == enum_variant_text(elements@[i as int].name@));
        }
        i = i + 1;
    }
    proof {
        lemma_concat_prefix_full(base1, variants);
    }
    out.append(
        "    String(String),\n}\nimpl From<String> for Shape {\n    fn from(string: String) -> Self {\n        Self::String(string)\n    }\n}\nimpl std::fmt::Display for Shape {\n    fn fmt(&self, f: &mut std::fmt::Formatter<'_>) -> std::fmt::Result {\n        let display_str = match self {\n",
    );
    let ghost base2 = base1 + concat_all(variants) + enum_mid_text();
    let mut j: usize = 0;
    proof {
        lemma_concat_prefix_zero(base2, arms);
        assert(out@ == base2 + concat_all(arms.take(0)));
    }
    #[verifier::loop_isolation(false)]
    while j < n
        invariant
            j <= n,
            out@ == base2 + concat_all(arms.take(j as int)),
        decreases n - j,
    {
        let cap = capitalize(elements[j].name.as_str());
        let snake = camel_to_snake(elements[j].name.as_str());
        out.append("            Shape::");
        out.append(cap.as_str());
        out.append("(");
        out.append(snake.as_str());
        out.append(") => ");
        out.append(snake.as_str());
        out.append(".to_string(),\n");
        proof {
            lemma_concat_prefix_step(base2, arms, j as int + 1);
            assert(names[j as int] == elements@[j as int].name@);
            assert(arms[j as int] == enum_arm_text(elements@[j as int].name@));
        }
        j = j + 1;
    }
    proof {
        lemma_concat_prefix_full(base2, arms);
    }
    out.append(
        "            Shape::String(string) => string.to_string(),\n        };\n        write!(f, \"{}\", display_str)\n    }\n}\n",
    );
    proof {
        assert(out@ == shape_enum_text(names));
    }
    out
}

// ---------------------------------------------------------------------------
// The renderer of one element.
// ---------------------------------------------------------------------------

/// The line that embeds one constructor-sourced value, unconditionally,
/// under its snake-cased name.
pub open spec fn ctor_push_text(pname: Seq<char>) -> Seq<char> {
    "        svg.push_str(&format!(\" "@ + spec_camel_to_snake(pname) + "=\\\"{}\\\"\", self."@
        + spec_camel_to_snake(pname) + "));\n"@
}

/// The conditional that emits one optional attribute only when set,
/// under its literal wire name.
pub open spec fn opt_push_text(wire: Seq<char>) -> Seq<char> {
    "        if let Some(value) = &self."@ + spec_camel_to_snake(wire)
        + " {\n            svg.push_str(&format!(\" "@ + wire
        + "=\\\"{}\\\"\", value));\n        }\n"@
}

/// What one field contributes to the renderer: nothing when the value is
/// constructor-sourced (those were embedded already).
pub open spec fn field_push_text(p: (Seq<char>, crate::schema::FieldV)) -> Seq<char> {
    if p.1.from_ctor {
        Seq::empty()
    } else {
        opt_push_text(p.0)
    }
}

/// The renderer of one element: the literal tag, the constructor values
/// in declared order, each optional attribute only when set, a
/// self-closing tag without children, and otherwise the children in
/// order followed by the literal closing tag.
pub open spec fn to_string_text(
    name: Seq<char>,
    ctor: Seq<(Seq<char>, Seq<char>)>,
    fields: Seq<(Seq<char>, crate::schema::FieldV)>,
) -> Seq<char> {
    "impl std::fmt::Display for "@ + spec_capitalize(name)
        + " {\n    fn fmt(&self, f: &mut std::fmt::Formatter) -> std::fmt::Result {\n        let mut svg = String::new();\n        svg.push_str(\"<"@
        + name + "\");\n"@ + concat_all(
        ctor.map_values(|p: (Seq<char>, Seq<char>)| ctor_push_text(p.0)),
    ) + concat_all(fields.map_values(|p: (Seq<char>, crate::schema::FieldV)| field_push_text(p)))
        + "        if self.children.is_empty() {\n            svg.push_str(\"/>\");\n            return write!(f, \"{}\", svg);\n        }\n        svg.push('>');\n        for child in self.children.iter() {\n            svg.push_str(&child.to_string());\n        }\n        svg.push_str(\"</"@
        + name + ">\");\n        write!(f, \"{}\", svg)\n    }\n}\n"@
}

/// Emits the renderer of one element.
pub fn generate_to_string(name: &str, element: &ElementSpec) -> (r: String)
    ensures
        r@ == to_string_text(
            name@,
            element.constructor_params@.map_values(
                |p: crate::schema::ParamSpec| (p.name@, p.type_token@),
            ),
            fields_v(element.fields@),
        ),
{
    let ghost ctor = element.constructor_params@.map_values(
        |p: crate::schema::ParamSpec| (p.name@, p.type_token@),
    );
    let ghost ctor_items = ctor.map_values(|p: (Seq<char>, Seq<char>)| ctor_push_text(p.0));
    let ghost field_items = fields_v(element.fields@).map_values(
        |p: (Seq<char>, crate::schema::FieldV)| field_push_text(p),
    );
    let mut out = String::new();
    out.append("impl std::fmt::Display for ");
    let cap = capitalize(name);
    out.append(cap.as_str());
    out.append(
        " {\n    fn fmt(&self, f: &mut std::fmt::Formatter) -> std::fmt::Result {\n        let mut svg = String::new();\n        svg.push_str(\"<",
    );
    out.append(name);
    out.append("\");\n");
    let ghost base1 = "impl std::fmt::Display for "@ + spec_capitalize(name@)
        + " {\n    fn fmt(&self, f: &mut std::fmt::Formatter) -> std::fmt::Result {\n        let mut svg = String::new();\n        svg.push_str(\"<"@
        + name@ + "\");\n"@;
    let cn = element.constructor_params.len();
    let mut ci: usize = 0;
    proof {
        lemma_concat_prefix_zero(base1, ctor_items);
        assert(out@ == base1 + concat_all(ctor_items.take(0)));
    }
    #[verifier::loop_isolation(false)]
    while ci < cn
        invariant
            ci <= cn,
            out@ == base1 + concat_all(ctor_items.take(ci as int)),
        decreases cn - ci,
    {
        let snake = camel_to_snake(element.constructor_params[ci].name.as_str());
        out.append("        svg.push_str(&format!(\" ");
        out.append(snake.as_str());
        out.append("=\\\"{}\\\"\", self.");
        out.append(snake.as_str());
        out.append("));\n");
        proof {
            lemma_concat_prefix_step(base1, ctor_items, ci as int + 1);
            assert(ctor[ci as int] == (
                element.constructor_params@[ci as int].name@,
                element.constructor_params@[ci as int].type_token@,
            ));
            assert(ctor_items[ci as int] == ctor_push_text(
                element.constructor_params@[ci as int].name@,
            ));
        }
        ci = ci + 1;
    }
    proof {
        lemma_concat_prefix_full(base1, ctor_items);
    }
    let ghost base2 = base1 + concat_all(ctor_items);
    let fnn = element.fields.len();
    let mut fi: usize = 0;
    proof {
        lemma_concat_prefix_zero(base2, field_items);
        assert(out@ == base2 + concat_all(field_items.take(0)));
    }
    #[verifier::loop_isolation(false)]
    while fi < fnn
        invariant
            fi <= fnn,
            out@ == base2 + concat_all(field_items.take(fi as int)),
        decreases fnn - fi,
    {
        proof {
            assert(fields_v(element.fields@)[fi as int] == (
                element.fields@[fi as int].0@,
                crate::schema::field_v(element.fields@[fi as int].1),
            ));
            assert(field_items[fi as int] == field_push_text(
                fields_v(element.fields@)[fi as int],
            ));
        }
        if !element.fields[fi].1.from_constructor {
            let snake = camel_to_snake(element.fields[fi].0.as_str());
            out.append("        if let Some(value) = &self.");
            out.append(snake.as_str());
            out.append(" {\n            svg.push_str(&format!(\" ");
            out.append(element.fields[fi].0.as_str());
            out.append("=\\\"{}\\\"\", value));\n        }\n");
        }
        proof {
            lemma_concat_prefix_step(base2, field_items, fi as int + 1);
            assert(out@ =~= base2 + concat_all(field_items.take(fi as int + 1)));
        }
        fi = fi + 1;
    }
    proof {
        lemma_concat_prefix_full(base2, field_items);
    }
    out.append(
        "        if self.children.is_empty() {\n            svg.push_str(\"/>\");\n            return write!(f, \"{}\", svg);\n        }\n        svg.push('>');\n        for child in self.children.iter() {\n            svg.push_str(&child.to_string());\n        }\n        svg.push_str(\"</",
    );
    out.append(name);
    out.append(">\");\n        write!(f, \"{}\", svg)\n    }\n}\n");
    proof {
        assert(out@ == to_string_text(
            name@,
            ctor,
            fields_v(element.fields@),
        ));
    }
    out
}

} // verus!

verus! {

// ---------------------------------------------------------------------------
// The impl block of one element.
// ---------------------------------------------------------------------------

/// The value type a builder method takes: the type token with one outer
/// `Option<...>` stripped.
pub open spec fn spec_strip_option(ty: Seq<char>) -> Seq<char> {
    if ty.len() >= 8 && ty.take(7) == "Option<"@ {
        ty.subrange(7, ty.len() - 1)
    } else {
        ty
    }
}

/// Strips one outer `Option<...>` from a type token.
pub fn strip_option(ty: &str) -> (r: String)
    ensures
        r@ == spec_strip_option(ty@),
{
    let n = ty.unicode_len();
    if n >= 8 {
        let head = ty.substring_char(0, 7);
        if str_eq(head, "Option<") {
            proof {
                assert(ty@.take(7) =~= ty@.subrange(0, 7));
            }
            let inner = ty.substring_char(7, n - 1);
            return inner.to_owned();
        }
        proof {
            assert(head@ =~= ty@.take(7));
        }
    }
    proof {
        if ty@.len() >= 8 {
            assert(ty@.subrange(0, 7) =~= ty@.take(7));
        }
    }
    ty.to_owned()
}

/// One category impl line for an element.
pub open spec fn cat_impl_text(cat: Seq<char>, name: Seq<char>) -> Seq<char> {
    "impl "@ + cat + " for "@ + spec_capitalize(name) + " {}\n"@
}

/// The `Default` impl an element without constructor parameters gets.
pub open spec fn default_impl_text(name: Seq<char>) -> Seq<char> {
    "impl Default for "@ + spec_capitalize(name)
        + " {\n    fn default() -> Self {\n        Self::new()\n    }\n}\n"@
}

/// One constructor parameter in the signature.
pub open spec fn ctor_param_text(p: (Seq<char>, Seq<char>)) -> Seq<char> {
    spec_camel_to_snake(p.0) + ": "@ + p.1
}

/// One field initializer in the constructor: from the identically named
/// parameter when constructor-sourced, unset otherwise.
pub open spec fn ctor_assign_text(p: (Seq<char>, crate::schema::FieldV)) -> Seq<char> {
    if p.1.from_ctor {
        "            "@ + spec_camel_to_snake(p.0) + ",\n"@
    } else {
        "            "@ + spec_camel_to_snake(p.0) + ": None,\n"@
    }
}

/// One builder method: named after the field, taking the unwrapped value
/// type, setting the field and returning the instance.
pub open spec fn builder_text(p: (Seq<char>, crate::schema::FieldV)) -> Seq<char> {
    if p.1.from_ctor {
        Seq::empty()
    } else {
        "    pub fn "@ + spec_camel_to_snake(p.0) + "(mut self, value: "@ + spec_strip_option(
            p.1.ty,
        ) + ") -> Self {\n        self."@ + spec_camel_to_snake(p.0)
            + " = Some(value);\n        self\n    }\n"@
    }
}

/// One child-acceptance method for a category entry: generic over any
/// value convertible to the union that satisfies the capability.
pub open spec fn generic_child_text(vct: Seq<char>) -> Seq<char> {
    "    pub fn add_child_"@ + spec_camel_to_snake(vct)
        + "<T>(mut self, child: T) -> Self\n    where\n        T: Into<Shape> + "@ + vct
        + ",\n    {\n        self.children.push(child.into());\n        self\n    }\n"@
}

/// One child-acceptance method for a concrete element entry: specialized
/// to exactly that element type.
pub open spec fn concrete_child_text(vct: Seq<char>) -> Seq<char> {
    "    pub fn add_child_"@ + spec_camel_to_snake(vct) + "(mut self, child: "@ + spec_capitalize(
        vct,
    ) + ") -> Self {\n        self.children.push(child.into());\n        self\n    }\n"@
}

/// The child-acceptance method one entry becomes, depending on whether it
/// names a category or a concrete element.
pub open spec fn child_method_text(vct: Seq<char>, cats: Seq<Seq<char>>) -> Seq<char> {
    if cats.contains(vct) {
        generic_child_text(vct)
    } else {
        concrete_child_text(vct)
    }
}

/// The impl side of one element: its category impls, a `Default` when
/// construction needs no arguments, the constructor, the builder methods
/// and the child-acceptance methods.
pub open spec fn impl_text(
    name: Seq<char>,
    ctor: Seq<(Seq<char>, Seq<char>)>,
    fields: Seq<(Seq<char>, crate::schema::FieldV)>,
    element_types: Seq<Seq<char>>,
    vcts: Seq<Seq<char>>,
    cats: Seq<Seq<char>>,
) -> Seq<char> {
    concat_all(element_types.map_values(|ct: Seq<char>| cat_impl_text(ct, name))) + (
    if ctor.len() == 0 {
        default_impl_text(name)
    } else {
        Seq::empty()
    }) + "impl "@ + spec_capitalize(name) + " {\n    pub fn new("@ + sep_concat(
        ctor.map_values(|p: (Seq<char>, Seq<char>)| ctor_param_text(p)),
        ", "@,
    ) + ") -> Self {\n        Self {\n"@ + concat_all(
        fields.map_values(|p: (Seq<char>, crate::schema::FieldV)| ctor_assign_text(p)),
    ) + "            children: Vec::new(),\n        }\n    }\n"@ + concat_all(
        fields.map_values(|p: (Seq<char>, crate::schema::FieldV)| builder_text(p)),
    ) + concat_all(vcts.map_values(|v: Seq<char>| child_method_text(v, cats))) + "}\n"@
}

/// Whether a name is one of the categories.
fn is_category(categories: &Vec<crate::schema::CategorySpec>, name: &str) -> (r: bool)
    ensures
        r == categories@.map_values(|c: crate::schema::CategorySpec| c.name@).contains(name@),
{
    let ghost cats = categories@.map_values(|c: crate::schema::CategorySpec| c.name@);
    let n = categories.len();
    let mut i: usize = 0;
    #[verifier::loop_isolation(false)]
    loop
        invariant
            i <= n,
            n == categories@.len(),
            forall|j: int| 0 <= j < i ==> cats[j] != name@,
        decreases n - i,
    {
        if i >= n {
            return false;
        }
        if str_eq(categories[i].name.as_str(), name) {
            assert(cats[i as int] == name@);
            return true;
        }
        i = i + 1;
    }
}

/// Emits the impl side of one element.
#[verifier::rlimit(100)]
#[verifier::spinoff_prover]
pub fn generate_impl(
    name: &str,
    element: &ElementSpec,
    categories: &Vec<crate::schema::CategorySpec>,
) -> (r: String)
    ensures
        r@ == impl_text(
            name@,
            element.constructor_params@.map_values(
                |p: crate::schema::ParamSpec| (p.name@, p.type_token@),
            ),
            fields_v(element.fields@),
            names_v(element.element_types@),
            names_v(element.valid_child_types@),
            categories@.map_values(|c: crate::schema::CategorySpec| c.name@),
        ),
{
    let ghost ctor = element.constructor_params@.map_values(
        |p: crate::schema::ParamSpec| (p.name@, p.type_token@),
    );
    let ghost cats = categories@.map_values(|c: crate::schema::CategorySpec| c.name@);
    let ghost cat_items = names_v(element.element_types@).map_values(
        |ct: Seq<char>| cat_impl_text(ct, name@),
    );
    let ghost param_items = ctor.map_values(|p: (Seq<char>, Seq<char>)| ctor_param_text(p));
    let ghost assign_items = fields_v(element.fields@).map_values(
        |p: (Seq<char>, crate::schema::FieldV)| ctor_assign_text(p),
    );
    let ghost builder_items = fields_v(element.fields@).map_values(
        |p: (Seq<char>, crate::schema::FieldV)| builder_text(p),
    );
    let ghost child_items = names_v(element.valid_child_types@).map_values(
        |v: Seq<char>| child_method_text(v, cats),
    );
    let cap = capitalize(name);
    let mut out = String::new();
    let ghost base0 = Seq::<char>::empty();
    let etn = element.element_types.len();
    let mut ei: usize = 0;
    proof {
        lemma_concat_prefix_zero(base0, cat_items);
        assert(out@ =~= base0 + concat_all(cat_items.take(0)));
    }
    #[verifier::loop_isolation(false)]
    while ei < etn
        invariant
            ei <= etn,
            out@ == base0 + concat_all(cat_items.take(ei as int)),
        decreases etn - ei,
    {
        out.append("impl ");
        out.append(element.element_types[ei].as_str());
        out.append(" for ");
        out.append(cap.as_str());
        out.append(" {}\n");
        proof {
            lemma_concat_prefix_step(base0, cat_items, ei as int + 1);
            assert(names_v(element.element_types@)[ei as int]
                == element.element_types@[ei as int]@);
            assert(cat_items[ei as int] == cat_impl_text(
                element.element_types@[ei as int]@,
                name@,
            ));
        }
        ei = ei + 1;
    }
    proof {
        lemma_concat_prefix_full(base0, cat_items);
    }
    if element.constructor_params.len() == 0 {
        out.append("impl Default for ");
        out.append(cap.as_str());
        out.append(" {\n    fn default() -> Self {\n        Self::new()\n    }\n}\n");
    }
    proof {
        assert(out@ =~= base0 + concat_all(cat_items) + (if ctor.len() == 0 {
            default_impl_text(name@)
        } else {
            Seq::<char>::empty()
        }));
    }
    out.append("impl ");
    out.append(cap.as_str());
    out.append(" {\n    pub fn new(");
    let ghost base1 = base0 + concat_all(cat_items) + (if ctor.len() == 0 {
        default_impl_text(name@)
    } else {
        Seq::<char>::empty()
    }) + "impl "@ + spec_capitalize(name@) + " {\n    pub fn new("@;
    let cn = element.constructor_params.len();
    let mut ci: usize = 0;
    proof {
        assert(param_items.take(0) =~= Seq::<Seq<char>>::empty());
        assert(out@ =~= base1 + sep_concat(param_items.take(0), ", "@));
    }
    #[verifier::loop_isolation(false)]
    while ci < cn
        invariant
            ci <= cn,
            out@ == base1 + sep_concat(param_items.take(ci as int), ", "@),
        decreases cn - ci,
    {
        if ci > 0 {
            out.append(", ");
        }
        let snake = camel_to_snake(element.constructor_params[ci].name.as_str());
        out.append(snake.as_str());
        out.append(": ");
        out.append(element.constructor_params[ci].type_token.as_str());
        proof {
            lemma_sep_prefix_step(base1, param_items, ", "@, ci as int + 1);
            assert(ctor[ci as int] == (
                element.constructor_params@[ci as int].name@,
                element.constructor_params@[ci as int].type_token@,
            ));
            assert(param_items[ci as int] == ctor_param_text(ctor[ci as int]));
            if ci == 0 {
                assert(out@ =~= base1 + sep_concat(param_items.take(1), ", "@));
            } else {
                assert(out@ == base1 + sep_concat(param_items.take(ci as int + 1), ", "@));
            }
        }
        ci = ci + 1;
    }
    proof {
        assert(param_items.take(cn as int) =~= param_items);
    }
    out.append(") -> Self {\n        Self {\n");
    let ghost base2 = base1 + sep_concat(param_items, ", "@) + ") -> Self {\n        Self {\n"@;
    let fnn = element.fields.len();
    let mut fi: usize = 0;
    proof {
        lemma_concat_prefix_zero(base2, assign_items);
        assert(out@ == base2 + concat_all(assign_items.take(0)));
    }
    #[verifier::loop_isolation(false)]
    while fi < fnn
        invariant
            fi <= fnn,
            out@ == base2 + concat_all(assign_items.take(fi as int)),
        decreases fnn - fi,
    {
        let snake = camel_to_snake(element.fields[fi].0.as_str());
        out.append("            ");
        out.append(snake.as_str());
        if element.fields[fi].1.from_constructor {
            out.append(",\n");
        } else {
            out.append(": None,\n");
        }
        proof {
            lemma_concat_prefix_step(base2, assign_items, fi as int + 1);
            assert(fields_v(element.fields@)[fi as int] == (
                element.fields@[fi as int].0@,
                crate::schema::field_v(element.fields@[fi as int].1),
            ));
            assert(assign_items[fi as int] == ctor_assign_text(
                fields_v(element.fields@)[fi as int],
            ));
            assert(out@ =~= base2 + concat_all(assign_items.take(fi as int + 1)));
        }
        fi = fi + 1;
    }
    proof {
        lemma_concat_prefix_full(base2, assign_items);
    }
    out.append("            children: Vec::new(),\n        }\n    }\n");
    let ghost base3 = base2 + concat_all(assign_items)
        + "            children: Vec::new(),\n        }\n    }\n"@;
    let mut bi: usize = 0;
    proof {
        lemma_concat_prefix_zero(base3, builder_items);
        assert(out@ == base3 + concat_all(builder_items.take(0)));
    }
    #[verifier::loop_isolation(false)]
    while bi < fnn
        invariant
            bi <= fnn,
            out@ == base3 + concat_all(builder_items.take(bi as int)),
        decreases fnn - bi,
    {
        proof {
            assert(fields_v(element.fields@)[bi as int] == (
                element.fields@[bi as int].0@,
                crate::schema::field_v(element.fields@[bi as int].1),
            ));
            assert(builder_items[bi as int] == builder_text(
                fields_v(element.fields@)[bi as int],
            ));
        }
        if !element.fields[bi].1.from_constructor {
            let snake = camel_to_snake(element.fields[bi].0.as_str());
            let inner = strip_option(element.fields[bi].1.type_token.as_str());
            out.append("    pub fn ");
            out.append(snake.as_str());
            out.append("(mut self, value: ");
            out.append(inner.as_str());
            out.append(") -> Self {\n        self.");
            out.append(snake.as_str());
            out.append(" = Some(value);\n        self\n    }\n");
        }
        proof {
            lemma_concat_prefix_step(base3, builder_items, bi as int + 1);
            assert(out@ =~= base3 + concat_all(builder_items.take(bi as int + 1)));
        }
        bi = bi + 1;
    }
    proof {
        lemma_concat_prefix_full(base3, builder_items);
    }
    let ghost base4 = base3 + concat_all(builder_items);
    let vn = element.valid_child_types.len();
    let mut vi: usize = 0;
    proof {
        lemma_concat_prefix_zero(base4, child_items);
        assert(out@ == base4 + concat_all(child_items.take(0)));
    }
    #[verifier::loop_isolation(false)]
    while vi < vn
        invariant
            vi <= vn,
            out@ == base4 + concat_all(child_items.take(vi as int)),
        decreases vn - vi,
    {
        let vct = &element.valid_child_types[vi];
        let snake = camel_to_snake(vct.as_str());
        proof {
            assert(names_v(element.valid_child_types@)[vi as int]
                == element.valid_child_types@[vi as int]@);
            assert(child_items[vi as int] == child_method_text(vct@, cats));
        }
        if is_category(categories, vct.as_str()) {
            out.append("    pub fn add_child_");
            out.append(snake.as_str());
            out.append("<T>(mut self, child: T) -> Self\n    where\n        T: Into<Shape> + ");
            out.append(vct.as_str());
            out.append(",\n    {\n        self.children.push(child.into());\n        self\n    }\n");
        } else {
            let vcap = capitalize(vct.as_str());
            out.append("    pub fn add_child_");
            out.append(snake.as_str());
            out.append("(mut self, child: ");
            out.append(vcap.as_str());
            out.append(") -> Self {\n        self.children.push(child.into());\n        self\n    }\n");
        }
        proof {
            lemma_concat_prefix_step(base4, child_items, vi as int + 1);
            assert(out@ =~= base4 + concat_all(child_items.take(vi as int + 1)));
        }
        vi = vi + 1;
    }
    proof {
        lemma_concat_prefix_full(base4, child_items);
    }
    out.append("}\n");
    proof {
        assert(out@ =~= impl_text(
            name@,
            ctor,
            fields_v(element.fields@),
            names_v(element.element_types@),
            names_v(element.valid_child_types@),
            cats,
        ));
    }
    out
}

// ---------------------------------------------------------------------------
// The whole generated unit.
// ---------------------------------------------------------------------------

/// The code one element contributes: its record, its impl side, its
/// renderer and its conversion into the union.
pub open spec fn element_code_text(
    e: crate::schema::ElementV,
    cats: Seq<Seq<char>>,
) -> Seq<char> {
    struct_text(e.name, e.fields) + impl_text(
        e.name,
        e.ctor_params,
        e.fields,
        e.element_types,
        e.valid_child_types,
        cats,
    ) + to_string_text(e.name, e.ctor_params, e.fields) + shape_from_text(e.name)
}

/// The head of the generated unit: its imports.
pub open spec fn unit_head_text() -> Seq<char> {
    "use crate::types::color::Color;\nuse crate::types::target::Target;\nuse serde::{Deserialize, Serialize};\n"@
}

/// The whole generated unit, in order: imports, the capability traits,
/// the closed union and its renderer, then each element's code.
pub open spec fn generated_unit_text(
    elements: Seq<crate::schema::ElementV>,
    cats: Seq<Seq<char>>,
) -> Seq<char> {
    unit_head_text() + cat_traits_text(cats) + shape_enum_text(
        elements.map_values(|e: crate::schema::ElementV| e.name),
    ) + concat_all(
        elements.map_values(|e: crate::schema::ElementV| element_code_text(e, cats)),
    )
}

/// Emits the whole generated unit for a resolved configuration.
#[verifier::rlimit(100)]
#[verifier::spinoff_prover]
pub fn generate_unit(config: &crate::schema::Config) -> (r: String)
    ensures
        r@ == generated_unit_text(
            crate::schema::elems_v(config.elements@),
            config.element_types@.map_values(|c: crate::schema::CategorySpec| c.name@),
        ),
{
    let ghost evs = crate::schema::elems_v(config.elements@);
    let ghost cats = config.element_types@.map_values(
        |c: crate::schema::CategorySpec| c.name@,
    );
    let ghost code_items = evs.map_values(
        |e: crate::schema::ElementV| element_code_text(e, cats),
    );
    let mut out = String::new();
    out.append(
        "use crate::types::color::Color;\nuse crate::types::target::Target;\nuse serde::{Deserialize, Serialize};\n",
    );
    let traits = generate_category_traits(&config.element_types);
    out.append(traits.as_str());
    let shape_enum = generate_shape_enum(&config.elements);
    out.append(shape_enum.as_str());
    proof {
        assert(evs.map_values(|e: crate::schema::ElementV| e.name) =~= config.elements@.map_values(
            |e: ElementSpec| e.name@,
        ));
    }
    let ghost base = unit_head_text() + cat_traits_text(cats) + shape_enum_text(
        evs.map_values(|e: crate::schema::ElementV| e.name),
    );
    let n = config.elements.len();
    let mut i: usize = 0;
    proof {
        lemma_concat_prefix_zero(base, code_items);
        assert(out@ == base + concat_all(code_items.take(0)));
    }
    #[verifier::loop_isolation(false)]
    while i < n
        invariant
            i <= n,
            out@ == base + concat_all(code_items.take(i as int)),
        decreases n - i,
    {
        let element = &config.elements[i];
        let name = &element.name;
        let struct_code = generate_struct(name.as_str(), element);
        out.append(struct_code.as_str());
        let impl_code = generate_impl(name.as_str(), element, &config.element_types);
        out.append(impl_code.as_str());
        let to_string_code = generate_to_string(name.as_str(), element);
        out.append(to_string_code.as_str());
        let from_code = generate_shape_from(name.as_str());
        out.append(from_code.as_str());
        proof {
            lemma_concat_prefix_step(base, code_items, i as int + 1);
            assert(evs[i as int] == crate::schema::elem_v(config.elements@[i as int]));
            assert(code_items[i as int] == element_code_text(evs[i as int], cats));
            assert(out@ =~= base + concat_all(code_items.take(i as int + 1)));
        }
        i = i + 1;
    }
    proof {
        lemma_concat_prefix_full(base, code_items);
    }
    out
}

} // verus!
