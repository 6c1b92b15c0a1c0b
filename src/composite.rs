//! Literals and definitions of user-defined structs and enums, built from a
//! description of their fields: the engine behind a hand-written
//! `CompileConst` impl for such a type.
use vstd::prelude::*;
use crate::protocol::{declaration_text, DeclarationType};
use crate::text::{
    append_spaced, lemma_terminated_ends_with, spaced, terminate_strings, terminated, views,
};

verus! {

/// The fields of a struct or of an enum variant. Each field is given by the
/// text that stands for it: its literal in a value, its type in a definition.
pub enum Fields {
    /// No fields.
    Unit,
    /// Fields known by position.
    Positional(Vec<String>),
    /// Fields known by name, as (name, text) pairs.
    Named(Vec<(String, String)>),
}

/// The character sequences of (name, text) pairs.
pub open spec fn pair_views(v: Seq<(String, String)>) -> Seq<(Seq<char>, Seq<char>)> {
    v.map_values(|p: (String, String)| (p.0@, p.1@))
}

/// Each pair as `{lead}{name}{colon}{text}`.
pub open spec fn named_items(
    pairs: Seq<(Seq<char>, Seq<char>)>,
    lead: Seq<char>,
    colon: Seq<char>,
) -> Seq<Seq<char>> {
    pairs.map_values(|p: (Seq<char>, Seq<char>)| lead + p.0 + colon + p.1)
}

/// The texts, each followed by a comma.
pub open spec fn positional_text(items: Seq<String>) -> Seq<char> {
    terminated(views(items), ","@)
}

/// The pairs as `{lead}{name}{colon}{text}`, each followed by a comma.
pub open spec fn named_text(items: Seq<(String, String)>, lead: Seq<char>, colon: Seq<char>) -> Seq<
    char,
> {
    terminated(named_items(pair_views(items), lead, colon), ","@)
}

/// The literal of a struct value: `{name}`, `{name}({v},..)` or
/// `{name} { {f}: {v}, .. }`, every field followed by a comma.
pub open spec fn struct_text(name: Seq<char>, fields: Fields) -> Seq<char> {
    match fields {
        Fields::Unit => name,
        Fields::Positional(v) => name + "("@ + positional_text(v@) + ")"@,
        Fields::Named(v) => name + " {"@ + named_text(v@, " "@, ": "@) + " }"@,
    }
}

/// The literal of an enum value: `{name}::{variant}`, then nothing,
/// `({v},..)` or `{{f}:{v},..}`, every field followed by a comma.
pub open spec fn variant_text(name: Seq<char>, variant: Seq<char>, fields: Fields) -> Seq<char> {
    let head = name + "::"@ + variant;
    match fields {
        Fields::Unit => head,
        Fields::Positional(v) => head + "("@ + positional_text(v@) + ")"@,
        Fields::Named(v) => head + "{"@ + named_text(v@, Seq::empty(), ":"@) + "}"@,
    }
}

/// The body of a struct definition: `;`, `({t},..);` or `{ {f}: {t}, .. }`.
pub open spec fn struct_body_text(fields: Fields) -> Seq<char> {
    match fields {
        Fields::Unit => ";"@,
        Fields::Positional(v) => "("@ + positional_text(v@) + ");"@,
        Fields::Named(v) => "{"@ + named_text(v@, " "@, ": "@) + " }"@,
    }
}

/// The definition of a struct: its attributes and visibility, each followed
/// by a space when present, then `struct {name}` and its body.
pub open spec fn struct_definition_text(
    attrs: Seq<char>,
    vis: Seq<char>,
    name: Seq<char>,
    fields: Fields,
) -> Seq<char> {
    spaced(attrs) + spaced(vis) + "struct "@ + name + struct_body_text(fields)
}

/// One variant in an enum definition: `{variant}`, `{variant}({t},..)` or
/// `{variant}{ {f}: {t}, .. }`.
pub open spec fn variant_definition_text(variant: Seq<char>, fields: Fields) -> Seq<char> {
    match fields {
        Fields::Unit => variant,
        Fields::Positional(v) => variant + "("@ + positional_text(v@) + ")"@,
        Fields::Named(v) => variant + "{"@ + named_text(v@, " "@, ": "@) + " }"@,
    }
}

/// The variants of an enum definition, each after a space.
pub open spec fn variant_items(variants: Seq<(String, Fields)>) -> Seq<Seq<char>> {
    variants.map_values(|v: (String, Fields)| " "@ + variant_definition_text(v.0@, v.1))
}

/// The definition of an enum: its attributes and visibility, each followed
/// by a space when present, then `enum {name}{ {variant}, .. }`.
pub open spec fn enum_definition_text(
    attrs: Seq<char>,
    vis: Seq<char>,
    name: Seq<char>,
    variants: Seq<(String, Fields)>,
) -> Seq<char> {
    spaced(attrs) + spaced(vis) + "enum "@ + name + "{"@ + terminated(variant_items(variants), ","@)
        + " }"@
}

/// The pairs as `{lead}{name}{colon}{text}`, each followed by a comma.
fn named_list(items: &Vec<(String, String)>, lead: &str, colon: &str) -> (r: String)
    ensures
        r@ == named_text(items@, lead@, colon@),
{
    let ghost all = named_items(pair_views(items@), lead@, colon@);
    let mut r = String::new();
    let mut i: usize = 0;
    while i < items.len()
        invariant
            i <= items@.len(),
            all == named_items(pair_views(items@), lead@, colon@),
            r@ == terminated(all.subrange(0, i as int), ","@),
        decreases items@.len() - i,
    {
        let ghost before = r@;
        r.append(lead);
        r.append(items[i].0.as_str());
        r.append(colon);
        r.append(items[i].1.as_str());
        r.append(",");
        assert(all.subrange(0, i + 1).drop_last() =~= all.subrange(0, i as int));
        assert(r@ =~= terminated(all.subrange(0, i + 1), ","@));
        i = i + 1;
    }
    assert(all.subrange(0, items@.len() as int) =~= all);
    r
}

/// The type name of a user-defined struct or enum: its identifier as it is.
pub fn composite_type(name: &str) -> (r: String)
    ensures
        r@ == name@,
{
    String::from_str(name)
}

/// The literal of a value of the struct `name` with the given field literals.
pub fn struct_val(name: &str, fields: &Fields) -> (r: String)
    ensures
        r@ == struct_text(name@, *fields),
{
    let mut r = String::from_str(name);
    match fields {
        Fields::Unit => {},
        Fields::Positional(v) => {
            r.append("(");
            let inner = terminate_strings(v, ",");
            r.append(inner.as_str());
            r.append(")");
        },
        Fields::Named(v) => {
            r.append(" {");
            let inner = named_list(v, " ", ": ");
            r.append(inner.as_str());
            r.append(" }");
        },
    }
    assert(r@ =~= struct_text(name@, *fields));
    r
}

/// The literal of the value `variant` of the enum `name` with the given
/// field literals.
pub fn variant_val(name: &str, variant: &str, fields: &Fields) -> (r: String)
    ensures
        r@ == variant_text(name@, variant@, *fields),
{
    let mut r = String::from_str(name);
    r.append("::");
    r.append(variant);
    match fields {
        Fields::Unit => {},
        Fields::Positional(v) => {
            r.append("(");
            let inner = terminate_strings(v, ",");
            r.append(inner.as_str());
            r.append(")");
        },
        Fields::Named(v) => {
            r.append("{");
            let inner = named_list(v, "", ":");
            proof {
                reveal_strlit("");
                assert(""@ =~= Seq::<char>::empty());
                assert(named_items(pair_views(v@), ""@, ":"@) =~= named_items(
                    pair_views(v@),
                    Seq::empty(),
                    ":"@,
                ));
            }
            r.append(inner.as_str());
            r.append("}");
        },
    }
    assert(r@ =~= variant_text(name@, variant@, *fields));
    r
}

/// Appends the body of a struct definition, or the part of an enum variant
/// definition after its name, to `r`.
fn append_fields_definition(r: &mut String, fields: &Fields, in_enum: bool)
    ensures
        in_enum ==> final(r)@ == old(r)@ + variant_definition_text(Seq::empty(), *fields),
        !in_enum ==> final(r)@ == old(r)@ + struct_body_text(*fields),
{
    let ghost before = r@;
    match fields {
        Fields::Unit => {
            if !in_enum {
                r.append(";");
            }
        },
        Fields::Positional(v) => {
            r.append("(");
            let inner = terminate_strings(v, ",");
            r.append(inner.as_str());
            if in_enum {
                r.append(")");
            } else {
                r.append(");");
            }
        },
        Fields::Named(v) => {
            r.append("{");
            let inner = named_list(v, " ", ": ");
            r.append(inner.as_str());
            r.append(" }");
        },
    }
    assert(in_enum ==> r@ =~= before + variant_definition_text(Seq::empty(), *fields));
    assert(!in_enum ==> r@ =~= before + struct_body_text(*fields));
}

/// The definition of the struct `name` with the given field types.
pub fn struct_definition(attrs: &str, vis: &str, name: &str, fields: &Fields) -> (r: String)
    ensures
        r@ == struct_definition_text(attrs@, vis@, name@, *fields),
{
    let mut r = String::new();
    append_spaced(&mut r, attrs);
    append_spaced(&mut r, vis);
    r.append("struct ");
    r.append(name);
    append_fields_definition(&mut r, fields, false);
    assert(r@ =~= struct_definition_text(attrs@, vis@, name@, *fields));
    r
}

/// The definition of the enum `name` with the given variants and the field
/// types of each.
pub fn enum_definition(attrs: &str, vis: &str, name: &str, variants: &Vec<(String, Fields)>) -> (r:
    String)
    ensures
        r@ == enum_definition_text(attrs@, vis@, name@, variants@),
{
    let mut r = String::new();
    append_spaced(&mut r, attrs);
    append_spaced(&mut r, vis);
    r.append("enum ");
    r.append(name);
    r.append("{");
    let ghost head = r@;
    let ghost all = variant_items(variants@);
    let mut i: usize = 0;
    while i < variants.len()
        invariant
            i <= variants@.len(),
            all == variant_items(variants@),
            r@ == head + terminated(all.subrange(0, i as int), ","@),
        decreases variants@.len() - i,
    {
        let ghost before = r@;
        r.append(" ");
        r.append(variants[i].0.as_str());
        append_fields_definition(&mut r, &variants[i].1, true);
        r.append(",");
        assert(variant_definition_text(variants@[i as int].0@, variants@[i as int].1)
            =~= variants@[i as int].0@ + variant_definition_text(Seq::empty(), variants@[i as int].1));
        assert(all.subrange(0, i + 1).drop_last() =~= all.subrange(0, i as int));
        assert(r@ =~= head + terminated(all.subrange(0, i + 1), ","@));
        i = i + 1;
    }
    assert(all.subrange(0, variants@.len() as int) =~= all);
    r.append(" }");
    assert(r@ =~= enum_definition_text(attrs@, vis@, name@, variants@));
    r
}

/// Whether `s` ends with `t`.
pub open spec fn ends_with(s: Seq<char>, t: Seq<char>) -> bool {
    s.len() >= t.len() && s.subrange(s.len() - t.len(), s.len() as int) == t
}

/// A unit variant is written as its path alone, with no parentheses or
/// braces; a variant with fields closes its field list with a comma just
/// before the closing parenthesis or brace.
pub proof fn lemma_variant_forms(name: Seq<char>, variant: Seq<char>, fields: Fields)
    ensures
        fields is Unit ==> variant_text(name, variant, fields) == name + "::"@ + variant,
        fields matches Fields::Positional(v) && v@.len() > 0 ==> ends_with(
            variant_text(name, variant, fields),
            ",)"@,
        ),
        fields matches Fields::Named(v) && v@.len() > 0 ==> ends_with(
            variant_text(name, variant, fields),
            ",}"@,
        ),
{
    reveal_strlit(",");
    reveal_strlit(")");
    reveal_strlit("}");
    reveal_strlit(",)");
    reveal_strlit(",}");
    let t = variant_text(name, variant, fields);
    match fields {
        Fields::Unit => {},
        Fields::Positional(v) => {
            if v@.len() > 0 {
                lemma_terminated_ends_with(views(v@), ","@);
                let inner = positional_text(v@);
                assert(t == name + "::"@ + variant + "("@ + inner + ")"@);
                assert(t.subrange(t.len() - 2, t.len() as int) =~= ",)"@);
            }
        },
        Fields::Named(v) => {
            if v@.len() > 0 {
                lemma_terminated_ends_with(named_items(pair_views(v@), Seq::empty(), ":"@), ","@);
                let inner = named_text(v@, Seq::empty(), ":"@);
                assert(t == name + "::"@ + variant + "{"@ + inner + "}"@);
                assert(t.subrange(t.len() - 2, t.len() as int) =~= ",}"@);
            }
        },
    }
}

/// The type name of a composite type is its identifier exactly, and every
/// literal of one of its values begins with that identifier.
pub proof fn lemma_composite_names_type(name: Seq<char>, variant: Seq<char>, fields: Fields)
    ensures
        struct_text(name, fields).subrange(0, name.len() as int) == name,
        variant_text(name, variant, fields).subrange(0, name.len() as int) == name,
{
    assert(struct_text(name, fields).subrange(0, name.len() as int) =~= name);
    assert(variant_text(name, variant, fields).subrange(0, name.len() as int) =~= name);
}

/// A constant of a composite type declared without attributes or
/// visibility reads `const {x}: {name} = {literal};`: the type is the bare
/// identifier, and the literal is the struct form or one of the three
/// variant forms, unchanged.
pub proof fn lemma_composite_declaration(
    x: Seq<char>,
    name: Seq<char>,
    variant: Seq<char>,
    fields: Fields,
)
    ensures
        declaration_text(
            Seq::empty(),
            Seq::empty(),
            DeclarationType::Const,
            x,
            name,
            struct_text(name, fields),
        ) == "const"@ + " "@ + x + ": "@ + name + " = "@ + struct_text(name, fields) + ";"@,
        declaration_text(
            Seq::empty(),
            Seq::empty(),
            DeclarationType::Const,
            x,
            name,
            variant_text(name, variant, fields),
        ) == "const"@ + " "@ + x + ": "@ + name + " = "@ + variant_text(name, variant, fields) + ";"@,
{
    let e = Seq::<char>::empty();
    assert(spaced(e) == e);
    assert(declaration_text(e, e, DeclarationType::Const, x, name, struct_text(name, fields))
        =~= "const"@ + " "@ + x + ": "@ + name + " = "@ + struct_text(name, fields) + ";"@);
    assert(declaration_text(
        e,
        e,
        DeclarationType::Const,
        x,
        name,
        variant_text(name, variant, fields),
    ) =~= "const"@ + " "@ + x + ": "@ + name + " = "@ + variant_text(name, variant, fields) + ";"@);
}

} // verus!
