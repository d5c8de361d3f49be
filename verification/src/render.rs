//! Rendering of type expressions and of whole declarations to their
//! canonical textual form. The spec functions define the text as a sequence
//! of characters; the executable functions produce exactly that text.

use vstd::prelude::*;

use crate::ast::{Attribute, Declaration, Field, TypeExpression, Variant};

verus! {

/// The first `n` path segments joined with `::`.
pub open spec fn path_text(segs: Seq<Seq<char>>, n: int) -> Seq<char>
    decreases n,
{
    if n <= 0 || n > segs.len() {
        Seq::empty()
    } else if n == 1 {
        segs[0]
    } else {
        path_text(segs, n - 1) + "::"@ + segs[n - 1]
    }
}

/// The first `n` type expressions of `ts`, rendered and joined with `", "`.
pub open spec fn type_list_text(ts: Vec<TypeExpression>, n: int) -> Seq<char>
    decreases ts, n,
{
    if n <= 0 || n > ts@.len() {
        Seq::empty()
    } else if n == 1 {
        type_text(ts[0])
    } else {
        type_list_text(ts, n - 1) + ", "@ + type_text(ts[n - 1])
    }
}

/// The canonical textual form of a type expression, exactly as it would
/// appear in source syntax.
pub open spec fn type_text(t: TypeExpression) -> Seq<char>
    decreases t,
{
    match t {
        TypeExpression::Primitive(name) => name@,
        TypeExpression::Path(segs) => path_text(segs.deep_view(), segs@.len() as int),
        TypeExpression::Generic { base, args } => path_text(base.deep_view(), base@.len() as int)
            + "<"@ + type_list_text(args, args@.len() as int) + ">"@,
        TypeExpression::Reference { mutable, inner } => (if mutable {
            "&mut "@
        } else {
            "&"@
        }) + type_text(*inner),
        TypeExpression::Tuple(elements) => {
            if elements@.len() == 0 {
                "()"@
            } else if elements@.len() == 1 {
                "("@ + type_text(elements[0]) + ",)"@
            } else {
                "("@ + type_list_text(elements, elements@.len() as int) + ")"@
            }
        },
        TypeExpression::Array { element, length } => "["@ + type_text(*element) + "; "@ + length@
            + "]"@,
    }
}

/// Rendering the same type expression twice yields the same text: the
/// rendering of a `TypeExpression` is a function of the expression alone.
pub proof fn lemma_type_rendering_deterministic(t: TypeExpression, r1: Seq<char>, r2: Seq<char>)
    requires
        r1 == type_text(t),
        r2 == type_text(t),
    ensures
        r1 == r2,
{
}

/// The first `n` path segments of `segs`, joined with `::`.
fn path_to_string(segs: &Vec<String>) -> (r: String)
    ensures
        r@ == path_text(segs.deep_view(), segs@.len() as int),
{
    let mut out = String::new();
    let mut i: usize = 0;
    while i < segs.len()
        invariant
            i <= segs@.len(),
            out@ == path_text(segs.deep_view(), i as int),
        decreases segs@.len() - i,
    {
        if i > 0 {
            out.append("::");
        }
        out.append(segs[i].as_str());
        proof {
            assert(segs.deep_view()[i as int] == segs@[i as int]@);
            assert(out@ =~= path_text(segs.deep_view(), i + 1));
        }
        i += 1;
    }
    out
}

/// Renders the first `n` type expressions of `ts`, joined with `", "`.
fn type_list_to_string(ts: &Vec<TypeExpression>, n: usize) -> (r: String)
    requires
        n <= ts@.len(),
    ensures
        r@ == type_list_text(*ts, n as int),
    decreases *ts, n,
{
    if n == 0 {
        String::new()
    } else if n == 1 {
        type_to_string(&ts[0])
    } else {
        let mut out = type_list_to_string(ts, n - 1);
        out.append(", ");
        let piece = type_to_string(&ts[n - 1]);
        out.append(piece.as_str());
        out
    }
}

/// Produces the canonical textual form of a type expression.
pub fn type_to_string(ty: &TypeExpression) -> (r: String)
    ensures
        r@ == type_text(*ty),
    decreases *ty,
{
    match ty {
        TypeExpression::Primitive(name) => name.clone(),
        TypeExpression::Path(segs) => path_to_string(segs),
        TypeExpression::Generic { base, args } => {
            let mut out = path_to_string(base);
            out.append("<");
            let list = type_list_to_string(args, args.len());
            out.append(list.as_str());
            out.append(">");
            out
        },
        TypeExpression::Reference { mutable, inner } => {
            let mut out = if *mutable {
                String::from_str("&mut ")
            } else {
                String::from_str("&")
            };
            let piece = type_to_string(inner);
            out.append(piece.as_str());
            out
        },
        TypeExpression::Tuple(elements) => {
            if elements.len() == 0 {
                String::from_str("()")
            } else if elements.len() == 1 {
                let mut out = String::from_str("(");
                let piece = type_to_string(&elements[0]);
                out.append(piece.as_str());
                out.append(",)");
                out
            } else {
                let mut out = String::from_str("(");
                let list = type_list_to_string(elements, elements.len());
                out.append(list.as_str());
                out.append(")");
                out
            }
        },
        TypeExpression::Array { element, length } => {
            let mut out = String::from_str("[");
            let piece = type_to_string(element);
            out.append(piece.as_str());
            out.append("; ");
            out.append(length.as_str());
            out.append("]");
            out
        },
    }
}

/// One attribute annotation, rendered as `#[path] ` with a trailing space.
pub open spec fn attr_text(a: Attribute) -> Seq<char> {
    "#["@ + path_text(a.path.deep_view(), a.path@.len() as int) + "] "@
}

/// The first `n` attributes of `attrs`, rendered one after the other.
pub open spec fn attrs_text(attrs: Seq<Attribute>, n: int) -> Seq<char>
    decreases n,
{
    if n <= 0 || n > attrs.len() {
        Seq::empty()
    } else {
        attrs_text(attrs, n - 1) + attr_text(attrs[n - 1])
    }
}

/// One field declaration: `name: Type` for a named field, the bare type
/// for a positional field.
pub open spec fn field_decl_text(f: Field) -> Seq<char> {
    match f.name {
        Some(n) => n@ + ": "@ + type_text(f.ty),
        None => type_text(f.ty),
    }
}

/// The first `n` fields of `fs`, rendered and joined with `", "`.
pub open spec fn field_list_text(fs: Seq<Field>, n: int) -> Seq<char>
    decreases n,
{
    if n <= 0 || n > fs.len() {
        Seq::empty()
    } else if n == 1 {
        field_decl_text(fs[0])
    } else {
        field_list_text(fs, n - 1) + ", "@ + field_decl_text(fs[n - 1])
    }
}

/// The body of a record declaration: `;` when it has no fields, a braced
/// block when its fields are named, a parenthesised list otherwise.
pub open spec fn record_body_text(fs: Seq<Field>) -> Seq<char> {
    if fs.len() == 0 {
        ";"@
    } else if fs[0].name is Some {
        " { "@ + field_list_text(fs, fs.len() as int) + " }"@
    } else {
        "("@ + field_list_text(fs, fs.len() as int) + ");"@
    }
}

/// The full re-rendered text of a record declaration.
pub open spec fn record_text(name: Seq<char>, attrs: Seq<Attribute>, fs: Seq<Field>) -> Seq<
    char,
> {
    attrs_text(attrs, attrs.len() as int) + "struct "@ + name + record_body_text(fs)
}

/// The body of a choice variant: empty for a unit variant, braced for named
/// fields, parenthesised otherwise.
pub open spec fn variant_body_text(fs: Seq<Field>) -> Seq<char> {
    if fs.len() == 0 {
        Seq::empty()
    } else if fs[0].name is Some {
        " { "@ + field_list_text(fs, fs.len() as int) + " }"@
    } else {
        "("@ + field_list_text(fs, fs.len() as int) + ")"@
    }
}

/// One choice variant: its name followed by its body.
pub open spec fn variant_text(v: Variant) -> Seq<char> {
    v.name@ + variant_body_text(v.fields@)
}

/// The first `n` variants of `vs`, rendered and joined with `", "`.
pub open spec fn variant_list_text(vs: Seq<Variant>, n: int) -> Seq<char>
    decreases n,
{
    if n <= 0 || n > vs.len() {
        Seq::empty()
    } else if n == 1 {
        variant_text(vs[0])
    } else {
        variant_list_text(vs, n - 1) + ", "@ + variant_text(vs[n - 1])
    }
}

/// The full re-rendered text of a choice declaration.
pub open spec fn choice_text(name: Seq<char>, vs: Seq<Variant>) -> Seq<char> {
    if vs.len() == 0 {
        "enum "@ + name + " {}"@
    } else {
        "enum "@ + name + " { "@ + variant_list_text(vs, vs.len() as int) + " }"@
    }
}

/// The full re-rendered text of a record or choice declaration; empty for
/// every other declaration kind.
pub open spec fn declaration_text(d: Declaration) -> Seq<char> {
    match d {
        Declaration::Record { name, attrs, fields } => record_text(name@, attrs@, fields@),
        Declaration::Choice { name, variants } => choice_text(name@, variants@),
        _ => Seq::empty(),
    }
}

/// Renders the first `n` attributes of `attrs`.
fn attrs_to_string(attrs: &Vec<Attribute>) -> (r: String)
    ensures
        r@ == attrs_text(attrs@, attrs@.len() as int),
{
    let mut out = String::new();
    let mut i: usize = 0;
    while i < attrs.len()
        invariant
            i <= attrs@.len(),
            out@ == attrs_text(attrs@, i as int),
        decreases attrs@.len() - i,
    {
        out.append("#[");
        let path = path_to_string(&attrs[i].path);
        out.append(path.as_str());
        out.append("] ");
        proof {
            assert(out@ =~= attrs_text(attrs@, i + 1));
        }
        i += 1;
    }
    out
}

/// Renders one field declaration.
fn field_decl_to_string(f: &Field) -> (r: String)
    ensures
        r@ == field_decl_text(*f),
{
    let ty = type_to_string(&f.ty);
    match &f.name {
        Some(n) => {
            let mut out = n.clone();
            out.append(": ");
            out.append(ty.as_str());
            out
        },
        None => ty,
    }
}

/// Renders the fields of `fs`, joined with `", "`.
fn field_list_to_string(fs: &Vec<Field>) -> (r: String)
    ensures
        r@ == field_list_text(fs@, fs@.len() as int),
{
    let mut out = String::new();
    let mut i: usize = 0;
    while i < fs.len()
        invariant
            i <= fs@.len(),
            out@ == field_list_text(fs@, i as int),
        decreases fs@.len() - i,
    {
        if i > 0 {
            out.append(", ");
        }
        let piece = field_decl_to_string(&fs[i]);
        out.append(piece.as_str());
        proof {
            assert(out@ =~= field_list_text(fs@, i + 1));
        }
        i += 1;
    }
    out
}

/// Renders the full text of a record declaration.
pub fn record_to_string(name: &String, attrs: &Vec<Attribute>, fields: &Vec<Field>) -> (r:
    String)
    ensures
        r@ == record_text(name@, attrs@, fields@),
{
    let mut out = attrs_to_string(attrs);
    out.append("struct ");
    out.append(name.as_str());
    if fields.len() == 0 {
        out.append(";");
    } else if fields[0].name.is_some() {
        out.append(" { ");
        let list = field_list_to_string(fields);
        out.append(list.as_str());
        out.append(" }");
    } else {
        out.append("(");
        let list = field_list_to_string(fields);
        out.append(list.as_str());
        out.append(");");
    }
    out
}

/// Renders the variants of `vs`, joined with `", "`.
fn variant_list_to_string(vs: &Vec<Variant>) -> (r: String)
    ensures
        r@ == variant_list_text(vs@, vs@.len() as int),
{
    let mut out = String::new();
    let mut i: usize = 0;
    while i < vs.len()
        invariant
            i <= vs@.len(),
            out@ == variant_list_text(vs@, i as int),
        decreases vs@.len() - i,
    {
        if i > 0 {
            out.append(", ");
        }
        out.append(vs[i].name.as_str());
        let fs = &vs[i].fields;
        if fs.len() == 0 {
        } else if fs[0].name.is_some() {
            out.append(" { ");
            let list = field_list_to_string(fs);
            out.append(list.as_str());
            out.append(" }");
        } else {
            out.append("(");
            let list = field_list_to_string(fs);
            out.append(list.as_str());
            out.append(")");
        }
        proof {
            assert(out@ =~= variant_list_text(vs@, i + 1));
        }
        i += 1;
    }
    out
}

/// Renders the full text of a choice declaration.
pub fn choice_to_string(name: &String, variants: &Vec<Variant>) -> (r: String)
    ensures
        r@ == choice_text(name@, variants@),
{
    let mut out = String::from_str("enum ");
    out.append(name.as_str());
    if variants.len() == 0 {
        out.append(" {}");
    } else {
        out.append(" { ");
        let list = variant_list_to_string(variants);
        out.append(list.as_str());
        out.append(" }");
    }
    out
}

} // verus!
