//! The tree model the extractors work on: a parsed source file reduced to
//! the parts the pipeline reads. Top-level declarations form a closed set of
//! variants, and a type reference is a small recursive expression.

use vstd::prelude::*;

verus! {

/// A type reference as it appears in a declaration.
pub enum TypeExpression {
    /// A bare single-identifier name, e.g. `u64` or `Context`.
    Primitive(String),
    /// A multi-segment path, e.g. `std::string::String`, segments in order.
    Path(Vec<String>),
    /// A generic application: the base path, then the bracketed arguments.
    Generic { base: Vec<String>, args: Vec<TypeExpression> },
    /// A shared or mutable reference.
    Reference { mutable: bool, inner: Box<TypeExpression> },
    /// A tuple of types; an empty tuple is the unit type.
    Tuple(Vec<TypeExpression>),
    /// A fixed-size array; the length is kept as the verbatim text of the
    /// length expression.
    Array { element: Box<TypeExpression>, length: String },
}

/// The binding pattern of a function parameter.
pub enum Pattern {
    /// A simple identifier binding.
    Ident(String),
    /// Any other pattern shape; such a parameter is emitted under the
    /// placeholder name `_`.
    Complex,
}

/// One parameter of a function declaration.
pub enum Parameter {
    /// A binding pattern with an explicit type.
    Typed { pattern: Pattern, ty: TypeExpression },
    /// A parameter without an explicit type binding, such as a
    /// self-receiver; skipped by the instruction extractor.
    Untyped,
}

/// One attribute annotation on a record, kept as its path segments.
pub struct Attribute {
    pub path: Vec<String>,
}

/// One field of a record or of a choice variant; `name` is `None` for a
/// positional (unnamed) field.
pub struct Field {
    pub name: Option<String>,
    pub ty: TypeExpression,
}

/// One variant of a choice declaration.
pub struct Variant {
    pub name: String,
    pub fields: Vec<Field>,
}

/// A top-level declaration of the parsed source.
pub enum Declaration {
    /// A function; `visible` is true exactly for external visibility.
    Function { name: String, visible: bool, params: Vec<Parameter> },
    /// A struct-like record with its attribute annotations.
    Record { name: String, attrs: Vec<Attribute>, fields: Vec<Field> },
    /// An enum-like choice declaration.
    Choice { name: String, variants: Vec<Variant> },
    /// Any other kind of top-level item; ignored by every extractor.
    Other,
}

/// The root of a parsed source file: its top-level declarations in source
/// order.
pub struct SyntaxTree {
    pub decls: Vec<Declaration>,
}

} // verus!
