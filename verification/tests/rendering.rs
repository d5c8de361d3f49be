use idlgen::TypeExpression;
use idlgen::type_to_string;

fn prim(name: &str) -> TypeExpression {
    TypeExpression::Primitive(String::from(name))
}

fn segments(names: &[&str]) -> Vec<String> {
    let mut out: Vec<String> = Vec::new();
    for n in names {
        out.push(String::from(*n));
    }
    out
}

#[test]
fn renders_primitive() {
    assert_eq!(type_to_string(&prim("u64")), "u64");
    assert_eq!(type_to_string(&prim("Context")), "Context");
}

#[test]
fn renders_path() {
    let t = TypeExpression::Path(segments(&["std", "vec", "Vec"]));
    assert_eq!(type_to_string(&t), "std::vec::Vec");
    let single = TypeExpression::Path(segments(&["Pubkey"]));
    assert_eq!(type_to_string(&single), "Pubkey");
}

#[test]
fn renders_generic_over_array() {
    let t = TypeExpression::Generic {
        base: segments(&["Vec"]),
        args: vec![TypeExpression::Array {
            element: Box::new(prim("u8")),
            length: String::from("32"),
        }],
    };
    assert_eq!(type_to_string(&t), "Vec<[u8; 32]>");
}

#[test]
fn renders_generic_with_two_arguments() {
    let t = TypeExpression::Generic {
        base: segments(&["std", "collections", "BTreeMap"]),
        args: vec![prim("String"), prim("u64")],
    };
    assert_eq!(type_to_string(&t), "std::collections::BTreeMap<String, u64>");
}

#[test]
fn renders_references() {
    let shared = TypeExpression::Reference { mutable: false, inner: Box::new(prim("Account")) };
    assert_eq!(type_to_string(&shared), "&Account");
    let exclusive = TypeExpression::Reference { mutable: true, inner: Box::new(prim("State")) };
    assert_eq!(type_to_string(&exclusive), "&mut State");
}

#[test]
fn renders_tuples() {
    assert_eq!(type_to_string(&TypeExpression::Tuple(vec![])), "()");
    assert_eq!(type_to_string(&TypeExpression::Tuple(vec![prim("u64")])), "(u64,)");
    assert_eq!(
        type_to_string(&TypeExpression::Tuple(vec![prim("u64"), prim("bool"), prim("i8")])),
        "(u64, bool, i8)"
    );
}

#[test]
fn renders_nested_expression() {
    let t = TypeExpression::Generic {
        base: segments(&["Option"]),
        args: vec![TypeExpression::Reference {
            mutable: false,
            inner: Box::new(TypeExpression::Tuple(vec![
                prim("u8"),
                TypeExpression::Array {
                    element: Box::new(prim("u64")),
                    length: String::from("4"),
                },
            ])),
        }],
    };
    assert_eq!(type_to_string(&t), "Option<&(u8, [u64; 4])>");
}

#[test]
fn rendering_is_deterministic() {
    let t = TypeExpression::Generic {
        base: segments(&["Vec"]),
        args: vec![TypeExpression::Tuple(vec![prim("u8"), prim("u16")])],
    };
    let first = type_to_string(&t);
    let second = type_to_string(&t);
    assert_eq!(first, second);
}
