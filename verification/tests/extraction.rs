use idlgen::{Attribute, Declaration, Field, Parameter, Pattern, SyntaxTree, TypeExpression};
use idlgen::{collect_accounts, collect_instructions, collect_types, is_account_struct,
    is_instruction_fn, parse_instruction_fn};

fn prim(name: &str) -> TypeExpression {
    TypeExpression::Primitive(String::from(name))
}

fn typed_param(name: &str, ty: TypeExpression) -> Parameter {
    Parameter::Typed { pattern: Pattern::Ident(String::from(name)), ty }
}

fn named_field(name: &str, ty: TypeExpression) -> Field {
    Field { name: Some(String::from(name)), ty }
}

fn attr(segments: &[&str]) -> Attribute {
    let mut path: Vec<String> = Vec::new();
    for s in segments {
        path.push(String::from(*s));
    }
    Attribute { path }
}

fn initialize_fn() -> Declaration {
    Declaration::Function {
        name: String::from("initialize"),
        visible: true,
        params: vec![
            typed_param("ctx", prim("Context")),
            typed_param("amount", prim("u64")),
        ],
    }
}

fn vault_record() -> Declaration {
    Declaration::Record {
        name: String::from("Vault"),
        attrs: vec![attr(&["account"])],
        fields: vec![
            named_field("owner", prim("Pubkey")),
            named_field("balance", prim("u64")),
        ],
    }
}

fn config_record() -> Declaration {
    Declaration::Record {
        name: String::from("Config"),
        attrs: vec![],
        fields: vec![
            named_field("admin", prim("Pubkey")),
            named_field("fee", prim("u64")),
        ],
    }
}

#[test]
fn one_visible_function_yields_one_instruction() {
    let tree = SyntaxTree { decls: vec![initialize_fn()] };
    let instructions = collect_instructions(&tree);
    assert_eq!(instructions.len(), 1);
    let instr = &instructions[0];
    assert_eq!(instr.name, "initialize");
    assert_eq!(instr.args.len(), 2);
    assert_eq!(instr.args[0].name, "ctx");
    assert_eq!(instr.args[0].ty_name, "Context");
    assert_eq!(instr.args[1].name, "amount");
    assert_eq!(instr.args[1].ty_name, "u64");
    assert_eq!(instr.accounts.len(), 0);
}

#[test]
fn private_function_never_appears() {
    let hidden = Declaration::Function {
        name: String::from("internal_helper"),
        visible: false,
        params: vec![typed_param("x", prim("u64"))],
    };
    let tree = SyntaxTree { decls: vec![hidden, initialize_fn()] };
    let instructions = collect_instructions(&tree);
    assert_eq!(instructions.len(), 1);
    assert_eq!(instructions[0].name, "initialize");
}

#[test]
fn typed_params_yield_one_arg_each_in_order() {
    let f = Declaration::Function {
        name: String::from("transfer"),
        visible: true,
        params: vec![
            typed_param("from", prim("Pubkey")),
            typed_param("to", prim("Pubkey")),
            typed_param("lamports", prim("u64")),
        ],
    };
    let instr = parse_instruction_fn(&f);
    assert_eq!(instr.args.len(), 3);
    assert_eq!(instr.args[0].name, "from");
    assert_eq!(instr.args[1].name, "to");
    assert_eq!(instr.args[2].name, "lamports");
}

#[test]
fn receiver_is_skipped_and_complex_pattern_is_placeholder() {
    let f = Declaration::Function {
        name: String::from("oddly_bound"),
        visible: true,
        params: vec![
            Parameter::Untyped,
            Parameter::Typed { pattern: Pattern::Complex, ty: prim("u8") },
            typed_param("tail", prim("u16")),
        ],
    };
    let instr = parse_instruction_fn(&f);
    assert_eq!(instr.args.len(), 2);
    assert_eq!(instr.args[0].name, "_");
    assert_eq!(instr.args[0].ty_name, "u8");
    assert_eq!(instr.args[1].name, "tail");
}

#[test]
fn annotated_record_becomes_account_and_leaves_types() {
    let tree = SyntaxTree { decls: vec![vault_record()] };
    let accounts = collect_accounts(&tree);
    assert_eq!(accounts.len(), 1);
    let vault = &accounts[0];
    assert_eq!(vault.name, "Vault");
    assert_eq!(vault.ty_name, "Vault");
    assert_eq!(vault.fields.len(), 2);
    assert_eq!(vault.fields[0].name, "owner");
    assert_eq!(vault.fields[0].ty_name, "Pubkey");
    assert_eq!(vault.fields[1].name, "balance");
    assert_eq!(vault.fields[1].ty_name, "u64");
    let types = collect_types(&tree);
    assert_eq!(types.len(), 0);
}

#[test]
fn derive_marker_also_classifies_as_account() {
    let rec = Declaration::Record {
        name: String::from("Ledger"),
        attrs: vec![attr(&["derive"])],
        fields: vec![named_field("entries", prim("u32"))],
    };
    assert!(is_account_struct(&rec));
    let other = Declaration::Record {
        name: String::from("Plain"),
        attrs: vec![attr(&["repr"]), attr(&["serde", "derive"])],
        fields: vec![],
    };
    assert!(!is_account_struct(&other));
}

#[test]
fn unannotated_record_appears_among_types() {
    let tree = SyntaxTree { decls: vec![config_record()] };
    let accounts = collect_accounts(&tree);
    assert_eq!(accounts.len(), 0);
    let types = collect_types(&tree);
    assert_eq!(types.len(), 1);
    assert_eq!(types[0].name, "Config");
    assert_eq!(types[0].type_def, "struct Config { admin: Pubkey, fee: u64 }");
}

#[test]
fn choice_appears_among_types_with_full_text() {
    let choice = Declaration::Choice {
        name: String::from("Command"),
        variants: vec![
            idlgen::Variant { name: String::from("Halt"), fields: vec![] },
            idlgen::Variant {
                name: String::from("Set"),
                fields: vec![Field { name: None, ty: prim("u64") }],
            },
            idlgen::Variant {
                name: String::from("Update"),
                fields: vec![named_field("delta", prim("i64"))],
            },
        ],
    };
    let tree = SyntaxTree { decls: vec![choice] };
    let types = collect_types(&tree);
    assert_eq!(types.len(), 1);
    assert_eq!(types[0].name, "Command");
    assert_eq!(types[0].type_def, "enum Command { Halt, Set(u64), Update { delta: i64 } }");
}

#[test]
fn tuple_record_and_attrs_render_in_type_def() {
    let rec = Declaration::Record {
        name: String::from("Pair"),
        attrs: vec![attr(&["repr"])],
        fields: vec![
            Field { name: None, ty: prim("u64") },
            Field { name: None, ty: prim("u64") },
        ],
    };
    let tree = SyntaxTree { decls: vec![rec] };
    let types = collect_types(&tree);
    assert_eq!(types.len(), 1);
    assert_eq!(types[0].type_def, "#[repr] struct Pair(u64, u64);");
}

#[test]
fn positional_fields_are_skipped_in_accounts() {
    let rec = Declaration::Record {
        name: String::from("Mixed"),
        attrs: vec![attr(&["account"])],
        fields: vec![
            Field { name: None, ty: prim("u8") },
            named_field("tag", prim("u32")),
        ],
    };
    let tree = SyntaxTree { decls: vec![rec] };
    let accounts = collect_accounts(&tree);
    assert_eq!(accounts.len(), 1);
    assert_eq!(accounts[0].fields.len(), 1);
    assert_eq!(accounts[0].fields[0].name, "tag");
}

#[test]
fn account_and_type_names_stay_disjoint() {
    let choice = Declaration::Choice { name: String::from("Mode"), variants: vec![] };
    let tree = SyntaxTree {
        decls: vec![vault_record(), config_record(), choice, initialize_fn()],
    };
    let accounts = collect_accounts(&tree);
    let types = collect_types(&tree);
    assert_eq!(accounts.len(), 1);
    assert_eq!(types.len(), 2);
    for a in &accounts {
        for t in &types {
            assert_ne!(a.name, t.name);
        }
    }
}

#[test]
fn extraction_is_deterministic() {
    let tree = SyntaxTree {
        decls: vec![initialize_fn(), vault_record(), config_record(), Declaration::Other],
    };
    let i1 = collect_instructions(&tree);
    let i2 = collect_instructions(&tree);
    assert_eq!(i1.len(), i2.len());
    for (x, y) in i1.iter().zip(i2.iter()) {
        assert_eq!(x.name, y.name);
        assert_eq!(x.args.len(), y.args.len());
        for (ax, ay) in x.args.iter().zip(y.args.iter()) {
            assert_eq!(ax.name, ay.name);
            assert_eq!(ax.ty_name, ay.ty_name);
        }
    }
    let a1 = collect_accounts(&tree);
    let a2 = collect_accounts(&tree);
    assert_eq!(a1.len(), a2.len());
    for (x, y) in a1.iter().zip(a2.iter()) {
        assert_eq!(x.name, y.name);
        assert_eq!(x.ty_name, y.ty_name);
        assert_eq!(x.fields.len(), y.fields.len());
    }
    let t1 = collect_types(&tree);
    let t2 = collect_types(&tree);
    assert_eq!(t1.len(), t2.len());
    for (x, y) in t1.iter().zip(t2.iter()) {
        assert_eq!(x.name, y.name);
        assert_eq!(x.type_def, y.type_def);
    }
}

#[test]
fn other_declarations_are_ignored_everywhere() {
    let tree = SyntaxTree { decls: vec![Declaration::Other, Declaration::Other] };
    assert_eq!(collect_instructions(&tree).len(), 0);
    assert_eq!(collect_accounts(&tree).len(), 0);
    assert_eq!(collect_types(&tree).len(), 0);
}

#[test]
fn classifiers_answer_per_declaration() {
    assert!(is_instruction_fn(&initialize_fn()));
    let hidden = Declaration::Function {
        name: String::from("quiet"),
        visible: false,
        params: vec![],
    };
    assert!(!is_instruction_fn(&hidden));
    assert!(!is_instruction_fn(&config_record()));
    assert!(is_account_struct(&vault_record()));
    assert!(!is_account_struct(&config_record()));
    assert!(!is_account_struct(&initialize_fn()));
}
