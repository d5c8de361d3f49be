//! The three extraction passes over a syntax tree: instructions, account
//! records and auxiliary types. Each pass is a pure function of the tree;
//! the spec functions here are its mathematical definition and every
//! executable extractor is proved to compute exactly them.

use vstd::prelude::*;

use crate::ast::{Attribute, Declaration, Parameter, Pattern, SyntaxTree};
use crate::ast::Field as AstField;
use crate::idl::{
    AccountModel, ArgModel, FieldModel, IdlAccount, IdlArgument, IdlField, IdlInstruction,
    IdlType, InstructionModel, TypeModel, accounts_view, args_view, fields_view,
    instructions_view, types_view,
};
use crate::render::{declaration_text, type_text};
use crate::render::{choice_to_string, record_to_string, type_to_string};

verus! {

/// An attribute qualifies a record as an account when it is the explicit
/// `account` marker, or any `derive` marker: the classification heuristic
/// deliberately conflates automatic trait derivation with account status.
pub open spec fn is_account_attr(a: Attribute) -> bool {
    a.path@.len() == 1 && (a.path@[0]@ == "account"@ || a.path@[0]@ == "derive"@)
}

/// Whether some attribute of the list qualifies the record as an account.
pub open spec fn has_account_attr(attrs: Seq<Attribute>) -> bool {
    exists|i: int| 0 <= i < attrs.len() && is_account_attr(attrs[i])
}

/// A declaration is an instruction exactly when it is a function with
/// external visibility.
pub open spec fn is_instruction(d: Declaration) -> bool {
    match d {
        Declaration::Function { visible, .. } => visible,
        _ => false,
    }
}

/// A declaration is an account exactly when it is a record carrying a
/// recognized attribute annotation.
pub open spec fn is_account(d: Declaration) -> bool {
    match d {
        Declaration::Record { attrs, .. } => has_account_attr(attrs@),
        _ => false,
    }
}

/// A declaration appears among the auxiliary types exactly when it is a
/// record not claimed by the account extractor, or any choice.
pub open spec fn is_plain_type(d: Declaration) -> bool {
    match d {
        Declaration::Record { attrs, .. } => !has_account_attr(attrs@),
        Declaration::Choice { .. } => true,
        _ => false,
    }
}

/// The name of a declaration; empty for the anonymous `Other` kind.
pub open spec fn declaration_name(d: Declaration) -> Seq<char> {
    match d {
        Declaration::Function { name, .. } => name@,
        Declaration::Record { name, .. } => name@,
        Declaration::Choice { name, .. } => name@,
        Declaration::Other => Seq::empty(),
    }
}

/// The argument name a binding pattern yields: the identifier itself, or
/// the placeholder `_` for any other pattern shape.
pub open spec fn pattern_text(p: Pattern) -> Seq<char> {
    match p {
        Pattern::Ident(n) => n@,
        Pattern::Complex => "_"@,
    }
}

/// The argument a typed parameter yields.
pub open spec fn param_arg(p: Parameter) -> ArgModel {
    match p {
        Parameter::Typed { pattern, ty } => ArgModel {
            name: pattern_text(pattern),
            ty_name: type_text(ty),
        },
        Parameter::Untyped => ArgModel { name: Seq::empty(), ty_name: Seq::empty() },
    }
}

/// The arguments of a parameter list, in declaration order: one entry per
/// typed parameter; parameters without an explicit type are skipped.
pub open spec fn args_of(ps: Seq<Parameter>) -> Seq<ArgModel>
    decreases ps.len(),
{
    if ps.len() == 0 {
        Seq::empty()
    } else {
        args_of(ps.drop_last()) + (if ps.last() is Typed {
            seq![param_arg(ps.last())]
        } else {
            Seq::empty()
        })
    }
}

/// The instruction a function declaration yields; its account usage is
/// left empty, a known gap of the document shape.
pub open spec fn instruction_of(d: Declaration) -> InstructionModel {
    match d {
        Declaration::Function { name, params, .. } => InstructionModel {
            name: name@,
            args: args_of(params@),
            accounts: Seq::empty(),
        },
        _ => InstructionModel { name: Seq::empty(), args: Seq::empty(), accounts: Seq::empty() },
    }
}

/// The instructions of a tree, in source order.
pub open spec fn instructions_of(ds: Seq<Declaration>) -> Seq<InstructionModel>
    decreases ds.len(),
{
    if ds.len() == 0 {
        Seq::empty()
    } else {
        instructions_of(ds.drop_last()) + (if is_instruction(ds.last()) {
            seq![instruction_of(ds.last())]
        } else {
            Seq::empty()
        })
    }
}

/// The account fields of a field list, in declaration order: one entry per
/// named field; positional fields are skipped.
pub open spec fn account_fields_of(fs: Seq<AstField>) -> Seq<FieldModel>
    decreases fs.len(),
{
    if fs.len() == 0 {
        Seq::empty()
    } else {
        account_fields_of(fs.drop_last()) + (match fs.last().name {
            Some(n) => seq![FieldModel { name: n@, ty_name: type_text(fs.last().ty) }],
            None => Seq::empty(),
        })
    }
}

/// The account a record declaration yields; its type name repeats its name.
pub open spec fn account_of(d: Declaration) -> AccountModel {
    match d {
        Declaration::Record { name, fields, .. } => AccountModel {
            name: name@,
            ty_name: name@,
            fields: account_fields_of(fields@),
        },
        _ => AccountModel { name: Seq::empty(), ty_name: Seq::empty(), fields: Seq::empty() },
    }
}

/// The accounts of a tree, in source order.
pub open spec fn accounts_of(ds: Seq<Declaration>) -> Seq<AccountModel>
    decreases ds.len(),
{
    if ds.len() == 0 {
        Seq::empty()
    } else {
        accounts_of(ds.drop_last()) + (if is_account(ds.last()) {
            seq![account_of(ds.last())]
        } else {
            Seq::empty()
        })
    }
}

/// The auxiliary type a record or choice declaration yields: its name and
/// the full re-rendered text of the declaration itself.
pub open spec fn type_of(d: Declaration) -> TypeModel {
    TypeModel { name: declaration_name(d), type_def: declaration_text(d) }
}

/// The auxiliary types of a tree, in source order.
pub open spec fn types_of(ds: Seq<Declaration>) -> Seq<TypeModel>
    decreases ds.len(),
{
    if ds.len() == 0 {
        Seq::empty()
    } else {
        types_of(ds.drop_last()) + (if is_plain_type(ds.last()) {
            seq![type_of(ds.last())]
        } else {
            Seq::empty()
        })
    }
}

/// Each extraction pass is deterministic: the extracted sequence is a
/// function of the tree alone, so two runs over the identical tree yield
/// equal output sequences in the same order.
pub proof fn lemma_extraction_deterministic(
    ds: Seq<Declaration>,
    i1: Seq<InstructionModel>,
    i2: Seq<InstructionModel>,
    a1: Seq<AccountModel>,
    a2: Seq<AccountModel>,
    t1: Seq<TypeModel>,
    t2: Seq<TypeModel>,
)
    requires
        i1 == instructions_of(ds),
        i2 == instructions_of(ds),
        a1 == accounts_of(ds),
        a2 == accounts_of(ds),
        t1 == types_of(ds),
        t2 == types_of(ds),
    ensures
        i1 == i2,
        a1 == a2,
        t1 == t2,
{
}

/// There is a declaration of the tree that is an externally visible
/// function and yields entry `j` of the extracted instructions.
pub open spec fn instruction_provenance(ds: Seq<Declaration>, j: int) -> bool {
    exists|i: int|
        #![trigger ds[i]]
        0 <= i < ds.len() && is_instruction(ds[i]) && instructions_of(ds)[j] == instruction_of(
            ds[i],
        )
}

/// There is a record of the tree classified as an account that yields
/// entry `a` of the extracted accounts.
pub open spec fn account_provenance(ds: Seq<Declaration>, a: int) -> bool {
    exists|i: int|
        #![trigger ds[i]]
        0 <= i < ds.len() && is_account(ds[i]) && accounts_of(ds)[a] == account_of(ds[i])
}

/// There is a record not claimed as an account, or a choice, of the tree
/// that yields entry `t` of the extracted auxiliary types.
pub open spec fn type_provenance(ds: Seq<Declaration>, t: int) -> bool {
    exists|i: int|
        #![trigger ds[i]]
        0 <= i < ds.len() && is_plain_type(ds[i]) && types_of(ds)[t] == type_of(ds[i])
}

/// Every extracted instruction stems from an externally visible function of
/// the tree: a function declared without external visibility never appears
/// among the instructions.
pub proof fn lemma_instructions_only_visible(ds: Seq<Declaration>)
    ensures
        forall|j: int| 0 <= j < instructions_of(ds).len() ==> #[trigger] instruction_provenance(
            ds,
            j,
        ),
    decreases ds.len(),
{
    if ds.len() != 0 {
        let prefix = ds.drop_last();
        lemma_instructions_only_visible(prefix);
        assert forall|j: int| 0 <= j < instructions_of(ds).len() implies #[trigger]
            instruction_provenance(ds, j) by {
            if j < instructions_of(prefix).len() {
                assert(instruction_provenance(prefix, j));
                let i = choose|i: int|
                    #![trigger prefix[i]]
                    0 <= i < prefix.len() && is_instruction(prefix[i]) && instructions_of(
                        prefix,
                    )[j] == instruction_of(prefix[i]);
                assert(instructions_of(ds)[j] == instructions_of(prefix)[j]);
                assert(ds[i] == prefix[i]);
                assert(0 <= i < ds.len() && is_instruction(ds[i]) && instructions_of(ds)[j]
                    == instruction_of(ds[i]));
            } else {
                let i = ds.len() - 1;
                assert(is_instruction(ds[i]));
                assert(instructions_of(ds)[j] == instruction_of(ds[i]));
            }
        }
    }
}

/// A function whose parameters are all typed yields exactly one argument
/// per parameter, in declaration order.
pub proof fn lemma_typed_params_all_extracted(ps: Seq<Parameter>)
    requires
        forall|i: int| 0 <= i < ps.len() ==> ps[i] is Typed,
    ensures
        args_of(ps).len() == ps.len(),
        forall|i: int| 0 <= i < ps.len() ==> #[trigger] args_of(ps)[i] == param_arg(ps[i]),
    decreases ps.len(),
{
    if ps.len() != 0 {
        let prefix = ps.drop_last();
        assert forall|i: int| 0 <= i < prefix.len() implies #[trigger] prefix[i] is Typed by {
            assert(prefix[i] == ps[i]);
        }
        lemma_typed_params_all_extracted(prefix);
        assert(ps.last() is Typed);
        assert forall|i: int| 0 <= i < ps.len() implies #[trigger] args_of(ps)[i] == param_arg(
            ps[i],
        ) by {
            if i < ps.len() - 1 {
                assert(args_of(prefix)[i] == param_arg(prefix[i]));
                assert(prefix[i] == ps[i]);
            } else {
                assert(args_of(ps)[i] == param_arg(ps.last()));
            }
        }
    }
}

/// Every extracted account stems from a record of the tree classified as
/// an account.
pub proof fn lemma_accounts_from_tree(ds: Seq<Declaration>)
    ensures
        forall|a: int| 0 <= a < accounts_of(ds).len() ==> #[trigger] account_provenance(ds, a),
    decreases ds.len(),
{
    if ds.len() != 0 {
        let prefix = ds.drop_last();
        lemma_accounts_from_tree(prefix);
        assert forall|a: int| 0 <= a < accounts_of(ds).len() implies #[trigger]
            account_provenance(ds, a) by {
            if a < accounts_of(prefix).len() {
                assert(account_provenance(prefix, a));
                let i = choose|i: int|
                    #![trigger prefix[i]]
                    0 <= i < prefix.len() && is_account(prefix[i]) && accounts_of(prefix)[a]
                        == account_of(prefix[i]);
                assert(accounts_of(ds)[a] == accounts_of(prefix)[a]);
                assert(ds[i] == prefix[i]);
                assert(0 <= i < ds.len() && is_account(ds[i]) && accounts_of(ds)[a]
                    == account_of(ds[i]));
            } else {
                let i = ds.len() - 1;
                assert(is_account(ds[i]));
                assert(accounts_of(ds)[a] == account_of(ds[i]));
            }
        }
    }
}

/// Every extracted auxiliary type stems from a record not claimed as an
/// account, or from a choice, of the tree.
pub proof fn lemma_types_from_tree(ds: Seq<Declaration>)
    ensures
        forall|t: int| 0 <= t < types_of(ds).len() ==> #[trigger] type_provenance(ds, t),
    decreases ds.len(),
{
    if ds.len() != 0 {
        let prefix = ds.drop_last();
        lemma_types_from_tree(prefix);
        assert forall|t: int| 0 <= t < types_of(ds).len() implies #[trigger] type_provenance(
            ds,
            t,
        ) by {
            if t < types_of(prefix).len() {
                assert(type_provenance(prefix, t));
                let i = choose|i: int|
                    #![trigger prefix[i]]
                    0 <= i < prefix.len() && is_plain_type(prefix[i]) && types_of(prefix)[t]
                        == type_of(prefix[i]);
                assert(types_of(ds)[t] == types_of(prefix)[t]);
                assert(ds[i] == prefix[i]);
                assert(0 <= i < ds.len() && is_plain_type(ds[i]) && types_of(ds)[t] == type_of(
                    ds[i],
                ));
            } else {
                let i = ds.len() - 1;
                assert(is_plain_type(ds[i]));
                assert(types_of(ds)[t] == type_of(ds[i]));
            }
        }
    }
}

/// In a tree whose record and choice declarations carry pairwise distinct
/// names, the set of names among the accounts and the set of names among
/// the auxiliary types never intersect: a record claimed as an account is
/// never also emitted as a plain type.
pub proof fn lemma_account_type_names_disjoint(ds: Seq<Declaration>)
    requires
        forall|i: int, j: int|
            0 <= i < ds.len() && 0 <= j < ds.len() && i != j && (ds[i] is Record || ds[i]
                is Choice) && (ds[j] is Record || ds[j] is Choice)
                ==> declaration_name(#[trigger] ds[i]) != declaration_name(#[trigger] ds[j]),
    ensures
        forall|a: int, t: int|
            0 <= a < accounts_of(ds).len() && 0 <= t < types_of(ds).len()
                ==> (#[trigger] accounts_of(ds)[a]).name != (#[trigger] types_of(ds)[t]).name,
{
    lemma_accounts_from_tree(ds);
    lemma_types_from_tree(ds);
    assert forall|a: int, t: int|
        0 <= a < accounts_of(ds).len() && 0 <= t < types_of(ds).len() implies (#[trigger]
    accounts_of(ds)[a]).name != (#[trigger] types_of(ds)[t]).name by {
        assert(account_provenance(ds, a));
        assert(type_provenance(ds, t));
        let i = choose|i: int|
            #![trigger ds[i]]
            0 <= i < ds.len() && is_account(ds[i]) && accounts_of(ds)[a] == account_of(ds[i]);
        let j = choose|j: int|
            #![trigger ds[j]]
            0 <= j < ds.len() && is_plain_type(ds[j]) && types_of(ds)[t] == type_of(ds[j]);
        assert(ds[i] is Record);
        assert(accounts_of(ds)[a].name == declaration_name(ds[i]));
        assert(types_of(ds)[t].name == declaration_name(ds[j]));
        if i == j {
            assert(false);
        } else {
            assert(ds[j] is Record || ds[j] is Choice);
            assert(declaration_name(ds[i]) != declaration_name(ds[j]));
        }
    }
}

/// Compares a string with a literal.
fn string_eq(s: &String, lit: &str) -> (r: bool)
    ensures
        r == (s@ == lit@),
{
    let l = String::from_str(lit);
    *s == l
}

/// Whether this attribute qualifies its record as an account.
fn is_account_attribute(a: &Attribute) -> (r: bool)
    ensures
        r == is_account_attr(*a),
{
    if a.path.len() != 1 {
        return false;
    }
    string_eq(&a.path[0], "account") || string_eq(&a.path[0], "derive")
}

/// Whether this declaration is a record classified as an account.
pub fn is_account_struct(d: &Declaration) -> (r: bool)
    ensures
        r == is_account(*d),
{
    match d {
        Declaration::Record { attrs, .. } => {
            let mut i: usize = 0;
            while i < attrs.len()
                invariant
                    i <= attrs@.len(),
                    is_account(*d) == has_account_attr(attrs@),
                    forall|j: int| 0 <= j < i ==> !is_account_attr(attrs@[j]),
                decreases attrs@.len() - i,
            {
                if is_account_attribute(&attrs[i]) {
                    proof {
                        assert(is_account_attr(attrs@[i as int]));
                    }
                    return true;
                }
                i += 1;
            }
            false
        },
        _ => false,
    }
}

/// Whether this declaration is a function with external visibility.
pub fn is_instruction_fn(d: &Declaration) -> (r: bool)
    ensures
        r == is_instruction(*d),
{
    match d {
        Declaration::Function { visible, .. } => *visible,
        _ => false,
    }
}

/// Projects a function declaration to its instruction: one argument per
/// typed parameter, in declaration order, and an empty account list.
pub fn parse_instruction_fn(d: &Declaration) -> (r: IdlInstruction)
    requires
        d is Function,
    ensures
        r@ == instruction_of(*d),
{
    match d {
        Declaration::Function { name, params, .. } => {
            let mut args: Vec<IdlArgument> = Vec::new();
            let mut i: usize = 0;
            while i < params.len()
                invariant
                    i <= params@.len(),
                    args_view(args@) == args_of(params@.take(i as int)),
                decreases params@.len() - i,
            {
                match &params[i] {
                    Parameter::Typed { pattern, ty } => {
                        let arg_name = match pattern {
                            Pattern::Ident(n) => n.clone(),
                            Pattern::Complex => String::from_str("_"),
                        };
                        let ty_name = type_to_string(ty);
                        args.push(IdlArgument { name: arg_name, ty_name });
                    },
                    Parameter::Untyped => {},
                }
                proof {
                    assert(params@.take(i + 1).drop_last() =~= params@.take(i as int));
                    assert(params@.take(i + 1).last() == params@[i as int]);
                    assert(args_view(args@) =~= args_of(params@.take(i + 1)));
                }
                i += 1;
            }
            proof {
                assert(params@.take(params@.len() as int) =~= params@);
            }
            let r = IdlInstruction { name: name.clone(), args, accounts: Vec::new() };
            proof {
                assert(r@.accounts =~= instruction_of(*d).accounts);
            }
            r
        },
        _ => unreached(),
    }
}

/// Scans the tree's top-level declarations and extracts one instruction per
/// externally visible function, in source order.
pub fn collect_instructions(ast: &SyntaxTree) -> (r: Vec<IdlInstruction>)
    ensures
        instructions_view(r@) == instructions_of(ast.decls@),
{
    let mut out: Vec<IdlInstruction> = Vec::new();
    let mut i: usize = 0;
    while i < ast.decls.len()
        invariant
            i <= ast.decls@.len(),
            instructions_view(out@) == instructions_of(ast.decls@.take(i as int)),
        decreases ast.decls@.len() - i,
    {
        if is_instruction_fn(&ast.decls[i]) {
            out.push(parse_instruction_fn(&ast.decls[i]));
        }
        proof {
            assert(ast.decls@.take(i + 1).drop_last() =~= ast.decls@.take(i as int));
            assert(ast.decls@.take(i + 1).last() == ast.decls@[i as int]);
            assert(instructions_view(out@) =~= instructions_of(ast.decls@.take(i + 1)));
        }
        i += 1;
    }
    proof {
        assert(ast.decls@.take(ast.decls@.len() as int) =~= ast.decls@);
    }
    out
}

/// Projects a record declaration to its account: one field per named field,
/// in declaration order, with its rendered type.
pub fn parse_account_struct(d: &Declaration) -> (r: IdlAccount)
    requires
        d is Record,
    ensures
        r@ == account_of(*d),
{
    match d {
        Declaration::Record { name, fields, .. } => {
            let mut out: Vec<IdlField> = Vec::new();
            let mut i: usize = 0;
            while i < fields.len()
                invariant
                    i <= fields@.len(),
                    fields_view(out@) == account_fields_of(fields@.take(i as int)),
                decreases fields@.len() - i,
            {
                match &fields[i].name {
                    Some(n) => {
                        let ty_name = type_to_string(&fields[i].ty);
                        out.push(IdlField { name: n.clone(), ty_name });
                    },
                    None => {},
                }
                proof {
                    assert(fields@.take(i + 1).drop_last() =~= fields@.take(i as int));
                    assert(fields@.take(i + 1).last() == fields@[i as int]);
                    assert(fields_view(out@) =~= account_fields_of(fields@.take(i + 1)));
                }
                i += 1;
            }
            proof {
                assert(fields@.take(fields@.len() as int) =~= fields@);
            }
            IdlAccount { name: name.clone(), ty_name: name.clone(), fields: out }
        },
        _ => unreached(),
    }
}

/// Scans the tree's top-level declarations and extracts one account per
/// record carrying a recognized annotation, in source order.
pub fn collect_accounts(ast: &SyntaxTree) -> (r: Vec<IdlAccount>)
    ensures
        accounts_view(r@) == accounts_of(ast.decls@),
{
    let mut out: Vec<IdlAccount> = Vec::new();
    let mut i: usize = 0;
    while i < ast.decls.len()
        invariant
            i <= ast.decls@.len(),
            accounts_view(out@) == accounts_of(ast.decls@.take(i as int)),
        decreases ast.decls@.len() - i,
    {
        let d = &ast.decls[i];
        let is_record = match d {
            Declaration::Record { .. } => true,
            _ => false,
        };
        if is_record {
            if is_account_struct(d) {
                out.push(parse_account_struct(d));
            }
        }
        proof {
            assert(ast.decls@.take(i + 1).drop_last() =~= ast.decls@.take(i as int));
            assert(ast.decls@.take(i + 1).last() == ast.decls@[i as int]);
            assert(accounts_view(out@) =~= accounts_of(ast.decls@.take(i + 1)));
        }
        i += 1;
    }
    proof {
        assert(ast.decls@.take(ast.decls@.len() as int) =~= ast.decls@);
    }
    out
}

/// Projects a record declaration to an auxiliary type: its name and the
/// full re-rendered declaration text.
pub fn parse_type_struct(d: &Declaration) -> (r: IdlType)
    requires
        d is Record,
    ensures
        r@ == type_of(*d),
{
    match d {
        Declaration::Record { name, attrs, fields } => {
            let type_def = record_to_string(name, attrs, fields);
            IdlType { name: name.clone(), type_def }
        },
        _ => unreached(),
    }
}

/// Projects a choice declaration to an auxiliary type: its name and the
/// full re-rendered declaration text.
pub fn parse_type_enum(d: &Declaration) -> (r: IdlType)
    requires
        d is Choice,
    ensures
        r@ == type_of(*d),
{
    match d {
        Declaration::Choice { name, variants } => {
            let type_def = choice_to_string(name, variants);
            IdlType { name: name.clone(), type_def }
        },
        _ => unreached(),
    }
}

/// Scans the tree's top-level declarations and extracts one auxiliary type
/// per record not claimed as an account and per choice, in source order.
pub fn collect_types(ast: &SyntaxTree) -> (r: Vec<IdlType>)
    ensures
        types_view(r@) == types_of(ast.decls@),
{
    let mut out: Vec<IdlType> = Vec::new();
    let mut i: usize = 0;
    while i < ast.decls.len()
        invariant
            i <= ast.decls@.len(),
            types_view(out@) == types_of(ast.decls@.take(i as int)),
        decreases ast.decls@.len() - i,
    {
        let d = &ast.decls[i];
        match d {
            Declaration::Record { .. } => {
                if !is_account_struct(d) {
                    out.push(parse_type_struct(d));
                }
            },
            Declaration::Choice { .. } => {
                out.push(parse_type_enum(d));
            },
            _ => {},
        }
        proof {
            assert(ast.decls@.take(i + 1).drop_last() =~= ast.decls@.take(i as int));
            assert(ast.decls@.take(i + 1).last() == ast.decls@[i as int]);
            assert(types_view(out@) =~= types_of(ast.decls@.take(i + 1)));
        }
        i += 1;
    }
    proof {
        assert(ast.decls@.take(ast.decls@.len() as int) =~= ast.decls@);
    }
    out
}

} // verus!
