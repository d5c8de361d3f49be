//! The IDL document and its parts, together with their mathematical models.
//! Each executable struct views to a model made of character sequences, and
//! every extractor contract is stated over these models.

use vstd::prelude::*;

verus! {

/// Model of one instruction argument: its name and its rendered type.
pub struct ArgModel {
    pub name: Seq<char>,
    pub ty_name: Seq<char>,
}

/// Model of one account reference of an instruction.
pub struct AccountMetaModel {
    pub name: Seq<char>,
    pub is_mut: bool,
    pub is_signer: bool,
}

/// Model of one instruction: name, ordered arguments and account usage.
pub struct InstructionModel {
    pub name: Seq<char>,
    pub args: Seq<ArgModel>,
    pub accounts: Seq<AccountMetaModel>,
}

/// Model of one record field of an account.
pub struct FieldModel {
    pub name: Seq<char>,
    pub ty_name: Seq<char>,
}

/// Model of one account record: name, redundant type name, ordered fields.
pub struct AccountModel {
    pub name: Seq<char>,
    pub ty_name: Seq<char>,
    pub fields: Seq<FieldModel>,
}

/// Model of one auxiliary type: its name and its re-rendered definition.
pub struct TypeModel {
    pub name: Seq<char>,
    pub type_def: Seq<char>,
}

/// Model of the whole document.
pub struct IdlModel {
    pub version: Seq<char>,
    pub name: Seq<char>,
    pub instructions: Seq<InstructionModel>,
    pub accounts: Seq<AccountModel>,
    pub types: Seq<TypeModel>,
}

/// One argument of an instruction.
pub struct IdlArgument {
    pub name: String,
    pub ty_name: String,
}

/// One account referenced by an instruction.
pub struct IdlAccountMeta {
    pub name: String,
    pub is_mut: bool,
    pub is_signer: bool,
}

/// One callable entry point of the program.
pub struct IdlInstruction {
    pub name: String,
    pub args: Vec<IdlArgument>,
    pub accounts: Vec<IdlAccountMeta>,
}

/// One field of an account record.
pub struct IdlField {
    pub name: String,
    pub ty_name: String,
}

/// One persistent account record.
pub struct IdlAccount {
    pub name: String,
    pub ty_name: String,
    pub fields: Vec<IdlField>,
}

/// One auxiliary type, carried as re-rendered definition text.
pub struct IdlType {
    pub name: String,
    pub type_def: String,
}

/// The assembled IDL document.
pub struct Idl {
    pub version: String,
    pub name: String,
    pub instructions: Vec<IdlInstruction>,
    pub accounts: Vec<IdlAccount>,
    pub types: Vec<IdlType>,
}

/// The models of a sequence of arguments.
pub open spec fn args_view(s: Seq<IdlArgument>) -> Seq<ArgModel> {
    s.map_values(|x: IdlArgument| x@)
}

/// The models of a sequence of account references.
pub open spec fn metas_view(s: Seq<IdlAccountMeta>) -> Seq<AccountMetaModel> {
    s.map_values(|x: IdlAccountMeta| x@)
}

/// The models of a sequence of instructions.
pub open spec fn instructions_view(s: Seq<IdlInstruction>) -> Seq<InstructionModel> {
    s.map_values(|x: IdlInstruction| x@)
}

/// The models of a sequence of fields.
pub open spec fn fields_view(s: Seq<IdlField>) -> Seq<FieldModel> {
    s.map_values(|x: IdlField| x@)
}

/// The models of a sequence of accounts.
pub open spec fn accounts_view(s: Seq<IdlAccount>) -> Seq<AccountModel> {
    s.map_values(|x: IdlAccount| x@)
}

/// The models of a sequence of auxiliary types.
pub open spec fn types_view(s: Seq<IdlType>) -> Seq<TypeModel> {
    s.map_values(|x: IdlType| x@)
}

impl View for IdlArgument {
    type V = ArgModel;

    open spec fn view(&self) -> ArgModel {
        ArgModel { name: self.name@, ty_name: self.ty_name@ }
    }
}

impl View for IdlAccountMeta {
    type V = AccountMetaModel;

    open spec fn view(&self) -> AccountMetaModel {
        AccountMetaModel { name: self.name@, is_mut: self.is_mut, is_signer: self.is_signer }
    }
}

impl View for IdlInstruction {
    type V = InstructionModel;

    open spec fn view(&self) -> InstructionModel {
        InstructionModel {
            name: self.name@,
            args: args_view(self.args@),
            accounts: metas_view(self.accounts@),
        }
    }
}

impl View for IdlField {
    type V = FieldModel;

    open spec fn view(&self) -> FieldModel {
        FieldModel { name: self.name@, ty_name: self.ty_name@ }
    }
}

impl View for IdlAccount {
    type V = AccountModel;

    open spec fn view(&self) -> AccountModel {
        AccountModel {
            name: self.name@,
            ty_name: self.ty_name@,
            fields: fields_view(self.fields@),
        }
    }
}

impl View for IdlType {
    type V = TypeModel;

    open spec fn view(&self) -> TypeModel {
        TypeModel { name: self.name@, type_def: self.type_def@ }
    }
}

impl View for Idl {
    type V = IdlModel;

    open spec fn view(&self) -> IdlModel {
        IdlModel {
            version: self.version@,
            name: self.name@,
            instructions: instructions_view(self.instructions@),
            accounts: accounts_view(self.accounts@),
            types: types_view(self.types@),
        }
    }
}

} // verus!
