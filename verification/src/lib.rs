//! Extraction of an IDL (interface description language) document from a
//! parsed syntax tree: classify top-level declarations as instructions,
//! account records or plain types, and render type expressions to text.

pub mod ast;
pub mod error;
pub mod extract;
pub mod idl;
pub mod manifest;
pub mod pipeline;
pub mod render;

pub use ast::{Attribute, Declaration, Field, Parameter, Pattern, SyntaxTree, TypeExpression,
    Variant};
pub use error::IdlError;
pub use extract::{collect_accounts, collect_instructions, collect_types, is_account_struct,
    is_instruction_fn, parse_account_struct, parse_instruction_fn, parse_type_enum,
    parse_type_struct};
pub use idl::{Idl, IdlAccount, IdlAccountMeta, IdlArgument, IdlField, IdlInstruction, IdlType};
pub use manifest::extract_program_name;
pub use pipeline::{assemble_idl, expansion_result, generate_idl};
pub use render::{type_text, type_to_string};
