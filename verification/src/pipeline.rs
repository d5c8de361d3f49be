//! The run's decision points around the extraction core: the outcome of
//! the external macro-expansion command, and the assembly of the final
//! document from the three extraction passes and the program name.

use vstd::prelude::*;

use crate::ast::SyntaxTree;
use crate::error::IdlError;
use crate::extract::{accounts_of, collect_accounts, collect_instructions, collect_types,
    instructions_of, types_of};
use crate::idl::{Idl, IdlAccount, IdlInstruction, IdlType, accounts_view, instructions_view,
    types_view};
use crate::manifest::{extract_program_name, manifest_package_name};

verus! {

/// The document format version every produced document carries.
pub open spec fn idl_version_text() -> Seq<char> {
    "0.1.0"@
}

/// Decides the outcome of the external macro-expansion command from its
/// exit status and captured output: on success the expanded source text,
/// otherwise an `ExpansionFailure` forwarding the diagnostic text.
pub fn expansion_result(success: bool, stdout_text: String, stderr_text: String) -> (r: Result<
    String,
    IdlError,
>)
    ensures
        success ==> (r matches Ok(out) && out@ == stdout_text@),
        !success ==> (r matches Err(e) && e == IdlError::ExpansionFailure(stderr_text)),
{
    if success {
        Ok(stdout_text)
    } else {
        Err(IdlError::ExpansionFailure(stderr_text))
    }
}

/// Merges the three extraction results and the program name into one
/// document, under the constant format version.
pub fn assemble_idl(
    name: String,
    instructions: Vec<IdlInstruction>,
    accounts: Vec<IdlAccount>,
    types: Vec<IdlType>,
) -> (r: Idl)
    ensures
        r@.version == idl_version_text(),
        r@.name == name@,
        r@.instructions == instructions_view(instructions@),
        r@.accounts == accounts_view(accounts@),
        r@.types == types_view(types@),
{
    Idl { version: String::from_str("0.1.0"), name, instructions, accounts, types }
}

/// Runs the three extraction passes over the tree, reads the program name
/// from the manifest text, and assembles the document. Succeeds exactly
/// when the manifest holds a package name; the document then carries that
/// name and exactly the tree's instructions, accounts and auxiliary types.
/// A failure is the manifest's `ConfigError`, and then no document is
/// built.
pub fn generate_idl(tree: &SyntaxTree, manifest_content: &str) -> (r: Result<Idl, IdlError>)
    ensures
        (r is Ok) == (manifest_package_name(manifest_content@) is Some),
        r matches Ok(idl) ==> idl@.version == idl_version_text() && manifest_package_name(
            manifest_content@,
        ) == Some(idl@.name) && idl@.instructions == instructions_of(tree.decls@)
            && idl@.accounts == accounts_of(tree.decls@) && idl@.types == types_of(
            tree.decls@,
        ),
        r matches Err(e) ==> e is ConfigError,
{
    let instructions = collect_instructions(tree);
    let accounts = collect_accounts(tree);
    let types = collect_types(tree);
    match extract_program_name(manifest_content) {
        Ok(name) => Ok(assemble_idl(name, instructions, accounts, types)),
        Err(e) => Err(e),
    }
}

} // verus!

