//! Reading of the program's declared name from the project manifest. The
//! `toml` crate performs the lookup behind one trusted wrapper; what it
//! finds is a function of the manifest text alone, so each fact about the
//! text is given a name, the wrapper's contract is stated over those names,
//! and the mapping of every outcome to its `ConfigError` is verified.

use vstd::prelude::*;

use crate::error::IdlError;

verus! {

/// Whether the text parses as a valid structured configuration document.
pub uninterp spec fn manifest_parses(s: Seq<char>) -> bool;

/// Whether the parsed document holds a `package` entry that is a table.
pub uninterp spec fn manifest_has_package_table(s: Seq<char>) -> bool;

/// The `name` string of the document's `package` table, when the text
/// parses and that table holds one.
pub uninterp spec fn manifest_package_name(s: Seq<char>) -> Option<Seq<char>>;

/// The outcome of looking `package.name` up in configuration text.
enum ManifestLookup {
    /// The name string was found.
    Found(String),
    /// The text is no valid document; carries the parser's diagnostic.
    Unparsable(String),
    /// The document has no `package` entry, or it is no table.
    NoPackageTable,
    /// The `package` table has no `name` entry, or it is no string.
    NoNameString,
}

/// Relies on toml::from_str, toml::Value::get, toml::Value::is_table and
/// toml::Value::as_str: parses the text and reads the `name` string of its
/// `package` table. The outcome depends on the text alone; the clauses
/// partition it over the named facts about the text.
#[verifier::external_body]
fn lookup_package_name(text: &str) -> (r: ManifestLookup)
    ensures
        (r is Found) == (manifest_package_name(text@) is Some),
        r matches ManifestLookup::Found(n) ==> manifest_package_name(text@) == Some(n@),
        (r is Unparsable) == !manifest_parses(text@),
        (r is NoPackageTable) == (manifest_parses(text@) && !manifest_has_package_table(
            text@,
        )),
        (r is NoNameString) == (manifest_parses(text@) && manifest_has_package_table(text@)
            && manifest_package_name(text@) is None),
{
    let value: toml::Value = match toml::from_str(text) {
        Ok(v) => v,
        Err(e) => return ManifestLookup::Unparsable(e.to_string()),
    };
    let package = match value.get("package") {
        Some(p) if p.is_table() => p,
        _ => return ManifestLookup::NoPackageTable,
    };
    match package.get("name").and_then(|n| n.as_str()) {
        Some(s) => ManifestLookup::Found(s.to_owned()),
        None => ManifestLookup::NoNameString,
    }
}

/// Reads the program's declared name from the manifest text: the `name`
/// string of the `package` table. Succeeds exactly when the text holds
/// one, with that name; every failure is a `ConfigError`, and each kind of
/// failure carries its own diagnostic.
pub fn extract_program_name(manifest_content: &str) -> (r: Result<String, IdlError>)
    ensures
        (r is Ok) == (manifest_package_name(manifest_content@) is Some),
        r matches Ok(n) ==> manifest_package_name(manifest_content@) == Some(n@),
        r matches Err(e) ==> e is ConfigError,
        manifest_parses(manifest_content@) && !manifest_has_package_table(manifest_content@)
            ==> (r matches Err(e) && e.diagnostic_text()
            == "Invalid Cargo.toml: missing [package]"@),
        manifest_parses(manifest_content@) && manifest_has_package_table(manifest_content@)
            && manifest_package_name(manifest_content@) is None ==> (r matches Err(e)
            && e.diagnostic_text() == "Invalid Cargo.toml: missing package name"@),
{
    match lookup_package_name(manifest_content) {
        ManifestLookup::Found(name) => Ok(name),
        ManifestLookup::Unparsable(diagnostic) => Err(IdlError::ConfigError(diagnostic)),
        ManifestLookup::NoPackageTable => Err(
            IdlError::ConfigError(String::from_str("Invalid Cargo.toml: missing [package]")),
        ),
        ManifestLookup::NoNameString => Err(
            IdlError::ConfigError(String::from_str("Invalid Cargo.toml: missing package name")),
        ),
    }
}

} // verus!
