//! Finding this generator's section in a parsed configuration document.

use vstd::prelude::*;

verus! {

/// `toml::Value`, a parsed configuration document or a part of one. Nothing
/// inside it is visible to the proofs.
#[verifier::external_type_specification]
#[verifier::external_body]
pub struct ExValue(toml::Value);

/// What `toml::Value::get` returns for a value and a string key: the entry
/// of the table under that key, and nothing where the value is no table or
/// the table has no such key.
pub uninterp spec fn table_entry(value: toml::Value, key: Seq<char>) -> Option<toml::Value>;

/// Calls `toml::Value::get` with a string key. The contract only names the
/// result: the entry that toml finds under `key`, if any.
#[verifier::external_body]
fn get<'a>(value: &'a toml::Value, key: &str) -> (entry: Option<&'a toml::Value>)
    ensures
        match entry {
            Some(found) => table_entry(*value, key@) == Some(*found),
            None => table_entry(*value, key@) is None,
        },
{
    value.get(key)
}

/// The section of a document that configures this generator: the entry
/// `kotlin-multiplatform` of the entry `bindings`.
pub open spec fn section_of(root: toml::Value) -> Option<toml::Value> {
    match table_entry(root, "bindings"@) {
        Some(bindings) => table_entry(bindings, "kotlin-multiplatform"@),
        None => None,
    }
}

/// Finds the section of the document that configures this generator.
pub fn config_section<'a>(root_toml: &'a toml::Value) -> (section: Option<&'a toml::Value>)
    ensures
        match section {
            Some(found) => section_of(*root_toml) == Some(*found),
            None => section_of(*root_toml) is None,
        },
{
    match get(root_toml, "bindings") {
        Some(bindings) => get(bindings, "kotlin-multiplatform"),
        None => None,
    }
}

} // verus!
