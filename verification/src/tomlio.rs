//! Trusted declaration for the TOML parser the toolkit reads manifests
//! and project configuration with.
//!
//! The library only ever reads single string fields out of TOML
//! documents — the package name from a manifest, the declared fields of
//! the project configuration.  What such a lookup yields is a function
//! of the document text alone; that result is given a name here, and
//! one trusted wrapper pins the call to it, so the verified readers can
//! promise exactly when they succeed and what they hand back.

use vstd::prelude::*;

verus! {

/// The string under `table.key` of a TOML document, or `None` when the
/// text does not parse as TOML, the table or the key is absent, or the
/// value there is not a string.
pub uninterp spec fn spec_toml_str_field(
    text: Seq<char>,
    table: Seq<char>,
    key: Seq<char>,
) -> Option<Seq<char>>;

/// Relies on toml::from_str, toml::Value::get and toml::Value::as_str:
/// parses the document and looks up the string under `table.key`.
/// Parsing is deterministic — the result depends on the arguments
/// alone — so the call returns exactly the named field.
#[verifier::external_body]
pub(crate) fn toml_str_field(text: &str, table: &str, key: &str) -> (r: Option<String>)
    ensures
        r matches Some(s) ==> spec_toml_str_field(text@, table@, key@) == Some(s@),
        (r is None) == (spec_toml_str_field(text@, table@, key@) is None),
{
    let doc: toml::Value = match toml::from_str(text) {
        Ok(v) => v,
        Err(_) => return None,
    };
    doc.get(table).and_then(|t| t.get(key)).and_then(|v| v.as_str()).map(|s| s.to_string())
}

} // verus!
