//! Outside types that the library carries without looking inside.
use vstd::prelude::*;

verus! {

/// An operating-system I/O failure (std).
#[verifier::external_type_specification]
#[verifier::external_body]
pub struct ExIoError(std::io::Error);

/// A YAML parse failure of `serde_norway`.
#[verifier::external_type_specification]
#[verifier::external_body]
pub struct ExYamlError(serde_norway::Error);

/// A JSON parse failure of `serde_json`.
#[verifier::external_type_specification]
#[verifier::external_body]
pub struct ExJsonError(serde_json::Error);

/// The text that `Display` gives of an I/O error (std). Nothing is stated
/// of it: for operating-system errors it comes from the system.
#[verifier::external_body]
pub(crate) fn io_error_text(e: &std::io::Error) -> String {
    format!("{e}")
}

/// The text that `Display` gives of a `serde_norway` error. Nothing is
/// stated of it: the error type has no view to state it over.
#[verifier::external_body]
pub(crate) fn yaml_error_text(e: &serde_norway::Error) -> String {
    format!("{e}")
}

/// The text that `Display` gives of a `serde_json` error. Nothing is stated
/// of it: the error type has no view to state it over.
#[verifier::external_body]
pub(crate) fn json_error_text(e: &serde_json::Error) -> String {
    format!("{e}")
}

/// The text that `Debug` gives of a `Duration` (std), such as `30s`.
/// Nothing is stated of it: `Duration` has no view to state it over.
#[verifier::external_body]
pub(crate) fn duration_text(d: std::time::Duration) -> String {
    format!("{d:?}")
}

} // verus!
