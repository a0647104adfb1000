//! `std::io::Error` as the library's errors carry it.

use vstd::prelude::*;

verus! {

#[verifier::external_type_specification]
#[verifier::external_body]
pub struct ExIoError(std::io::Error);

/// `<std::io::Error as Display>::fmt`, through `to_string`: the error's text.
/// Nothing is stated of the text.
#[verifier::external_body]
pub(crate) fn io_error_text(error: &std::io::Error) -> String {
    error.to_string()
}

} // verus!
