use std::fmt::Write;
use vstd::prelude::*;

verus! {

/// `anyhow::Error`: an error of no known type. The library takes such a
/// value and reads it only through [`error_text`].
#[verifier::external_type_specification]
#[verifier::external_body]
pub struct ExAnyhowError(anyhow::Error);

/// Formats an `anyhow::Error` with `{}`, which writes the message of the
/// outermost error and not those of its causes. Nothing is claimed of the
/// text: it is whatever the `Display` of the error inside writes. A failure
/// that this `Display` reports ends the text where it stands.
#[verifier::external_body]
pub(crate) fn error_text(err: &anyhow::Error) -> (text: String) {
    let mut text = String::new();
    let _ = write!(text, "{}", err);
    text
}

} // verus!
