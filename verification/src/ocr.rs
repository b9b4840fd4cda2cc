//! Errors of the captcha reader.

use anyhow::Error as AnyhowError;
use vstd::prelude::*;

verus! {

/// `anyhow::Error`, the error the OCR engine reports, carried in `OcrError`. Opaque here.
#[verifier::external_type_specification]
#[verifier::external_body]
pub struct ExAnyhowError(AnyhowError);

/// An error of the captcha reader.
#[derive(Debug)]
pub enum OcrError {
    /// The OCR engine failed, or could not be reached.
    DdddocrError(AnyhowError),
}

/// Formats an `anyhow::Error` with its `Display` impl. Nothing is stated of the text:
/// it is whatever the error's own message is.
#[verifier::external_body]
fn anyhow_message(err: &AnyhowError) -> String {
    format!("{}", err)
}

/// The text every message of an `OcrError` starts with.
pub open spec fn ocr_error_prefix() -> Seq<char> {
    "Ddddocr error: "@
}

impl OcrError {
    /// The message of this error: `Ddddocr error: ` followed by the engine's message.
    pub fn to_string(&self) -> (s: String)
        ensures
            s@.len() >= ocr_error_prefix().len(),
            s@.subrange(0, ocr_error_prefix().len() as int) == ocr_error_prefix(),
    {
        match self {
            OcrError::DdddocrError(err) => {
                let detail = anyhow_message(err);
                let s = "Ddddocr error: ".to_owned().concat(detail.as_str());
                assert(s@.subrange(0, ocr_error_prefix().len() as int) =~= ocr_error_prefix());
                s
            },
        }
    }
}

impl vstd::std_specs::convert::FromSpecImpl<AnyhowError> for OcrError {
    open spec fn obeys_from_spec() -> bool {
        true
    }

    open spec fn from_spec(err: AnyhowError) -> Self {
        OcrError::DdddocrError(err)
    }
}

impl From<AnyhowError> for OcrError {
    fn from(err: AnyhowError) -> (r: Self) {
        OcrError::DdddocrError(err)
    }
}

} // verus!
