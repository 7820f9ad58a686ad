//! Errors that the controller hands to its callers.

use hdrhistogram::errors::CreationError;
use vstd::prelude::*;
use vstd::std_specs::convert::FromSpecImpl;
use vstd::string::to_string_from_display_ensures;

verus! {

/// Error types used in this crate.
#[derive(Debug)]
pub enum Error {
    /// The histogram could not be created.
    CreationError(CreationError),
}

impl Error {
    /// The message of this error: the name of its kind, a colon and a
    /// space, and what the histogram says of the failure.
    pub fn message(&self) -> (text: String)
        ensures
            self matches Error::CreationError(e) ==> exists|detail: String|
                #[trigger] to_string_from_display_ensures::<CreationError>(e, detail) && text@
                    == "CreationError: "@ + detail@,
    {
        match self {
            Error::CreationError(e) => {
                let detail = e.to_string();
                String::from_str("CreationError: ").concat(detail.as_str())
            },
        }
    }
}

impl From<CreationError> for Error {
    fn from(e: CreationError) -> (r: Error) {
        Error::CreationError(e)
    }
}

impl FromSpecImpl<CreationError> for Error {
    open spec fn obeys_from_spec() -> bool {
        true
    }

    open spec fn from_spec(e: CreationError) -> Error {
        Error::CreationError(e)
    }
}

} // verus!
