//! Error surfaced at the router boundary when a structured button
//! payload does not decode.

use vstd::prelude::*;

verus! {

#[derive(Debug)]
pub enum ParseCallbackDataError {
    /// The payload's code segment, echoed back.
    UnknownCallbackCode { code: String },
}

impl Clone for ParseCallbackDataError {
    fn clone(&self) -> (r: Self)
        ensures
            r == *self,
    {
        match self {
            ParseCallbackDataError::UnknownCallbackCode { code } => {
                ParseCallbackDataError::UnknownCallbackCode { code: code.clone() }
            },
        }
    }
}

} // verus!
