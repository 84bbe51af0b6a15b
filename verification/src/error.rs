//! Errors of decoding and conversion.
use vstd::prelude::*;

verus! {

/// An error raised while decoding or converting Substrate data.
#[derive(Clone, Debug)]
pub enum DecodeError {
    Error(String),
}

} // verus!
