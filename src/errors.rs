use vstd::prelude::*;

verus! {

/// Errors raised while reading values of the document model.
#[derive(Clone, Debug, PartialEq, Eq)]
pub enum Error {
    /// The text is none of the recognised altitude modes; it is kept verbatim.
    InvalidAltitudeMode(String),
}

} // verus!
