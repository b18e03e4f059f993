//! Altitude interpretation modes of KML geometries and their text form.

mod altitude_mode;
mod errors;

pub use altitude_mode::{
    AltitudeMode,
    canonical_text,
    lemma_clamped_is_lenient_alias,
    lemma_format_injective,
    lemma_normalize,
    lemma_round_trip,
    parse_text,
};
pub use errors::Error;
