use vstd::prelude::*;

use crate::errors::Error;

verus! {

/// `kml:altitudeMode`: how the altitude of a geometry is interpreted.
#[derive(Clone, Copy, Debug, PartialEq, Eq, Structural)]
pub enum AltitudeMode {
    /// Altitude is ignored; the geometry is pinned to the ground.
    ClampToGround,
    /// Altitude is a height above the ground at that point.
    RelativeToGround,
    /// Altitude is a height above a fixed reference.
    Absolute,
}

/// The canonical text of each mode: the only form that is written out.
pub open spec fn canonical_text(m: AltitudeMode) -> Seq<char> {
    match m {
        AltitudeMode::ClampToGround => "clampToGround"@,
        AltitudeMode::RelativeToGround => "relativeToGround"@,
        AltitudeMode::Absolute => "absolute"@,
    }
}

/// The mode that a text names, if any. Matching is exact and case-sensitive;
/// `clampedToGround`, written by some exporters, is read as `ClampToGround`.
pub open spec fn parse_text(s: Seq<char>) -> Option<AltitudeMode> {
    if s == "clampToGround"@ || s == "clampedToGround"@ {
        Some(AltitudeMode::ClampToGround)
    } else if s == "relativeToGround"@ {
        Some(AltitudeMode::RelativeToGround)
    } else if s == "absolute"@ {
        Some(AltitudeMode::Absolute)
    } else {
        None
    }
}

/// Whether two texts hold the same characters.
fn same_text(a: &str, b: &str) -> (r: bool)
    ensures
        r == (a@ == b@),
{
    a.to_owned() == b.to_owned()
}

impl AltitudeMode {
    /// Reads a mode from its text; any text but the four recognised ones is
    /// an `InvalidAltitudeMode` error that carries the text unchanged.
    pub fn parse(s: &str) -> (r: Result<AltitudeMode, Error>)
        ensures
            match r {
                Ok(m) => parse_text(s@) == Some(m),
                Err(Error::InvalidAltitudeMode(t)) => parse_text(s@) is None && t@ == s@,
            },
    {
        if same_text(s, "clampToGround") || same_text(s, "clampedToGround") {
            Ok(AltitudeMode::ClampToGround)
        } else if same_text(s, "relativeToGround") {
            Ok(AltitudeMode::RelativeToGround)
        } else if same_text(s, "absolute") {
            Ok(AltitudeMode::Absolute)
        } else {
            Err(Error::InvalidAltitudeMode(s.to_owned()))
        }
    }

    /// The canonical text of the mode.
    pub fn as_str(&self) -> (r: &'static str)
        ensures
            r@ == canonical_text(*self),
    {
        match self {
            AltitudeMode::ClampToGround => "clampToGround",
            AltitudeMode::RelativeToGround => "relativeToGround",
            AltitudeMode::Absolute => "absolute",
        }
    }

    /// The canonical text of the mode, as an owned string.
    pub fn to_string(&self) -> (r: String)
        ensures
            r@ == canonical_text(*self),
    {
        self.as_str().to_owned()
    }
}

impl Default for AltitudeMode {
    /// A mode left unspecified is `ClampToGround`.
    fn default() -> (r: AltitudeMode)
        ensures
            r == AltitudeMode::ClampToGround,
    {
        AltitudeMode::ClampToGround
    }
}

impl core::str::FromStr for AltitudeMode {
    type Err = Error;

    /// Same as [`AltitudeMode::parse`].
    fn from_str(s: &str) -> (r: Result<AltitudeMode, Error>)
        ensures
            match r {
                Ok(m) => parse_text(s@) == Some(m),
                Err(Error::InvalidAltitudeMode(t)) => parse_text(s@) is None && t@ == s@,
            },
    {
        AltitudeMode::parse(s)
    }
}

/// Reading the canonical text of a mode gives that mode back.
pub proof fn lemma_round_trip(m: AltitudeMode)
    ensures
        parse_text(canonical_text(m)) == Some(m),
{
    reveal_strlit("clampToGround");
    reveal_strlit("clampedToGround");
    reveal_strlit("relativeToGround");
    reveal_strlit("absolute");
    let t = canonical_text(m);
    match m {
        AltitudeMode::ClampToGround => {},
        AltitudeMode::RelativeToGround => {
            assert(t[0] != "clampToGround"@[0]);
            assert(t[0] != "clampedToGround"@[0]);
        },
        AltitudeMode::Absolute => {
            assert(t[0] != "clampToGround"@[0]);
            assert(t[0] != "clampedToGround"@[0]);
            assert(t[0] != "relativeToGround"@[0]);
        },
    }
}

/// Both spellings of the ground-clamped mode read as `ClampToGround`, and the
/// lenient spelling `clampedToGround` is never written out.
pub proof fn lemma_clamped_is_lenient_alias(m: AltitudeMode)
    ensures
        parse_text("clampedToGround"@) == Some(AltitudeMode::ClampToGround),
        parse_text("clampToGround"@) == Some(AltitudeMode::ClampToGround),
        canonical_text(m) != "clampedToGround"@,
{
    reveal_strlit("clampToGround");
    reveal_strlit("clampedToGround");
    reveal_strlit("relativeToGround");
    reveal_strlit("absolute");
    assert(canonical_text(m).len() != "clampedToGround"@.len());
}

/// Reading a text and writing the mode back normalises it: a canonical text
/// comes back unchanged, `clampedToGround` becomes `clampToGround`, and the
/// normalised text reads as the same mode, so normalising again changes nothing.
pub proof fn lemma_normalize(s: Seq<char>, m: AltitudeMode)
    requires
        parse_text(s) == Some(m),
    ensures
        canonical_text(m) == (if s == "clampedToGround"@ {
            "clampToGround"@
        } else {
            s
        }),
        parse_text(canonical_text(m)) == Some(m),
{
    lemma_round_trip(m);
}

/// Distinct modes have distinct canonical texts.
pub proof fn lemma_format_injective(a: AltitudeMode, b: AltitudeMode)
    ensures
        canonical_text(a) == canonical_text(b) <==> a == b,
{
    lemma_round_trip(a);
    lemma_round_trip(b);
}

} // verus!
