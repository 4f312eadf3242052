use vstd::prelude::*;

verus! {

/// How aggressively a downstream consumer may drop frames of a stream:
/// nothing, only what the demuxer deems useless, non-reference frames,
/// bidirectionally predicted frames, non-intra frames, non-key frames, or
/// everything.
#[derive(Clone, Copy, Debug, PartialEq, Eq, Structural)]
pub enum Discard {
    Nothing,
    Default,
    NonRef,
    Bidirectional,
    NonIntra,
    NonKey,
    All,
}

/// The discard policy a raw descriptor value stands for. Each policy has one
/// canonical raw value; every other value decodes to the default policy.
pub open spec fn discard_from_raw_spec(raw: int) -> Discard {
    if raw == -16 {
        Discard::Nothing
    } else if raw == 8 {
        Discard::NonRef
    } else if raw == 16 {
        Discard::Bidirectional
    } else if raw == 24 {
        Discard::NonIntra
    } else if raw == 32 {
        Discard::NonKey
    } else if raw == 48 {
        Discard::All
    } else {
        Discard::Default
    }
}

/// The canonical raw value of a discard policy.
pub open spec fn discard_raw_spec(d: Discard) -> int {
    match d {
        Discard::Nothing => -16,
        Discard::Default => 0,
        Discard::NonRef => 8,
        Discard::Bidirectional => 16,
        Discard::NonIntra => 24,
        Discard::NonKey => 32,
        Discard::All => 48,
    }
}

impl Discard {
    /// Decodes a raw descriptor value into a discard policy. Unknown values
    /// are never an error: they decode to the default policy.
    pub fn from_raw(raw: i32) -> (r: Discard)
        ensures
            r == discard_from_raw_spec(raw as int),
    {
        if raw == -16 {
            Discard::Nothing
        } else if raw == 8 {
            Discard::NonRef
        } else if raw == 16 {
            Discard::Bidirectional
        } else if raw == 24 {
            Discard::NonIntra
        } else if raw == 32 {
            Discard::NonKey
        } else if raw == 48 {
            Discard::All
        } else {
            Discard::Default
        }
    }

    /// The canonical raw value of this policy.
    pub fn raw(&self) -> (r: i32)
        ensures
            r as int == discard_raw_spec(*self),
    {
        match *self {
            Discard::Nothing => -16,
            Discard::Default => 0,
            Discard::NonRef => 8,
            Discard::Bidirectional => 16,
            Discard::NonIntra => 24,
            Discard::NonKey => 32,
            Discard::All => 48,
        }
    }
}

/// Decoding a policy's canonical raw value gives the policy back: the raw
/// representation loses nothing.
pub proof fn lemma_discard_round_trip(d: Discard)
    ensures
        discard_from_raw_spec(discard_raw_spec(d)) == d,
{
}

} // verus!
