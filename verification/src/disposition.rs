use vstd::prelude::*;

verus! {

/// Bit masks of the named disposition flags a stream descriptor may carry.
pub const DISPOSITION_DEFAULT: i32 = 0x1;

pub const DISPOSITION_DUB: i32 = 0x2;

pub const DISPOSITION_ORIGINAL: i32 = 0x4;

pub const DISPOSITION_COMMENT: i32 = 0x8;

pub const DISPOSITION_LYRICS: i32 = 0x10;

pub const DISPOSITION_KARAOKE: i32 = 0x20;

pub const DISPOSITION_FORCED: i32 = 0x40;

pub const DISPOSITION_HEARING_IMPAIRED: i32 = 0x80;

pub const DISPOSITION_VISUAL_IMPAIRED: i32 = 0x100;

pub const DISPOSITION_CLEAN_EFFECTS: i32 = 0x200;

pub const DISPOSITION_ATTACHED_PIC: i32 = 0x400;

pub const DISPOSITION_TIMED_THUMBNAILS: i32 = 0x800;

pub const DISPOSITION_CAPTIONS: i32 = 0x10000;

pub const DISPOSITION_DESCRIPTIONS: i32 = 0x20000;

pub const DISPOSITION_METADATA: i32 = 0x40000;

pub const DISPOSITION_DEPENDENT: i32 = 0x80000;

pub const DISPOSITION_STILL_IMAGE: i32 = 0x100000;

/// Union of every named disposition flag: the bits a decode may keep.
pub const DISPOSITION_ALL: i32 = 0x1 | 0x2 | 0x4 | 0x8 | 0x10 | 0x20 | 0x40 | 0x80 | 0x100 | 0x200
    | 0x400 | 0x800 | 0x10000 | 0x20000 | 0x40000 | 0x80000 | 0x100000;

/// A set of disposition flags decoded from a descriptor's raw mask. Only
/// named flags are ever set: the truncating decode drops unknown bits.
#[derive(Clone, Copy, Debug, PartialEq, Eq, Structural)]
pub struct Disposition {
    bits: i32,
}

impl Disposition {
    /// The held mask.
    pub closed spec fn bits_spec(&self) -> i32 {
        self.bits
    }

    /// Truncating decode of a raw disposition mask: every named flag of the
    /// raw mask is kept, every unknown bit is silently dropped, and no raw
    /// mask is ever rejected.
    pub fn from_bits_truncate(raw: i32) -> (r: Disposition)
        ensures
            r.bits_spec() == raw & DISPOSITION_ALL,
    {
        Disposition { bits: raw & DISPOSITION_ALL }
    }

    /// The raw mask the set stands for, named flags only.
    pub fn bits(&self) -> (r: i32)
        ensures
            r == self.bits_spec(),
    {
        self.bits
    }

    /// Whether every flag of `mask` is in the set.
    pub fn contains(&self, mask: i32) -> (r: bool)
        ensures
            r == (self.bits_spec() & mask == mask),
    {
        self.bits & mask == mask
    }
}

/// A truncating decode keeps exactly the named flags of the raw mask: for any
/// mask of named flags, the decoded set holds it exactly when the raw mask
/// does, and no unknown bit survives the decode.
pub proof fn lemma_decode_truncates(raw: i32, mask: i32)
    requires
        mask & DISPOSITION_ALL == mask,
    ensures
        ((raw & DISPOSITION_ALL) & mask == mask) == (raw & mask == mask),
        (raw & DISPOSITION_ALL) & !DISPOSITION_ALL == 0,
{
    assert(((raw & DISPOSITION_ALL) & mask == mask) == (raw & mask == mask) && (raw
        & DISPOSITION_ALL) & !DISPOSITION_ALL == 0) by (bit_vector)
        requires
            mask & DISPOSITION_ALL == mask,
    ;
}

} // verus!
