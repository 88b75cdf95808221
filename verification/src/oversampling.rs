use vstd::prelude::*;

verus! {

/// Oversampling multiplier applied to one measured quantity: the quantity is
/// sampled repeatedly and averaged, improving resolution at the cost of
/// conversion time.
#[derive(Clone, Copy, Debug, PartialEq, Eq, Structural)]
pub enum OversamplingSetting {
    /// No oversampling; the measurement is skipped.
    OSNone,
    /// Single sampling.
    OS1x,
    /// Twofold oversampling.
    OS2x,
    /// Fourfold oversampling.
    OS4x,
    /// Eightfold oversampling.
    OS8x,
    /// Sixteenfold oversampling.
    OS16x,
}

impl OversamplingSetting {
    /// The small-integer discriminant that backs each level.
    pub open spec fn discriminant(self) -> u8 {
        match self {
            OversamplingSetting::OSNone => 0,
            OversamplingSetting::OS1x => 1,
            OversamplingSetting::OS2x => 2,
            OversamplingSetting::OS4x => 3,
            OversamplingSetting::OS8x => 4,
            OversamplingSetting::OS16x => 5,
        }
    }

    /// The level that a discriminant in range stands for.
    pub open spec fn of_discriminant(os: u8) -> OversamplingSetting
        recommends
            os <= 5,
    {
        if os == 0 {
            OversamplingSetting::OSNone
        } else if os == 1 {
            OversamplingSetting::OS1x
        } else if os == 2 {
            OversamplingSetting::OS2x
        } else if os == 3 {
            OversamplingSetting::OS4x
        } else if os == 4 {
            OversamplingSetting::OS8x
        } else {
            OversamplingSetting::OS16x
        }
    }

    /// Builds the level backed by the discriminant `os`. A discriminant above
    /// 5 is a programming error in the caller, not a runtime condition, so no
    /// such call is admitted.
    pub fn from_u8(os: u8) -> (r: OversamplingSetting)
        requires
            os <= 5,
        ensures
            r == OversamplingSetting::of_discriminant(os),
            r.discriminant() == os,
    {
        match os {
            0 => OversamplingSetting::OSNone,
            1 => OversamplingSetting::OS1x,
            2 => OversamplingSetting::OS2x,
            3 => OversamplingSetting::OS4x,
            4 => OversamplingSetting::OS8x,
            _ => OversamplingSetting::OS16x,
        }
    }
}

/// The discriminants 0 through 5 and the six levels correspond one to one:
/// reading a level's discriminant back gives the level, and the level of a
/// level's discriminant is the level itself.
pub proof fn lemma_discriminant_bijective()
    ensures
        forall|os: u8|
            os <= 5 ==> (#[trigger] OversamplingSetting::of_discriminant(os)).discriminant() == os,
        forall|level: OversamplingSetting|
            OversamplingSetting::of_discriminant(#[trigger] level.discriminant()) == level,
{
}

} // verus!
