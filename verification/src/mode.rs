//! Rendering modes of the display controller and their wire codes.

use vstd::prelude::*;

verus! {

/// Rendering behaviour that the controller applies to a region.
#[derive(Clone, Copy, Debug, PartialEq, Eq, Structural)]
pub enum Mode {
    /// 1-bit mode with a custom look-up table, which this protocol cannot
    /// upload.
    ManualLUTNoDither,
    /// 1-bit mode with a custom look-up table and error-diffusion dithering.
    /// The table cannot be uploaded through this protocol.
    ManualLUTErrorDiffusion,
    /// 1-bit mode: every grey value becomes black or white.
    FastMonoNoDither,
    /// 1-bit mode with Bayer dithering.
    FastMonoBayer,
    /// 1-bit mode with dithering after a blue-noise pattern.
    FastMonoBlueNoise,
    /// 4-level grey mode, with a much slower refresh than the other modes.
    FastGrey,
    /// 1-bit without dithering while the image changes, greyscale once it
    /// has been still for a while.
    AutoNoDither,
    /// Like `AutoNoDither`, with error diffusion for the grey values.
    AutoErrorDiffusion,
}

impl Mode {
    /// The number by which the firmware knows this mode.
    pub open spec fn spec_code(self) -> i16 {
        match self {
            Mode::ManualLUTNoDither => 0,
            Mode::ManualLUTErrorDiffusion => 1,
            Mode::FastMonoNoDither => 2,
            Mode::FastMonoBayer => 3,
            Mode::FastMonoBlueNoise => 4,
            Mode::FastGrey => 5,
            Mode::AutoNoDither => 6,
            Mode::AutoErrorDiffusion => 7,
        }
    }

    /// The number by which the firmware knows this mode.
    #[verifier::when_used_as_spec(spec_code)]
    pub fn code(self) -> (code: i16)
        ensures
            code == self.spec_code(),
            0 <= code <= 7,
    {
        match self {
            Mode::ManualLUTNoDither => 0,
            Mode::ManualLUTErrorDiffusion => 1,
            Mode::FastMonoNoDither => 2,
            Mode::FastMonoBayer => 3,
            Mode::FastMonoBlueNoise => 4,
            Mode::FastGrey => 5,
            Mode::AutoNoDither => 6,
            Mode::AutoErrorDiffusion => 7,
        }
    }
}

/// The codes form a closed set in which no two modes share a number: a
/// mode is known by its code.
pub proof fn lemma_mode_codes_are_distinct(first: Mode, second: Mode)
    ensures
        0 <= first.spec_code() <= 7,
        first.spec_code() == second.spec_code() <==> first == second,
{
}

} // verus!
