//! Encoder configuration: the quality knobs shared read-only by every
//! conversion job, and the derivation of the alpha-channel quality.

use vstd::prelude::*;
use vstd::string::StringExecFns;
use crate::errors::ConfigError;
use crate::text::str_eq;

verus! {

/// Internal color space used by the encoder.
#[derive(Clone, Copy, PartialEq, Eq, Structural, Debug)]
pub enum ColorSpace {
    YCbCr,
    RGB,
}

/// How color data under fully transparent pixels is treated.
#[derive(Clone, Copy, PartialEq, Eq, Structural, Debug)]
pub enum AlphaColorMode {
    /// Discard color of fully transparent pixels.
    UnassociatedClean,
    /// Keep color of fully transparent pixels.
    UnassociatedDirty,
}

/// The alpha-channel quality derived from the main quality knob:
/// `min(q + q/4 + 2, (q + 100) / 2)`, skewed above the main quality.
pub open spec fn alpha_quality_formula(q: int) -> int {
    vstd::math::min(q + q / 4 + 2, (q + 100) / 2)
}

/// Derives the alpha-channel quality from the main quality.
pub fn alpha_quality_for(quality: u8) -> (r: u8)
    ensures
        r == alpha_quality_formula(quality as int),
{
    let a: u32 = quality as u32 + quality as u32 / 4 + 2;
    let b: u32 = (quality as u32 + 100) / 2;
    let m: u32 = if a < b {
        a
    } else {
        b
    };
    assert(m <= 177);
    m as u8
}

/// For every quality in 1..=100 the derived alpha quality is at least the
/// main quality, stays within 1..=100, and is exactly 100 at quality 100.
pub proof fn lemma_alpha_quality_bounds(q: int)
    requires
        1 <= q <= 100,
    ensures
        alpha_quality_formula(q) >= q,
        1 <= alpha_quality_formula(q) <= 100,
        q == 100 ==> alpha_quality_formula(q) == 100,
{
}

/// Parses the user-facing color-space name. Exactly `ycbcr` and `rgb` are
/// accepted; anything else is a configuration error naming the bad value.
pub fn parse_color_space(name: &str) -> (r: Result<ColorSpace, ConfigError>)
    ensures
        match r {
            Ok(c) => (name@ == "ycbcr"@ && c == ColorSpace::YCbCr) || (name@ == "rgb"@ && c
                == ColorSpace::RGB),
            Err(e) => {
                &&& name@ != "ycbcr"@
                &&& name@ != "rgb"@
                &&& e.wf()
                &&& e.chain() == seq!["bad color type: "@ + name@]
            },
        },
{
    if str_eq(name, "ycbcr") {
        Ok(ColorSpace::YCbCr)
    } else if str_eq(name, "rgb") {
        Ok(ColorSpace::RGB)
    } else {
        Err(ConfigError::new(String::from_str("bad color type: ").concat(name)))
    }
}

/// Immutable record of the settings shared by all jobs of one batch.
pub struct EncodingConfig {
    /// Main quality, 1 (worst) to 100 (best).
    pub quality: u8,
    /// Alpha-channel quality derived from `quality`.
    pub alpha_quality: u8,
    /// Encoder speed, 0 (best) to 10 (fastest).
    pub speed: u8,
    /// Maximum worker threads; `None` means all available parallelism.
    pub thread_budget: Option<usize>,
    /// Internal color space.
    pub color_space: ColorSpace,
    /// Treatment of color under fully transparent pixels.
    pub alpha_mode: AlphaColorMode,
    /// Permit replacing an existing destination file.
    pub overwrite: bool,
    /// Suppress informational and warning output.
    pub quiet: bool,
}

impl EncodingConfig {
    /// Well-formedness: quality knobs in range, alpha quality derived by the
    /// formula, and a thread budget that is never an explicit zero.
    pub open spec fn wf(self) -> bool {
        &&& 1 <= self.quality <= 100
        &&& self.alpha_quality == alpha_quality_formula(self.quality as int)
        &&& self.speed <= 10
        &&& (self.thread_budget matches Some(n) ==> n > 0)
    }

    /// Builds the shared configuration from already-parsed argument values.
    /// A knob out of its documented range is a configuration error naming
    /// the knob; a thread count of zero means "use all available
    /// parallelism".
    pub fn from_arguments(
        quality: u8,
        speed: u8,
        threads: usize,
        overwrite: bool,
        quiet: bool,
        dirty_alpha: bool,
        color_space: ColorSpace,
    ) -> (r: Result<EncodingConfig, ConfigError>)
        ensures
            r is Ok <==> (1 <= quality <= 100 && speed <= 10),
            r matches Err(e) ==> e.wf() && e.chain() == (if !(1 <= quality <= 100) {
                seq!["quality must be between 1 and 100"@]
            } else {
                seq!["speed must be between 0 and 10"@]
            }),
            r matches Ok(c) ==> {
                &&& c.wf()
                &&& c.quality == quality
                &&& c.speed == speed
                &&& c.thread_budget == (if threads > 0 {
                    Some(threads)
                } else {
                    None::<usize>
                })
                &&& c.color_space == color_space
                &&& c.alpha_mode == (if dirty_alpha {
                    AlphaColorMode::UnassociatedDirty
                } else {
                    AlphaColorMode::UnassociatedClean
                })
                &&& c.overwrite == overwrite
                &&& c.quiet == quiet
            },
    {
        if quality < 1 || quality > 100 {
            return Err(ConfigError::new(String::from_str("quality must be between 1 and 100")));
        }
        if speed > 10 {
            return Err(ConfigError::new(String::from_str("speed must be between 0 and 10")));
        }
        let alpha_quality: u8 = alpha_quality_for(quality);
        Ok(
            EncodingConfig {
                quality,
                alpha_quality,
                speed,
                thread_budget: if threads > 0 {
                    Some(threads)
                } else {
                    None
                },
                color_space,
                alpha_mode: if dirty_alpha {
                    AlphaColorMode::UnassociatedDirty
                } else {
                    AlphaColorMode::UnassociatedClean
                },
                overwrite,
                quiet,
            },
        )
    }
}

} // verus!
