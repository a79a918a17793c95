//! Encoder configuration: what the native encoder is to be opened with.
//!
//! The native encoder is driven from outside this library. A [`Setup`] records,
//! in the order they were asked for, the settings that the driver applies to
//! the encoder's parameters before it opens the encoder.

use vstd::prelude::*;
use vstd::string::StringExecFns;
use crate::colorspace::Encoding;
use crate::encoder::{Encoder, EncoderError};

verus! {

/// Speed against compression: the encoder's presets, fastest first.
#[derive(Clone, Copy, Debug, PartialEq, Eq, Hash, Structural)]
pub enum Preset {
    Ultrafast,
    Superfast,
    Veryfast,
    Faster,
    Fast,
    Medium,
    Slow,
    Slower,
    Veryslow,
    Placebo,
}

/// What kind of video the encoder is tuned for.
#[derive(Clone, Copy, Debug, PartialEq, Eq, Hash, Structural)]
pub enum Tune {
    /// No tuning.
    Plain,
    Film,
    Animation,
    Grain,
    StillImage,
    Psnr,
    Ssim,
}

/// The encoder's profiles.
#[derive(Clone, Copy, Debug, PartialEq, Eq, Hash, Structural)]
pub enum Profile {
    /// The lowest profile, which every decoder supports.
    Baseline,
    /// The middle ground between the baseline and high profiles.
    Main,
    /// The highest profile, which almost all decoders support.
    High,
}

/// The parameters that a setup starts from.
#[derive(Clone, Copy, Debug, PartialEq, Eq, Structural)]
pub enum Base {
    /// The encoder's defaults.
    Defaults,
    /// The defaults of a preset and a tune.
    Preset { preset: Preset, tune: Tune, fast_decode: bool, zero_latency: bool },
}

/// One change to the encoder's parameters.
#[derive(Clone, Copy, Debug, PartialEq, Eq, Structural)]
pub enum Step {
    /// Makes the first pass faster.
    FastFirstPass,
    /// The frame rate, in frames per second, as a fraction.
    Fps { num: u32, den: u32 },
    /// The timebase, in seconds per tick, as a fraction.
    Timebase { num: u32, den: u32 },
    /// Whether units are written with start codes rather than with sizes.
    AnnexB(bool),
    /// The target bitrate, in kilobits per second.
    Bitrate(i32),
    /// Restricts the parameters to a profile.
    Profile(Profile),
    /// The number of threads.
    Threads(u32),
}

/// The name by which the native encoder knows a preset.
pub open spec fn preset_text(preset: Preset) -> Seq<char> {
    match preset {
        Preset::Ultrafast => "ultrafast"@,
        Preset::Superfast => "superfast"@,
        Preset::Veryfast => "veryfast"@,
        Preset::Faster => "faster"@,
        Preset::Fast => "fast"@,
        Preset::Medium => "medium"@,
        Preset::Slow => "slow"@,
        Preset::Slower => "slower"@,
        Preset::Veryslow => "veryslow"@,
        Preset::Placebo => "placebo"@,
    }
}

/// The name by which the native encoder knows a tune; empty for no tuning.
pub open spec fn tune_text(tune: Tune) -> Seq<char> {
    match tune {
        Tune::Plain => ""@,
        Tune::Film => "film"@,
        Tune::Animation => "animation"@,
        Tune::Grain => "grain"@,
        Tune::StillImage => "stillimage"@,
        Tune::Psnr => "psnr"@,
        Tune::Ssim => "ssim"@,
    }
}

/// The names of the two tunings that can be had besides a tune, separated
/// by a comma; empty where neither is asked for.
pub open spec fn flags_text(fast_decode: bool, zero_latency: bool) -> Seq<char> {
    if fast_decode && zero_latency {
        "fastdecode,zerolatency"@
    } else if fast_decode {
        "fastdecode"@
    } else if zero_latency {
        "zerolatency"@
    } else {
        ""@
    }
}

/// The tuning as the native encoder reads it: the tune and the flags,
/// separated by a comma where both are there.
pub open spec fn tuning_text(tune: Tune, fast_decode: bool, zero_latency: bool) -> Seq<char> {
    if tune is Plain || !(fast_decode || zero_latency) {
        tune_text(tune) + flags_text(fast_decode, zero_latency)
    } else {
        tune_text(tune) + ","@ + flags_text(fast_decode, zero_latency)
    }
}

/// The name by which the native encoder knows a profile.
pub open spec fn profile_text(profile: Profile) -> Seq<char> {
    match profile {
        Profile::Baseline => "baseline"@,
        Profile::Main => "main"@,
        Profile::High => "high"@,
    }
}

impl Preset {
    /// The name by which the native encoder knows the preset.
    pub fn name(self) -> (out: &'static str)
        ensures
            out@ == preset_text(self),
    {
        match self {
            Preset::Ultrafast => "ultrafast",
            Preset::Superfast => "superfast",
            Preset::Veryfast => "veryfast",
            Preset::Faster => "faster",
            Preset::Fast => "fast",
            Preset::Medium => "medium",
            Preset::Slow => "slow",
            Preset::Slower => "slower",
            Preset::Veryslow => "veryslow",
            Preset::Placebo => "placebo",
        }
    }
}

impl Profile {
    /// The name by which the native encoder knows the profile.
    pub fn name(self) -> (out: &'static str)
        ensures
            out@ == profile_text(self),
    {
        match self {
            Profile::Baseline => "baseline",
            Profile::Main => "main",
            Profile::High => "high",
        }
    }
}

impl Tune {
    /// The tuning as the native encoder reads it: this tune and the two
    /// flags, separated by commas.
    pub fn tuning(self, fast_decode: bool, zero_latency: bool) -> (out: String)
        ensures
            out@ == tuning_text(self, fast_decode, zero_latency),
    {
        let tune: &'static str = match self {
            Tune::Plain => "",
            Tune::Film => "film",
            Tune::Animation => "animation",
            Tune::Grain => "grain",
            Tune::StillImage => "stillimage",
            Tune::Psnr => "psnr",
            Tune::Ssim => "ssim",
        };
        let flags: &'static str = if fast_decode && zero_latency {
            "fastdecode,zerolatency"
        } else if fast_decode {
            "fastdecode"
        } else if zero_latency {
            "zerolatency"
        } else {
            ""
        };
        let plain = match self {
            Tune::Plain => true,
            _ => false,
        };
        if plain || !(fast_decode || zero_latency) {
            tune.to_owned().concat(flags)
        } else {
            tune.to_owned().concat(",").concat(flags)
        }
    }
}

/// Builds a new encoder: a base and the changes made to it, in order.
#[derive(Clone, Debug)]
pub struct Setup {
    base: Base,
    steps: Vec<Step>,
}

/// What the native encoder is opened with: a setup, and the input format
/// that every image must have.
#[derive(Clone, Debug, PartialEq, Eq)]
pub struct OpenRequest {
    pub base: Base,
    pub steps: Vec<Step>,
    pub encoding: Encoding,
    pub width: i32,
    pub height: i32,
    pub bit_depth: i32,
}

/// Bits per pixel component that the encoder is opened with.
pub const BIT_DEPTH: i32 = 8;

impl Setup {
    /// The base of the setup.
    pub closed spec fn base(&self) -> Base {
        self.base
    }

    /// The changes made to the base, in the order they were asked for.
    pub closed spec fn steps(&self) -> Seq<Step> {
        self.steps@
    }

    /// Whether `self` is `before` with one more change, `step`, at the end.
    pub open spec fn extends(&self, before: &Setup, step: Step) -> bool {
        &&& self.base() == before.base()
        &&& self.steps() == before.steps().push(step)
    }

    /// Creates a new builder with the specified preset and tune.
    pub fn preset(preset: Preset, tune: Tune, fast_decode: bool, zero_latency: bool) -> (out: Self)
        ensures
            out.base() == (Base::Preset { preset, tune, fast_decode, zero_latency }),
            out.steps() == Seq::<Step>::empty(),
    {
        Setup { base: Base::Preset { preset, tune, fast_decode, zero_latency }, steps: Vec::new() }
    }

    fn with_step(self, step: Step) -> (out: Self)
        ensures
            out.extends(&self, step),
    {
        let mut steps = self.steps;
        steps.push(step);
        Setup { base: self.base, steps }
    }

    /// Makes the first pass faster.
    pub fn fastfirstpass(self) -> (out: Self)
        ensures
            out.extends(&self, Step::FastFirstPass),
    {
        self.with_step(Step::FastFirstPass)
    }

    /// The video's framerate, represented as a rational number.
    ///
    /// The value is in frames per second.
    pub fn fps(self, num: u32, den: u32) -> (out: Self)
        ensures
            out.extends(&self, Step::Fps { num, den }),
    {
        self.with_step(Step::Fps { num, den })
    }

    /// The encoder's timebase, used in rate control with timestamps.
    ///
    /// The value is in seconds per tick.
    pub fn timebase(self, num: u32, den: u32) -> (out: Self)
        ensures
            out.extends(&self, Step::Timebase { num, den }),
    {
        self.with_step(Step::Timebase { num, den })
    }

    /// Whether encoded units begin with start codes rather than sizes.
    pub fn annexb(self, annexb: bool) -> (out: Self)
        ensures
            out.extends(&self, Step::AnnexB(annexb)),
    {
        self.with_step(Step::AnnexB(annexb))
    }

    /// Approximately restricts the bitrate.
    ///
    /// The value is in metric kilobits per second.
    pub fn bitrate(self, bitrate: i32) -> (out: Self)
        ensures
            out.extends(&self, Step::Bitrate(bitrate)),
    {
        self.with_step(Step::Bitrate(bitrate))
    }

    /// The lowest profile, with guaranteed compatibility with all decoders.
    pub fn baseline(self) -> (out: Self)
        ensures
            out.extends(&self, Step::Profile(Profile::Baseline)),
    {
        self.with_step(Step::Profile(Profile::Baseline))
    }

    /// The middle ground between the baseline and high profiles.
    pub fn main_profile(self) -> (out: Self)
        ensures
            out.extends(&self, Step::Profile(Profile::Main)),
    {
        self.with_step(Step::Profile(Profile::Main))
    }

    /// The highest profile, which almost all decoders support.
    pub fn high(self) -> (out: Self)
        ensures
            out.extends(&self, Step::Profile(Profile::High)),
    {
        self.with_step(Step::Profile(Profile::High))
    }

    /// The number of threads that the encoder uses.
    pub fn threads(self, threads: u32) -> (out: Self)
        ensures
            out.extends(&self, Step::Threads(threads)),
    {
        self.with_step(Step::Threads(threads))
    }

    /// Whether an encoder can be asked for at this size: the encoder's
    /// interface holds width and height as signed 32-bit numbers.
    pub open spec fn size_ok(width: u32, height: u32) -> bool {
        width <= i32::MAX && height <= i32::MAX
    }

    /// Completes the setup with the input format of the encoder.
    ///
    /// Fails exactly where the width or the height does not fit the
    /// encoder's interface. Otherwise the request holds the setup unchanged,
    /// the format, and a bit depth of eight.
    pub fn build(self, csp: Encoding, width: u32, height: u32) -> (out: Result<
        OpenRequest,
        EncoderError,
    >)
        ensures
            out is Ok <==> Self::size_ok(width, height),
            out matches Ok(request) ==> {
                &&& request.base == self.base()
                &&& request.steps@ == self.steps()
                &&& request.encoding == csp
                &&& request.width == width
                &&& request.height == height
                &&& request.bit_depth == BIT_DEPTH
            },
    {
        if width > 0x7fff_ffff || height > 0x7fff_ffff {
            return Err(EncoderError);
        }
        Ok(
            OpenRequest {
                base: self.base,
                steps: self.steps,
                encoding: csp,
                width: width as i32,
                height: height as i32,
                bit_depth: BIT_DEPTH,
            },
        )
    }
}

impl Default for Setup {
    /// A builder that starts from the encoder's defaults.
    fn default() -> (out: Self)
        ensures
            out.base() == Base::Defaults,
            out.steps() == Seq::<Step>::empty(),
    {
        Setup { base: Base::Defaults, steps: Vec::new() }
    }
}

impl OpenRequest {
    /// The encoder that was opened with this request, where the native
    /// encoder accepted it; the error where it refused, and where the size
    /// asked for is negative, which no encoder accepts.
    pub fn opened(&self, accepted: bool) -> (out: Result<Encoder, EncoderError>)
        ensures
            out is Ok <==> accepted && self.width >= 0 && self.height >= 0,
            out matches Ok(encoder) ==> encoder.wf() && encoder.is_fresh(
                self.encoding,
                self.width as u32,
                self.height as u32,
            ),
    {
        if accepted && self.width >= 0 && self.height >= 0 {
            Ok(Encoder::from_raw(self.encoding, self.width as u32, self.height as u32))
        } else {
            Err(EncoderError)
        }
    }
}

} // verus!
