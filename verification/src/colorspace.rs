//! Colorspaces and encodings that the video encoder accepts as input.

use vstd::prelude::*;

verus! {

/// The pixel layouts that an input image can have.
#[derive(Clone, Copy, Debug, PartialEq, Eq, Hash, Structural)]
pub enum Colorspace {
    /// A Y plane followed by 2x2 subsampled U and V planes.
    I420,
    /// A Y plane followed by 2x2 subsampled V and U planes.
    YV12,
    /// A Y plane followed by a packed 2x2 subsampled UV plane.
    NV12,
    /// A Y plane followed by a packed 2x2 subsampled VU plane.
    NV21,
    /// A Y plane followed by 2x1 subsampled U and V planes.
    I422,
    /// A Y plane followed by 2x1 subsampled V and U planes.
    YV16,
    /// A Y plane followed by a packed 2x1 subsampled UV plane.
    NV16,
    /// A packed 32-bit UYVY plane with 10-bit components and 2 padding bits.
    V210,
    /// A Y plane followed by U and V planes.
    I444,
    /// A Y plane followed by V and U planes.
    YV24,
    /// A packed 24-bit BGR plane.
    BGR,
    /// A packed 32-bit BGR plane, where the last byte of each pixel is padding.
    BGRA,
    /// A packed 24-bit RGB plane.
    RGB,
}

/// What can be said of an image besides its colorspace.
#[derive(Clone, Copy, Debug, PartialEq, Eq, Hash, Structural)]
pub enum Modifier {
    /// The image is stored bottom row first.
    VerticalFlip,
    /// Every pixel component takes 16 bits.
    HighDepth,
}

/// A colorspace together with its modifiers.
#[derive(Clone, Copy, Debug, PartialEq, Eq, Hash, Structural)]
pub struct Encoding {
    pub colorspace: Colorspace,
    pub vertical_flip: bool,
    pub high_depth: bool,
}

impl Encoding {
    /// Whether the encoding carries the modifier, for use in contracts.
    pub open spec fn spec_has(self, modifier: Modifier) -> bool {
        match modifier {
            Modifier::VerticalFlip => self.vertical_flip,
            Modifier::HighDepth => self.high_depth,
        }
    }

    /// The encoding with the modifier set to `on` and nothing else changed.
    pub open spec fn spec_set(self, modifier: Modifier, on: bool) -> Encoding {
        match modifier {
            Modifier::VerticalFlip => Encoding { vertical_flip: on, ..self },
            Modifier::HighDepth => Encoding { high_depth: on, ..self },
        }
    }

    /// The plain encoding of a colorspace: no modifier.
    pub open spec fn spec_plain(colorspace: Colorspace) -> Encoding {
        Encoding { colorspace, vertical_flip: false, high_depth: false }
    }

    /// The plain encoding of a colorspace: no modifier.
    pub fn plain(colorspace: Colorspace) -> (out: Encoding)
        ensures
            out == Self::spec_plain(colorspace),
    {
        Encoding { colorspace, vertical_flip: false, high_depth: false }
    }

    /// The colorspace of the encoding.
    pub fn colorspace(self) -> (out: Colorspace)
        ensures
            out == self.colorspace,
    {
        self.colorspace
    }

    /// Whether the encoding carries the modifier.
    pub fn has(self, modifier: Modifier) -> (out: bool)
        ensures
            out == self.spec_has(modifier),
    {
        match modifier {
            Modifier::VerticalFlip => self.vertical_flip,
            Modifier::HighDepth => self.high_depth,
        }
    }

    /// The encoding with the modifier added.
    pub fn with(self, modifier: Modifier) -> (out: Encoding)
        ensures
            out == self.spec_set(modifier, true),
    {
        match modifier {
            Modifier::VerticalFlip => Encoding {
                colorspace: self.colorspace,
                vertical_flip: true,
                high_depth: self.high_depth,
            },
            Modifier::HighDepth => Encoding {
                colorspace: self.colorspace,
                vertical_flip: self.vertical_flip,
                high_depth: true,
            },
        }
    }

    /// The encoding with the modifier removed.
    pub fn without(self, modifier: Modifier) -> (out: Encoding)
        ensures
            out == self.spec_set(modifier, false),
    {
        match modifier {
            Modifier::VerticalFlip => Encoding {
                colorspace: self.colorspace,
                vertical_flip: false,
                high_depth: self.high_depth,
            },
            Modifier::HighDepth => Encoding {
                colorspace: self.colorspace,
                vertical_flip: self.vertical_flip,
                high_depth: false,
            },
        }
    }
}

impl Colorspace {
    /// The plain encoding of the colorspace.
    pub fn encoding(self) -> (out: Encoding)
        ensures
            out == Encoding::spec_plain(self),
    {
        Encoding::plain(self)
    }
}

/// Adding a modifier and asking for it gives `true`; removing it gives `false`;
/// the other modifier and the colorspace are untouched either way.
pub proof fn lemma_modifiers_are_independent(e: Encoding, m: Modifier, other: Modifier, on: bool)
    requires
        m != other,
    ensures
        e.spec_set(m, on).spec_has(m) == on,
        e.spec_set(m, on).spec_has(other) == e.spec_has(other),
        e.spec_set(m, on).colorspace == e.colorspace,
{
}

} // verus!
