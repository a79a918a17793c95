//! Plane geometry: how many planes an image of a colorspace has, and how its
//! width and height give the bytes per row and the rows of each plane.

use vstd::prelude::*;
use crate::colorspace::Colorspace;

verus! {

/// The most planes that any colorspace has.
pub const MAX_PLANES: usize = 3;

/// The geometry of one colorspace.
///
/// An image `width` pixels wide and `height` pixels high must have a width
/// divisible by `width_divisor` and a height divisible by `height_divisor`.
/// Plane `i` then needs `width / width_divisor * stride_factors[i]` bytes per
/// row, and `height / height_divisor * row_factors[i]` rows. Entries past
/// `planes` are zero.
#[derive(Clone, Copy, Debug, PartialEq, Eq)]
pub struct PlaneGeometry {
    pub planes: usize,
    pub width_divisor: u32,
    pub height_divisor: u32,
    pub stride_factors: [u32; 3],
    pub row_factors: [u32; 3],
}

/// Number of planes of a colorspace.
pub open spec fn plane_count(colorspace: Colorspace) -> nat {
    match colorspace {
        Colorspace::I420 | Colorspace::YV12 => 3,
        Colorspace::NV12 | Colorspace::NV21 => 2,
        Colorspace::I422 | Colorspace::YV16 => 3,
        Colorspace::NV16 => 2,
        Colorspace::V210 => 1,
        Colorspace::I444 | Colorspace::YV24 => 3,
        Colorspace::BGR | Colorspace::RGB => 1,
        Colorspace::BGRA => 1,
    }
}

/// Number of pixels that the colorspace groups horizontally.
pub open spec fn width_divisor(colorspace: Colorspace) -> int {
    match colorspace {
        Colorspace::I420 | Colorspace::YV12 => 2,
        Colorspace::NV12 | Colorspace::NV21 => 2,
        Colorspace::I422 | Colorspace::YV16 => 2,
        Colorspace::NV16 => 2,
        _ => 1,
    }
}

/// Number of pixels that the colorspace groups vertically.
pub open spec fn height_divisor(colorspace: Colorspace) -> int {
    match colorspace {
        Colorspace::I420 | Colorspace::YV12 => 2,
        Colorspace::NV12 | Colorspace::NV21 => 2,
        _ => 1,
    }
}

/// Bytes per row that plane `i` needs for each horizontal group of pixels;
/// zero where the colorspace has no plane `i`.
pub open spec fn stride_factor(colorspace: Colorspace, i: int) -> int {
    if i < 0 || i >= plane_count(colorspace) {
        0
    } else {
        match colorspace {
            Colorspace::I420 | Colorspace::YV12 | Colorspace::I422 | Colorspace::YV16 => if i
                == 0 {
                2
            } else {
                1
            },
            Colorspace::NV12 | Colorspace::NV21 | Colorspace::NV16 => 2,
            Colorspace::V210 => 4,
            Colorspace::I444 | Colorspace::YV24 => 1,
            Colorspace::BGR | Colorspace::RGB => 3,
            Colorspace::BGRA => 4,
        }
    }
}

/// Rows that plane `i` needs for each vertical group of pixels; zero where the
/// colorspace has no plane `i`.
pub open spec fn row_factor(colorspace: Colorspace, i: int) -> int {
    if i < 0 || i >= plane_count(colorspace) {
        0
    } else {
        match colorspace {
            Colorspace::I420 | Colorspace::YV12 => if i == 0 {
                2
            } else {
                1
            },
            Colorspace::NV12 | Colorspace::NV21 => if i == 0 {
                2
            } else {
                1
            },
            _ => 1,
        }
    }
}

impl PlaneGeometry {
    /// Whether the table is the geometry of the colorspace.
    pub open spec fn describes(self, colorspace: Colorspace) -> bool {
        &&& self.planes == plane_count(colorspace)
        &&& self.width_divisor == width_divisor(colorspace)
        &&& self.height_divisor == height_divisor(colorspace)
        &&& forall|i: int|
            0 <= i < 3 ==> #[trigger] self.stride_factors[i] == stride_factor(colorspace, i)
        &&& forall|i: int| 0 <= i < 3 ==> #[trigger] self.row_factors[i] == row_factor(colorspace, i)
    }
}

/// The geometry of a colorspace.
pub fn plane_geometry(colorspace: Colorspace) -> (out: PlaneGeometry)
    ensures
        out.describes(colorspace),
{
    match colorspace {
        Colorspace::I420 | Colorspace::YV12 => PlaneGeometry {
            planes: 3,
            width_divisor: 2,
            height_divisor: 2,
            stride_factors: [2, 1, 1],
            row_factors: [2, 1, 1],
        },
        Colorspace::NV12 | Colorspace::NV21 => PlaneGeometry {
            planes: 2,
            width_divisor: 2,
            height_divisor: 2,
            stride_factors: [2, 2, 0],
            row_factors: [2, 1, 0],
        },
        Colorspace::I422 | Colorspace::YV16 => PlaneGeometry {
            planes: 3,
            width_divisor: 2,
            height_divisor: 1,
            stride_factors: [2, 1, 1],
            row_factors: [1, 1, 1],
        },
        Colorspace::NV16 => PlaneGeometry {
            planes: 2,
            width_divisor: 2,
            height_divisor: 1,
            stride_factors: [2, 2, 0],
            row_factors: [1, 1, 0],
        },
        Colorspace::V210 => PlaneGeometry {
            planes: 1,
            width_divisor: 1,
            height_divisor: 1,
            stride_factors: [4, 0, 0],
            row_factors: [1, 0, 0],
        },
        Colorspace::I444 | Colorspace::YV24 => PlaneGeometry {
            planes: 3,
            width_divisor: 1,
            height_divisor: 1,
            stride_factors: [1, 1, 1],
            row_factors: [1, 1, 1],
        },
        Colorspace::BGR | Colorspace::RGB => PlaneGeometry {
            planes: 1,
            width_divisor: 1,
            height_divisor: 1,
            stride_factors: [3, 0, 0],
            row_factors: [1, 0, 0],
        },
        Colorspace::BGRA => PlaneGeometry {
            planes: 1,
            width_divisor: 1,
            height_divisor: 1,
            stride_factors: [4, 0, 0],
            row_factors: [1, 0, 0],
        },
    }
}

/// Every colorspace has between one and three planes, positive divisors, and
/// positive factors for each of its planes.
pub proof fn lemma_geometry_bounds(colorspace: Colorspace, i: int)
    ensures
        1 <= plane_count(colorspace) <= MAX_PLANES,
        1 <= width_divisor(colorspace) <= 2,
        1 <= height_divisor(colorspace) <= 2,
        0 <= i < plane_count(colorspace) ==> 1 <= stride_factor(colorspace, i) <= 4,
        0 <= i < plane_count(colorspace) ==> 1 <= row_factor(colorspace, i) <= 2,
{
}

} // verus!
