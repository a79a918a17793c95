//! Input images: raw pixel planes of a declared encoding, checked against the
//! geometry of their colorspace before they reach the encoder.

use vstd::prelude::*;
use crate::colorspace::{Colorspace, Encoding};
use crate::geometry::{
    plane_count, width_divisor, height_divisor, stride_factor, row_factor, plane_geometry,
    PlaneGeometry,
};

verus! {

/// The most planes that an image can carry to the encoder.
pub const PLANE_SLOTS: usize = 4;

/// A single plane of an image.
#[derive(Clone, Copy, Debug)]
pub struct Plane<'a> {
    /// The plane's stride: the number of bytes for each row.
    pub stride: u32,
    /// The plane's pixel data.
    pub data: &'a [u8],
}

/// Which rule of its colorspace's geometry an image breaks.
#[derive(Clone, Copy, Debug, PartialEq, Eq, Structural)]
pub enum ImageError {
    /// The image has another number of planes than its colorspace.
    PlaneCount { expected: usize, found: usize },
    /// The width or the height is no multiple of the colorspace's divisor.
    Dimensions,
    /// The stride of the plane is zero, cannot be represented, or is shorter
    /// than a row of the image.
    Stride { plane: usize },
    /// The plane's buffer holds fewer rows than the image is high.
    Rows { plane: usize },
}

/// What the encoder is told of an image's layout: the number of planes and the
/// stride of each, as the 32-bit signed values of its interface.
#[derive(Clone, Copy, Debug, PartialEq, Eq)]
pub struct RawImage {
    pub plane_count: i32,
    pub strides: [i32; 4],
}

/// Input image data to be given to the encoder.
#[derive(Debug)]
pub struct Image<'a> {
    encoding: Encoding,
    width: u32,
    height: u32,
    planes: Vec<Plane<'a>>,
}

/// Bytes that one pixel component takes: 2 in a high-depth encoding, else 1.
pub open spec fn depth_factor(encoding: Encoding) -> int {
    if encoding.high_depth {
        2
    } else {
        1
    }
}

/// The least number of bytes per row of plane `i`, before the depth factor.
pub open spec fn min_stride(encoding: Encoding, width: u32, i: int) -> int {
    (width as int / width_divisor(encoding.colorspace)) * stride_factor(encoding.colorspace, i)
}

/// The least number of rows of plane `i`.
pub open spec fn min_rows(encoding: Encoding, height: u32, i: int) -> int {
    (height as int / height_divisor(encoding.colorspace)) * row_factor(encoding.colorspace, i)
}

/// Whether width and height are multiples of the colorspace's divisors.
pub open spec fn dimensions_ok(encoding: Encoding, width: u32, height: u32) -> bool {
    &&& width as int % width_divisor(encoding.colorspace) == 0
    &&& height as int % height_divisor(encoding.colorspace) == 0
}

/// Whether `stride` is a usable stride for plane `i`: not zero, and with the
/// depth factor applied at least the least stride of the plane.
pub open spec fn stride_ok(encoding: Encoding, width: u32, i: int, stride: u32) -> bool {
    &&& stride > 0
    &&& stride * depth_factor(encoding) >= min_stride(encoding, width, i)
}

/// Whether a buffer of `len` bytes holds the rows that plane `i` needs at the
/// given stride.
pub open spec fn rows_ok(encoding: Encoding, height: u32, i: int, stride: u32, len: nat) -> bool {
    &&& stride > 0
    &&& len as int / stride as int >= min_rows(encoding, height, i)
}

/// The first rule that a plane at or after position `from` breaks, if any:
/// planes are taken in order, and of each the stride before the rows.
pub open spec fn plane_violation(
    encoding: Encoding,
    width: u32,
    height: u32,
    planes: Seq<Plane>,
    from: int,
) -> Option<ImageError>
    decreases planes.len() - from,
{
    if from < 0 || from >= planes.len() {
        None
    } else if !stride_ok(encoding, width, from, planes[from].stride) {
        Some(ImageError::Stride { plane: from as usize })
    } else if !rows_ok(encoding, height, from, planes[from].stride, planes[from].data@.len()) {
        Some(ImageError::Rows { plane: from as usize })
    } else {
        plane_violation(encoding, width, height, planes, from + 1)
    }
}

/// The first rule that an image breaks, if any: the plane count, then the
/// dimensions, then each plane in order.
pub open spec fn violation(encoding: Encoding, width: u32, height: u32, planes: Seq<Plane>) -> Option<
    ImageError,
> {
    if planes.len() != plane_count(encoding.colorspace) {
        Some(
            ImageError::PlaneCount {
                expected: plane_count(encoding.colorspace) as usize,
                found: planes.len() as usize,
            },
        )
    } else if !dimensions_ok(encoding, width, height) {
        Some(ImageError::Dimensions)
    } else {
        plane_violation(encoding, width, height, planes, 0)
    }
}

/// The stride that a packed image has when its buffer of `len` bytes holds
/// `height` rows and nothing else; none where the height is zero or the stride
/// does not fit 32 bits.
pub open spec fn packed_stride(len: nat, height: u32) -> Option<u32> {
    if height == 0 || len as int / height as int > u32::MAX {
        None
    } else {
        Some((len as int / height as int) as u32)
    }
}

/// The first rule that a packed image breaks, if any, when its one plane is a
/// buffer of `len` bytes at the stride that `len` and the height give: the
/// stride where there is none, then the dimensions, the stride and the rows.
pub open spec fn packed_violation(colorspace: Colorspace, width: u32, height: u32, len: nat) -> Option<
    ImageError,
> {
    let encoding = Encoding::spec_plain(colorspace);
    match packed_stride(len, height) {
        None => Some(ImageError::Stride { plane: 0 }),
        Some(stride) => if !dimensions_ok(encoding, width, height) {
            Some(ImageError::Dimensions)
        } else if !stride_ok(encoding, width, 0, stride) {
            Some(ImageError::Stride { plane: 0 })
        } else if !rows_ok(encoding, height, 0, stride, len) {
            Some(ImageError::Rows { plane: 0 })
        } else {
            None
        },
    }
}

/// A stride as the encoder's interface holds it: the same 32 bits, read as a
/// signed number.
pub open spec fn signed_stride(stride: u32) -> i32 {
    if stride <= i32::MAX {
        stride as i32
    } else {
        (stride - 0x1_0000_0000) as i32
    }
}

/// The least usable stride of plane `i`: the least number, not zero, that
/// with the depth factor applied reaches the least stride of the plane.
pub open spec fn least_stride(encoding: Encoding, width: u32, i: int) -> int {
    let need = min_stride(encoding, width, i);
    let least = if encoding.high_depth {
        (need + 1) / 2
    } else {
        need
    };
    if least < 1 {
        1
    } else {
        least
    }
}

/// The least buffer length of plane `i`: the least number of rows at the least
/// usable stride.
pub open spec fn least_len(encoding: Encoding, width: u32, height: u32, i: int) -> int {
    least_stride(encoding, width, i) * min_rows(encoding, height, i)
}

/// Whether plane `i` has exactly the least usable stride and the least buffer
/// length.
pub open spec fn at_minimum(
    encoding: Encoding,
    width: u32,
    height: u32,
    planes: Seq<Plane>,
    i: int,
) -> bool {
    &&& planes[i].stride == least_stride(encoding, width, i)
    &&& planes[i].data@.len() == least_len(encoding, width, height, i)
}

proof fn lemma_plane_at_minimum_passes(
    encoding: Encoding,
    width: u32,
    height: u32,
    planes: Seq<Plane>,
    i: int,
)
    requires
        0 <= i < planes.len(),
        planes.len() == plane_count(encoding.colorspace),
        at_minimum(encoding, width, height, planes, i),
    ensures
        stride_ok(encoding, width, i, planes[i].stride),
        rows_ok(encoding, height, i, planes[i].stride, planes[i].data@.len()),
{
    let s = planes[i].stride as int;
    let r = min_rows(encoding, height, i);
    vstd::arithmetic::div_mod::lemma_div_multiples_vanish(r, s);
}

proof fn lemma_planes_at_minimum_pass(
    encoding: Encoding,
    width: u32,
    height: u32,
    planes: Seq<Plane>,
    from: int,
    to: int,
)
    requires
        0 <= from <= to <= planes.len(),
        planes.len() == plane_count(encoding.colorspace),
        forall|i: int| from <= i < to ==> at_minimum(encoding, width, height, planes, i),
    ensures
        plane_violation(encoding, width, height, planes, from) == plane_violation(
            encoding,
            width,
            height,
            planes,
            to,
        ),
    decreases to - from,
{
    if from < to {
        lemma_plane_at_minimum_passes(encoding, width, height, planes, from);
        lemma_planes_at_minimum_pass(encoding, width, height, planes, from + 1, to);
    }
}

/// An image whose planes all have exactly the least usable stride and the
/// least buffer length for its colorspace, width and height breaks no rule.
pub proof fn lemma_minimal_image_is_accepted(
    encoding: Encoding,
    width: u32,
    height: u32,
    planes: Seq<Plane>,
)
    requires
        dimensions_ok(encoding, width, height),
        planes.len() == plane_count(encoding.colorspace),
        forall|i: int| 0 <= i < planes.len() ==> at_minimum(encoding, width, height, planes, i),
    ensures
        violation(encoding, width, height, planes) is None,
{
    lemma_planes_at_minimum_pass(encoding, width, height, planes, 0, planes.len() as int);
}

/// An image at the minimums but for one plane, whose stride is one byte short
/// of the least usable stride, is rejected for the stride of that plane.
pub proof fn lemma_short_stride_is_rejected(
    encoding: Encoding,
    width: u32,
    height: u32,
    planes: Seq<Plane>,
    k: int,
)
    requires
        dimensions_ok(encoding, width, height),
        planes.len() == plane_count(encoding.colorspace),
        0 <= k < planes.len(),
        forall|i: int|
            0 <= i < planes.len() && i != k ==> at_minimum(encoding, width, height, planes, i),
        planes[k].stride == least_stride(encoding, width, k) - 1,
    ensures
        violation(encoding, width, height, planes) == Some(ImageError::Stride { plane: k as usize }),
{
    lemma_planes_at_minimum_pass(encoding, width, height, planes, 0, k);
    assert(!stride_ok(encoding, width, k, planes[k].stride));
}

/// An image at the minimums but for one plane, whose buffer is one byte short
/// of the least buffer length, is rejected for the rows of that plane.
pub proof fn lemma_short_buffer_is_rejected(
    encoding: Encoding,
    width: u32,
    height: u32,
    planes: Seq<Plane>,
    k: int,
)
    requires
        dimensions_ok(encoding, width, height),
        planes.len() == plane_count(encoding.colorspace),
        0 <= k < planes.len(),
        forall|i: int|
            0 <= i < planes.len() && i != k ==> at_minimum(encoding, width, height, planes, i),
        planes[k].stride == least_stride(encoding, width, k),
        planes[k].data@.len() == least_len(encoding, width, height, k) - 1,
    ensures
        violation(encoding, width, height, planes) == Some(ImageError::Rows { plane: k as usize }),
{
    lemma_planes_at_minimum_pass(encoding, width, height, planes, 0, k);
    let s = planes[k].stride as int;
    let r = min_rows(encoding, height, k);
    let len = planes[k].data@.len() as int;
    assert(stride_ok(encoding, width, k, planes[k].stride));
    vstd::arithmetic::div_mod::lemma_multiply_divide_lt(len, s, r);
}

impl<'a> Image<'a> {
    /// No image has more planes than the encoder has slots for.
    #[verifier::type_invariant]
    spec fn within_slots(self) -> bool {
        self.planes@.len() <= PLANE_SLOTS
    }

    /// The encoding of the image.
    pub closed spec fn spec_encoding(&self) -> Encoding {
        self.encoding
    }

    /// The width of the image.
    pub closed spec fn spec_width(&self) -> u32 {
        self.width
    }

    /// The height of the image.
    pub closed spec fn spec_height(&self) -> u32 {
        self.height
    }

    /// The planes of the image, in order.
    pub closed spec fn spec_planes(&self) -> Seq<Plane<'a>> {
        self.planes@
    }

    /// Whether the image obeys the geometry of its colorspace.
    pub open spec fn is_valid(&self) -> bool {
        violation(self.spec_encoding(), self.spec_width(), self.spec_height(), self.spec_planes())
            is None
    }

    /// Whether the image has been given the values named.
    pub open spec fn holds(
        &self,
        encoding: Encoding,
        width: u32,
        height: u32,
        planes: Seq<Plane<'a>>,
    ) -> bool {
        &&& self.spec_encoding() == encoding
        &&& self.spec_width() == width
        &&& self.spec_height() == height
        &&& self.spec_planes() == planes
    }

    /// Makes a new image with the given information, after checking it against
    /// the geometry of its colorspace.
    ///
    /// Fails with the first rule that the image breaks, and only then.
    pub fn new(format: Encoding, width: u32, height: u32, planes: &[Plane<'a>]) -> (out: Result<
        Image<'a>,
        ImageError,
    >)
        ensures
            match violation(format, width, height, planes@) {
                Some(e) => out == Err::<Image<'a>, ImageError>(e),
                None => out is Ok && out->Ok_0.holds(format, width, height, planes@),
            },
    {
        let geometry: PlaneGeometry = plane_geometry(format.colorspace);
        if planes.len() != geometry.planes {
            return Err(ImageError::PlaneCount { expected: geometry.planes, found: planes.len() });
        }
        if width % geometry.width_divisor != 0 || height % geometry.height_divisor != 0 {
            return Err(ImageError::Dimensions);
        }
        let columns: u64 = (width / geometry.width_divisor) as u64;
        let lines: u64 = (height / geometry.height_divisor) as u64;
        let depth: u64 = if format.high_depth {
            2
        } else {
            1
        };
        let mut i: usize = 0;
        while i < planes.len()
            invariant
                i <= planes.len(),
                planes.len() == plane_count(format.colorspace),
                planes.len() <= 3,
                geometry.describes(format.colorspace),
                columns == width as int / width_divisor(format.colorspace),
                lines == height as int / height_divisor(format.colorspace),
                depth == depth_factor(format),
                violation(format, width, height, planes@) == plane_violation(
                    format,
                    width,
                    height,
                    planes@,
                    i as int,
                ),
            decreases planes.len() - i,
        {
            let stride: u64 = planes[i].stride as u64;
            let per_column: u64 = geometry.stride_factors[i] as u64;
            let per_line: u64 = geometry.row_factors[i] as u64;
            proof {
                assert(geometry.stride_factors[i as int] == stride_factor(
                    format.colorspace,
                    i as int,
                ));
                assert(geometry.row_factors[i as int] == row_factor(format.colorspace, i as int));
                assert(columns * per_column <= 4 * columns) by (nonlinear_arith)
                    requires
                        per_column <= 4,
                ;
                assert(lines * per_line <= 2 * lines) by (nonlinear_arith)
                    requires
                        per_line <= 2,
                ;
            }
            let need: u64 = columns * per_column;
            if stride == 0 || stride * depth < need {
                return Err(ImageError::Stride { plane: i });
            }
            let rows: u64 = planes[i].data.len() as u64 / stride;
            if rows < lines * per_line {
                return Err(ImageError::Rows { plane: i });
            }
            i = i + 1;
        }
        Ok(Self::new_unchecked(format, width, height, planes))
    }

    /// Makes a new packed BGR image, with the stride that the buffer's length
    /// and the height give.
    pub fn bgr(width: u32, height: u32, data: &'a [u8]) -> (out: Result<Image<'a>, ImageError>)
        ensures
            Self::packed_outcome(Colorspace::BGR, width, height, data, out),
    {
        Self::packed(Colorspace::BGR, width, height, data)
    }

    /// Makes a new packed RGB image, with the stride that the buffer's length
    /// and the height give.
    pub fn rgb(width: u32, height: u32, data: &'a [u8]) -> (out: Result<Image<'a>, ImageError>)
        ensures
            Self::packed_outcome(Colorspace::RGB, width, height, data, out),
    {
        Self::packed(Colorspace::RGB, width, height, data)
    }

    /// Makes a new packed BGRA image, with the stride that the buffer's length
    /// and the height give.
    pub fn bgra(width: u32, height: u32, data: &'a [u8]) -> (out: Result<Image<'a>, ImageError>)
        ensures
            Self::packed_outcome(Colorspace::BGRA, width, height, data, out),
    {
        Self::packed(Colorspace::BGRA, width, height, data)
    }

    /// What the packed constructors return: the first rule that a packed
    /// image breaks, or else the image with its one plane at the stride that
    /// the buffer's length and the height give.
    pub open spec fn packed_outcome(
        colorspace: Colorspace,
        width: u32,
        height: u32,
        data: &'a [u8],
        out: Result<Image<'a>, ImageError>,
    ) -> bool {
        match packed_violation(colorspace, width, height, data@.len()) {
            Some(e) => out == Err::<Image<'a>, ImageError>(e),
            None => out is Ok && out->Ok_0.holds(
                Encoding::spec_plain(colorspace),
                width,
                height,
                seq![Plane { stride: packed_stride(data@.len(), height)->Some_0, data }],
            ),
        }
    }

    fn packed(colorspace: Colorspace, width: u32, height: u32, data: &'a [u8]) -> (out: Result<
        Image<'a>,
        ImageError,
    >)
        requires
            plane_count(colorspace) == 1,
        ensures
            Self::packed_outcome(colorspace, width, height, data, out),
    {
        if height == 0 {
            return Err(ImageError::Stride { plane: 0 });
        }
        let stride: u64 = data.len() as u64 / height as u64;
        if stride > u32::MAX as u64 {
            return Err(ImageError::Stride { plane: 0 });
        }
        let planes: [Plane<'a>; 1] = [Plane { stride: stride as u32, data }];
        proof {
            let listed = seq![Plane { stride: stride as u32, data }];
            assert(planes@ =~= listed);
            reveal_with_fuel(plane_violation, 2);
        }
        Self::new(Encoding::plain(colorspace), width, height, planes.as_slice())
    }

    /// Makes a new image with the given planes and encoding, without checking
    /// them against the geometry of the colorspace.
    pub fn new_unchecked(format: Encoding, width: u32, height: u32, planes: &[Plane<'a>]) -> (out:
        Image<'a>)
        requires
            planes@.len() <= PLANE_SLOTS,
        ensures
            out.holds(format, width, height, planes@),
    {
        let mut kept: Vec<Plane<'a>> = Vec::new();
        let mut i: usize = 0;
        while i < planes.len()
            invariant
                i <= planes.len(),
                kept@ == planes@.subrange(0, i as int),
            decreases planes.len() - i,
        {
            kept.push(planes[i]);
            assert(kept@ =~= planes@.subrange(0, i + 1));
            i = i + 1;
        }
        assert(kept@ =~= planes@);
        Image { encoding: format, width, height, planes: kept }
    }

    /// The width of the image.
    #[verifier::when_used_as_spec(spec_width)]
    pub fn width(&self) -> (out: u32)
        ensures
            out == self.spec_width(),
    {
        self.width
    }

    /// The height of the image.
    #[verifier::when_used_as_spec(spec_height)]
    pub fn height(&self) -> (out: u32)
        ensures
            out == self.spec_height(),
    {
        self.height
    }

    /// The encoding of the image.
    #[verifier::when_used_as_spec(spec_encoding)]
    pub fn encoding(&self) -> (out: Encoding)
        ensures
            out == self.spec_encoding(),
    {
        self.encoding
    }

    /// The number of planes of the image.
    pub fn plane_count(&self) -> (out: usize)
        ensures
            out == self.spec_planes().len(),
    {
        self.planes.len()
    }

    /// The pixel data of plane `i`, if the image has such a plane.
    pub fn plane_data(&self, i: usize) -> (out: Option<&'a [u8]>)
        ensures
            i < self.spec_planes().len() ==> out == Some(self.spec_planes()[i as int].data),
            i >= self.spec_planes().len() ==> out is None,
    {
        if i < self.planes.len() {
            Some(self.planes[i].data)
        } else {
            None
        }
    }

    /// The layout of the image as the encoder's interface holds it: the number
    /// of planes, the stride of each plane as a signed number, and zero in the
    /// slots that the image does not use.
    pub fn raw(&self) -> (out: RawImage)
        ensures
            self.spec_planes().len() <= PLANE_SLOTS,
            out.plane_count == self.spec_planes().len(),
            forall|k: int|
                0 <= k < 4 ==> #[trigger] out.strides[k] == if k < self.spec_planes().len() {
                    signed_stride(self.spec_planes()[k].stride)
                } else {
                    0i32
                },
    {
        proof {
            use_type_invariant(self);
        }
        let mut strides: [i32; 4] = [0, 0, 0, 0];
        let mut i: usize = 0;
        while i < self.planes.len()
            invariant
                i <= self.planes.len(),
                self.planes.len() <= 4,
                forall|k: int|
                    0 <= k < 4 ==> #[trigger] strides[k] == if k < i {
                        signed_stride(self.planes@[k].stride)
                    } else {
                        0i32
                    },
            decreases self.planes.len() - i,
        {
            let stride: u32 = self.planes[i].stride;
            let signed: i32 = if stride <= 0x7fff_ffff {
                stride as i32
            } else {
                (stride as i64 - 0x1_0000_0000) as i32
            };
            strides[i] = signed;
            i = i + 1;
        }
        RawImage { plane_count: self.planes.len() as i32, strides }
    }
}

} // verus!
