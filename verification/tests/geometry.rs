use frame_video::colorspace::{Colorspace, Encoding, Modifier};
use frame_video::geometry::{plane_geometry, PlaneGeometry, MAX_PLANES};

#[test]
fn geometry_of_planar_420() {
    let expected = PlaneGeometry {
        planes: 3,
        width_divisor: 2,
        height_divisor: 2,
        stride_factors: [2, 1, 1],
        row_factors: [2, 1, 1],
    };
    assert_eq!(plane_geometry(Colorspace::I420), expected);
    assert_eq!(plane_geometry(Colorspace::YV12), expected);
}

#[test]
fn geometry_of_semi_planar_420() {
    let expected = PlaneGeometry {
        planes: 2,
        width_divisor: 2,
        height_divisor: 2,
        stride_factors: [2, 2, 0],
        row_factors: [2, 1, 0],
    };
    assert_eq!(plane_geometry(Colorspace::NV12), expected);
    assert_eq!(plane_geometry(Colorspace::NV21), expected);
}

#[test]
fn geometry_of_422() {
    let planar = PlaneGeometry {
        planes: 3,
        width_divisor: 2,
        height_divisor: 1,
        stride_factors: [2, 1, 1],
        row_factors: [1, 1, 1],
    };
    assert_eq!(plane_geometry(Colorspace::I422), planar);
    assert_eq!(plane_geometry(Colorspace::YV16), planar);
    let semi = PlaneGeometry {
        planes: 2,
        width_divisor: 2,
        height_divisor: 1,
        stride_factors: [2, 2, 0],
        row_factors: [1, 1, 0],
    };
    assert_eq!(plane_geometry(Colorspace::NV16), semi);
}

#[test]
fn geometry_of_444() {
    let expected = PlaneGeometry {
        planes: 3,
        width_divisor: 1,
        height_divisor: 1,
        stride_factors: [1, 1, 1],
        row_factors: [1, 1, 1],
    };
    assert_eq!(plane_geometry(Colorspace::I444), expected);
    assert_eq!(plane_geometry(Colorspace::YV24), expected);
}

#[test]
fn geometry_of_packed_formats() {
    let three = PlaneGeometry {
        planes: 1,
        width_divisor: 1,
        height_divisor: 1,
        stride_factors: [3, 0, 0],
        row_factors: [1, 0, 0],
    };
    let four = PlaneGeometry { stride_factors: [4, 0, 0], ..three };
    assert_eq!(plane_geometry(Colorspace::RGB), three);
    assert_eq!(plane_geometry(Colorspace::BGR), three);
    assert_eq!(plane_geometry(Colorspace::BGRA), four);
    assert_eq!(plane_geometry(Colorspace::V210), four);
}

#[test]
fn no_colorspace_has_more_planes_than_the_limit() {
    let all = [
        Colorspace::I420,
        Colorspace::YV12,
        Colorspace::NV12,
        Colorspace::NV21,
        Colorspace::I422,
        Colorspace::YV16,
        Colorspace::NV16,
        Colorspace::V210,
        Colorspace::I444,
        Colorspace::YV24,
        Colorspace::BGR,
        Colorspace::BGRA,
        Colorspace::RGB,
    ];
    for colorspace in all {
        let g = plane_geometry(colorspace);
        assert!(1 <= g.planes && g.planes <= MAX_PLANES);
        for i in 0..3 {
            assert_eq!(g.stride_factors[i] == 0, i >= g.planes);
            assert_eq!(g.row_factors[i] == 0, i >= g.planes);
        }
    }
}

#[test]
fn encodings_keep_their_modifiers_apart() {
    let plain = Encoding::plain(Colorspace::I420);
    assert_eq!(plain, Colorspace::I420.encoding());
    assert_eq!(plain.colorspace(), Colorspace::I420);
    assert!(!plain.has(Modifier::HighDepth));
    assert!(!plain.has(Modifier::VerticalFlip));
    let deep = plain.with(Modifier::HighDepth);
    assert!(deep.has(Modifier::HighDepth));
    assert!(!deep.has(Modifier::VerticalFlip));
    assert_eq!(deep.colorspace(), Colorspace::I420);
    let both = deep.with(Modifier::VerticalFlip);
    assert!(both.has(Modifier::HighDepth) && both.has(Modifier::VerticalFlip));
    assert_eq!(both.without(Modifier::HighDepth).without(Modifier::VerticalFlip), plain);
    assert_eq!(both.without(Modifier::VerticalFlip), deep);
}
