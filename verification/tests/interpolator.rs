use oxdz::mixer::interpolator::{Interpolate, Linear, Nearest};

#[test]
fn test_interpolate_nearest_i8() {
    let interp = Nearest;
    let i: &[i8] = &[0, 0x10, 0x40, 0x70];
    assert_eq!(interp.get_sample(i, 0), 0x1000);
    assert_eq!(interp.get_sample(i, 32767), 0x1000);
    assert_eq!(interp.get_sample(i, 65535), 0x1000);
}

#[test]
fn test_interpolate_nearest_i16() {
    let interp = Nearest;
    let i: &[i16] = &[0, 0x1000, 0x4000, 0x7000];
    assert_eq!(interp.get_sample(i, 0), 0x1000);
    assert_eq!(interp.get_sample(i, 32767), 0x1000);
    assert_eq!(interp.get_sample(i, 65535), 0x1000);
}

#[test]
fn test_interpolate_linear_i8() {
    let interp = Linear;
    let i: &[i8] = &[0, 0x10, 0x40, 0x70];
    assert_eq!(interp.get_sample(i, 0), 0x1000);
    assert_eq!(interp.get_sample(i, 32767), 0x27ff);
    assert_eq!(interp.get_sample(i, 65535), 0x3fff);
}

#[test]
fn test_interpolate_linear_i16() {
    let interp = Linear;
    let i: &[i16] = &[0, 0x1000, 0x4000, 0x7000];
    assert_eq!(interp.get_sample(i, 0), 0x1000);
    assert_eq!(interp.get_sample(i, 32767), 0x27ff);
    assert_eq!(interp.get_sample(i, 65535), 0x3fff);
}

#[test]
fn linear_downward_slope_rounds_down() {
    let interp = Linear;
    let i: &[i16] = &[0, 100, 0, 0];
    // 100 + ((32767 * -100) >> 15) = 100 - 100
    assert_eq!(interp.get_sample(i, 65535), 0);
    assert_eq!(interp.get_sample(i, 2), 99);
}

#[test]
fn interpolator_names() {
    assert_eq!(<Nearest as Interpolate<i8>>::name(), "nearest neighbor");
    assert_eq!(<Linear as Interpolate<i16>>::name(), "linear");
    assert_eq!(<Linear as Interpolate<i8>>::bsize(), 2);
}
