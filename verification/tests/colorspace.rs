use mozjpeg::ColorSpace;
use mozjpeg::ColorSpaceExt;

#[test]
fn test() {
    assert_eq!(3, ColorSpace::JCS_YCbCr.num_components());
    assert_eq!(3, ColorSpace::JCS_RGB.num_components());
    assert_eq!(1, ColorSpace::JCS_GRAYSCALE.num_components());
}
