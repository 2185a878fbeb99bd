use mozjpeg::errormgr::{formatted_message, prefixed, Fatal, Warning};
use mozjpeg::qtable::QTable;
use mozjpeg::CompInfo;
use mozjpeg::CompInfoExt;
use mozjpeg::Marker;
use mozjpeg::PixelDensity;
use mozjpeg::PixelDensityUnit;

#[test]
fn markers_from_codes() {
    assert_eq!(Marker::from(0xFE), Marker::COM);
    assert_eq!(Marker::from(0xE0), Marker::APP(0));
    assert_eq!(Marker::from(0xE1), Marker::APP(1));
    assert_eq!(Marker::from(0xEE), Marker::APP(14));
    assert_eq!(Marker::from(0xEF), Marker::APP(15));
    assert_eq!(Marker::from(0xFF), Marker::APP(31));
    // below the first application marker the number wraps
    assert_eq!(Marker::from(0xDF), Marker::APP(255));
    assert_eq!(Marker::from(0x00), Marker::APP(32));
}

#[test]
fn codes_from_markers() {
    assert_eq!(i32::from(Marker::COM), 0xFE);
    assert_eq!(i32::from(Marker::APP(0)), 0xE0);
    assert_eq!(i32::from(Marker::APP(2)), 0xE2);
    assert_eq!(i32::from(Marker::APP(14)), 0xEE);
    assert_eq!(i32::from(Marker::APP(255)), 0xE0 + 255);
    let code: i32 = Marker::APP(1).into();
    assert_eq!(code, 0xE1);
}

#[test]
fn marker_codes_come_back() {
    for code in (0xE0..=0xEFu8).chain([0xFE]) {
        assert_eq!(i32::from(Marker::from(code)), code as i32);
    }
}

#[test]
fn conditions_have_the_codes_of_the_engine() {
    assert_eq!(Fatal::BufferSize.code(), Some(23));
    assert_eq!(Fatal::FileRead.code(), Some(36));
    assert_eq!(Fatal::FileWrite.code(), Some(37));
    assert_eq!(Fatal::VirtualBug.code(), Some(69));
    assert_eq!(Fatal::Dangling.code(), None);
    assert_eq!(Warning::JpegEof.code(), 120);
}

#[test]
fn the_text_of_a_fatal_error() {
    let mut buffer = [0u8; 80];
    buffer[..23].copy_from_slice(b"Not a JPEG file: starts");
    assert_eq!(
        formatted_message("libjpeg fatal error: ", Some(&buffer), 53),
        "libjpeg fatal error: Not a JPEG file: starts"
    );
    // what follows the first zero byte is not part of the message
    buffer[30] = b'x';
    assert_eq!(formatted_message("", Some(&buffer), 53), "Not a JPEG file: starts");
    // a buffer without a zero byte is a message as a whole
    assert_eq!(formatted_message("e: ", Some(b"abc"), 0), "e: abc");
    assert_eq!(formatted_message("e: ", Some(b""), 0), "e: ");
    assert_eq!(formatted_message("e: ", Some(b"\0abc"), 0), "e: ");
    // bytes that are no text are replaced
    assert_eq!(formatted_message("e: ", Some(b"a\xFFb\0"), 0), "e: a\u{FFFD}b");
    assert_eq!(formatted_message("e: ", Some("gr\u{fc}n\0".as_bytes()), 0), "e: gr\u{fc}n");
    // without a formatted message the code is given
    assert_eq!(formatted_message("libjpeg fatal error: ", None, 53), "libjpeg fatal error: code 53");
    assert_eq!(formatted_message("", None, -7), "code -7");
    assert_eq!(formatted_message("", None, 0), "code 0");
    assert_eq!(formatted_message("", None, 9), "code 9");
    assert_eq!(formatted_message("", None, 10), "code 10");
    assert_eq!(formatted_message("", None, 120), "code 120");
    assert_eq!(formatted_message("", None, i32::MAX), "code 2147483647");
    assert_eq!(formatted_message("", None, i32::MIN), "code -2147483648");
    assert_eq!(prefixed("libjpeg fatal error: ", "Bogus marker length"), "libjpeg fatal error: Bogus marker length");
    assert_eq!(prefixed("", ""), "");
}

#[test]
fn quantization_tables_compare_by_their_coefficients() {
    assert_eq!(QTable::new([100; 64]), QTable::new([100; 64]));
    assert!(QTable::new([1; 64]) != QTable::new([2; 64]));
    let mut coeffs = [16u32; 64];
    let flat = QTable::new(coeffs);
    coeffs[63] = 17;
    assert!(flat != QTable::new(coeffs));
    assert!(QTable::new(coeffs) == QTable::new(coeffs));
    assert_eq!(QTable::new(coeffs).coeffs(), coeffs);
    coeffs[63] = 16;
    coeffs[0] = 0;
    assert!(flat != QTable::new(coeffs));
}

#[test]
fn a_component_gives_its_quantization_table() {
    let mut c = CompInfo::new(0, 1, 1);
    assert!(c.qtable().is_none());
    let mut quantval = [0u16; 64];
    for (i, q) in quantval.iter_mut().enumerate() {
        *q = (i as u16) * 1000;
    }
    c.quant_table = Some(quantval);
    let table = c.qtable().unwrap();
    let coeffs = table.coeffs();
    for i in 0..64 {
        assert_eq!(coeffs[i], i as u32 * 1000);
    }
    assert_eq!(coeffs[63], 63000);
}

#[test]
fn default_density_is_square_pixels() {
    let density = PixelDensity::default();
    assert_eq!(density.unit, PixelDensityUnit::PixelAspectRatio);
    assert_eq!((density.x, density.y), (1, 1));
    assert_eq!(PixelDensityUnit::PixelAspectRatio.code(), 0);
    assert_eq!(PixelDensityUnit::Inches.code(), 1);
    assert_eq!(PixelDensityUnit::Centimeters.code(), 2);
}
