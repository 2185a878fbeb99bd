//! What this crate takes from the codec engine's declarations: the error
//! manager, the block size, and the numeric codes of the markers and
//! messages that the adapters name.
//!
//! The functions here return constants of `mozjpeg_sys`. Their contracts are
//! not proved: each repeats the value that the engine's declaration gives.
use vstd::prelude::*;

verus! {

/// The engine's error manager, a table of handlers that is only carried
/// through.
#[verifier::external_type_specification]
#[verifier::external_body]
pub struct ExErrorMgr(mozjpeg_sys::jpeg_error_mgr);

/// `mozjpeg_sys::DCTSIZE`: a DCT block is 8 samples wide and 8 high.
#[verifier::external_body]
pub(crate) fn dct_size() -> (n: usize)
    ensures
        n == 8,
{
    mozjpeg_sys::DCTSIZE
}

/// `mozjpeg_sys::jpeg_marker::APP0`, the code of the first application
/// marker, `0xE0`.
#[verifier::external_body]
pub(crate) fn marker_app0() -> (code: u8)
    ensures
        code == 0xE0,
{
    mozjpeg_sys::jpeg_marker::APP0 as u8
}

/// `mozjpeg_sys::jpeg_marker::COM`, the code of the comment marker, `0xFE`.
#[verifier::external_body]
pub(crate) fn marker_com() -> (code: u8)
    ensures
        code == 0xFE,
{
    mozjpeg_sys::jpeg_marker::COM as u8
}

/// `mozjpeg_sys::JERR_BUFFER_SIZE`, message 23.
#[verifier::external_body]
pub(crate) fn jerr_buffer_size() -> (code: i32)
    ensures
        code == 23,
{
    mozjpeg_sys::JERR_BUFFER_SIZE
}

/// `mozjpeg_sys::JERR_FILE_READ`, message 36.
#[verifier::external_body]
pub(crate) fn jerr_file_read() -> (code: i32)
    ensures
        code == 36,
{
    mozjpeg_sys::JERR_FILE_READ
}

/// `mozjpeg_sys::JERR_FILE_WRITE`, message 37.
#[verifier::external_body]
pub(crate) fn jerr_file_write() -> (code: i32)
    ensures
        code == 37,
{
    mozjpeg_sys::JERR_FILE_WRITE
}

/// `mozjpeg_sys::JERR_VIRTUAL_BUG`, message 69.
#[verifier::external_body]
pub(crate) fn jerr_virtual_bug() -> (code: i32)
    ensures
        code == 69,
{
    mozjpeg_sys::JERR_VIRTUAL_BUG
}

/// `mozjpeg_sys::JWRN_JPEG_EOF`, message 120.
#[verifier::external_body]
pub(crate) fn jwrn_jpeg_eof() -> (code: i32)
    ensures
        code == 120,
{
    mozjpeg_sys::JWRN_JPEG_EOF
}

} // verus!
