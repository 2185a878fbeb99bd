//! Transfers of whole pixel rows: where the rows that the engine is given
//! lie in a caller's buffer, and what a buffer must look like to take the
//! rows of an image.
use vstd::prelude::*;
use arrayvec::ArrayVec;
use crate::raw::MAX_MCU_HEIGHT;

verus! {

/// A bounded list from the `arrayvec` crate. Nothing is known of a value
/// but what the functions below say of it.
#[verifier::external_type_specification]
#[verifier::external_body]
#[verifier::reject_recursive_types(T)]
pub struct ExArrayVec<T, const CAP: usize>(ArrayVec<T, CAP>);

/// The rows of one batch for the engine: the position of each row's first
/// byte in the caller's buffer. At most 16 rows go in a batch.
pub type RowBatch = ArrayVec<usize, 16>;

/// Why rows of pixels cannot be transferred.
#[derive(Copy, Clone, Debug, PartialEq, Eq, Structural)]
pub enum ScanlineError {
    /// The image is not set up for transfers of pixel rows.
    InvalidInput,
    /// The engine took or gave no row where one was due.
    UnexpectedEof,
    /// The buffer's type or length does not fit the rows of the image.
    Unsupported,
    /// The pixels of the image do not fit in memory.
    OutOfMemory,
}

/// The positions that a batch holds, in the order in which they were
/// pushed.
pub uninterp spec fn row_positions(rows: RowBatch) -> Seq<usize>;

/// `ArrayVec::new`: a list with nothing in it.
#[verifier::external_body]
fn batch_new() -> (rows: RowBatch)
    ensures
        row_positions(rows) == Seq::<usize>::empty(),
{
    ArrayVec::new()
}

/// `ArrayVec::push`: appends `row`. The list must not be full, which
/// `push` answers with a panic.
#[verifier::external_body]
fn batch_push(rows: &mut RowBatch, row: usize)
    requires
        row_positions(*old(rows)).len() < MAX_MCU_HEIGHT,
    ensures
        row_positions(*final(rows)) == row_positions(*old(rows)).push(row),
{
    rows.push(row)
}

/// `ArrayVec::len`: the number of items in the list.
#[verifier::external_body]
fn batch_len(rows: &RowBatch) -> (len: usize)
    ensures
        len == row_positions(*rows).len(),
{
    rows.len()
}

/// `ArrayVec::as_slice`: the items of the list, in order.
#[verifier::external_body]
fn batch_as_slice(rows: &RowBatch) -> (items: &[usize])
    ensures
        items@ == row_positions(*rows),
{
    rows.as_slice()
}

/// The number of bytes in one row of pixels, if the image can be written
/// row by row: it cannot with raw writing switched on, without input
/// channels, or without width.
pub open spec fn spec_byte_width(raw_data_in: bool, input_components: int, image_width: nat) -> Result<
    usize,
    ScanlineError,
> {
    if raw_data_in || input_components <= 0 || image_width == 0 || image_width
        * input_components > usize::MAX {
        Err(ScanlineError::InvalidInput)
    } else {
        Ok((image_width * input_components) as usize)
    }
}

/// The number of bytes in one row of pixels of an image that is written
/// row by row; see [`spec_byte_width`].
pub fn byte_width(raw_data_in: bool, input_components: i32, image_width: u32) -> (width: Result<
    usize,
    ScanlineError,
>)
    ensures
        width == spec_byte_width(raw_data_in, input_components as int, image_width as nat),
        width matches Ok(w) ==> w > 0,
{
    if raw_data_in || input_components <= 0 || image_width == 0 {
        return Err(ScanlineError::InvalidInput);
    }
    assert(image_width as u64 * input_components as u64 <= 0xFFFF_FFFFu64 * 0x7FFF_FFFFu64
        && image_width as u64 * input_components as u64 > 0) by (nonlinear_arith)
        requires
            0 < image_width <= 0xFFFF_FFFFu32,
            0 < input_components <= 0x7FFF_FFFFi32,
    ;
    let width: u64 = image_width as u64 * input_components as u64;
    if width > usize::MAX as u64 {
        return Err(ScanlineError::InvalidInput);
    }
    Ok(width as usize)
}

/// The number of whole rows of `byte_width` bytes in a buffer of `len`
/// bytes. Bytes after the last whole row are not written.
pub open spec fn whole_rows(byte_width: nat, len: nat) -> nat {
    len / byte_width
}

/// The number of batches in which the rows of a buffer are given to the
/// engine: 16 rows in each but the last.
pub open spec fn batch_count(byte_width: nat, len: nat) -> nat {
    (whole_rows(byte_width, len) + 15) / 16
}

/// The rows of batch `batch`: the rows of the buffer from row `16 * batch`
/// on, 16 of them or as many as are left.
pub open spec fn batch_rows(byte_width: nat, len: nat, batch: nat) -> Seq<usize> {
    let rows = whole_rows(byte_width, len);
    let first = 16 * batch;
    let count = if rows <= first {
        0
    } else if rows - first < 16 {
        rows - first
    } else {
        16
    };
    Seq::new(count as nat, |j: int| ((first + j) * byte_width) as usize)
}

/// The number of batches in which the rows of a buffer are given to the
/// engine.
pub fn scanline_batches(byte_width: usize, len: usize) -> (count: usize)
    requires
        byte_width > 0,
    ensures
        count == batch_count(byte_width as nat, len as nat),
{
    let rows = len / byte_width;
    rows / 16 + (if rows % 16 == 0 {
        0
    } else {
        1
    })
}

/// Every row of a batch lies in the buffer, a whole row of it, and the
/// rows of all batches, in order, are the whole rows of the buffer.
pub proof fn lemma_batch_rows(byte_width: nat, len: nat, batch: nat)
    requires
        byte_width > 0,
        len <= usize::MAX,
    ensures
        batch_rows(byte_width, len, batch).len() <= 16,
        batch < batch_count(byte_width, len) <==> batch_rows(byte_width, len, batch).len() > 0,
        batch + 1 < batch_count(byte_width, len) ==> batch_rows(byte_width, len, batch).len()
            == 16,
        forall|j: int|
            0 <= j < batch_rows(byte_width, len, batch).len() ==> {
                &&& (#[trigger] batch_rows(byte_width, len, batch)[j]) == (16 * batch + j)
                    * byte_width
                &&& batch_rows(byte_width, len, batch)[j] + byte_width <= len
            },
{
    let rows = whole_rows(byte_width, len);
    assert forall|j: int| 0 <= j < batch_rows(byte_width, len, batch).len() implies {
        &&& (#[trigger] batch_rows(byte_width, len, batch)[j]) == (16 * batch + j) * byte_width
        &&& batch_rows(byte_width, len, batch)[j] + byte_width <= len
    } by {
        lemma_row_fits(byte_width, len, (16 * batch + j) as nat);
    }
}

/// Row `row` of a buffer ends within the buffer if the buffer has more
/// whole rows than that.
proof fn lemma_row_fits(byte_width: nat, len: nat, row: nat)
    requires
        byte_width > 0,
        row < whole_rows(byte_width, len),
    ensures
        row * byte_width + byte_width <= len,
{
    crate::raw::lemma_rows_of_plane(len, byte_width, row + 1);
    assert(row * byte_width + byte_width == byte_width * (row + 1)) by (nonlinear_arith);
}

/// The rows of one batch for the engine: where each row of batch `batch`
/// starts in a buffer of `len` bytes whose rows are `byte_width` bytes
/// long.
///
/// The batch is empty from the batch with number
/// [`scanline_batches`] on.
pub fn scanline_rows(byte_width: usize, len: usize, batch: usize) -> (rows: RowBatch)
    requires
        byte_width > 0,
    ensures
        row_positions(rows) == batch_rows(byte_width as nat, len as nat, batch as nat),
{
    let total = len / byte_width;
    let mut row_pointers = batch_new();
    if batch > total / 16 {
        assert(batch_rows(byte_width as nat, len as nat, batch as nat) =~= Seq::<usize>::empty());
        return row_pointers;
    }
    let first = 16 * batch;
    let count: usize = if total <= first {
        0
    } else if total - first < 16 {
        total - first
    } else {
        16
    };
    let ghost want = batch_rows(byte_width as nat, len as nat, batch as nat);
    let mut j: usize = 0;
    while j < count
        invariant
            j <= count <= 16,
            byte_width > 0,
            total == whole_rows(byte_width as nat, len as nat),
            first == 16 * batch,
            first + count <= total,
            want == batch_rows(byte_width as nat, len as nat, batch as nat),
            want.len() == count,
            row_positions(row_pointers) == want.take(j as int),
        decreases count - j,
    {
        proof {
            lemma_row_fits(byte_width as nat, len as nat, (first + j) as nat);
        }
        let row = (first + j) * byte_width;
        batch_push(&mut row_pointers, row);
        j += 1;
        assert(row_positions(row_pointers) =~= want.take(j as int));
    }
    assert(want.take(count as int) =~= want);
    row_pointers
}

/// The positions that a batch holds, as a list of its own.
pub fn batch_positions(rows: &RowBatch) -> (positions: Vec<usize>)
    ensures
        positions@ == row_positions(*rows),
{
    let items = batch_as_slice(rows);
    let len = batch_len(rows);
    let mut positions: Vec<usize> = Vec::new();
    let mut i: usize = 0;
    while i < len
        invariant
            i <= len,
            len == items@.len(),
            positions@ == items@.take(i as int),
        decreases len - i,
    {
        positions.push(items[i]);
        i += 1;
        assert(positions@ =~= items@.take(i as int));
    }
    assert(items@.take(len as int) =~= items@);
    positions
}

/// What the engine's answer means for the rows of a batch that are still
/// to be written: an engine that took no row cannot go on, and else the
/// rows that it took are no longer left. The engine takes no more rows
/// than it is offered.
pub fn scanlines_written(rows_left: u32, rows_written: u32) -> (left: Result<u32, ScanlineError>)
    requires
        rows_written <= rows_left,
    ensures
        left == if rows_written == 0 {
            Err::<u32, ScanlineError>(ScanlineError::UnexpectedEof)
        } else {
            Ok((rows_left - rows_written) as u32)
        },
{
    if rows_written == 0 {
        return Err(ScanlineError::UnexpectedEof);
    }
    Ok(rows_left - rows_written)
}

/// How a buffer takes the rows of an image.
#[derive(Copy, Clone, Debug, PartialEq, Eq, Structural)]
pub struct ScanlineLayout {
    /// Number of items of the buffer in one pixel.
    pub item_size: usize,
    /// Number of items of the buffer in one row.
    pub line_width: usize,
    /// Number of rows that the buffer has room for.
    pub rows: usize,
}

/// The number of items of a buffer in one pixel: an item is a byte and a
/// pixel has one for each channel, or an item is as large as a pixel.
pub open spec fn spec_item_size(num_components: nat, pixel_size: nat) -> Result<
    nat,
    ScanlineError,
> {
    if pixel_size == 1 {
        Ok(num_components)
    } else if num_components == pixel_size {
        Ok(1)
    } else {
        Err(ScanlineError::Unsupported)
    }
}

/// The number of items of a buffer in one pixel; see [`spec_item_size`].
pub fn item_size(num_components: usize, pixel_size: usize) -> (size: Result<usize, ScanlineError>)
    ensures
        match size {
            Ok(size) => spec_item_size(num_components as nat, pixel_size as nat) == Ok::<
                nat,
                ScanlineError,
            >(size as nat),
            Err(error) => spec_item_size(num_components as nat, pixel_size as nat) == Err::<
                nat,
                ScanlineError,
            >(error),
        },
{
    if pixel_size == 1 {
        Ok(num_components)
    } else if num_components == pixel_size {
        Ok(1)
    } else {
        Err(ScanlineError::Unsupported)
    }
}

/// Whether a row has items in it, where the items of the buffer fit the
/// pixels at all: the image has a width, and a pixel is at least one item.
/// A buffer whose items do not fit the pixels is refused before its rows
/// are looked at.
pub open spec fn rows_have_items(num_components: nat, pixel_size: nat, width: nat) -> bool {
    spec_item_size(num_components, pixel_size) matches Ok(item_size) ==> width > 0 && item_size
        > 0
}

/// How a buffer of `dest_len` items, of `pixel_size` bytes each, takes the
/// rows of an image that is `width` pixels wide and has `num_components`
/// channels. The length of the buffer must be a whole number of rows.
pub open spec fn spec_scanline_layout(
    num_components: nat,
    pixel_size: nat,
    width: nat,
    dest_len: nat,
) -> Result<ScanlineLayout, ScanlineError> {
    match spec_item_size(num_components, pixel_size) {
        Err(error) => Err(error),
        Ok(item_size) => {
            let line_width = width * item_size;
            if dest_len % line_width != 0 {
                Err(ScanlineError::Unsupported)
            } else {
                Ok(
                    ScanlineLayout {
                        item_size: item_size as usize,
                        line_width: if line_width <= usize::MAX {
                            line_width as usize
                        } else {
                            usize::MAX
                        },
                        rows: (dest_len / line_width) as usize,
                    },
                )
            }
        },
    }
}

/// How a buffer takes the rows of an image; see [`spec_scanline_layout`].
///
/// Items that are neither bytes nor as large as a pixel are refused for
/// every image. For items that fit, a row must have items in it: the image
/// must have a width, and with items of one byte at least one channel.
pub fn scanline_layout(num_components: usize, pixel_size: usize, width: usize, dest_len: usize) -> (layout:
    Result<ScanlineLayout, ScanlineError>)
    requires
        rows_have_items(num_components as nat, pixel_size as nat, width as nat),
    ensures
        layout == spec_scanline_layout(
            num_components as nat,
            pixel_size as nat,
            width as nat,
            dest_len as nat,
        ),
        layout matches Ok(l) ==> l.line_width > 0 && (l.rows == 0 || l.rows * l.line_width
            == dest_len),
{
    let item_size: usize = match item_size(num_components, pixel_size) {
        Ok(item_size) => item_size,
        Err(error) => {
            return Err(error);
        },
    };
    assert(width * item_size > 0) by (nonlinear_arith)
        requires
            width > 0,
            item_size > 0,
    ;
    match width.checked_mul(item_size) {
        Some(line_width) => {
            if dest_len % line_width != 0 {
                return Err(ScanlineError::Unsupported);
            }
            let rows = dest_len / line_width;
            assert(rows * line_width == dest_len) by {
                vstd::arithmetic::div_mod::lemma_fundamental_div_mod(
                    dest_len as int,
                    line_width as int,
                );
                assert(line_width * rows == rows * line_width) by (nonlinear_arith);
            }
            Ok(ScanlineLayout { item_size, line_width, rows })
        },
        None => {
            // A row is longer than any buffer: only the empty buffer is a
            // whole number of rows.
            let ghost line_width: int = width * item_size;
            assert(dest_len < line_width);
            assert(dest_len as nat % line_width as nat == dest_len && dest_len as nat
                / line_width as nat == 0) by {
                vstd::arithmetic::div_mod::lemma_small_mod(dest_len as nat, line_width as nat);
                vstd::arithmetic::div_mod::lemma_basic_div(dest_len as int, line_width as int);
            }
            if dest_len != 0 {
                return Err(ScanlineError::Unsupported);
            }
            Ok(ScanlineLayout { item_size, line_width: usize::MAX, rows: 0 })
        },
    }
}

/// The number of items, of `pixel_size` bytes each, that hold an image of
/// `width` by `height` pixels with `num_components` channels.
pub open spec fn spec_required_len(
    num_components: nat,
    pixel_size: nat,
    width: nat,
    height: nat,
) -> Result<usize, ScanlineError> {
    if num_components != pixel_size && pixel_size != 1 {
        Err(ScanlineError::Unsupported)
    } else if height * width * (num_components / pixel_size) > usize::MAX {
        Err(ScanlineError::OutOfMemory)
    } else {
        Ok((height * width * (num_components / pixel_size)) as usize)
    }
}

/// The number of items that a buffer needs to hold a whole image; see
/// [`spec_required_len`].
///
/// Items without bytes are refused for an image with channels. For an
/// image without channels an item must have bytes.
pub fn required_len(num_components: usize, pixel_size: usize, width: usize, height: usize) -> (len:
    Result<usize, ScanlineError>)
    requires
        pixel_size > 0 || num_components > 0,
    ensures
        len == spec_required_len(
            num_components as nat,
            pixel_size as nat,
            width as nat,
            height as nat,
        ),
{
    if num_components != pixel_size && pixel_size != 1 {
        return Err(ScanlineError::Unsupported);
    }
    let per_pixel = num_components / pixel_size;
    let ghost want = height * width * per_pixel;
    match height.checked_mul(width) {
        Some(pixels) => match pixels.checked_mul(per_pixel) {
            Some(len) => Ok(len),
            None => Err(ScanlineError::OutOfMemory),
        },
        None => {
            if per_pixel == 0 {
                assert(want == 0) by (nonlinear_arith)
                    requires
                        want == height * width * per_pixel,
                        per_pixel == 0,
                ;
                Ok(0)
            } else {
                assert(want > usize::MAX) by (nonlinear_arith)
                    requires
                        want == height * width * per_pixel,
                        per_pixel >= 1,
                        height * width > usize::MAX,
                ;
                Err(ScanlineError::OutOfMemory)
            }
        },
    }
}

/// What the engine's answer to the reading of one row means: an engine
/// that gave no row cannot go on.
pub fn scanline_read(rows_read: u32) -> (done: Result<(), ScanlineError>)
    ensures
        done == if rows_read == 0 {
            Err::<(), ScanlineError>(ScanlineError::UnexpectedEof)
        } else {
            Ok(())
        },
{
    if rows_read == 0 {
        Err(ScanlineError::UnexpectedEof)
    } else {
        Ok(())
    }
}

} // verus!
