use mozjpeg::scanlines::{
    batch_positions, byte_width, item_size, required_len, scanline_batches, scanline_layout,
    scanline_read, scanline_rows, scanlines_written, ScanlineError, ScanlineLayout,
};

#[test]
fn byte_width_of_a_row() {
    assert_eq!(byte_width(false, 3, 33), Ok(99));
    assert_eq!(byte_width(false, 1, 1), Ok(1));
    assert_eq!(byte_width(false, 4, u32::MAX), Ok(4 * u32::MAX as usize));
    assert_eq!(byte_width(true, 3, 33), Err(ScanlineError::InvalidInput));
    assert_eq!(byte_width(false, 0, 33), Err(ScanlineError::InvalidInput));
    assert_eq!(byte_width(false, -1, 33), Err(ScanlineError::InvalidInput));
    assert_eq!(byte_width(false, 3, 0), Err(ScanlineError::InvalidInput));
}

#[test]
fn rows_are_given_sixteen_at_a_time() {
    // 33 rows of 99 bytes, as of a 33x33 image in RGB
    let len = 33 * 99;
    assert_eq!(scanline_batches(99, len), 3);
    let first = batch_positions(&scanline_rows(99, len, 0));
    assert_eq!(first, (0..16).map(|row| row * 99).collect::<Vec<_>>());
    let second = batch_positions(&scanline_rows(99, len, 1));
    assert_eq!(second, (16..32).map(|row| row * 99).collect::<Vec<_>>());
    let third = batch_positions(&scanline_rows(99, len, 2));
    assert_eq!(third, vec![32 * 99]);
    assert_eq!(scanline_rows(99, len, 2).len(), 1);
    assert!(batch_positions(&scanline_rows(99, len, 3)).is_empty());
    assert!(batch_positions(&scanline_rows(99, len, usize::MAX)).is_empty());
}

#[test]
fn bytes_after_the_last_whole_row_are_not_given() {
    assert_eq!(scanline_batches(10, 0), 0);
    assert_eq!(scanline_batches(10, 9), 0);
    assert_eq!(scanline_batches(10, 10), 1);
    assert_eq!(scanline_batches(10, 160), 1);
    assert_eq!(scanline_batches(10, 161), 1);
    assert_eq!(scanline_batches(10, 169), 1);
    assert_eq!(scanline_batches(10, 170), 2);
    assert!(batch_positions(&scanline_rows(10, 9, 0)).is_empty());
    assert_eq!(batch_positions(&scanline_rows(10, 19, 0)), vec![0]);
    assert_eq!(batch_positions(&scanline_rows(10, 169, 0)).len(), 16);
    assert!(batch_positions(&scanline_rows(10, 169, 1)).is_empty());
    assert_eq!(batch_positions(&scanline_rows(10, 170, 1)), vec![160]);
    assert_eq!(batch_positions(&scanline_rows(1, usize::MAX, 0)), (0..16).collect::<Vec<_>>());
}

#[test]
fn every_row_of_every_batch_lies_in_the_buffer() {
    for width in [1usize, 3, 7, 64] {
        for len in 0..400usize {
            let mut rows = Vec::new();
            for batch in 0..scanline_batches(width, len) {
                let batch = batch_positions(&scanline_rows(width, len, batch));
                assert!(!batch.is_empty() && batch.len() <= 16);
                rows.extend(batch);
            }
            assert_eq!(rows, (0..len / width).map(|row| row * width).collect::<Vec<_>>());
            assert!(rows.iter().all(|start| start + width <= len));
        }
    }
}

#[test]
fn the_engines_answer_to_rows_offered() {
    assert_eq!(scanlines_written(16, 16), Ok(0));
    assert_eq!(scanlines_written(16, 5), Ok(11));
    assert_eq!(scanlines_written(1, 1), Ok(0));
    assert_eq!(scanlines_written(16, 0), Err(ScanlineError::UnexpectedEof));
    assert_eq!(scanlines_written(0, 0), Err(ScanlineError::UnexpectedEof));
    assert_eq!(scanline_read(1), Ok(()));
    assert_eq!(scanline_read(0), Err(ScanlineError::UnexpectedEof));
}

#[test]
fn layout_of_a_buffer_for_rows() {
    // bytes, three to a pixel
    assert_eq!(
        scanline_layout(3, 1, 45, 45 * 30 * 3),
        Ok(ScanlineLayout { item_size: 3, line_width: 135, rows: 30 })
    );
    // items as large as a pixel
    assert_eq!(
        scanline_layout(3, 3, 45, 45 * 30),
        Ok(ScanlineLayout { item_size: 1, line_width: 45, rows: 30 })
    );
    assert_eq!(
        scanline_layout(4, 4, 45, 45 * 2),
        Ok(ScanlineLayout { item_size: 1, line_width: 45, rows: 2 })
    );
    // one channel, one byte
    assert_eq!(
        scanline_layout(1, 1, 45, 90),
        Ok(ScanlineLayout { item_size: 1, line_width: 45, rows: 2 })
    );
    // an empty buffer has room for no rows
    assert_eq!(
        scanline_layout(3, 1, 45, 0),
        Ok(ScanlineLayout { item_size: 3, line_width: 135, rows: 0 })
    );
    // items that are neither bytes nor pixels
    assert_eq!(scanline_layout(3, 4, 45, 45 * 30), Err(ScanlineError::Unsupported));
    assert_eq!(scanline_layout(3, 2, 45, 45 * 30), Err(ScanlineError::Unsupported));
    assert_eq!(scanline_layout(3, 0, 45, 45 * 30), Err(ScanlineError::Unsupported));
    // a buffer that is no whole number of rows
    assert_eq!(scanline_layout(3, 1, 45, 45 * 30 * 3 + 1), Err(ScanlineError::Unsupported));
    assert_eq!(scanline_layout(3, 3, 45, 44), Err(ScanlineError::Unsupported));
    // items that do not fit are refused before the rows are looked at
    assert_eq!(scanline_layout(3, 4, 0, 45 * 30), Err(ScanlineError::Unsupported));
    assert_eq!(scanline_layout(0, 4, 45, 45 * 30), Err(ScanlineError::Unsupported));
    assert_eq!(scanline_layout(0, 2, 0, 0), Err(ScanlineError::Unsupported));
    assert_eq!(scanline_layout(3, 0, 0, 0), Err(ScanlineError::Unsupported));
    // items of no bytes, for an image of no channels, are pixels
    assert_eq!(
        scanline_layout(0, 0, 45, 90),
        Ok(ScanlineLayout { item_size: 1, line_width: 45, rows: 2 })
    );
    // a row longer than any buffer
    assert_eq!(scanline_layout(4, 1, usize::MAX, 100), Err(ScanlineError::Unsupported));
    assert_eq!(
        scanline_layout(4, 1, usize::MAX, 0),
        Ok(ScanlineLayout { item_size: 4, line_width: usize::MAX, rows: 0 })
    );
}

#[test]
fn length_of_a_buffer_for_a_whole_image() {
    assert_eq!(required_len(3, 3, 45, 30), Ok(45 * 30));
    assert_eq!(required_len(3, 1, 45, 30), Ok(45 * 30 * 3));
    assert_eq!(required_len(4, 4, 45, 30), Ok(45 * 30));
    assert_eq!(required_len(1, 1, 45, 30), Ok(45 * 30));
    assert_eq!(required_len(3, 1, 0, 30), Ok(0));
    assert_eq!(required_len(0, 1, 45, 30), Ok(0));
    assert_eq!(required_len(0, 1, usize::MAX, usize::MAX), Ok(0));
    assert_eq!(required_len(3, 4, 45, 30), Err(ScanlineError::Unsupported));
    assert_eq!(required_len(3, 0, 45, 30), Err(ScanlineError::Unsupported));
    assert_eq!(required_len(1, 0, 0, 0), Err(ScanlineError::Unsupported));
    assert_eq!(item_size(3, 1), Ok(3));
    assert_eq!(item_size(3, 3), Ok(1));
    assert_eq!(item_size(1, 1), Ok(1));
    assert_eq!(item_size(0, 1), Ok(0));
    assert_eq!(item_size(0, 0), Ok(1));
    assert_eq!(item_size(3, 4), Err(ScanlineError::Unsupported));
    assert_eq!(item_size(3, 0), Err(ScanlineError::Unsupported));
    assert_eq!(required_len(4, 3, 45, 30), Err(ScanlineError::Unsupported));
    assert_eq!(required_len(3, 1, usize::MAX, 2), Err(ScanlineError::OutOfMemory));
    assert_eq!(required_len(3, 1, usize::MAX / 2, 1), Err(ScanlineError::OutOfMemory));
    assert_eq!(required_len(1, 1, usize::MAX, 1), Ok(usize::MAX));
}
