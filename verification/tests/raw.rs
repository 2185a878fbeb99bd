use mozjpeg::raw::{
    check_lines_read, check_raw_write, max_v_samp_factor, mcu_height, raw_rows_written,
    raw_write_rows, read_raw_data_chunk, read_rows, write_rows, RawError, MAX_COMPONENTS,
    MAX_MCU_HEIGHT,
};
use mozjpeg::vec::VecUninitExtender;
use mozjpeg::CompInfo;
use mozjpeg::CompInfoExt;

fn comp(index: i32, h: i32, v: i32, wide: u32, high: u32) -> CompInfo {
    let mut c = CompInfo::new(index, h, v);
    c.width_in_blocks = wide;
    c.height_in_blocks = high;
    c
}

/// The components of a 4:2:0 image, with the block counts that the codec
/// gives an image of `width` by `height` pixels.
fn ycc420(width: u32, height: u32) -> Vec<CompInfo> {
    let blocks = |size: u32, samp: u32| (size * samp + 15) / 16;
    vec![
        comp(0, 2, 2, blocks(width, 2), blocks(height, 2)),
        comp(1, 1, 1, blocks(width, 1), blocks(height, 1)),
        comp(2, 1, 1, blocks(width, 1), blocks(height, 1)),
    ]
}

#[test]
fn strides_are_eight_samples_per_block() {
    let c = comp(0, 2, 2, 3, 5);
    assert_eq!(c.row_stride(), 24);
    assert_eq!(c.col_stride(), 40);
    assert_eq!(c.width_in_blocks(), 3);
    assert_eq!(c.height_in_blocks(), 5);
    assert_eq!(c.sampling(), (2, 2));
    for blocks in [1u32, 2, 7, 100, 8188, 1 << 20] {
        let c = comp(0, 1, 1, blocks, blocks + 1);
        assert_eq!(c.row_stride(), blocks as usize * 8);
        assert_eq!(c.row_stride() % 8, 0);
        assert_eq!(c.col_stride(), (blocks as usize + 1) * 8);
        assert_eq!(c.col_stride() % 8, 0);
    }
}

#[test]
fn sampling_is_truncated_to_bytes() {
    assert_eq!(comp(0, 1, 4, 1, 1).sampling(), (1, 4));
    assert_eq!(comp(0, 257, -1, 1, 1).sampling(), (1, 255));
}

#[test]
fn new_component_has_no_geometry() {
    let c = CompInfo::new(2, 1, 2);
    assert_eq!((c.component_index, c.component_id), (2, 2));
    assert_eq!((c.h_samp_factor, c.v_samp_factor), (1, 2));
    assert_eq!((c.quant_tbl_no, c.dc_tbl_no, c.ac_tbl_no), (0, 0, 0));
    assert_eq!((c.width_in_blocks, c.height_in_blocks), (0, 0));
    assert!(c.quant_table.is_none());
    assert_eq!(c.width_in_blocks(), 0);
    assert_eq!(c.height_in_blocks(), 0);
}

#[test]
fn mcu_height_is_eight_rows_per_unit_and_at_most_sixteen() {
    assert_eq!(mcu_height(1), Ok(8));
    assert_eq!(mcu_height(2), Ok(16));
    assert_eq!(mcu_height(3), Err(RawError::SamplingTooLarge));
    assert_eq!(mcu_height(4), Err(RawError::SamplingTooLarge));
    assert_eq!(mcu_height(i32::MAX), Err(RawError::SamplingTooLarge));
    assert_eq!(mcu_height(-1), Err(RawError::SamplingTooLarge));
    assert_eq!(mcu_height(0), Err(RawError::NoSampling));
    assert_eq!(MAX_MCU_HEIGHT, 16);
    assert_eq!(MAX_COMPONENTS, 4);
}

#[test]
fn every_pair_of_sampling_factors_is_accepted_or_refused_by_its_height() {
    for count in 1..=4usize {
        for h in 1..=4 {
            for v in 1..=4 {
                for other in 1..=4 {
                    let mut comps: Vec<CompInfo> =
                        (0..count).map(|i| comp(i as i32, h, other, 5, 5)).collect();
                    comps[0].v_samp_factor = v;
                    let max = if count == 1 { v } else { v.max(other) };
                    assert_eq!(max_v_samp_factor(&comps), max);
                    for c in &comps {
                        assert_eq!(c.row_stride(), 40);
                        assert_eq!(c.row_stride() % 8, 0);
                    }
                    match mcu_height(max) {
                        Ok(height) => {
                            assert!(max <= 2);
                            assert_eq!(height, 8 * max as usize);
                            assert!(height <= 16);
                        },
                        Err(error) => {
                            assert!(max > 2);
                            assert_eq!(error, RawError::SamplingTooLarge);
                        },
                    }
                }
            }
        }
    }
    assert_eq!(max_v_samp_factor(&Vec::new()), 0);
    assert_eq!(max_v_samp_factor(&vec![comp(0, 1, -3, 1, 1)]), 0);
}

#[test]
fn raw_write_is_checked_in_order() {
    let comps = ycc420(17, 33);
    let lens = vec![24 * 40, 16 * 24, 16 * 24];
    assert_eq!(check_raw_write(true, 2, &comps, &lens), Ok(16));
    assert_eq!(check_raw_write(false, 2, &comps, &lens), Err(RawError::RawDataNotSet));
    assert_eq!(check_raw_write(false, 3, &comps, &lens), Err(RawError::RawDataNotSet));
    assert_eq!(check_raw_write(true, 3, &comps, &lens), Err(RawError::SamplingTooLarge));
    assert_eq!(check_raw_write(true, 0, &comps, &lens), Err(RawError::NoSampling));
    assert_eq!(check_raw_write(true, 3, &comps, &vec![]), Err(RawError::SamplingTooLarge));
    assert_eq!(
        check_raw_write(true, 2, &comps, &vec![960, 384]),
        Err(RawError::TooManyComponents)
    );
    let five: Vec<CompInfo> = (0..5).map(|i| comp(i, 1, 1, 1, 1)).collect();
    assert_eq!(check_raw_write(true, 1, &five, &vec![64; 5]), Err(RawError::TooManyComponents));
    let four: Vec<CompInfo> = (0..4).map(|i| comp(i, 1, 1, 1, 1)).collect();
    assert_eq!(check_raw_write(true, 1, &four, &vec![64; 4]), Ok(8));
    assert_eq!(check_raw_write(true, 1, &four, &vec![64; 9]), Ok(8));
    assert_eq!(
        check_raw_write(true, 2, &comps, &vec![959, 384, 384]),
        Err(RawError::BitmapTooSmall)
    );
    assert_eq!(
        check_raw_write(true, 2, &comps, &vec![960, 384, 383]),
        Err(RawError::BitmapTooSmall)
    );
    let mut blank = comps.clone();
    blank[1].width_in_blocks = 0;
    assert_eq!(check_raw_write(true, 2, &blank, &lens), Err(RawError::NoGeometry));
    assert_eq!(
        check_raw_write(true, 2, &blank, &vec![0, 384, 384]),
        Err(RawError::BitmapTooSmall)
    );
    let mut blank = comps.clone();
    blank[2].height_in_blocks = 0;
    assert_eq!(check_raw_write(true, 2, &blank, &lens), Err(RawError::NoGeometry));
    assert_eq!(check_raw_write(true, 2, &Vec::new(), &Vec::new()), Ok(16));
}

#[test]
fn a_plane_of_the_largest_size_is_measured_without_overflow() {
    let huge = comp(0, 1, 1, u32::MAX, u32::MAX);
    assert_eq!(
        check_raw_write(true, 1, &vec![huge], &vec![usize::MAX]),
        Err(RawError::BitmapTooSmall)
    );
}

#[test]
fn rows_of_a_raw_write() {
    // 17x33 at 4:2:0: the luma plane is 24 wide and 40 high
    let y = comp(0, 2, 2, 3, 5);
    let rows = write_rows(&y, 960, 0, 2).unwrap();
    for ri in 0..16 {
        assert_eq!(rows[ri], Some(ri * 24));
    }
    let rows = write_rows(&y, 960, 16, 2).unwrap();
    for ri in 0..16 {
        assert_eq!(rows[ri], Some((16 + ri) * 24));
    }
    // the last MCU row has one block row left, and padding after it
    let rows = write_rows(&y, 960, 32, 2).unwrap();
    for ri in 0..8 {
        assert_eq!(rows[ri], Some((32 + ri) * 24));
    }
    for ri in 8..16 {
        assert_eq!(rows[ri], None);
    }
    // chroma planes are 16 wide and 24 high, and move half as fast
    let cb = comp(1, 1, 1, 2, 3);
    for (start_row, first) in [(0u32, 0usize), (16, 8), (32, 16)] {
        let rows = write_rows(&cb, 384, start_row, 2).unwrap();
        for ri in 0..8 {
            assert_eq!(rows[ri], Some((first + ri) * 16));
        }
        for ri in 8..16 {
            assert_eq!(rows[ri], None);
        }
    }
    // a longer plane than needed has more rows to give
    let rows = write_rows(&y, 24 * 48, 32, 2).unwrap();
    for ri in 0..16 {
        assert_eq!(rows[ri], Some((32 + ri) * 24));
    }
    // bytes that do not make a row are not counted
    let rows = write_rows(&y, 24 * 41 - 1, 32, 2).unwrap();
    assert_eq!(rows[7], Some(39 * 24));
    assert_eq!(rows[8], None);
}

#[test]
fn rows_of_a_raw_write_that_cannot_be() {
    let y = comp(0, 2, 2, 3, 5);
    assert_eq!(write_rows(&y, 960, 0, 3), Err(RawError::SamplingTooLarge));
    assert_eq!(write_rows(&y, 960, 0, 0), Err(RawError::NoSampling));
    assert_eq!(write_rows(&y, 960, 0, 1), Err(RawError::BadSampling));
    assert_eq!(write_rows(&comp(0, 1, 0, 3, 5), 960, 0, 2), Err(RawError::BadSampling));
    assert_eq!(write_rows(&comp(0, 1, -1, 3, 5), 960, 0, 2), Err(RawError::BadSampling));
    assert_eq!(write_rows(&comp(0, 2, 2, 0, 5), 960, 0, 2), Err(RawError::NoGeometry));
    // past the end of the plane, or within less than a block row of it
    assert_eq!(write_rows(&y, 960, 48, 2), Err(RawError::ShortRows));
    assert_eq!(write_rows(&y, 960, 40, 2), Err(RawError::ShortRows));
    assert_eq!(write_rows(&y, 960, 33, 2), Err(RawError::ShortRows));
    assert_eq!(write_rows(&y, 960, u32::MAX, 2), Err(RawError::ShortRows));
    assert_eq!(write_rows(&y, 24 * 7, 0, 2), Err(RawError::ShortRows));
    assert_eq!(write_rows(&y, 0, 0, 2), Err(RawError::ShortRows));
}

#[test]
fn table_of_a_raw_write() {
    let comps = ycc420(17, 33);
    let lens = vec![960, 384, 384];
    let table = raw_write_rows(&comps, &lens, 32, 2).unwrap();
    for ri in 0..16 {
        assert_eq!(table.get(0, ri), if ri < 8 { Some((32 + ri) * 24) } else { None });
        assert_eq!(table.get(1, ri), if ri < 8 { Some((16 + ri) * 16) } else { None });
        assert_eq!(table.get(2, ri), if ri < 8 { Some((16 + ri) * 16) } else { None });
        assert_eq!(table.get(3, ri), None);
    }
    assert_eq!(table.get(0, 16), None);
    assert_eq!(table.get(4, 0), None);
    assert!(matches!(
        raw_write_rows(&comps, &vec![960, 384], 0, 2),
        Err(RawError::TooManyComponents)
    ));
    assert!(matches!(
        raw_write_rows(&comps, &vec![960, 384, 100], 0, 2),
        Err(RawError::ShortRows)
    ));
    assert!(matches!(raw_write_rows(&comps, &lens, 0, 1), Err(RawError::BadSampling)));
    assert!(matches!(raw_write_rows(&comps, &lens, 0, 4), Err(RawError::SamplingTooLarge)));
    let five: Vec<CompInfo> = (0..5).map(|i| comp(i, 1, 1, 1, 1)).collect();
    assert!(matches!(
        raw_write_rows(&five, &vec![64; 5], 0, 1),
        Err(RawError::TooManyComponents)
    ));
}

#[test]
fn every_mcu_row_of_an_image_has_its_rows() {
    for size in 1..64u32 {
        let comps = ycc420(size, size);
        let lens: Vec<usize> = comps.iter().map(|c| c.row_stride() * c.col_stride()).collect();
        assert_eq!(check_raw_write(true, 2, &comps, &lens), Ok(16));
        let mut start_row = 0;
        while start_row < size {
            let table = raw_write_rows(&comps, &lens, start_row, 2).unwrap();
            for (ci, c) in comps.iter().enumerate() {
                for ri in 0..16 {
                    if let Some(offset) = table.get(ci, ri) {
                        assert_eq!(offset % c.row_stride(), 0);
                        assert!(offset + c.row_stride() <= lens[ci]);
                    } else {
                        assert!(ri >= 8);
                    }
                }
            }
            start_row = raw_rows_written(start_row, 16, 16).unwrap().unwrap();
        }
    }
}

#[test]
fn the_engines_answer_to_a_raw_write() {
    // no rows: the writing ends
    assert_eq!(raw_rows_written(32, 0, 16), Ok(None));
    assert_eq!(raw_rows_written(32, 0, 8), Ok(None));
    // one MCU row: the writing goes on with the next
    assert_eq!(raw_rows_written(0, 16, 16), Ok(Some(16)));
    assert_eq!(raw_rows_written(32, 16, 16), Ok(Some(48)));
    assert_eq!(raw_rows_written(32, 8, 8), Ok(Some(40)));
    assert_eq!(raw_rows_written(u32::MAX - 3, 16, 16), Ok(Some(u32::MAX)));
    // anything else: the writing does not go on
    assert_eq!(raw_rows_written(32, 8, 16), Err(RawError::PartialTransfer));
    assert_eq!(raw_rows_written(32, 1, 16), Err(RawError::PartialTransfer));
    assert_eq!(raw_rows_written(32, 15, 16), Err(RawError::PartialTransfer));
    assert_eq!(raw_rows_written(32, 17, 16), Err(RawError::PartialTransfer));
    assert_eq!(raw_rows_written(32, 32, 16), Err(RawError::PartialTransfer));
    assert_eq!(raw_rows_written(32, 16, 8), Err(RawError::PartialTransfer));
    assert_eq!(raw_rows_written(0, u32::MAX, 16), Err(RawError::PartialTransfer));
}

#[test]
fn rows_of_a_raw_read() {
    let y = comp(0, 2, 2, 4, 4);
    let (growth, rows) = read_rows(&y, 0, 2).unwrap();
    assert_eq!(growth, 16 * 32);
    for ri in 0..16 {
        assert_eq!(rows[ri], Some(ri * 32));
    }
    let (growth, rows) = read_rows(&y, 512, 2).unwrap();
    assert_eq!(growth, 512);
    for ri in 0..16 {
        assert_eq!(rows[ri], Some(512 + ri * 32));
    }
    let cb = comp(1, 1, 1, 2, 2);
    let (growth, rows) = read_rows(&cb, 128, 2).unwrap();
    assert_eq!(growth, 8 * 16);
    for ri in 0..16 {
        assert_eq!(rows[ri], if ri < 8 { Some(128 + ri * 16) } else { None });
    }
    assert_eq!(read_rows(&y, 0, 3), Err(RawError::SamplingTooLarge));
    assert_eq!(read_rows(&y, 0, 0), Err(RawError::NoSampling));
    assert_eq!(read_rows(&y, 0, 1), Err(RawError::BadSampling));
    assert_eq!(read_rows(&comp(0, 1, 0, 4, 4), 0, 2), Err(RawError::BadSampling));
    assert_eq!(read_rows(&comp(0, 1, 1, 0, 4), 0, 2), Err(RawError::NoGeometry));
    assert_eq!(read_rows(&y, usize::MAX - 511, 2), Err(RawError::PlaneTooLarge));
    assert!(read_rows(&y, usize::MAX - 512, 2).is_ok());
}

#[test]
fn raw_read_of_a_32_by_32_image_at_4_2_0() {
    let comps = ycc420(32, 32);
    assert_eq!((comps[0].row_stride(), comps[0].col_stride()), (32, 32));
    assert_eq!((comps[1].row_stride(), comps[1].col_stride()), (16, 16));
    assert_eq!((comps[2].row_stride(), comps[2].col_stride()), (16, 16));
    let max_v = max_v_samp_factor(&comps);
    assert_eq!(max_v, 2);
    let height = mcu_height(max_v).unwrap();
    let mut bitmaps = vec![Vec::new(), Vec::new(), Vec::new()];
    let mut output_scanline = 0;
    let mut chunks = 0;
    while output_scanline < 32 {
        let before: Vec<usize> = bitmaps.iter().map(|b| b.len()).collect();
        let table = read_raw_data_chunk(true, max_v, &comps, &mut bitmaps).unwrap();
        // the engine fills the rows that it is pointed at
        for ci in 0..3 {
            let stride = comps[ci].row_stride();
            for ri in 0..16 {
                match table.get(ci, ri) {
                    Some(start) => {
                        assert_eq!(start, before[ci] + ri * stride);
                        for sample in &mut bitmaps[ci][start..start + stride] {
                            assert_eq!(*sample, 0);
                            *sample = 128;
                        }
                    },
                    None => assert!(ri >= 8 * comps[ci].v_samp_factor as usize),
                }
            }
        }
        assert_eq!(check_lines_read(16, height), Ok(()));
        output_scanline += 16;
        chunks += 1;
        assert_eq!(bitmaps[0].len(), 4 * bitmaps[1].len());
        assert_eq!(bitmaps[1].len(), bitmaps[2].len());
    }
    assert_eq!(chunks, 2);
    for (bitmap, c) in bitmaps.iter().zip(&comps) {
        assert_eq!(c.row_stride() * c.col_stride(), bitmap.len());
        assert!(bitmap.iter().all(|&sample| sample == 128));
    }
    assert_eq!(bitmaps[0].len(), 1024);
    assert_eq!(bitmaps[1].len(), 256);
}

#[test]
fn a_raw_read_that_cannot_be_leaves_the_planes_alone() {
    let comps = ycc420(32, 32);
    let planes = vec![vec![1u8, 2], vec![3u8], vec![]];
    for (raw_data_out, max_v, comps, error) in [
        (false, 2, comps.clone(), RawError::RawDataNotSet),
        (true, 3, comps.clone(), RawError::SamplingTooLarge),
        (true, 0, comps.clone(), RawError::NoSampling),
        (true, 1, comps.clone(), RawError::BadSampling),
        (true, 2, vec![comps[0], comps[1], comp(2, 1, 1, 0, 2)], RawError::NoGeometry),
        (true, 2, vec![comps[0], comps[1], comps[2], comps[2]], RawError::TooManyComponents),
        (true, 2, vec![comps[0]; 5], RawError::TooManyComponents),
    ] {
        let mut image_dest = planes.clone();
        assert!(matches!(
            read_raw_data_chunk(raw_data_out, max_v, &comps, &mut image_dest),
            Err(found) if found == error
        ));
        assert_eq!(image_dest, planes);
    }
}

#[test]
fn a_raw_read_grows_only_the_planes_of_components() {
    let comps = vec![comp(0, 1, 1, 1, 1)];
    let mut planes = vec![vec![7u8], vec![8u8, 9]];
    let table = read_raw_data_chunk(true, 1, &comps, &mut planes).unwrap();
    assert_eq!(planes[0].len(), 65);
    assert_eq!(planes[0][0], 7);
    assert!(planes[0][1..].iter().all(|&b| b == 0));
    assert_eq!(planes[1], vec![8u8, 9]);
    for ri in 0..8 {
        assert_eq!(table.get(0, ri), Some(1 + ri * 8));
        assert_eq!(table.get(1, ri), None);
    }
    assert_eq!(table.get(0, 8), None);
}

#[test]
fn only_a_whole_mcu_row_is_a_raw_read() {
    assert_eq!(check_lines_read(16, 16), Ok(()));
    assert_eq!(check_lines_read(8, 8), Ok(()));
    assert_eq!(check_lines_read(8, 16), Err(RawError::PartialTransfer));
    assert_eq!(check_lines_read(0, 16), Err(RawError::PartialTransfer));
    assert_eq!(check_lines_read(17, 16), Err(RawError::PartialTransfer));
}

#[test]
fn extend_uninit_appends_zeros() {
    let mut v = vec![1u8, 2, 3];
    v.extend_uninit(4);
    assert_eq!(v, vec![1, 2, 3, 0, 0, 0, 0]);
    v.extend_uninit(0);
    assert_eq!(v.len(), 7);
}
