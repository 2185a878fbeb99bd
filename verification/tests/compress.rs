use mozjpeg::compress::{CompressStarted, StartError};
use mozjpeg::errormgr::Fatal;
use mozjpeg::stream::StreamError;
use mozjpeg::writedst::Stage;
use mozjpeg::raw::RawError;
use mozjpeg::readsrc::SourceMgr;
use mozjpeg::scanlines::{batch_positions, ScanlineError};
use mozjpeg::stream::{ByteSink, MemReader};
use mozjpeg::ColorSpace;
use mozjpeg::CompInfo;
use mozjpeg::CompInfoExt;
use mozjpeg::Compress;
use mozjpeg::Marker;
use mozjpeg::ScanMode;

/// The components that the codec sets up for a color space of the file.
fn codec_components(space: ColorSpace) -> Vec<CompInfo> {
    let samp: &[(i32, i32)] = match space {
        ColorSpace::JCS_GRAYSCALE => &[(1, 1)],
        ColorSpace::JCS_YCbCr => &[(2, 2), (1, 1), (1, 1)],
        ColorSpace::JCS_RGB => &[(1, 1), (1, 1), (1, 1)],
        ColorSpace::JCS_CMYK => &[(1, 1), (1, 1), (1, 1), (1, 1)],
        _ => &[],
    };
    samp.iter().enumerate().map(|(i, &(h, v))| CompInfo::new(i as i32, h, v)).collect()
}

/// The block counts that the codec computes when compression starts.
fn codec_geometry(width: u32, height: u32, comps: &[CompInfo]) -> Vec<(u32, u32)> {
    let max_h = comps.iter().map(|c| c.h_samp_factor).max().unwrap_or(1) as u32;
    let max_v = comps.iter().map(|c| c.v_samp_factor).max().unwrap_or(1) as u32;
    let blocks = |size: u32, samp: i32, max: u32| (size * samp as u32 + max * 8 - 1) / (max * 8);
    comps
        .iter()
        .map(|c| (blocks(width, c.h_samp_factor, max_h), blocks(height, c.v_samp_factor, max_v)))
        .collect()
}

/// Starts a compression as the codec would: with its block counts taken
/// over, and the destination ready for bytes.
fn start(cinfo: Compress) -> CompressStarted<Vec<u8>> {
    let (width, height) = (cinfo.image_width(), cinfo.image_height());
    let mut started = cinfo.start_compress(Vec::new()).unwrap();
    let blocks = codec_geometry(width, height, started.components());
    started.set_geometry(&blocks);
    started.dest_mgr_mut().init_destination().unwrap();
    // start of image
    started.dest_mgr_mut().emit(&[0xFF, 0xD8]).unwrap();
    started
}

/// Writes a marker as the codec would: its code, its length, its contents.
fn write_marker<W: ByteSink>(cinfo: &mut CompressStarted<W>, marker: Marker, data: &[u8]) {
    let code = i32::from(marker) as u8;
    let len = (data.len() + 2) as u16;
    let dest = cinfo.dest_mgr_mut();
    dest.emit(&[0xFF, code]).unwrap();
    dest.emit(&len.to_be_bytes()).unwrap();
    dest.emit(data).unwrap();
}

/// Drives a raw write to its end with a codec that takes every MCU row
/// whole and copies out the samples that it is pointed at.
fn write_raw_data<W: ByteSink>(cinfo: &mut CompressStarted<W>, image_src: &[&[u8]]) -> bool {
    let mcu_height = cinfo.check_raw_write(image_src).unwrap() as u32;
    let mut start_row = cinfo_next_scanline(cinfo);
    loop {
        let table = match cinfo.write_raw_data(image_src, start_row).unwrap() {
            Some(table) => table,
            None => return true,
        };
        let strides: Vec<usize> = cinfo.components().iter().map(|c| c.row_stride()).collect();
        for (ci, stride) in strides.iter().enumerate() {
            for ri in 0..mcu_height as usize {
                if let Some(start) = table.get(ci, ri) {
                    let row = &image_src[ci][start..start + stride];
                    cinfo.dest_mgr_mut().emit(row).unwrap();
                }
            }
        }
        match cinfo.raw_data_written(start_row, mcu_height).unwrap() {
            Some(next) => start_row = next,
            None => return false,
        }
    }
}

fn cinfo_next_scanline<W>(cinfo: &CompressStarted<W>) -> u32 {
    if cinfo.can_write_more_lines() { 0 } else { u32::MAX }
}

/// Drives a write of pixel rows to its end with a codec that takes every
/// row it is offered and copies it out.
fn write_scanlines<W: ByteSink>(
    cinfo: &mut CompressStarted<W>,
    image_src: &[u8],
    byte_width: usize,
) -> Result<(), ScanlineError> {
    let mut batch = 0;
    loop {
        let rows = batch_positions(&cinfo.write_scanlines(image_src, batch)?);
        if rows.is_empty() {
            return Ok(());
        }
        let mut rows_left = rows.len() as u32;
        let mut next = 0;
        while rows_left > 0 {
            let start = rows[next];
            cinfo.dest_mgr_mut().emit(&image_src[start..start + byte_width]).unwrap();
            next += 1;
            rows_left = cinfo.scanlines_written(rows_left, 1)?;
        }
        batch += 1;
    }
}

/// Ends a compression as the codec would, and hands the file back.
fn finish(mut cinfo: CompressStarted<Vec<u8>>) -> Vec<u8> {
    // end of image
    cinfo.dest_mgr_mut().emit(&[0xFF, 0xD9]).unwrap();
    cinfo.dest_mgr_mut().term_destination().unwrap();
    cinfo.finish().unwrap()
}

#[test]
fn write_mem() {
    let mut cinfo = Compress::new(ColorSpace::JCS_YCbCr);
    cinfo.set_components(codec_components(ColorSpace::JCS_YCbCr));

    assert_eq!(3, cinfo.components().len());

    cinfo.set_size(17, 33);

    cinfo.set_raw_data_in(true);

    cinfo.set_chroma_sampling_pixel_sizes((1, 1), (1, 1));
    for c in cinfo.components().iter() {
        assert_eq!(c.v_samp_factor, 1);
        assert_eq!(c.h_samp_factor, 1);
    }

    cinfo.set_chroma_sampling_pixel_sizes((2, 2), (2, 2));
    for (c, samp) in cinfo.components().iter().zip([2, 1, 1]) {
        assert_eq!(c.v_samp_factor, samp);
        assert_eq!(c.h_samp_factor, samp);
    }

    let mut cinfo = start(cinfo);

    write_marker(&mut cinfo, Marker::APP(2), "Hello World".as_bytes());

    assert_eq!(24, cinfo.components()[0].row_stride());
    assert_eq!(40, cinfo.components()[0].col_stride());
    assert_eq!(16, cinfo.components()[1].row_stride());
    assert_eq!(24, cinfo.components()[1].col_stride());
    assert_eq!(16, cinfo.components()[2].row_stride());
    assert_eq!(24, cinfo.components()[2].col_stride());

    let bitmaps = cinfo
        .components()
        .iter()
        .map(|c| vec![128u8; c.row_stride() * c.col_stride()])
        .collect::<Vec<_>>();

    assert!(write_raw_data(&mut cinfo, &bitmaps.iter().map(|c| &c[..]).collect::<Vec<_>>()));
    assert!(!cinfo.can_write_more_lines());

    let file = finish(cinfo);
    // start of image, the marker, three MCU rows of samples, end of image
    let marker = [&[0xFF, 0xE2, 0, 13][..], "Hello World".as_bytes()].concat();
    assert_eq!(&file[..2], &[0xFF, 0xD8]);
    assert_eq!(&file[2..17], &marker[..]);
    let samples = (16 + 16 + 8) * 24 + 2 * 3 * 8 * 16;
    assert_eq!(file.len(), 2 + 15 + samples + 2);
    assert!(file[17..17 + samples].iter().all(|&sample| sample == 128));
    assert_eq!(&file[17 + samples..], &[0xFF, 0xD9]);
}

#[test]
fn convert_colorspace() {
    let mut cinfo = Compress::new(ColorSpace::JCS_RGB);
    cinfo.set_components(codec_components(ColorSpace::JCS_GRAYSCALE));
    assert_eq!(1, cinfo.components().len());

    cinfo.set_size(33, 15);

    let mut cinfo = start(cinfo);

    let scanlines = vec![127u8; 33 * 15 * 3];
    write_scanlines(&mut cinfo, &scanlines, 33 * 3).unwrap();
    assert!(!cinfo.can_write_more_lines());

    let res = finish(cinfo);
    assert!(!res.is_empty());
    assert_eq!(res.len(), 2 + 33 * 15 * 3 + 2);
}

#[test]
fn test_color_jpeg() {
    for size in 1..64 {
        let mut comp = Compress::new(ColorSpace::JCS_RGB);
        comp.set_components(codec_components(ColorSpace::JCS_YCbCr));

        assert_eq!(ScanMode::AllComponentsTogether.code(), 0);
        comp.set_size(size, size);
        let mut comp = start(comp);

        let lines = vec![128; size * size * 3];
        write_scanlines(&mut comp, &lines[..], size * 3).unwrap();
        assert!(!comp.can_write_more_lines());

        let jpeg = finish(comp);
        assert!(!jpeg.is_empty());
        assert_eq!(jpeg.len(), 4 + size * size * 3);
    }
}

#[test]
fn tests_color_jpeg() {
    for size in 1..64 {
        let mut comp = Compress::new(ColorSpace::JCS_RGB);
        comp.set_components(codec_components(ColorSpace::JCS_RGB));

        comp.set_size(size, size);
        let mut comp = start(comp);

        let lines = vec![128; size * size * 3];
        // rows are offered 16 at a time
        let mut offered = 0;
        let mut batch = 0;
        loop {
            let rows = batch_positions(&comp.write_scanlines(&lines[..], batch).unwrap());
            if rows.is_empty() {
                break;
            }
            assert_eq!(rows.len(), (size - offered).min(16));
            for (i, start) in rows.iter().enumerate() {
                assert_eq!(*start, (offered + i) * size * 3);
            }
            assert_eq!(comp.scanlines_written(rows.len() as u32, rows.len() as u32), Ok(0));
            offered += rows.len();
            batch += 1;
        }
        assert_eq!(offered, size);
        assert!(!comp.can_write_more_lines());

        let jpeg = finish(comp);
        assert!(!jpeg.is_empty());
    }
}

#[test]
fn test_raw_jpeg() {
    for size in 1..64 {
        let mut comp = Compress::new(ColorSpace::JCS_YCbCr);
        comp.set_components(codec_components(ColorSpace::JCS_YCbCr));

        comp.set_raw_data_in(true);
        comp.set_size(size, size);

        let mut comp = start(comp);

        let rounded_size = (size + 7) / 8 * 8;
        let t = vec![128; rounded_size * rounded_size];
        let components = vec![&t[..], &t[..], &t[..]];
        assert!(write_raw_data(&mut comp, &components[..]));

        let jpeg = finish(comp);
        assert!(!jpeg.is_empty());
        decompress_jpeg(&jpeg, size);
    }
}

#[test]
fn tests_raw_jpeg() {
    for size in 1..64 {
        let mut comp = Compress::new(ColorSpace::JCS_YCbCr);
        comp.set_components(codec_components(ColorSpace::JCS_YCbCr));

        comp.set_raw_data_in(true);
        comp.set_size(size, size);

        let mut comp = start(comp);

        let rounded_size = (size + 7) / 8 * 8;
        let t = vec![128; rounded_size * rounded_size];
        let components = [&t[..], &t[..], &t[..]];
        assert_eq!(comp.check_raw_write(&components[..]), Ok(16));
        assert!(write_raw_data(&mut comp, &components[..]));

        let jpeg = finish(comp);
        assert!(!jpeg.is_empty());
        decompress_jpeg(&jpeg, size);
    }
}

/// Reads a file of these tests back through a source adapter: the samples
/// between the start and the end of the image, for an image of `size` by
/// `size` pixels at 4:2:0.
fn decompress_jpeg(jpeg: &[u8], size: usize) -> Vec<Vec<u8>> {
    let comps = codec_components(ColorSpace::JCS_YCbCr);
    let blocks = codec_geometry(size as u32, size as u32, &comps);
    let mut src = SourceMgr::new(MemReader::with_capacity(100, jpeg.to_vec())).unwrap();
    assert_eq!(src.next_byte(), Some(0xFF));
    assert_eq!(src.next_byte(), Some(0xD8));
    let mut take = |count: usize| -> Vec<u8> {
        let mut samples = Vec::new();
        while samples.len() < count {
            match src.next_byte() {
                Some(sample) => samples.push(sample),
                None => assert_eq!(src.fill_input_buffer(), Ok(None)),
            }
        }
        samples
    };
    let mut bitmaps = vec![Vec::new(), Vec::new(), Vec::new()];
    let mcu_rows = (size + 15) / 16;
    for mcu_row in 0..mcu_rows {
        for (ci, &(wide, high)) in blocks.iter().enumerate() {
            let full = 8 * comps[ci].v_samp_factor as usize;
            let rows = full.min(high as usize * 8 - mcu_row * full);
            bitmaps[ci].extend(take(rows * wide as usize * 8));
        }
    }
    assert_eq!(take(2), vec![0xFF, 0xD9]);
    for (bitmap, &(wide, high)) in bitmaps.iter().zip(&blocks) {
        assert_eq!(bitmap.len(), wide as usize * 8 * high as usize * 8);
        assert!(bitmap.iter().all(|&sample| sample == 128));
    }
    bitmaps
}

#[test]
fn a_new_compression_has_the_channels_of_its_color_space() {
    for (space, channels) in [
        (ColorSpace::JCS_UNKNOWN, 0),
        (ColorSpace::JCS_GRAYSCALE, 1),
        (ColorSpace::JCS_RGB, 3),
        (ColorSpace::JCS_YCbCr, 3),
        (ColorSpace::JCS_CMYK, 4),
        (ColorSpace::JCS_EXT_BGRA, 4),
        (ColorSpace::JCS_RGB565, 3),
    ] {
        let cinfo = Compress::new(space);
        assert_eq!(cinfo.in_color_space(), space);
        assert_eq!(cinfo.input_components(), channels);
        assert_eq!((cinfo.image_width(), cinfo.image_height()), (0, 0));
        assert!(!cinfo.raw_data_in());
        assert!(cinfo.optimize_coding());
        assert_eq!(cinfo.next_scanline(), 0);
        assert!(cinfo.components().is_empty());
        assert_eq!(cinfo.max_v_samp_factor(), 0);
        cinfo.set_mem_dest();
    }
}

#[test]
fn settings_are_kept() {
    let mut cinfo = Compress::new(ColorSpace::JCS_YCbCr);
    cinfo.set_size(45, 30);
    assert_eq!((cinfo.image_width(), cinfo.image_height()), (45, 30));
    cinfo.set_size((1usize << 32) + 7, usize::MAX);
    assert_eq!((cinfo.image_width(), cinfo.image_height()), (7, u32::MAX));
    cinfo.set_optimize_coding(false);
    assert!(!cinfo.optimize_coding());
    cinfo.set_raw_data_in(true);
    assert!(cinfo.raw_data_in());
    cinfo.set_raw_data_in(false);
    assert!(!cinfo.raw_data_in());
    cinfo.set_next_scanline(12);
    assert_eq!(cinfo.next_scanline(), 12);
    assert_eq!((cinfo.image_width(), cinfo.image_height()), (7, u32::MAX));
}

#[test]
fn components_can_be_changed_before_the_start() {
    let mut cinfo = Compress::new(ColorSpace::JCS_YCbCr);
    cinfo.set_components(codec_components(ColorSpace::JCS_YCbCr));
    {
        let comp = cinfo.components_mut();
        comp[0].h_samp_factor = 1;
        comp[0].v_samp_factor = 1;
        comp[1].h_samp_factor = 2;
        comp[1].v_samp_factor = 2;
    }
    assert_eq!(cinfo.components()[0].v_samp_factor, 1);
    assert_eq!(cinfo.components()[1].h_samp_factor, 2);
    assert_eq!(cinfo.max_v_samp_factor(), 2);
    cinfo.set_smoothing_factor(55);
    assert_eq!(cinfo.smoothing_factor(), 55);
    cinfo.set_size(8, 8);
    let mut started = cinfo.start_compress(vec![7u8]).unwrap();
    started.dest_mgr_mut().init_destination().unwrap();
    started.dest_mgr_mut().term_destination().unwrap();
    assert_eq!(started.finish_compress(), Ok(vec![7u8]));
}

/// A writer that fails on its third write.
struct FailsOnThirdWrite {
    writes: usize,
    accepted: Vec<u8>,
}

impl ByteSink for FailsOnThirdWrite {
    fn write_all(&mut self, buf: &[u8]) -> Result<(), StreamError> {
        self.writes += 1;
        if self.writes == 3 {
            return Err(StreamError::Failed);
        }
        self.accepted.extend_from_slice(buf);
        Ok(())
    }

    fn flush(&mut self) -> Result<(), StreamError> {
        Ok(())
    }
}

fn gray(width: usize, height: usize) -> Compress {
    let mut cinfo = Compress::new(ColorSpace::JCS_GRAYSCALE);
    cinfo.set_components(vec![CompInfo::new(0, 1, 1)]);
    cinfo.set_size(width, height);
    cinfo
}

#[test]
fn an_encode_whose_third_write_fails_is_no_success() {
    let writer = FailsOnThirdWrite { writes: 0, accepted: Vec::new() };
    let mut started = gray(8, 8).start_compress(writer).unwrap();
    started.dest_mgr_mut().init_destination().unwrap();
    // the engine fills the buffer three times
    assert_eq!(started.dest_mgr_mut().emit(&[1u8; 4096]), Ok(()));
    assert_eq!(started.dest_mgr_mut().emit(&[2u8; 4096]), Ok(()));
    assert_eq!(started.dest_mgr_mut().current_stage(), Stage::Live);
    assert_eq!(started.dest_mgr_mut().emit(&[3u8; 4096]), Err(Fatal::FileWrite));
    assert_eq!(started.dest_mgr_mut().current_stage(), Stage::Failed(Fatal::FileWrite));
    // whatever it calls afterwards is refused
    assert_eq!(started.dest_mgr_mut().emit(&[4u8; 10]), Err(Fatal::Dangling));
    assert_eq!(started.dest_mgr_mut().term_destination(), Err(Fatal::Dangling));
    assert_eq!(started.dest_mgr_mut().current_stage(), Stage::Failed(Fatal::FileWrite));
    // and the part that was written does not pass for the file
    assert!(matches!(started.finish(), Err(Fatal::FileWrite)));
}

#[test]
fn a_failed_encode_still_gives_its_writer_back() {
    let writer = FailsOnThirdWrite { writes: 2, accepted: vec![9] };
    let mut started = gray(8, 8).start_compress(writer).unwrap();
    started.dest_mgr_mut().init_destination().unwrap();
    started.dest_mgr_mut().emit(&[1u8; 5]).unwrap();
    assert_eq!(started.dest_mgr_mut().term_destination(), Err(Fatal::FileWrite));
    let writer = started.abort();
    assert_eq!((writer.writes, writer.accepted), (3, vec![9]));
}

#[test]
fn only_a_finished_encode_is_a_success() {
    // the engine has not ended the file
    let mut started = gray(8, 8).start_compress(Vec::new()).unwrap();
    started.dest_mgr_mut().init_destination().unwrap();
    started.dest_mgr_mut().emit(&[1u8; 5]).unwrap();
    assert!(matches!(started.finish(), Err(Fatal::Dangling)));
    // it has
    let mut started = gray(8, 8).start_compress(Vec::new()).unwrap();
    started.dest_mgr_mut().init_destination().unwrap();
    started.dest_mgr_mut().emit(&[1u8; 5]).unwrap();
    started.dest_mgr_mut().term_destination().unwrap();
    assert_eq!(started.dest_mgr_mut().current_stage(), Stage::Finished);
    assert_eq!(started.finish(), Ok(vec![1u8; 5]));
    // the adapter was given up
    let mut started = gray(8, 8).start_compress(Vec::new()).unwrap();
    started.dest_mgr_mut().poison();
    assert_eq!(started.dest_mgr_mut().current_stage(), Stage::Poisoned);
    assert!(matches!(started.finish_compress(), Err(Fatal::Dangling)));
    // a cursor that was corrupted at the end
    let mut started = gray(8, 8).start_compress(Vec::new()).unwrap();
    started.dest_mgr_mut().init_destination().unwrap();
    started.dest_mgr_mut().set_cursor(0, 5000);
    assert_eq!(started.dest_mgr_mut().term_destination(), Err(Fatal::BufferSize));
    assert!(matches!(started.finish(), Err(Fatal::BufferSize)));
}

#[test]
fn chroma_pixel_sizes_become_sampling_factors() {
    let mut cinfo = Compress::new(ColorSpace::JCS_YCCK);
    let mut comps: Vec<CompInfo> = (0..4).map(|i| CompInfo::new(i, 3, 3)).collect();
    comps[1].quant_tbl_no = 1;
    comps[1].width_in_blocks = 9;
    cinfo.set_components(comps);
    let factors = |cinfo: &Compress| -> Vec<(i32, i32)> {
        cinfo.components().iter().map(|c| (c.h_samp_factor, c.v_samp_factor)).collect()
    };
    // 4:2:2
    cinfo.set_chroma_sampling_pixel_sizes((2, 1), (2, 1));
    assert_eq!(factors(&cinfo), vec![(2, 1), (1, 1), (1, 1), (3, 3)]);
    // different sizes for the two channels
    cinfo.set_chroma_sampling_pixel_sizes((4, 1), (2, 2));
    assert_eq!(factors(&cinfo), vec![(4, 2), (1, 2), (2, 1), (3, 3)]);
    // sizes that do not divide the largest
    cinfo.set_chroma_sampling_pixel_sizes((3, 5), (2, 1));
    assert_eq!(factors(&cinfo), vec![(3, 5), (1, 1), (1, 5), (3, 3)]);
    cinfo.set_chroma_sampling_pixel_sizes((255, 255), (1, 1));
    assert_eq!(factors(&cinfo), vec![(255, 255), (1, 1), (255, 255), (3, 3)]);
    // nothing else changes
    assert_eq!(cinfo.components()[1].quant_tbl_no, 1);
    assert_eq!(cinfo.components()[1].width_in_blocks, 9);
    assert_eq!(cinfo.components().len(), 4);
    // fewer than three components
    let mut gray = Compress::new(ColorSpace::JCS_GRAYSCALE);
    gray.set_components(vec![CompInfo::new(0, 1, 1)]);
    gray.set_chroma_sampling_pixel_sizes((2, 2), (2, 2));
    assert_eq!(factors(&gray), vec![(2, 2)]);
    let mut none = Compress::new(ColorSpace::JCS_UNKNOWN);
    none.set_chroma_sampling_pixel_sizes((2, 2), (2, 2));
    assert!(none.components().is_empty());
}

#[test]
fn the_write_buffer_is_a_bit_per_pixel_in_pages() {
    let capacity = |width: usize, height: usize| {
        let mut cinfo = Compress::new(ColorSpace::JCS_RGB);
        cinfo.set_size(width, height);
        cinfo.write_buffer_capacity()
    };
    assert_eq!(capacity(0, 0), 4096);
    assert_eq!(capacity(17, 33), 4096);
    assert_eq!(capacity(181, 181), 4096);
    // 32769 bits are one byte more than a page
    assert_eq!(capacity(32769, 1), 4096);
    assert_eq!(capacity(32776, 1), 8192);
    assert_eq!(capacity(256, 256), 8192);
    assert_eq!(capacity(640, 480), 40960);
    assert_eq!(capacity(724, 724), 65536);
    assert_eq!(capacity(1000, 1000), 65536);
    assert_eq!(capacity(u32::MAX as usize, u32::MAX as usize), 65536);
}

#[test]
fn a_compression_needs_a_component_with_unit_sampling() {
    let with = |factors: &[(i32, i32)]| {
        let mut cinfo = Compress::new(ColorSpace::JCS_YCbCr);
        cinfo.set_components(
            factors.iter().enumerate().map(|(i, &(h, v))| CompInfo::new(i as i32, h, v)).collect(),
        );
        cinfo
    };
    assert_eq!(with(&[(2, 2), (1, 1), (1, 1)]).check_sampling(), Ok(()));
    assert_eq!(with(&[(2, 1), (1, 2)]).check_sampling(), Ok(()));
    assert_eq!(with(&[(2, 2), (2, 1)]).check_sampling(), Err(StartError::NoUnitHSamp));
    assert_eq!(with(&[(2, 2), (1, 2)]).check_sampling(), Err(StartError::NoUnitVSamp));
    assert_eq!(with(&[(2, 2)]).check_sampling(), Err(StartError::NoUnitHSamp));
    assert_eq!(with(&[]).check_sampling(), Err(StartError::NoUnitHSamp));
    assert!(matches!(
        with(&[(2, 2), (2, 1)]).start_compress(Vec::new()),
        Err(StartError::NoUnitHSamp)
    ));
    assert!(matches!(
        with(&[(1, 2), (1, 2)]).start_compress(Vec::new()),
        Err(StartError::NoUnitVSamp)
    ));
    assert_eq!(StartError::NoUnitHSamp.message(), "at least one h_samp_factor must be 1");
    assert_eq!(StartError::NoUnitVSamp.message(), "at least one v_samp_factor must be 1");
}

#[test]
fn a_started_compression_has_a_buffer_for_its_size() {
    let mut cinfo = Compress::new(ColorSpace::JCS_GRAYSCALE);
    cinfo.set_components(vec![CompInfo::new(0, 1, 1)]);
    cinfo.set_size(640, 480);
    let mut started = cinfo.start_compress(vec![1u8, 2, 3]).unwrap();
    assert_eq!(started.dest_mgr_mut().buffer_len(), 40960);
    assert!(!started.dest_mgr_mut().is_poisoned());
    assert!(started.can_write_more_lines());
    assert_eq!(started.components().len(), 1);
    assert_eq!(started.abort(), vec![1u8, 2, 3]);
}

#[test]
fn rows_of_pixels_need_an_image_set_up_for_them() {
    let started = |raw: bool, space: ColorSpace, width: usize| {
        let mut cinfo = Compress::new(space);
        cinfo.set_components(vec![CompInfo::new(0, 1, 1)]);
        cinfo.set_size(width, 10);
        cinfo.set_raw_data_in(raw);
        cinfo.start_compress(Vec::new()).unwrap()
    };
    let src = vec![0u8; 300];
    assert!(started(false, ColorSpace::JCS_RGB, 10).write_scanlines(&src, 0).is_ok());
    assert!(matches!(
        started(true, ColorSpace::JCS_RGB, 10).write_scanlines(&src, 0),
        Err(ScanlineError::InvalidInput)
    ));
    assert!(matches!(
        started(false, ColorSpace::JCS_UNKNOWN, 10).write_scanlines(&src, 0),
        Err(ScanlineError::InvalidInput)
    ));
    assert!(matches!(
        started(false, ColorSpace::JCS_RGB, 0).write_scanlines(&src, 0),
        Err(ScanlineError::InvalidInput)
    ));
}

#[test]
fn an_engine_that_takes_no_rows_ends_the_writing() {
    let mut cinfo = Compress::new(ColorSpace::JCS_GRAYSCALE);
    cinfo.set_components(vec![CompInfo::new(0, 1, 1)]);
    cinfo.set_size(8, 8);
    cinfo.set_raw_data_in(true);
    let mut started = start(cinfo);
    assert_eq!(started.scanlines_written(5, 0), Err(ScanlineError::UnexpectedEof));
    assert_eq!(started.raw_data_written(0, 0), Ok(None));
    assert!(started.can_write_more_lines());
    assert_eq!(started.raw_data_written(0, 8), Ok(Some(8)));
    assert!(!started.can_write_more_lines());
    let plane = vec![0u8; 64];
    assert!(matches!(started.write_raw_data(&[&plane[..]], 8), Ok(None)));
}

#[test]
fn a_partial_raw_write_is_an_error() {
    let mut cinfo = Compress::new(ColorSpace::JCS_YCbCr);
    cinfo.set_components(codec_components(ColorSpace::JCS_YCbCr));
    cinfo.set_size(17, 33);
    cinfo.set_raw_data_in(true);
    let mut started = start(cinfo);
    assert_eq!(started.raw_data_written(0, 16), Ok(Some(16)));
    assert_eq!(started.raw_data_written(16, 8), Err(RawError::PartialTransfer));
    assert_eq!(started.raw_data_written(16, 1), Err(RawError::PartialTransfer));
    assert_eq!(started.raw_data_written(16, 17), Err(RawError::PartialTransfer));
    assert_eq!(started.raw_data_written(16, 32), Err(RawError::PartialTransfer));
    assert_eq!(started.raw_data_written(16, 0), Ok(None));
    // without an MCU height there is no whole MCU row
    let mut tall = Compress::new(ColorSpace::JCS_YCbCr);
    tall.set_components(vec![CompInfo::new(0, 1, 3), CompInfo::new(1, 1, 1)]);
    let mut tall = start(tall);
    assert_eq!(tall.raw_data_written(0, 24), Err(RawError::SamplingTooLarge));
    // with every factor at one, an MCU row is eight rows
    let mut flat = Compress::new(ColorSpace::JCS_GRAYSCALE);
    flat.set_components(vec![CompInfo::new(0, 1, 1)]);
    let mut flat = start(flat);
    assert_eq!(flat.raw_data_written(0, 8), Ok(Some(8)));
    assert_eq!(flat.raw_data_written(8, 16), Err(RawError::PartialTransfer));
}

#[test]
fn raw_writing_is_refused_with_the_reason() {
    let plane = vec![0u8; 64];
    let mut cinfo = Compress::new(ColorSpace::JCS_GRAYSCALE);
    cinfo.set_components(vec![CompInfo::new(0, 1, 1)]);
    cinfo.set_size(8, 8);
    let off = start(cinfo);
    assert_eq!(off.check_raw_write(&[&plane[..]]), Err(RawError::RawDataNotSet));
    assert!(matches!(off.write_raw_data(&[&plane[..]], 0), Err(RawError::RawDataNotSet)));

    let mut cinfo = Compress::new(ColorSpace::JCS_GRAYSCALE);
    cinfo.set_components(vec![CompInfo::new(0, 1, 1)]);
    cinfo.set_size(8, 8);
    cinfo.set_raw_data_in(true);
    let on = start(cinfo);
    assert_eq!(on.check_raw_write(&[&plane[..]]), Ok(8));
    assert_eq!(on.check_raw_write(&[&plane[..63]]), Err(RawError::BitmapTooSmall));
    assert_eq!(on.check_raw_write(&[]), Err(RawError::TooManyComponents));
    assert!(matches!(on.write_raw_data(&[&plane[..]], 8), Err(RawError::ShortRows)));

    let mut cinfo = Compress::new(ColorSpace::JCS_YCbCr);
    cinfo.set_components(vec![CompInfo::new(0, 1, 3), CompInfo::new(1, 1, 1)]);
    cinfo.set_raw_data_in(true);
    let tall = start(cinfo);
    assert_eq!(
        tall.check_raw_write(&[&plane[..], &plane[..]]),
        Err(RawError::SamplingTooLarge)
    );

    let mut cinfo = Compress::new(ColorSpace::JCS_YCbCr);
    cinfo.set_components(vec![CompInfo::new(0, 1, 1), CompInfo::new(1, 1, 1)]);
    cinfo.set_raw_data_in(true);
    cinfo.set_size(8, 8);
    let mut blank = cinfo.start_compress(Vec::new()).unwrap();
    assert_eq!(blank.check_raw_write(&[&plane[..], &plane[..]]), Err(RawError::NoGeometry));
    blank.set_geometry(&[(1, 1)]);
    assert_eq!(blank.components()[0].width_in_blocks, 1);
    assert_eq!(blank.components()[1].width_in_blocks, 0);
    blank.set_geometry(&[(2, 3), (4, 5), (6, 7)]);
    assert_eq!(blank.components()[0].row_stride(), 16);
    assert_eq!(blank.components()[1].col_stride(), 40);
}

#[test]
fn scan_modes_have_their_codes() {
    assert_eq!(ScanMode::AllComponentsTogether.code(), 0);
    assert_eq!(ScanMode::ScanPerComponent.code(), 1);
    assert_eq!(ScanMode::Auto.code(), 2);
}
