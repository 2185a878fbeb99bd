//! Compression: the settings of an image to be written, and the session
//! that writes it through a destination adapter.
use vstd::prelude::*;
use crate::colorspace::{channel_count, ColorSpace, ColorSpaceExt};
use crate::component::CompInfo;
use crate::raw::{
    check_raw_write, is_write_table, max_v_samp_factor, max_v_samp_of, mcu_height,
    raw_rows_written, raw_write_rows, spec_check_raw_write, spec_mcu_height,
    spec_raw_rows_written, write_table_error, RawError, RowPointers,
};
use crate::scanlines::{
    batch_rows, byte_width, row_positions, scanline_rows, spec_byte_width, RowBatch, ScanlineError,
};
use crate::stream::ByteSink;
use crate::errormgr::Fatal;
use crate::writedst::{buffer_size_for, DestinationMgr, Stage};

verus! {

/// How the scans of a progressive file are arranged.
#[derive(Copy, Clone, Debug, PartialEq, Eq, Structural)]
pub enum ScanMode {
    AllComponentsTogether,
    ScanPerComponent,
    Auto,
}

impl ScanMode {
    /// The number that the engine knows the mode by.
    pub open spec fn spec_code(self) -> i32 {
        match self {
            ScanMode::AllComponentsTogether => 0,
            ScanMode::ScanPerComponent => 1,
            ScanMode::Auto => 2,
        }
    }

    /// The number that the engine knows the mode by.
    pub fn code(self) -> (code: i32)
        ensures
            code == self.spec_code(),
    {
        match self {
            ScanMode::AllComponentsTogether => 0,
            ScanMode::ScanPerComponent => 1,
            ScanMode::Auto => 2,
        }
    }
}

/// What a [`Compress`] holds, as plain values.
pub ghost struct CompressView {
    pub in_color_space: ColorSpace,
    pub input_components: int,
    pub image_width: nat,
    pub image_height: nat,
    pub raw_data_in: bool,
    pub optimize_coding: bool,
    pub smoothing_factor: int,
    pub next_scanline: nat,
    pub components: Seq<CompInfo>,
}

/// Create a new JPEG file from pixels
///
/// The settings of one image: its size and color space, the switches of
/// the engine that this crate reads, and the image's components. The
/// components are the engine's to choose: they are taken over from it,
/// with their sampling factors before the compression starts and with
/// their block counts once it has started.
pub struct Compress {
    in_color_space: ColorSpace,
    input_components: i32,
    image_width: u32,
    image_height: u32,
    raw_data_in: bool,
    optimize_coding: bool,
    smoothing_factor: i32,
    next_scanline: u32,
    components: Vec<CompInfo>,
}

impl View for Compress {
    type V = CompressView;

    closed spec fn view(&self) -> CompressView {
        CompressView {
            in_color_space: self.in_color_space,
            input_components: self.input_components as int,
            image_width: self.image_width as nat,
            image_height: self.image_height as nat,
            raw_data_in: self.raw_data_in,
            optimize_coding: self.optimize_coding,
            smoothing_factor: self.smoothing_factor as int,
            next_scanline: self.next_scanline as nat,
            components: self.components@,
        }
    }
}

/// The sampling factors that pixel sizes `cb` and `cr` of the two chroma
/// channels give the component at index `ci`: the largest pixel size of
/// each direction, divided by the component's own. Luma pixels have size
/// one, and components after the third keep their factors.
pub open spec fn sampling_for_pixel_sizes(comp: CompInfo, ci: int, cb: (u8, u8), cr: (u8, u8)) -> (
    i32,
    i32,
) {
    let max_h = if cb.0 >= cr.0 {
        cb.0
    } else {
        cr.0
    };
    let max_v = if cb.1 >= cr.1 {
        cb.1
    } else {
        cr.1
    };
    if ci == 0 {
        (max_h as i32, max_v as i32)
    } else if ci == 1 {
        ((max_h / cb.0) as i32, (max_v / cb.1) as i32)
    } else if ci == 2 {
        ((max_h / cr.0) as i32, (max_v / cr.1) as i32)
    } else {
        (comp.h_samp_factor, comp.v_samp_factor)
    }
}

/// The bytes that a file of `width` by `height` pixels is expected to
/// take: one bit for each pixel, rounded up to pages of 4 KiB.
pub open spec fn expected_file_size(width: nat, height: nat) -> nat {
    (width * height / 8 + 4095) / 4096 * 4096
}

/// Why a compression cannot start.
#[derive(Copy, Clone, Debug, PartialEq, Eq, Structural)]
pub enum StartError {
    /// No component has a horizontal sampling factor of one.
    NoUnitHSamp,
    /// No component has a vertical sampling factor of one.
    NoUnitVSamp,
}

impl StartError {
    /// The wording of the error.
    pub fn message(self) -> (text: &'static str)
        ensures
            text@ == match self {
                StartError::NoUnitHSamp => "at least one h_samp_factor must be 1"@,
                StartError::NoUnitVSamp => "at least one v_samp_factor must be 1"@,
            },
    {
        match self {
            StartError::NoUnitHSamp => "at least one h_samp_factor must be 1",
            StartError::NoUnitVSamp => "at least one v_samp_factor must be 1",
        }
    }
}

/// Whether some component has a horizontal sampling factor of one.
pub open spec fn has_unit_h_samp(components: Seq<CompInfo>) -> bool {
    exists|i: int| 0 <= i < components.len() && (#[trigger] components[i]).h_samp_factor == 1
}

/// Whether some component has a vertical sampling factor of one.
pub open spec fn has_unit_v_samp(components: Seq<CompInfo>) -> bool {
    exists|i: int| 0 <= i < components.len() && (#[trigger] components[i]).v_samp_factor == 1
}

impl Compress {
    /// Compress image using input in this colorspace.
    ///
    /// The image has no size and no components yet.
    pub fn new(color_space: ColorSpace) -> (compress: Compress)
        ensures
            compress@ == (CompressView {
                in_color_space: color_space,
                input_components: channel_count(color_space) as int,
                image_width: 0,
                image_height: 0,
                raw_data_in: false,
                optimize_coding: true,
                smoothing_factor: 0,
                next_scanline: 0,
                components: Seq::empty(),
            }),
    {
        let input_components = color_space.num_components() as i32;
        Compress {
            in_color_space: color_space,
            input_components,
            image_width: 0,
            image_height: 0,
            raw_data_in: false,
            optimize_coding: true,
            smoothing_factor: 0,
            next_scanline: 0,
            components: Vec::new(),
        }
    }

    /// Kept for callers that used to ask for a destination in memory. The
    /// destination is the writer given to
    /// [`start_compress`](Self::start_compress); nothing changes here.
    pub fn set_mem_dest(&self) {
    }

    /// Image size of the input. Each dimension is kept modulo 2^32.
    pub fn set_size(&mut self, width: usize, height: usize)
        ensures
            final(self)@ == (CompressView {
                image_width: (width as u32) as nat,
                image_height: (height as u32) as nat,
                ..old(self)@
            }),
    {
        self.image_width = #[verifier::truncate]
        (width as u32);
        self.image_height = #[verifier::truncate]
        (height as u32);
    }

    /// If 1-100 (non-zero), it will use MozJPEG's smoothing.
    pub fn set_smoothing_factor(&mut self, smoothing_factor: u8)
        ensures
            final(self)@ == (CompressView {
                smoothing_factor: smoothing_factor as int,
                ..old(self)@
            }),
    {
        self.smoothing_factor = smoothing_factor as i32;
    }

    /// Set to `false` to make files larger for no reason
    pub fn set_optimize_coding(&mut self, opt: bool)
        ensures
            final(self)@ == (CompressView { optimize_coding: opt, ..old(self)@ }),
    {
        self.optimize_coding = opt;
    }

    /// Advanced. Switches raw writing on or off: with it, planes of
    /// samples are written as they are, in place of pixels.
    pub fn set_raw_data_in(&mut self, opt: bool)
        ensures
            final(self)@ == (CompressView { raw_data_in: opt, ..old(self)@ }),
    {
        self.raw_data_in = opt;
    }

    /// Takes over the components as the engine has them.
    pub fn set_components(&mut self, components: Vec<CompInfo>)
        ensures
            final(self)@ == (CompressView { components: components@, ..old(self)@ }),
    {
        self.components = components;
    }

    /// Takes over the number of rows that the engine has been given.
    pub fn set_next_scanline(&mut self, next_scanline: u32)
        ensures
            final(self)@ == (CompressView { next_scanline: next_scanline as nat, ..old(self)@ }),
    {
        self.next_scanline = next_scanline;
    }

    /// Read-only view of component information
    pub fn components(&self) -> (components: &Vec<CompInfo>)
        ensures
            components@ == self@.components,
    {
        &self.components
    }

    /// Expose components for modification, e.g. to set chroma subsampling
    pub fn components_mut(&mut self) -> (components: &mut Vec<CompInfo>)
        ensures
            components@ == old(self)@.components,
            final(self)@ == (CompressView { components: final(components)@, ..old(self)@ }),
    {
        &mut self.components
    }

    /// The strength of the smoothing, zero for none.
    pub fn smoothing_factor(&self) -> (factor: i32)
        ensures
            factor == self@.smoothing_factor,
    {
        self.smoothing_factor
    }

    /// The image's width in pixels.
    pub fn image_width(&self) -> (width: u32)
        ensures
            width == self@.image_width,
    {
        self.image_width
    }

    /// The image's height in pixels.
    pub fn image_height(&self) -> (height: u32)
        ensures
            height == self@.image_height,
    {
        self.image_height
    }

    /// The color space of the input.
    pub fn in_color_space(&self) -> (space: ColorSpace)
        ensures
            space == self@.in_color_space,
    {
        self.in_color_space
    }

    /// The number of channels of the input.
    pub fn input_components(&self) -> (count: i32)
        ensures
            count == self@.input_components,
    {
        self.input_components
    }

    /// Whether raw writing is switched on.
    pub fn raw_data_in(&self) -> (on: bool)
        ensures
            on == self@.raw_data_in,
    {
        self.raw_data_in
    }

    /// Whether the entropy coding is optimized.
    pub fn optimize_coding(&self) -> (on: bool)
        ensures
            on == self@.optimize_coding,
    {
        self.optimize_coding
    }

    /// The number of rows that the engine has been given.
    pub fn next_scanline(&self) -> (row: u32)
        ensures
            row == self@.next_scanline,
    {
        self.next_scanline
    }

    /// Sets chroma subsampling, separately for Cb and Cr channels.
    /// Instead of setting samples per pixel, it sets size of chroma
    /// "pixels" per luma pixel.
    ///
    /// * `(1,1), (1,1)` == 4:4:4
    /// * `(2,1), (2,1)` == 4:2:2
    /// * `(2,2), (2,2)` == 4:2:0
    ///
    /// The first three components get new sampling factors; nothing else
    /// changes. No pixel size may be zero.
    pub fn set_chroma_sampling_pixel_sizes(&mut self, cb: (u8, u8), cr: (u8, u8))
        requires
            cb.0 > 0,
            cb.1 > 0,
            cr.0 > 0,
            cr.1 > 0,
        ensures
            final(self)@ == (CompressView { components: final(self)@.components, ..old(self)@ }),
            final(self)@.components.len() == old(self)@.components.len(),
            forall|ci: int|
                0 <= ci < old(self)@.components.len() ==> #[trigger] final(self)@.components[ci]
                    == (CompInfo {
                    h_samp_factor: sampling_for_pixel_sizes(old(self)@.components[ci], ci, cb, cr).0,
                    v_samp_factor: sampling_for_pixel_sizes(old(self)@.components[ci], ci, cb, cr).1,
                    ..old(self)@.components[ci]
                }),
    {
        let max_sampling_h: u8 = if cb.0 >= cr.0 {
            cb.0
        } else {
            cr.0
        };
        let max_sampling_v: u8 = if cb.1 >= cr.1 {
            cb.1
        } else {
            cr.1
        };
        let one: (u8, u8) = (1, 1);
        let px_sizes: [(u8, u8); 3] = [one, cb, cr];
        let ghost before = self.components@;
        let mut ci: usize = 0;
        while ci < 3 && ci < self.components.len()
            invariant
                ci <= 3,
                cb.0 > 0 && cb.1 > 0 && cr.0 > 0 && cr.1 > 0,
                px_sizes@ =~= seq![one, cb, cr],
                one == (1u8, 1u8),
                max_sampling_h == if cb.0 >= cr.0 {
                    cb.0
                } else {
                    cr.0
                },
                max_sampling_v == if cb.1 >= cr.1 {
                    cb.1
                } else {
                    cr.1
                },
                before == old(self)@.components,
                self@ == (CompressView { components: self@.components, ..old(self)@ }),
                self@.components.len() == before.len(),
                forall|cj: int|
                    0 <= cj < ci ==> #[trigger] self@.components[cj] == (CompInfo {
                        h_samp_factor: sampling_for_pixel_sizes(before[cj], cj, cb, cr).0,
                        v_samp_factor: sampling_for_pixel_sizes(before[cj], cj, cb, cr).1,
                        ..before[cj]
                    }),
                forall|cj: int| ci <= cj < before.len() ==> #[trigger] self@.components[cj] == before[cj],
            decreases 3 - ci,
        {
            let (h, v) = px_sizes[ci];
            let mut comp = self.components[ci];
            comp.h_samp_factor = (max_sampling_h / h) as i32;
            comp.v_samp_factor = (max_sampling_v / v) as i32;
            self.components[ci] = comp;
            proof {
                let want = sampling_for_pixel_sizes(before[ci as int], ci as int, cb, cr);
                assert(px_sizes@[ci as int] == seq![one, cb, cr][ci as int]);
                assert(max_sampling_h / 1u8 == max_sampling_h);
                assert(max_sampling_v / 1u8 == max_sampling_v);
                assert(comp.h_samp_factor == want.0);
                assert(comp.v_samp_factor == want.1);
            }
            ci += 1;
        }
    }

    /// The largest vertical sampling factor among the components.
    pub fn max_v_samp_factor(&self) -> (max: i32)
        ensures
            max == max_v_samp_of(self@.components),
    {
        max_v_samp_factor(&self.components)
    }

    /// The capacity asked for the write buffer of an image: the expected
    /// size of its file, kept between 4 KiB and 64 KiB.
    pub fn write_buffer_capacity(&self) -> (capacity: usize)
        ensures
            capacity == buffer_size_for(capacity),
            capacity == if expected_file_size(self@.image_width, self@.image_height) < 4096 {
                4096
            } else if expected_file_size(self@.image_width, self@.image_height) > 65536 {
                65536
            } else {
                expected_file_size(self@.image_width, self@.image_height)
            },
    {
        let width: u64 = self.image_width as u64;
        let height: u64 = self.image_height as u64;
        assert(width * height <= 0xFFFF_FFFFu64 * 0xFFFF_FFFFu64) by (nonlinear_arith)
            requires
                width <= 0xFFFF_FFFFu64,
                height <= 0xFFFF_FFFFu64,
        ;
        // 1bpp, rounded to 4K page
        let expected_file_size: u64 = (width * height / 8 + 4095) / 4096 * 4096;
        if expected_file_size < 4096 {
            4096
        } else if expected_file_size > 65536 {
            65536
        } else {
            expected_file_size as usize
        }
    }

    /// Whether the sampling factors allow a compression to start: some
    /// component must have a horizontal factor of one, and some component a
    /// vertical factor of one. The horizontal factors are looked at first.
    pub fn check_sampling(&self) -> (checked: Result<(), StartError>)
        ensures
            checked == if !has_unit_h_samp(self@.components) {
                Err::<(), StartError>(StartError::NoUnitHSamp)
            } else if !has_unit_v_samp(self@.components) {
                Err(StartError::NoUnitVSamp)
            } else {
                Ok(())
            },
    {
        let mut any_h = false;
        let mut any_v = false;
        let mut i: usize = 0;
        while i < self.components.len()
            invariant
                i <= self.components@.len(),
                any_h == exists|k: int|
                    0 <= k < i && (#[trigger] self.components@[k]).h_samp_factor == 1,
                any_v == exists|k: int|
                    0 <= k < i && (#[trigger] self.components@[k]).v_samp_factor == 1,
            decreases self.components@.len() - i,
        {
            if self.components[i].h_samp_factor == 1 {
                any_h = true;
            }
            if self.components[i].v_samp_factor == 1 {
                any_v = true;
            }
            i += 1;
        }
        if !any_h {
            return Err(StartError::NoUnitHSamp);
        }
        if !any_v {
            return Err(StartError::NoUnitVSamp);
        }
        Ok(())
    }

    /// Settings can't be changed after this call. Returns a
    /// `CompressStarted` struct that will handle the rest of the writing,
    /// with `writer` behind a destination adapter whose buffer has the
    /// size that [`write_buffer_capacity`](Self::write_buffer_capacity)
    /// asks for.
    ///
    /// Fails, and drops `writer`, if the sampling factors do not allow it;
    /// see [`check_sampling`](Self::check_sampling).
    pub fn start_compress<W: ByteSink>(self, writer: W) -> (started: Result<
        CompressStarted<W>,
        StartError,
    >)
        ensures
            match started {
                Ok(started) => {
                    &&& has_unit_h_samp(self@.components)
                    &&& has_unit_v_samp(self@.components)
                    &&& started.compress()@ == self@
                    &&& started.dest_mgr().writer() == writer
                    &&& started.dest_mgr().is_live()
                    &&& started.dest_mgr().delivered() == Seq::<u8>::empty()
                    &&& started.dest_mgr().capacity() == buffer_size_for(
                        started.dest_mgr().capacity() as usize,
                    )
                    &&& started.dest_mgr().capacity() == if expected_file_size(
                        self@.image_width,
                        self@.image_height,
                    ) < 4096 {
                        4096
                    } else if expected_file_size(self@.image_width, self@.image_height) > 65536 {
                        65536
                    } else {
                        expected_file_size(self@.image_width, self@.image_height)
                    }
                },
                Err(error) => error == if !has_unit_h_samp(self@.components) {
                    StartError::NoUnitHSamp
                } else {
                    StartError::NoUnitVSamp
                } && !(has_unit_h_samp(self@.components) && has_unit_v_samp(self@.components)),
            },
    {
        match self.check_sampling() {
            Ok(()) => {},
            Err(error) => {
                return Err(error);
            },
        }
        let write_buffer_capacity = self.write_buffer_capacity();
        Ok(
            CompressStarted {
                compress: self,
                dest_mgr: DestinationMgr::new(writer, write_buffer_capacity),
            },
        )
    }
}

/// A compression that has started: the settings, now fixed, and the
/// destination adapter that the engine writes through.
pub struct CompressStarted<W> {
    compress: Compress,
    dest_mgr: DestinationMgr<W>,
}

impl<W> CompressStarted<W> {
    /// The settings of the image.
    pub closed spec fn compress(&self) -> Compress {
        self.compress
    }

    /// The destination adapter.
    pub closed spec fn dest_mgr(&self) -> DestinationMgr<W> {
        self.dest_mgr
    }

    /// Read-only view of component information
    pub fn components(&self) -> (components: &Vec<CompInfo>)
        ensures
            components@ == self.compress()@.components,
    {
        self.compress.components()
    }

    /// Whether rows of the image are still missing.
    pub fn can_write_more_lines(&self) -> (more: bool)
        ensures
            more == (self.compress()@.next_scanline < self.compress()@.image_height),
    {
        self.compress.next_scanline < self.compress.image_height
    }
    /// The lengths of the planes of `image_src`, in order.
    pub open spec fn plane_lens(image_src: Seq<&[u8]>) -> Seq<usize> {
        Seq::new(image_src.len(), |ci: int| image_src[ci]@.len() as usize)
    }

    fn lens_of(image_src: &[&[u8]]) -> (lens: Vec<usize>)
        ensures
            lens@ == Self::plane_lens(image_src@),
    {
        let mut lens: Vec<usize> = Vec::new();
        let mut ci: usize = 0;
        while ci < image_src.len()
            invariant
                ci <= image_src@.len(),
                lens@ == Self::plane_lens(image_src@).take(ci as int),
            decreases image_src@.len() - ci,
        {
            lens.push(image_src[ci].len());
            ci += 1;
            assert(lens@ =~= Self::plane_lens(image_src@).take(ci as int));
        }
        assert(Self::plane_lens(image_src@).take(ci as int) =~= Self::plane_lens(image_src@));
        lens
    }

    /// The rows of `image_src` that the engine is given in one call: the
    /// rows of batch `batch`, where the rows of the buffer are taken 16 at
    /// a time. The batch is empty once the rows are used up.
    ///
    /// Fails with `ScanlineError::InvalidInput` if the image cannot be
    /// written row by row: raw writing is switched on, or the image has
    /// no input channel or no width.
    ///
    /// The engine is then called on the rows of the batch until it has
    /// taken them all; see [`scanlines_written`](Self::scanlines_written).
    pub fn write_scanlines(&self, image_src: &[u8], batch: usize) -> (rows: Result<
        RowBatch,
        ScanlineError,
    >)
        ensures
            match rows {
                Ok(rows) => {
                    &&& spec_byte_width(
                        self.compress()@.raw_data_in,
                        self.compress()@.input_components,
                        self.compress()@.image_width,
                    ) matches Ok(width)
                    &&& row_positions(rows) == batch_rows(
                        width as nat,
                        image_src@.len(),
                        batch as nat,
                    )
                },
                Err(error) => spec_byte_width(
                    self.compress()@.raw_data_in,
                    self.compress()@.input_components,
                    self.compress()@.image_width,
                ) == Err::<usize, ScanlineError>(error),
            },
    {
        let width = match byte_width(
            self.compress.raw_data_in,
            self.compress.input_components,
            self.compress.image_width,
        ) {
            Ok(width) => width,
            Err(error) => {
                return Err(error);
            },
        };
        Ok(scanline_rows(width, image_src.len(), batch))
    }

    /// Takes note of the engine's answer to a call with `rows_left` rows:
    /// it has taken `rows_written` of them. Returns the number of rows that
    /// are still to be offered, or `ScanlineError::UnexpectedEof` if the
    /// engine took none.
    pub fn scanlines_written(&mut self, rows_left: u32, rows_written: u32) -> (left: Result<
        u32,
        ScanlineError,
    >)
        requires
            rows_written <= rows_left,
        ensures
            left == if rows_written == 0 {
                Err::<u32, ScanlineError>(ScanlineError::UnexpectedEof)
            } else {
                Ok((rows_left - rows_written) as u32)
            },
            final(self).dest_mgr() == old(self).dest_mgr(),
            final(self).compress()@ == (CompressView {
                next_scanline: if old(self).compress()@.next_scanline + rows_written > u32::MAX {
                    u32::MAX as nat
                } else {
                    old(self).compress()@.next_scanline + rows_written as nat
                },
                ..old(self).compress()@
            }),
    {
        self.compress.next_scanline = self.compress.next_scanline.saturating_add(rows_written);
        crate::scanlines::scanlines_written(rows_left, rows_written)
    }

    /// Decides whether the planes of `image_src` can be written raw, and
    /// how high an MCU row is; see [`spec_check_raw_write`].
    pub fn check_raw_write(&self, image_src: &[&[u8]]) -> (height: Result<usize, RawError>)
        ensures
            height == spec_check_raw_write(
                self.compress()@.raw_data_in,
                max_v_samp_of(self.compress()@.components),
                self.compress()@.components,
                Self::plane_lens(image_src@),
            ),
    {
        let lens = Self::lens_of(image_src);
        check_raw_write(
            self.compress.raw_data_in,
            self.compress.max_v_samp_factor(),
            &self.compress.components,
            &lens,
        )
    }

    /// Advanced. Only possible after `set_raw_data_in()`.
    /// Write YCbCr blocks pixels instead of usual color space
    ///
    /// Returns what the engine is given next: `None` if the image has all
    /// its rows, and else the table of rows of the MCU row that starts at
    /// row `start_row` of the image. The engine's answer then goes to
    /// [`raw_data_written`](Self::raw_data_written), which lets the writing
    /// go on only after a whole MCU row.
    ///
    /// Fails if the planes cannot be written raw (see
    /// [`check_raw_write`](Self::check_raw_write)), or if a plane has no
    /// rows left for this MCU row.
    pub fn write_raw_data(&self, image_src: &[&[u8]], start_row: u32) -> (table: Result<
        Option<RowPointers>,
        RawError,
    >)
        ensures
            match table {
                Ok(None) => {
                    &&& spec_check_raw_write(
                        self.compress()@.raw_data_in,
                        max_v_samp_of(self.compress()@.components),
                        self.compress()@.components,
                        Self::plane_lens(image_src@),
                    ) is Ok
                    &&& self.compress()@.next_scanline >= self.compress()@.image_height
                },
                Ok(Some(table)) => {
                    &&& spec_check_raw_write(
                        self.compress()@.raw_data_in,
                        max_v_samp_of(self.compress()@.components),
                        self.compress()@.components,
                        Self::plane_lens(image_src@),
                    ) is Ok
                    &&& self.compress()@.next_scanline < self.compress()@.image_height
                    &&& is_write_table(
                        table,
                        self.compress()@.components,
                        Self::plane_lens(image_src@),
                        start_row as nat,
                        max_v_samp_of(self.compress()@.components),
                    )
                },
                Err(error) => match spec_check_raw_write(
                    self.compress()@.raw_data_in,
                    max_v_samp_of(self.compress()@.components),
                    self.compress()@.components,
                    Self::plane_lens(image_src@),
                ) {
                    Err(early) => error == early,
                    Ok(_) => {
                        &&& self.compress()@.next_scanline < self.compress()@.image_height
                        &&& write_table_error(
                            self.compress()@.components,
                            Self::plane_lens(image_src@),
                            start_row as nat,
                            max_v_samp_of(self.compress()@.components),
                        ) == Some(error)
                    },
                },
            },
    {
        let lens = Self::lens_of(image_src);
        let max_v = self.compress.max_v_samp_factor();
        match check_raw_write(self.compress.raw_data_in, max_v, &self.compress.components, &lens) {
            Ok(_) => {},
            Err(error) => {
                return Err(error);
            },
        }
        if !self.can_write_more_lines() {
            return Ok(None);
        }
        match raw_write_rows(&self.compress.components, &lens, start_row, max_v) {
            Ok(table) => Ok(Some(table)),
            Err(error) => Err(error),
        }
    }

    /// Takes note of the engine's answer to a raw write of the MCU row at
    /// `start_row`: it has taken `rows_written` rows.
    ///
    /// Returns the row at which the next MCU row starts, or `Ok(None)` if
    /// the engine took no rows, which ends the writing without success. An
    /// answer that is neither nothing nor one MCU row is
    /// `RawError::PartialTransfer`, and so the writing does not go on after
    /// it; without an MCU height the error is that of the height.
    pub fn raw_data_written(&mut self, start_row: u32, rows_written: u32) -> (next: Result<
        Option<u32>,
        RawError,
    >)
        ensures
            next == match spec_mcu_height(max_v_samp_of(old(self).compress()@.components)) {
                Ok(height) => spec_raw_rows_written(start_row, rows_written, height),
                Err(error) => Err(error),
            },
            final(self).dest_mgr() == old(self).dest_mgr(),
            final(self).compress()@ == (CompressView {
                next_scanline: if old(self).compress()@.next_scanline + rows_written > u32::MAX {
                    u32::MAX as nat
                } else {
                    old(self).compress()@.next_scanline + rows_written as nat
                },
                ..old(self).compress()@
            }),
    {
        self.compress.next_scanline = self.compress.next_scanline.saturating_add(rows_written);
        match mcu_height(self.compress.max_v_samp_factor()) {
            Ok(height) => raw_rows_written(start_row, rows_written, height),
            Err(error) => Err(error),
        }
    }

    /// Takes over the block counts that the engine has computed for the
    /// components, `(width_in_blocks, height_in_blocks)` for each in
    /// order. Counts beyond the components are ignored, and components
    /// beyond the counts keep what they have.
    pub fn set_geometry(&mut self, blocks: &[(u32, u32)])
        ensures
            final(self).dest_mgr() == old(self).dest_mgr(),
            final(self).compress()@ == (CompressView {
                components: final(self).compress()@.components,
                ..old(self).compress()@
            }),
            final(self).compress()@.components.len() == old(self).compress()@.components.len(),
            forall|ci: int|
                0 <= ci < old(self).compress()@.components.len()
                    ==> #[trigger] final(self).compress()@.components[ci] == if ci < blocks@.len() {
                    CompInfo {
                        width_in_blocks: blocks@[ci].0,
                        height_in_blocks: blocks@[ci].1,
                        ..old(self).compress()@.components[ci]
                    }
                } else {
                    old(self).compress()@.components[ci]
                },
    {
        let ghost before = self.compress.components@;
        let mut ci: usize = 0;
        while ci < self.compress.components.len() && ci < blocks.len()
            invariant
                ci <= before.len(),
                ci <= blocks@.len(),
                self.dest_mgr() == old(self).dest_mgr(),
                before == old(self).compress()@.components,
                self.compress()@ == (CompressView {
                    components: self.compress()@.components,
                    ..old(self).compress()@
                }),
                self.compress()@.components.len() == before.len(),
                forall|cj: int|
                    0 <= cj < ci ==> #[trigger] self.compress()@.components[cj] == (CompInfo {
                        width_in_blocks: blocks@[cj].0,
                        height_in_blocks: blocks@[cj].1,
                        ..before[cj]
                    }),
                forall|cj: int|
                    ci <= cj < before.len() ==> #[trigger] self.compress()@.components[cj]
                        == before[cj],
            decreases before.len() - ci,
        {
            let mut comp = self.compress.components[ci];
            let (wide, high) = blocks[ci];
            comp.width_in_blocks = wide;
            comp.height_in_blocks = high;
            self.compress.components[ci] = comp;
            ci += 1;
        }
    }

    /// Mutable access to the destination adapter, for the engine's
    /// callbacks.
    pub fn dest_mgr_mut(&mut self) -> (dest_mgr: &mut DestinationMgr<W>)
        ensures
            *dest_mgr == old(self).dest_mgr(),
            final(self).dest_mgr() == *final(dest_mgr),
            final(self).compress() == old(self).compress(),
    {
        &mut self.dest_mgr
    }

    /// Finalize compression: hands the writer back once the engine has
    /// finished the file, which it ends with a call of the adapter's
    /// `term_destination`.
    ///
    /// The writer is handed back exactly if that call has succeeded, so
    /// that nothing short of the whole file passes for one. If a call of
    /// the engine has failed, at any time, the answer is the fatal error
    /// that it failed with; if the engine has not ended the file, or the
    /// adapter was poisoned, it is `Fatal::Dangling`. The writer is dropped
    /// with the error; [`abort`](Self::abort) hands it back in every case.
    #[inline]
    pub fn finish(self) -> (done: Result<W, Fatal>)
        ensures
            done == match self.dest_mgr().stage() {
                Stage::Finished => Ok::<W, Fatal>(self.dest_mgr().writer()),
                Stage::Failed(fatal) => Err(fatal),
                Stage::Live => Err(Fatal::Dangling),
                Stage::Poisoned => Err(Fatal::Dangling),
            },
    {
        match self.dest_mgr.current_stage() {
            Stage::Finished => Ok(self.dest_mgr.into_inner()),
            Stage::Failed(fatal) => Err(fatal),
            Stage::Live => Err(Fatal::Dangling),
            Stage::Poisoned => Err(Fatal::Dangling),
        }
    }

    /// The same as [`finish`](Self::finish), under its former name.
    pub fn finish_compress(self) -> (done: Result<W, Fatal>)
        ensures
            done == match self.dest_mgr().stage() {
                Stage::Finished => Ok::<W, Fatal>(self.dest_mgr().writer()),
                Stage::Failed(fatal) => Err(fatal),
                Stage::Live => Err(Fatal::Dangling),
                Stage::Poisoned => Err(Fatal::Dangling),
            },
    {
        self.finish()
    }

    /// Give up writing, return incomplete result
    pub fn abort(self) -> (writer: W)
        ensures
            writer == self.dest_mgr().writer(),
    {
        self.dest_mgr.into_inner()
    }
}

} // verus!
