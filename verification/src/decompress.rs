//! Decompression: what is asked of the engine before a file is opened,
//! what the file's header says, and the session that reads the image
//! through a source adapter.
use vstd::prelude::*;
use crate::colorspace::{channel_count, ColorSpace, ColorSpaceExt};
use crate::component::CompInfo;
use crate::errormgr::ErrorMgr;
use crate::marker::{code_of_marker, marker_of_code, Marker};
use crate::raw::{
    check_lines_read, is_read_chunk, max_v_samp_factor, max_v_samp_of, mcu_height,
    read_chunk_error, read_raw_data_chunk, spec_mcu_height, RawError, RowPointers,
};
use crate::readsrc::SourceMgr;
use crate::scanlines::{
    required_len, rows_have_items, scanline_layout, spec_required_len, spec_scanline_layout,
    ScanlineError, ScanlineLayout,
};
use crate::stream::{ByteSource, StreamError};

verus! {

/// Algorithm for the DCT step.
#[derive(Clone, Copy, Debug, PartialEq, Eq, Structural)]
pub enum DctMethod {
    /// slow but accurate integer algorithm
    IntegerSlow,
    /// faster, less accurate integer method
    IntegerFast,
    /// floating-point method
    Float,
}

/// App 0-14 and comment markers, the ones that can be asked to be kept.
pub open spec fn all_markers() -> Seq<Marker> {
    Seq::new(15, |i: int| Marker::APP(i as u8)).push(Marker::COM)
}

/// App 0-14 and comment markers
pub fn all_markers_list() -> (markers: Vec<Marker>)
    ensures
        markers@ == all_markers(),
{
    let mut markers: Vec<Marker> = Vec::new();
    let mut n: u8 = 0;
    while n < 15
        invariant
            n <= 15,
            markers@ == Seq::new(n as nat, |i: int| Marker::APP(i as u8)),
        decreases 15 - n,
    {
        markers.push(Marker::APP(n));
        n += 1;
        assert(markers@ =~= Seq::new(n as nat, |i: int| Marker::APP(i as u8)));
    }
    markers.push(Marker::COM);
    markers
}

/// Use `Decompress` static methods instead of creating this directly
pub struct DecompressBuilder<'markers> {
    save_markers: &'markers [Marker],
    err_mgr: Option<Box<ErrorMgr>>,
}

impl<'markers> DecompressBuilder<'markers> {
    /// The markers that the engine is asked to keep.
    pub closed spec fn save_markers(&self) -> Seq<Marker> {
        self.save_markers@
    }

    /// The error manager that the engine is given in place of its default.
    pub closed spec fn err_mgr(&self) -> Option<Box<ErrorMgr>> {
        self.err_mgr
    }

    /// A builder that keeps no markers and leaves the error manager to
    /// the engine.
    #[inline]
    pub fn new() -> (builder: Self)
        ensures
            builder.save_markers() == Seq::<Marker>::empty(),
            builder.err_mgr() is None,
    {
        let none: &'static [Marker] = &[];
        DecompressBuilder { err_mgr: None, save_markers: none }
    }

    /// The same builder with `err` for its error manager.
    #[inline]
    pub fn with_err(self, err: ErrorMgr) -> (builder: Self)
        ensures
            builder.save_markers() == self.save_markers(),
            builder.err_mgr() == Some(Box::new(err)),
    {
        let mut builder = self;
        builder.err_mgr = Some(Box::new(err));
        builder
    }

    /// The same builder, asking for `save_markers` to be kept in place of
    /// what was asked before.
    #[inline]
    pub fn with_markers(self, save_markers: &'markers [Marker]) -> (builder: Self)
        ensures
            builder.save_markers() == save_markers@,
            builder.err_mgr() == self.err_mgr(),
    {
        let mut builder = self;
        builder.save_markers = save_markers;
        builder
    }

    /// The markers that the engine is asked to keep.
    pub fn markers_to_save(&self) -> (markers: &'markers [Marker])
        ensures
            markers@ == self.save_markers(),
    {
        self.save_markers
    }

    /// Takes the error manager out of the builder, if it has one.
    pub fn take_err(self) -> (err: Option<Box<ErrorMgr>>)
        ensures
            err == self.err_mgr(),
    {
        self.err_mgr
    }
}

/// Marker type and data slice returned by `MarkerIter`
pub struct MarkerData<'a> {
    pub marker: Marker,
    pub data: &'a [u8],
}

/// One marker as the engine kept it: its code and its contents.
pub struct SavedMarker {
    pub marker: u8,
    pub data: Vec<u8>,
}

/// See `Decompress.markers()`
pub struct MarkerIter<'a> {
    marker_list: &'a Vec<SavedMarker>,
    position: usize,
}

impl<'a> MarkerIter<'a> {
    /// The markers that are iterated over.
    pub closed spec fn list(&self) -> Seq<SavedMarker> {
        self.marker_list@
    }

    /// How many markers have been handed out.
    pub closed spec fn position(&self) -> nat {
        self.position as nat
    }

    /// An iterator that starts at the first of `marker_list`.
    pub fn new(marker_list: &'a Vec<SavedMarker>) -> (iter: Self)
        ensures
            iter.list() == marker_list@,
            iter.position() == 0,
    {
        MarkerIter { marker_list, position: 0 }
    }

    /// The next marker that was kept, named by its code, with its
    /// contents; `None` after the last one.
    #[inline]
    pub fn next(&mut self) -> (item: Option<MarkerData<'a>>)
        ensures
            final(self).list() == old(self).list(),
            match item {
                Some(found) => {
                    &&& old(self).position() < old(self).list().len()
                    &&& final(self).position() == old(self).position() + 1
                    &&& found.marker == marker_of_code(
                        old(self).list()[old(self).position() as int].marker,
                    )
                    &&& found.data@ == old(self).list()[old(self).position() as int].data@
                },
                None => {
                    &&& old(self).position() >= old(self).list().len()
                    &&& final(self).position() == old(self).position()
                },
            },
    {
        let list: &'a Vec<SavedMarker> = self.marker_list;
        if self.position >= list.len() {
            return None;
        }
        let last = &list[self.position];
        self.position = self.position + 1;
        Some(MarkerData { marker: Marker::from(last.marker), data: last.data.as_slice() })
    }

    /// How many markers are left to hand out.
    pub fn count(&self) -> (left: usize)
        ensures
            left == if self.position() <= self.list().len() {
                self.list().len() - self.position()
            } else {
                0
            },
    {
        if self.position <= self.marker_list.len() {
            self.marker_list.len() - self.position
        } else {
            0
        }
    }
}

/// Why an image cannot be decoded.
#[derive(Copy, Clone, Debug, PartialEq, Eq, Structural)]
pub enum DecodeError {
    /// The reader failed, or was empty, when the first bytes were
    /// fetched.
    Source(StreamError),
    /// The engine found no image in the header; its answer is attached.
    Header(i32),
    /// The engine stopped to wait for more input.
    WouldBlock,
}

/// What the engine has read from a file's header.
pub struct Header {
    pub image_width: u32,
    pub image_height: u32,
    /// The color space of the file.
    pub jpeg_color_space: ColorSpace,
    /// The color space that the engine proposes for the output.
    pub out_color_space: ColorSpace,
    pub components: Vec<CompInfo>,
    /// The markers that were kept, in the order of the file.
    pub markers: Vec<SavedMarker>,
}

/// What a [`Decompress`] holds, as plain values.
pub ghost struct DecompressView {
    pub image_width: nat,
    pub image_height: nat,
    pub jpeg_color_space: ColorSpace,
    pub out_color_space: ColorSpace,
    pub components: Seq<CompInfo>,
    pub markers: Seq<SavedMarker>,
    pub save_markers: Seq<i32>,
    pub raw_data_out: bool,
    pub scale_num: nat,
    pub scale_denom: nat,
    pub dct_method: DctMethod,
    pub do_fancy_upsampling: bool,
    pub do_block_smoothing: bool,
    pub output_width: nat,
    pub output_height: nat,
    pub output_scanline: nat,
}

/// Get pixels out of a JPEG file
///
/// What this crate knows of an image that is being decoded: the header as
/// the engine read it, the settings of the output, and the source adapter
/// that the engine reads through.
pub struct Decompress<R> {
    header: Header,
    save_markers: Vec<i32>,
    raw_data_out: bool,
    scale_num: u32,
    scale_denom: u32,
    dct_method: DctMethod,
    do_fancy_upsampling: bool,
    do_block_smoothing: bool,
    output_width: u32,
    output_height: u32,
    output_scanline: u32,
    err_mgr: Option<Box<ErrorMgr>>,
    src_mgr: SourceMgr<R>,
}

/// The codes by which the engine is asked to keep `markers`.
pub open spec fn marker_codes(markers: Seq<Marker>) -> Seq<i32> {
    Seq::new(markers.len(), |i: int| code_of_marker(markers[i]))
}

/// What the engine's answer to the reading of a header means: 1 and 2 say
/// that a header was read, and anything else is an error.
pub open spec fn spec_header_status(res: i32) -> Result<(), DecodeError> {
    if res == 1 || res == 2 {
        Ok(())
    } else {
        Err(DecodeError::Header(res))
    }
}

impl<R> View for Decompress<R> {
    type V = DecompressView;

    closed spec fn view(&self) -> DecompressView {
        DecompressView {
            image_width: self.header.image_width as nat,
            image_height: self.header.image_height as nat,
            jpeg_color_space: self.header.jpeg_color_space,
            out_color_space: self.header.out_color_space,
            components: self.header.components@,
            markers: self.header.markers@,
            save_markers: self.save_markers@,
            raw_data_out: self.raw_data_out,
            scale_num: self.scale_num as nat,
            scale_denom: self.scale_denom as nat,
            dct_method: self.dct_method,
            do_fancy_upsampling: self.do_fancy_upsampling,
            do_block_smoothing: self.do_block_smoothing,
            output_width: self.output_width as nat,
            output_height: self.output_height as nat,
            output_scanline: self.output_scanline as nat,
        }
    }
}

impl<R> Decompress<R> {
    /// The source adapter.
    pub closed spec fn src_mgr(&self) -> SourceMgr<R> {
        self.src_mgr
    }

    /// The error manager that the engine was given, if any.
    pub closed spec fn err_mgr(&self) -> Option<Box<ErrorMgr>> {
        self.err_mgr
    }

    /// What the engine's answer to the reading of a header means; see
    /// [`spec_header_status`].
    #[inline]
    pub fn header_status(res: i32) -> (status: Result<(), DecodeError>)
        ensures
            status == spec_header_status(res),
    {
        if res == 1 || res == 2 {
            Ok(())
        } else {
            Err(DecodeError::Header(res))
        }
    }

    /// Takes over what the engine has read from the header, if its answer
    /// `res` says that it has read one. Nothing changes otherwise.
    #[inline]
    pub fn read_header(&mut self, res: i32, header: Header) -> (status: Result<(), DecodeError>)
        ensures
            status == spec_header_status(res),
            final(self).src_mgr() == old(self).src_mgr(),
            final(self).err_mgr() == old(self).err_mgr(),
            final(self)@ == if status is Ok {
                DecompressView {
                    image_width: header.image_width as nat,
                    image_height: header.image_height as nat,
                    jpeg_color_space: header.jpeg_color_space,
                    out_color_space: header.out_color_space,
                    components: header.components@,
                    markers: header.markers@,
                    ..old(self)@
                }
            } else {
                old(self)@
            },
    {
        match Self::header_status(res) {
            Ok(()) => {
                self.header = header;
                Ok(())
            },
            Err(error) => Err(error),
        }
    }

    #[inline]
    pub fn components(&self) -> (components: &Vec<CompInfo>)
        ensures
            components@ == self@.components,
    {
        &self.header.components
    }

    /// The color space of the file.
    #[inline]
    pub fn color_space(&self) -> (space: ColorSpace)
        ensures
            space == self@.jpeg_color_space,
    {
        self.header.jpeg_color_space
    }

    /// Markers are available only if you enable them via `with_markers()`
    #[inline]
    pub fn markers(&self) -> (iter: MarkerIter<'_>)
        ensures
            iter.list() == self@.markers,
            iter.position() == 0,
    {
        MarkerIter::new(&self.header.markers)
    }

    /// The codes of the markers that the engine is asked to keep.
    pub fn markers_to_save(&self) -> (codes: &Vec<i32>)
        ensures
            codes@ == self@.save_markers,
    {
        &self.save_markers
    }

    /// width,height
    #[inline]
    pub fn size(&self) -> (size: (usize, usize))
        ensures
            size.0 == self@.image_width,
            size.1 == self@.image_height,
    {
        (self.width(), self.height())
    }

    #[inline]
    pub fn width(&self) -> (width: usize)
        ensures
            width == self@.image_width,
    {
        self.header.image_width as usize
    }

    #[inline]
    pub fn height(&self) -> (height: usize)
        ensures
            height == self@.image_height,
    {
        self.header.image_height as usize
    }

    /// Selects the algorithm used for the DCT step.
    pub fn dct_method(&mut self, method: DctMethod)
        ensures
            final(self)@ == (DecompressView { dct_method: method, ..old(self)@ }),
            final(self).src_mgr() == old(self).src_mgr(),
            final(self).err_mgr() == old(self).err_mgr(),
    {
        self.dct_method = method;
    }

    /// If `true`, do careful upsampling of chroma components.  If `false`,
    /// a faster but sloppier method is used.  Default is `true`.
    pub fn do_fancy_upsampling(&mut self, value: bool)
        ensures
            final(self)@ == (DecompressView { do_fancy_upsampling: value, ..old(self)@ }),
            final(self).src_mgr() == old(self).src_mgr(),
            final(self).err_mgr() == old(self).err_mgr(),
    {
        self.do_fancy_upsampling = value;
    }

    /// If `true`, interblock smoothing is applied in early stages of
    /// decoding progressive JPEG files; if `false`, not.  Default is
    /// `true`.
    pub fn do_block_smoothing(&mut self, value: bool)
        ensures
            final(self)@ == (DecompressView { do_block_smoothing: value, ..old(self)@ }),
            final(self).src_mgr() == old(self).src_mgr(),
            final(self).err_mgr() == old(self).err_mgr(),
    {
        self.do_block_smoothing = value;
    }

    /// Rescales the output image by `numerator / 8` during decompression.
    /// `numerator` must be between 1 and 16.
    /// Thus setting a value of `8` will result in an unscaled image.
    #[inline]
    pub fn scale(&mut self, numerator: u8)
        requires
            1 <= numerator <= 16,
        ensures
            final(self)@ == (DecompressView {
                scale_num: numerator as nat,
                scale_denom: 8,
                ..old(self)@
            }),
            final(self).src_mgr() == old(self).src_mgr(),
            final(self).err_mgr() == old(self).err_mgr(),
    {
        self.scale_num = numerator as u32;
        self.scale_denom = 8;
    }

    /// The color space of the output.
    pub fn out_color_space(&self) -> (space: ColorSpace)
        ensures
            space == self@.out_color_space,
    {
        self.header.out_color_space
    }

    /// Whether raw reading is switched on.
    pub fn raw_data_out(&self) -> (on: bool)
        ensures
            on == self@.raw_data_out,
    {
        self.raw_data_out
    }

    /// The algorithm chosen for the DCT step.
    pub fn chosen_dct_method(&self) -> (method: DctMethod)
        ensures
            method == self@.dct_method,
    {
        self.dct_method
    }

    /// The scale of the output, as numerator and denominator.
    pub fn chosen_scale(&self) -> (scale: (u32, u32))
        ensures
            scale.0 == self@.scale_num,
            scale.1 == self@.scale_denom,
    {
        (self.scale_num, self.scale_denom)
    }

    /// Mutable access to the source adapter, for the engine's callbacks.
    pub fn src_mgr_mut(&mut self) -> (src_mgr: &mut SourceMgr<R>)
        ensures
            *src_mgr == old(self).src_mgr(),
            final(self).src_mgr() == *final(src_mgr),
            final(self)@ == old(self)@,
            final(self).err_mgr() == old(self).err_mgr(),
    {
        &mut self.src_mgr
    }

    /// Takes the error manager out, to give it to the engine.
    pub fn take_err_mgr(&mut self) -> (err_mgr: Option<Box<ErrorMgr>>)
        ensures
            err_mgr == old(self).err_mgr(),
            final(self).err_mgr() is None,
            final(self)@ == old(self)@,
            final(self).src_mgr() == old(self).src_mgr(),
    {
        self.err_mgr.take()
    }

    /// Start decompression with conversion to `colorspace`. `started` is
    /// the engine's answer to the start.
    pub fn to_colorspace(self, colorspace: ColorSpace, started: bool) -> (image: Result<
        DecompressStarted<R>,
        DecodeError,
    >)
        ensures
            match image {
                Ok(image) => started && image.dec()@ == (DecompressView {
                    out_color_space: colorspace,
                    ..self@
                }) && image.dec().src_mgr() == self.src_mgr() && image.dec().err_mgr()
                    == self.err_mgr(),
                Err(error) => !started && error == DecodeError::WouldBlock,
            },
    {
        let mut dec = self;
        dec.header.out_color_space = colorspace;
        DecompressStarted::start_decompress(dec, started)
    }

    /// Start decompression with conversion to RGB
    #[inline(always)]
    pub fn rgb(self, started: bool) -> (image: Result<DecompressStarted<R>, DecodeError>)
        ensures
            match image {
                Ok(image) => started && image.dec()@ == (DecompressView {
                    out_color_space: ColorSpace::JCS_RGB,
                    ..self@
                }) && image.dec().src_mgr() == self.src_mgr() && image.dec().err_mgr()
                    == self.err_mgr(),
                Err(error) => !started && error == DecodeError::WouldBlock,
            },
    {
        self.to_colorspace(ColorSpace::JCS_RGB, started)
    }

    /// Start decompression with conversion to RGBA
    #[inline(always)]
    pub fn rgba(self, started: bool) -> (image: Result<DecompressStarted<R>, DecodeError>)
        ensures
            match image {
                Ok(image) => started && image.dec()@ == (DecompressView {
                    out_color_space: ColorSpace::JCS_EXT_RGBA,
                    ..self@
                }) && image.dec().src_mgr() == self.src_mgr() && image.dec().err_mgr()
                    == self.err_mgr(),
                Err(error) => !started && error == DecodeError::WouldBlock,
            },
    {
        self.to_colorspace(ColorSpace::JCS_EXT_RGBA, started)
    }

    /// Start decompression with conversion to grayscale.
    #[inline(always)]
    pub fn grayscale(self, started: bool) -> (image: Result<DecompressStarted<R>, DecodeError>)
        ensures
            match image {
                Ok(image) => started && image.dec()@ == (DecompressView {
                    out_color_space: ColorSpace::JCS_GRAYSCALE,
                    ..self@
                }) && image.dec().src_mgr() == self.src_mgr() && image.dec().err_mgr()
                    == self.err_mgr(),
                Err(error) => !started && error == DecodeError::WouldBlock,
            },
    {
        self.to_colorspace(ColorSpace::JCS_GRAYSCALE, started)
    }

    /// Start decompression of the planes as they are in the file, without
    /// color conversion.
    #[inline(always)]
    pub fn raw(self, started: bool) -> (image: Result<DecompressStarted<R>, DecodeError>)
        ensures
            match image {
                Ok(image) => started && image.dec()@ == (DecompressView {
                    raw_data_out: true,
                    ..self@
                }) && image.dec().src_mgr() == self.src_mgr() && image.dec().err_mgr()
                    == self.err_mgr(),
                Err(error) => !started && error == DecodeError::WouldBlock,
            },
    {
        let mut dec = self;
        dec.raw_data_out = true;
        DecompressStarted::start_decompress(dec, started)
    }

    /// Start decompression without colorspace conversion: the output is in
    /// the color space that the engine proposed if that is RGB, CMYK or
    /// grayscale, and is converted to RGB otherwise.
    pub fn image(self, started: bool) -> (format: Result<Format<R>, DecodeError>)
        ensures
            match format {
                Ok(format) => {
                    &&& started
                    &&& format.started().dec().src_mgr() == self.src_mgr()
                    &&& format.started().dec().err_mgr() == self.err_mgr()
                    &&& match self@.out_color_space {
                        ColorSpace::JCS_RGB => format is RGB && format.started().dec()@ == self@,
                        ColorSpace::JCS_CMYK => format is CMYK && format.started().dec()@ == self@,
                        ColorSpace::JCS_GRAYSCALE => format is Gray && format.started().dec()@
                            == self@,
                        _ => format is RGB && format.started().dec()@ == (DecompressView {
                            out_color_space: ColorSpace::JCS_RGB,
                            ..self@
                        }),
                    }
                },
                Err(error) => !started && error == DecodeError::WouldBlock,
            },
    {
        match self.out_color_space() {
            ColorSpace::JCS_RGB => match DecompressStarted::start_decompress(self, started) {
                Ok(image) => Ok(Format::RGB(image)),
                Err(error) => Err(error),
            },
            ColorSpace::JCS_CMYK => match DecompressStarted::start_decompress(self, started) {
                Ok(image) => Ok(Format::CMYK(image)),
                Err(error) => Err(error),
            },
            ColorSpace::JCS_GRAYSCALE => match DecompressStarted::start_decompress(self, started) {
                Ok(image) => Ok(Format::Gray(image)),
                Err(error) => Err(error),
            },
            _ => match self.rgb(started) {
                Ok(image) => Ok(Format::RGB(image)),
                Err(error) => Err(error),
            },
        }
    }
}

impl Decompress<()> {
    /// Short for builder().with_err()
    #[inline]
    pub fn with_err(err_mgr: ErrorMgr) -> (builder: DecompressBuilder<'static>)
        ensures
            builder.save_markers() == Seq::<Marker>::empty(),
            builder.err_mgr() == Some(Box::new(err_mgr)),
    {
        DecompressBuilder::new().with_err(err_mgr)
    }

    /// Short for builder().with_markers()
    #[inline]
    pub fn with_markers(markers: &[Marker]) -> (builder: DecompressBuilder<'_>)
        ensures
            builder.save_markers() == markers@,
            builder.err_mgr() is None,
    {
        DecompressBuilder::new().with_markers(markers)
    }

    /// Use builder()
    pub fn config() -> (builder: DecompressBuilder<'static>)
        ensures
            builder.save_markers() == Seq::<Marker>::empty(),
            builder.err_mgr() is None,
    {
        DecompressBuilder::new()
    }

    /// This is `DecompressBuilder::new()`
    #[inline]
    pub fn builder() -> (builder: DecompressBuilder<'static>)
        ensures
            builder.save_markers() == Seq::<Marker>::empty(),
            builder.err_mgr() is None,
    {
        DecompressBuilder::new()
    }
}

impl<R: ByteSource> Decompress<R> {
    /// Decode from a buffered reader.
    ///
    /// Fails with the reader's error if the reader fails when its first
    /// bytes are fetched, and with `StreamError::UnexpectedEof` if it has
    /// none; see [`opened_over`](Self::opened_over) for when success is
    /// owed.
    #[inline]
    pub fn new_reader(reader: R) -> (made: Result<Self, DecodeError>)
        ensures
            match made {
                Ok(dec) => Self::fresh(dec, Seq::empty(), None),
                Err(error) => error is Source,
            },
            Self::opened_over(reader, made),
    {
        DecompressBuilder::new().from_reader(reader)
    }

    /// Whether `dec` is as it is made: nothing is known of the image yet,
    /// the engine's defaults stand for the output, and the source adapter
    /// has the reader's first bytes for the engine.
    pub open spec fn fresh(dec: Self, save_markers: Seq<Marker>, err_mgr: Option<Box<ErrorMgr>>) -> bool {
        &&& dec@ == (DecompressView {
            image_width: 0,
            image_height: 0,
            jpeg_color_space: ColorSpace::JCS_UNKNOWN,
            out_color_space: ColorSpace::JCS_UNKNOWN,
            components: Seq::empty(),
            markers: Seq::empty(),
            save_markers: marker_codes(save_markers),
            raw_data_out: false,
            scale_num: 1,
            scale_denom: 1,
            dct_method: DctMethod::IntegerSlow,
            do_fancy_upsampling: true,
            do_block_smoothing: true,
            output_width: 0,
            output_height: 0,
            output_scanline: 0,
        })
        &&& dec.err_mgr() == err_mgr
        &&& dec.src_mgr().is_live()
        &&& dec.src_mgr().remaining() > 0
        &&& dec.src_mgr().next() == 0
        &&& dec.src_mgr().in_step()
        &&& dec.src_mgr().consumed() == 0
        &&& dec.src_mgr().position() == 0
    }

    /// Whether `made` is what opening `reader` owes, where the reader knows
    /// its bytes: such a reader does not fail, so the image is opened
    /// exactly if there are bytes to read, the engine then has them all
    /// ahead, and a reader without bytes is answered with
    /// `StreamError::UnexpectedEof`. Of a reader that fetches its bytes from
    /// elsewhere the outcome is the reader's to decide.
    pub open spec fn opened_over(reader: R, made: Result<Self, DecodeError>) -> bool {
        reader.upcoming() matches Some(upcoming) ==> match made {
            Ok(dec) => upcoming.len() > 0 && dec.src_mgr().knows_ahead() && dec.src_mgr().ahead()
                == upcoming,
            Err(error) => upcoming.len() == 0 && error == DecodeError::Source(
                StreamError::UnexpectedEof,
            ),
        }
    }

    /// Puts `reader` behind a source adapter and notes what `builder` asks
    /// of the engine: the error manager, and the markers to keep, by their
    /// codes.
    ///
    /// Fails with the reader's error if the reader fails when its first
    /// bytes are fetched, and with `StreamError::UnexpectedEof` if it has
    /// none; see [`opened_over`](Self::opened_over) for when success is
    /// owed.
    pub fn from_builder_and_reader(builder: DecompressBuilder<'_>, reader: R) -> (made: Result<
        Self,
        DecodeError,
    >)
        ensures
            match made {
                Ok(dec) => Self::fresh(dec, builder.save_markers(), builder.err_mgr()),
                Err(error) => error is Source,
            },
            Self::opened_over(reader, made),
    {
        let src_mgr = match SourceMgr::new(reader) {
            Ok(src_mgr) => src_mgr,
            Err(error) => {
                return Err(DecodeError::Source(error));
            },
        };
        let markers = builder.markers_to_save();
        let mut save_markers: Vec<i32> = Vec::new();
        let mut i: usize = 0;
        while i < markers.len()
            invariant
                i <= markers@.len(),
                save_markers@ == marker_codes(markers@).take(i as int),
            decreases markers@.len() - i,
        {
            save_markers.push(i32::from(markers[i]));
            i += 1;
            assert(save_markers@ =~= marker_codes(markers@).take(i as int));
        }
        assert(marker_codes(markers@).take(i as int) =~= marker_codes(markers@));
        let err_mgr = builder.take_err();
        Ok(
            Decompress {
                header: Header {
                    image_width: 0,
                    image_height: 0,
                    jpeg_color_space: ColorSpace::JCS_UNKNOWN,
                    out_color_space: ColorSpace::JCS_UNKNOWN,
                    components: Vec::new(),
                    markers: Vec::new(),
                },
                save_markers,
                raw_data_out: false,
                scale_num: 1,
                scale_denom: 1,
                dct_method: DctMethod::IntegerSlow,
                do_fancy_upsampling: true,
                do_block_smoothing: true,
                output_width: 0,
                output_height: 0,
                output_scanline: 0,
                err_mgr,
                src_mgr,
            },
        )
    }
}

impl<'markers> DecompressBuilder<'markers> {
    /// Takes a buffered reader.
    ///
    /// Fails with the reader's error if the reader fails when its first
    /// bytes are fetched, and with `StreamError::UnexpectedEof` if it has
    /// none; see [`Decompress::opened_over`] for when success is owed.
    #[inline]
    pub fn from_reader<R: ByteSource>(self, reader: R) -> (made: Result<Decompress<R>, DecodeError>)
        ensures
            match made {
                Ok(dec) => Decompress::fresh(dec, self.save_markers(), self.err_mgr()),
                Err(error) => error is Source,
            },
            Decompress::opened_over(reader, made),
    {
        Decompress::from_builder_and_reader(self, reader)
    }
}

/// See `Decompress.image()`
pub enum Format<R> {
    RGB(DecompressStarted<R>),
    Gray(DecompressStarted<R>),
    CMYK(DecompressStarted<R>),
}

impl<R> Format<R> {
    /// The decompression that has started, whatever its format.
    pub open spec fn started(self) -> DecompressStarted<R> {
        match self {
            Format::RGB(image) => image,
            Format::Gray(image) => image,
            Format::CMYK(image) => image,
        }
    }
}

/// See methods on `Decompress`
pub struct DecompressStarted<R> {
    dec: Decompress<R>,
}

impl<R> DecompressStarted<R> {
    /// What is known of the image.
    pub closed spec fn dec(&self) -> Decompress<R> {
        self.dec
    }

    /// Wraps up the start of a decompression: with the engine's answer
    /// `started`, the image can be read, and without it the engine is
    /// waiting for input that this crate cannot promise.
    pub fn start_decompress(dec: Decompress<R>, started: bool) -> (image: Result<Self, DecodeError>)
        ensures
            match image {
                Ok(image) => started && image.dec() == dec,
                Err(error) => !started && error == DecodeError::WouldBlock,
            },
    {
        if started {
            Ok(DecompressStarted { dec })
        } else {
            io_suspend_err()
        }
    }

    /// Takes over the size of the output as the engine has computed it.
    pub fn set_output_size(&mut self, output_width: u32, output_height: u32)
        ensures
            final(self).dec()@ == (DecompressView {
                output_width: output_width as nat,
                output_height: output_height as nat,
                ..old(self).dec()@
            }),
            final(self).dec().src_mgr() == old(self).dec().src_mgr(),
            final(self).dec().err_mgr() == old(self).dec().err_mgr(),
    {
        self.dec.output_width = output_width;
        self.dec.output_height = output_height;
    }

    /// Takes over the block counts that the engine has computed for the
    /// components, by replacing the components.
    pub fn set_components(&mut self, components: Vec<CompInfo>)
        ensures
            final(self).dec()@ == (DecompressView {
                components: components@,
                ..old(self).dec()@
            }),
            final(self).dec().src_mgr() == old(self).dec().src_mgr(),
            final(self).dec().err_mgr() == old(self).dec().err_mgr(),
    {
        self.dec.header.components = components;
    }

    pub fn color_space(&self) -> (space: ColorSpace)
        ensures
            space == self.dec()@.out_color_space,
    {
        self.dec.out_color_space()
    }

    /// Gets the minimal buffer size for using
    /// `DecompressStarted::read_scanlines_into` with a buffer of bytes.
    /// The size must fit the machine's word.
    #[inline(always)]
    pub fn min_flat_buffer_size(&self) -> (size: usize)
        requires
            channel_count(self.dec()@.out_color_space) * self.dec()@.output_width
                * self.dec()@.output_height <= usize::MAX,
        ensures
            size == channel_count(self.dec()@.out_color_space) * self.dec()@.output_width
                * self.dec()@.output_height,
    {
        let channels = self.color_space().num_components();
        let width = self.width();
        let height = self.height();
        assert(channels * width <= channels * width * height || height == 0) by (nonlinear_arith)
            requires
                channels >= 0,
                width >= 0,
                height >= 0,
        ;
        if height == 0 {
            assert(channels * width * height == 0) by (nonlinear_arith)
                requires
                    height == 0,
            ;
            return 0;
        }
        channels * width * height
    }

    /// Whether rows of the image are still to be read.
    pub fn can_read_more_scanlines(&self) -> (more: bool)
        ensures
            more == (self.dec()@.output_scanline < self.dec()@.output_height),
    {
        self.dec.output_scanline < self.dec.output_height
    }

    /// Makes room in the planes of `image_dest` for one MCU row, and
    /// returns the table of rows that the engine is given to write it to.
    /// The engine's answer then goes to
    /// [`raw_data_read`](Self::raw_data_read).
    ///
    /// Each component's plane grows by exactly its share of the MCU row.
    /// Where the read cannot be made, the planes are left as they were
    /// and the first condition that fails is returned; see
    /// [`read_chunk_error`].
    pub fn read_raw_data_chunk(&self, image_dest: &mut Vec<Vec<u8>>) -> (table: Result<
        RowPointers,
        RawError,
    >)
        ensures
            match table {
                Ok(table) => {
                    &&& read_chunk_error(
                        self.dec()@.raw_data_out,
                        max_v_samp_of(self.dec()@.components),
                        self.dec()@.components,
                        old(image_dest)@,
                    ) is None
                    &&& is_read_chunk(
                        table,
                        final(image_dest)@,
                        self.dec()@.components,
                        old(image_dest)@,
                        max_v_samp_of(self.dec()@.components),
                    )
                },
                Err(error) => {
                    &&& read_chunk_error(
                        self.dec()@.raw_data_out,
                        max_v_samp_of(self.dec()@.components),
                        self.dec()@.components,
                        old(image_dest)@,
                    ) == Some(error)
                    &&& final(image_dest)@ == old(image_dest)@
                },
            },
    {
        let max_v = max_v_samp_factor(&self.dec.header.components);
        read_raw_data_chunk(self.dec.raw_data_out, max_v, &self.dec.header.components, image_dest)
    }

    /// Takes note of the engine's answer to a raw read: it has written
    /// `lines_read` rows. Anything but one MCU row is an error.
    pub fn raw_data_read(&mut self, lines_read: u32) -> (done: Result<(), RawError>)
        ensures
            final(self).dec().src_mgr() == old(self).dec().src_mgr(),
            final(self).dec().err_mgr() == old(self).dec().err_mgr(),
            final(self).dec()@ == (DecompressView {
                output_scanline: if old(self).dec()@.output_scanline + lines_read > u32::MAX {
                    u32::MAX as nat
                } else {
                    old(self).dec()@.output_scanline + lines_read as nat
                },
                ..old(self).dec()@
            }),
            done == match spec_mcu_height(max_v_samp_of(old(self).dec()@.components)) {
                Ok(height) => if lines_read == height {
                    Ok::<(), RawError>(())
                } else {
                    Err(RawError::PartialTransfer)
                },
                Err(error) => Err(error),
            },
    {
        self.dec.output_scanline = self.dec.output_scanline.saturating_add(lines_read);
        let max_v = max_v_samp_factor(&self.dec.header.components);
        match mcu_height(max_v) {
            Ok(height) => check_lines_read(lines_read, height),
            Err(error) => Err(error),
        }
    }

    pub fn width(&self) -> (width: usize)
        ensures
            width == self.dec()@.output_width,
    {
        self.dec.output_width as usize
    }

    pub fn height(&self) -> (height: usize)
        ensures
            height == self.dec()@.output_height,
    {
        self.dec.output_height as usize
    }

    /// The number of items, of `pixel_size` bytes each, of a buffer that
    /// holds the whole image.
    ///
    /// Pixels can either have number of bytes matching number of
    /// channels, or be an amorphous blob of bytes.
    pub fn read_scanlines(&self, pixel_size: usize) -> (len: Result<usize, ScanlineError>)
        requires
            pixel_size > 0 || channel_count(self.dec()@.out_color_space) > 0,
        ensures
            len == spec_required_len(
                channel_count(self.dec()@.out_color_space),
                pixel_size as nat,
                self.dec()@.output_width,
                self.dec()@.output_height,
            ),
    {
        let num_components = self.color_space().num_components();
        required_len(num_components, pixel_size, self.width(), self.height())
    }

    /// How a buffer of `dest_len` items, of `pixel_size` bytes each, takes
    /// rows of the image: the engine is given one row after the other,
    /// `line_width` items apart, as many as the buffer has room for.
    ///
    /// Items that are neither bytes nor as large as a pixel are refused
    /// with `ScanlineError::Unsupported` for every image, and no row is
    /// read. For items that fit, a row must have items in it: the image
    /// must have a width, and with items of one byte a color space with
    /// channels.
    pub fn read_scanlines_into(&self, pixel_size: usize, dest_len: usize) -> (layout: Result<
        ScanlineLayout,
        ScanlineError,
    >)
        requires
            rows_have_items(
                channel_count(self.dec()@.out_color_space),
                pixel_size as nat,
                self.dec()@.output_width,
            ),
        ensures
            layout == spec_scanline_layout(
                channel_count(self.dec()@.out_color_space),
                pixel_size as nat,
                self.dec()@.output_width,
                dest_len as nat,
            ),
    {
        let num_components = self.color_space().num_components();
        scanline_layout(num_components, pixel_size, self.width(), dest_len)
    }

    /// Whether a row can be asked of the engine: none can once the image
    /// has been read to its last row.
    pub fn next_scanline(&self) -> (ready: Result<(), ScanlineError>)
        ensures
            ready == if self.dec()@.output_scanline < self.dec()@.output_height {
                Ok::<(), ScanlineError>(())
            } else {
                Err(ScanlineError::UnexpectedEof)
            },
    {
        if !self.can_read_more_scanlines() {
            return Err(ScanlineError::UnexpectedEof);
        }
        Ok(())
    }

    /// Takes note of the engine's answer to the reading of one row: it has
    /// written `rows_read` rows. A row that was not read is an error.
    pub fn scanline_read(&mut self, rows_read: u32) -> (done: Result<(), ScanlineError>)
        ensures
            final(self).dec().src_mgr() == old(self).dec().src_mgr(),
            final(self).dec().err_mgr() == old(self).dec().err_mgr(),
            final(self).dec()@ == (DecompressView {
                output_scanline: if old(self).dec()@.output_scanline + rows_read > u32::MAX {
                    u32::MAX as nat
                } else {
                    old(self).dec()@.output_scanline + rows_read as nat
                },
                ..old(self).dec()@
            }),
            done == if rows_read == 0 {
                Err::<(), ScanlineError>(ScanlineError::UnexpectedEof)
            } else {
                Ok(())
            },
    {
        self.dec.output_scanline = self.dec.output_scanline.saturating_add(rows_read);
        crate::scanlines::scanline_read(rows_read)
    }

    pub fn components(&self) -> (components: &Vec<CompInfo>)
        ensures
            components@ == self.dec()@.components,
    {
        self.dec.components()
    }

    /// The same as [`components`](Self::components): it is too late to
    /// change them.
    pub fn components_mut(&mut self) -> (components: &Vec<CompInfo>)
        ensures
            components@ == old(self).dec()@.components,
            *final(self) == *old(self),
    {
        self.dec.components()
    }

    /// The same as [`read_scanlines`](Self::read_scanlines) for a buffer of
    /// bytes.
    pub fn read_scanlines_flat(&self) -> (len: Result<usize, ScanlineError>)
        ensures
            len == spec_required_len(
                channel_count(self.dec()@.out_color_space),
                1,
                self.dec()@.output_width,
                self.dec()@.output_height,
            ),
    {
        self.read_scanlines(1)
    }

    /// The same as [`read_scanlines_into`](Self::read_scanlines_into) for
    /// a buffer of bytes.
    pub fn read_scanlines_flat_into(&self, dest_len: usize) -> (layout: Result<
        ScanlineLayout,
        ScanlineError,
    >)
        requires
            channel_count(self.dec()@.out_color_space) > 0,
            self.dec()@.output_width > 0,
        ensures
            layout == spec_scanline_layout(
                channel_count(self.dec()@.out_color_space),
                1,
                self.dec()@.output_width,
                dest_len as nat,
            ),
    {
        self.read_scanlines_into(1, dest_len)
    }

    /// Ends the decompression, and says whether it has ended.
    pub fn finish_decompress(self, finished: bool) -> (done: bool)
        ensures
            done == finished,
    {
        self.finish(finished).is_ok()
    }

    /// Mutable access to the source adapter, for the engine's callbacks.
    pub fn src_mgr_mut(&mut self) -> (src_mgr: &mut SourceMgr<R>)
        ensures
            *src_mgr == old(self).dec().src_mgr(),
            final(self).dec().src_mgr() == *final(src_mgr),
            final(self).dec()@ == old(self).dec()@,
            final(self).dec().err_mgr() == old(self).dec().err_mgr(),
    {
        self.dec.src_mgr_mut()
    }

    /// Ends the decompression. `finished` is the engine's answer to the
    /// end: without it the engine is still waiting for input.
    pub fn finish(self, finished: bool) -> (done: Result<(), DecodeError>)
        ensures
            done == if finished {
                Ok::<(), DecodeError>(())
            } else {
                Err(DecodeError::WouldBlock)
            },
    {
        if finished {
            Ok(())
        } else {
            io_suspend_err()
        }
    }
}

/// The error of an engine that has stopped to wait for input.
fn io_suspend_err<T>() -> (suspended: Result<T, DecodeError>)
    ensures
        suspended == Err::<T, DecodeError>(DecodeError::WouldBlock),
{
    Err(DecodeError::WouldBlock)
}

} // verus!
