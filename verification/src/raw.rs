//! Raw transfers: the tables of row positions that the engine is given
//! when planes of samples are exchanged with it one MCU row at a time,
//! without color conversion.
use vstd::prelude::*;
use crate::component::CompInfo;
use crate::component::plane_len_of;
use crate::component::row_stride_of;
use crate::engine::dct_size;
use crate::vec::VecUninitExtender;
use crate::vec::zeros;

verus! {

/// The tallest MCU row that a table of rows has room for, in samples.
pub const MAX_MCU_HEIGHT: usize = 16;

/// The largest number of components that a table of rows has room for.
pub const MAX_COMPONENTS: usize = 4;

/// Why a raw transfer cannot be made.
#[derive(Copy, Clone, Debug, PartialEq, Eq, Structural)]
pub enum RawError {
    /// Raw transfers were not switched on before the engine was started.
    RawDataNotSet,
    /// The largest vertical sampling factor makes an MCU row taller than a
    /// table of rows.
    SamplingTooLarge,
    /// The largest vertical sampling factor is zero.
    NoSampling,
    /// More components than a table has room for, or than planes were
    /// supplied.
    TooManyComponents,
    /// A component's vertical sampling factor is not between one and the
    /// largest of the frame.
    BadSampling,
    /// A component whose block counts the engine has not computed.
    NoGeometry,
    /// A plane that is shorter than its component's padded size.
    BitmapTooSmall,
    /// Fewer than eight rows of a plane are left for an MCU row.
    ShortRows,
    /// A plane that cannot grow by an MCU row without passing the largest
    /// size of a buffer.
    PlaneTooLarge,
    /// The engine moved a part of an MCU row, or more than one.
    PartialTransfer,
}

/// For each component, the position in its plane of each row of one MCU
/// row: the index of the row's first sample, or `None` for a row of
/// padding, which the engine is given no memory for.
pub struct RowPointers {
    rows: [[Option<usize>; MAX_MCU_HEIGHT]; MAX_COMPONENTS],
}

impl RowPointers {
    /// The position of row `ri` of component `ci`.
    pub closed spec fn row(&self, ci: int, ri: int) -> Option<usize> {
        self.rows@[ci]@[ri]
    }

    /// The rows of component `ci`, 16 of them.
    pub open spec fn rows_of(&self, ci: int) -> Seq<Option<usize>> {
        Seq::new(MAX_MCU_HEIGHT as nat, |ri: int| self.row(ci, ri))
    }

    /// A table in which every row is padding.
    pub fn new() -> (table: RowPointers)
        ensures
            forall|ci: int, ri: int|
                0 <= ci < MAX_COMPONENTS && 0 <= ri < MAX_MCU_HEIGHT ==> table.row(ci, ri) is None,
    {
        let none: Option<usize> = None;
        let empty: [Option<usize>; MAX_MCU_HEIGHT] = [none;MAX_MCU_HEIGHT];
        RowPointers { rows: [empty;MAX_COMPONENTS] }
    }

    /// The position of row `ri` of component `ci`; `None` also outside the
    /// table.
    pub fn get(&self, ci: usize, ri: usize) -> (position: Option<usize>)
        ensures
            position == if ci < MAX_COMPONENTS && ri < MAX_MCU_HEIGHT {
                self.row(ci as int, ri as int)
            } else {
                None
            },
    {
        if ci < MAX_COMPONENTS && ri < MAX_MCU_HEIGHT {
            let rows = &self.rows[ci];
            rows[ri]
        } else {
            None
        }
    }

    fn set_component(&mut self, ci: usize, rows: [Option<usize>; MAX_MCU_HEIGHT])
        requires
            ci < MAX_COMPONENTS,
        ensures
            forall|ri: int| 0 <= ri < MAX_MCU_HEIGHT ==> final(self).row(ci as int, ri) == rows@[ri],
            forall|cj: int, ri: int|
                0 <= cj < MAX_COMPONENTS && cj != ci && 0 <= ri < MAX_MCU_HEIGHT
                    ==> final(self).row(cj, ri) == old(self).row(cj, ri),
    {
        self.rows[ci] = rows;
    }
}

/// The height in samples of an MCU row: eight rows for each unit of the
/// largest vertical sampling factor.
pub open spec fn mcu_height_of(max_v_samp_factor: int) -> int {
    max_v_samp_factor * 8
}

/// What [`mcu_height`] returns.
pub open spec fn spec_mcu_height(max_v_samp_factor: int) -> Result<usize, RawError> {
    if max_v_samp_factor == 0 {
        Err(RawError::NoSampling)
    } else if max_v_samp_factor < 0 || mcu_height_of(max_v_samp_factor) > MAX_MCU_HEIGHT {
        Err(RawError::SamplingTooLarge)
    } else {
        Ok(mcu_height_of(max_v_samp_factor) as usize)
    }
}

/// The height in samples of an MCU row, for the largest vertical sampling
/// factor of a frame. A factor above two is refused: its MCU row would not
/// fit a table of rows.
pub fn mcu_height(max_v_samp_factor: i32) -> (height: Result<usize, RawError>)
    ensures
        height == spec_mcu_height(max_v_samp_factor as int),
        height matches Ok(h) ==> 8 <= h <= MAX_MCU_HEIGHT && h % 8 == 0,
{
    if max_v_samp_factor == 0 {
        return Err(RawError::NoSampling);
    }
    if max_v_samp_factor < 0 || max_v_samp_factor > 2 {
        return Err(RawError::SamplingTooLarge);
    }
    let size: usize = dct_size();
    let factor: usize = max_v_samp_factor as usize;
    assert(factor * size == mcu_height_of(max_v_samp_factor as int));
    Ok(factor * size)
}

/// The largest vertical sampling factor among `components`, and zero if
/// there is none or none is positive.
pub open spec fn max_v_samp_of(components: Seq<CompInfo>) -> int
    decreases components.len(),
{
    if components.len() == 0 {
        0
    } else {
        let rest = max_v_samp_of(components.drop_last());
        let last = components.last().v_samp_factor as int;
        if last > rest {
            last
        } else {
            rest
        }
    }
}

/// The largest vertical sampling factor among `components`.
pub fn max_v_samp_factor(components: &Vec<CompInfo>) -> (max: i32)
    ensures
        max == max_v_samp_of(components@),
{
    let mut max: i32 = 0;
    let mut i: usize = 0;
    assert(components@.take(0) =~= Seq::<CompInfo>::empty());
    while i < components.len()
        invariant
            i <= components@.len(),
            max == max_v_samp_of(components@.take(i as int)),
        decreases components@.len() - i,
    {
        let v = components[i].v_samp_factor;
        assert(components@.take(i + 1).drop_last() =~= components@.take(i as int));
        if v > max {
            max = v;
        }
        i += 1;
    }
    assert(components@.take(i as int) =~= components@);
    max
}

/// The largest factor is at least every component's, and is the factor of
/// one of them unless none is positive.
pub proof fn lemma_max_v_samp(components: Seq<CompInfo>)
    ensures
        max_v_samp_of(components) >= 0,
        forall|i: int|
            0 <= i < components.len() ==> (#[trigger] components[i]).v_samp_factor
                <= max_v_samp_of(components),
        max_v_samp_of(components) > 0 ==> exists|i: int|
            0 <= i < components.len() && (#[trigger] components[i]).v_samp_factor
                == max_v_samp_of(components),
    decreases components.len(),
{
    if components.len() > 0 {
        let rest = components.drop_last();
        lemma_max_v_samp(rest);
        assert forall|i: int| 0 <= i < components.len() implies (#[trigger] components[i]).v_samp_factor
            <= max_v_samp_of(components) by {
            if i < rest.len() {
                assert(rest[i] == components[i]);
            }
        }
        if max_v_samp_of(components) > 0 {
            if components.last().v_samp_factor > max_v_samp_of(rest) {
                assert(components[components.len() - 1].v_samp_factor == max_v_samp_of(
                    components,
                ));
            } else {
                let i = choose|i: int|
                    0 <= i < rest.len() && (#[trigger] rest[i]).v_samp_factor == max_v_samp_of(rest);
                assert(components[i] == rest[i]);
            }
        }
    }
}

/// With every vertical sampling factor between 1 and 2, on up to four
/// components, an MCU row is 8 or 16 samples high and is accepted; with a
/// factor of 3 or more among them it is refused.
pub proof fn lemma_mcu_height_accepted(components: Seq<CompInfo>)
    requires
        components.len() >= 1,
        forall|i: int| 0 <= i < components.len() ==> 1 <= (#[trigger] components[i]).v_samp_factor <= 4,
    ensures
        1 <= max_v_samp_of(components) <= 4,
        spec_mcu_height(max_v_samp_of(components)) is Ok <==> forall|i: int|
            0 <= i < components.len() ==> (#[trigger] components[i]).v_samp_factor <= 2,
        spec_mcu_height(max_v_samp_of(components)) matches Ok(h) ==> h == 8 * max_v_samp_of(
            components,
        ) && h <= 16,
        spec_mcu_height(max_v_samp_of(components)) matches Err(e) ==> e
            == RawError::SamplingTooLarge,
{
    lemma_max_v_samp(components);
    assert(components[0].v_samp_factor <= max_v_samp_of(components));
}

/// Whether a plane of `len` bytes holds all of a component: an error for a
/// component without block counts, and for a plane shorter than the
/// component's padded width times its padded height.
pub open spec fn check_plane(comp: CompInfo, len: nat) -> Result<(), RawError> {
    if comp.width_in_blocks == 0 || comp.height_in_blocks == 0 {
        Err(RawError::NoGeometry)
    } else if plane_len_of(comp.width_in_blocks as nat, comp.height_in_blocks as nat) > len {
        Err(RawError::BitmapTooSmall)
    } else {
        Ok(())
    }
}

/// The error of the first component, from index `from` on, whose plane
/// does not hold it.
pub open spec fn first_plane_error(components: Seq<CompInfo>, lens: Seq<usize>, from: int) -> Option<
    RawError,
>
    decreases components.len() - from,
{
    if from < 0 || from >= components.len() {
        None
    } else {
        match check_plane(components[from], lens[from] as nat) {
            Err(error) => Some(error),
            Ok(()) => first_plane_error(components, lens, from + 1),
        }
    }
}

/// What [`check_raw_write`] returns: the first of the conditions that
/// forbid a raw write, in the order in which they are tested, or the height
/// of an MCU row.
pub open spec fn spec_check_raw_write(
    raw_data_in: bool,
    max_v_samp_factor: int,
    components: Seq<CompInfo>,
    lens: Seq<usize>,
) -> Result<usize, RawError> {
    if !raw_data_in {
        Err(RawError::RawDataNotSet)
    } else {
        match spec_mcu_height(max_v_samp_factor) {
            Err(error) => Err(error),
            Ok(height) => if components.len() > MAX_COMPONENTS || components.len() > lens.len() {
                Err(RawError::TooManyComponents)
            } else {
                match first_plane_error(components, lens, 0) {
                    Some(error) => Err(error),
                    None => Ok(height),
                }
            },
        }
    }
}

fn plane_holds(comp: &CompInfo, len: usize) -> (held: Result<(), RawError>)
    ensures
        held == check_plane(*comp, len as nat),
{
    if comp.width_in_blocks == 0 || comp.height_in_blocks == 0 {
        return Err(RawError::NoGeometry);
    }
    let size: u64 = dct_size() as u64;
    let blocks_wide: u64 = comp.width_in_blocks as u64;
    let blocks_high: u64 = comp.height_in_blocks as u64;
    assert(blocks_wide * size == row_stride_of(comp.width_in_blocks as nat));
    assert(blocks_high * size == blocks_high * 8);
    let row_stride: u64 = blocks_wide * size;
    let col_stride: u64 = blocks_high * size;
    // The plane holds `col_stride` rows exactly when its whole rows are at
    // least as many; the product itself may not fit a machine word.
    let rows: u64 = len as u64 / row_stride;
    proof {
        lemma_rows_of_plane(len as nat, row_stride as nat, col_stride as nat);
    }
    if rows < col_stride {
        Err(RawError::BitmapTooSmall)
    } else {
        Ok(())
    }
}

/// A plane of `len` bytes holds `rows` rows of `stride` bytes exactly when
/// `len / stride` is at least `rows`.
pub proof fn lemma_rows_of_plane(len: nat, stride: nat, rows: nat)
    requires
        stride > 0,
    ensures
        (len / stride >= rows) <==> (stride * rows <= len),
{
    let q = len / stride;
    assert(len == stride * q + len % stride && 0 <= len % stride < stride) by {
        vstd::arithmetic::div_mod::lemma_fundamental_div_mod(len as int, stride as int);
    }
    if q >= rows {
        assert(stride * rows <= stride * q) by (nonlinear_arith)
            requires
                rows <= q,
                stride > 0,
        ;
    } else {
        assert(stride * rows >= stride * (q + 1)) by (nonlinear_arith)
            requires
                rows >= q + 1,
                stride > 0,
        ;
        assert(stride * (q + 1) == stride * q + stride) by (nonlinear_arith);
    }
}

/// Decides whether planes of the given lengths can be written raw, and
/// how high an MCU row is.
///
/// The conditions are tested in this order: raw writing must be switched
/// on; an MCU row must fit a table of rows; there must be at most four
/// components and a plane for each; and each plane, in turn, must hold its
/// component's padded size.
pub fn check_raw_write(
    raw_data_in: bool,
    max_v_samp_factor: i32,
    components: &Vec<CompInfo>,
    plane_lens: &Vec<usize>,
) -> (height: Result<usize, RawError>)
    ensures
        height == spec_check_raw_write(
            raw_data_in,
            max_v_samp_factor as int,
            components@,
            plane_lens@,
        ),
{
    if !raw_data_in {
        return Err(RawError::RawDataNotSet);
    }
    let height = match mcu_height(max_v_samp_factor) {
        Ok(height) => height,
        Err(error) => {
            return Err(error);
        },
    };
    let num_components = components.len();
    if num_components > MAX_COMPONENTS || num_components > plane_lens.len() {
        return Err(RawError::TooManyComponents);
    }
    let mut ci: usize = 0;
    while ci < num_components
        invariant
            ci <= num_components,
            num_components == components@.len(),
            num_components <= plane_lens@.len(),
            num_components <= MAX_COMPONENTS,
            raw_data_in,
            spec_mcu_height(max_v_samp_factor as int) == Ok::<usize, RawError>(height),
            first_plane_error(components@, plane_lens@, 0) == first_plane_error(
                components@,
                plane_lens@,
                ci as int,
            ),
        decreases num_components - ci,
    {
        match plane_holds(&components[ci], plane_lens[ci]) {
            Ok(()) => {
                assert(first_plane_error(components@, plane_lens@, ci as int)
                    == first_plane_error(components@, plane_lens@, ci + 1));
            },
            Err(error) => {
                assert(first_plane_error(components@, plane_lens@, ci as int) == Some(error));
                return Err(error);
            },
        }
        ci += 1;
    }
    Ok(height)
}

/// The row of a plane at which an MCU row starts, for a component with
/// vertical sampling factor `v` in a frame whose largest is `max_v`, when
/// the MCU row starts at row `start_row` of the image.
pub open spec fn comp_start_row(start_row: nat, v: int, max_v: int) -> nat {
    (start_row * v / max_v) as nat
}

/// The number of rows that a plane contributes to an MCU row: a block row
/// for each unit of its sampling factor, or what is left of the plane if
/// that is less.
pub open spec fn comp_height(input_height: nat, first_row: nat, v: int) -> int {
    if input_height - first_row < 8 * v {
        input_height - first_row
    } else {
        8 * v
    }
}

/// The rows of one component in the table for a raw write.
///
/// `len` is the length of the component's plane, and `start_row` the row
/// of the image at which the MCU row starts. The first rows of the table
/// point at consecutive rows of the plane, and the others are padding.
pub open spec fn spec_write_rows(comp: CompInfo, len: nat, start_row: nat, max_v: int) -> Result<
    Seq<Option<usize>>,
    RawError,
> {
    let v = comp.v_samp_factor as int;
    let stride = row_stride_of(comp.width_in_blocks as nat);
    let first_row = comp_start_row(start_row, v, max_v);
    let input_height = len / stride;
    let height = comp_height(input_height, first_row, v);
    if spec_mcu_height(max_v) is Err {
        Err(spec_mcu_height(max_v)->Err_0)
    } else if v < 1 || v > max_v {
        Err(RawError::BadSampling)
    } else if stride == 0 {
        Err(RawError::NoGeometry)
    } else if height < 8 {
        Err(RawError::ShortRows)
    } else {
        Ok(
            Seq::new(
                MAX_MCU_HEIGHT as nat,
                |ri: int|
                    if ri < height {
                        Some(((first_row + ri) * stride) as usize)
                    } else {
                        None
                    },
            ),
        )
    }
}

/// Every row that the table for a raw write points at lies in its plane,
/// a whole row of it, and the rows follow each other without a gap; the
/// rows of padding come after them.
pub proof fn lemma_write_rows_in_plane(comp: CompInfo, len: nat, start_row: nat, max_v: int)
    requires
        spec_write_rows(comp, len, start_row, max_v) is Ok,
        len <= usize::MAX,
    ensures
        ({
            let rows = spec_write_rows(comp, len, start_row, max_v)->Ok_0;
            let stride = row_stride_of(comp.width_in_blocks as nat);
            let first_row = comp_start_row(start_row, comp.v_samp_factor as int, max_v);
            &&& rows.len() == MAX_MCU_HEIGHT
            &&& forall|ri: int|
                0 <= ri < 8 ==> (#[trigger] rows[ri]) is Some
            &&& forall|ri: int|
                0 <= ri < MAX_MCU_HEIGHT && (#[trigger] rows[ri]) is Some ==> {
                    &&& rows[ri]->Some_0 == (first_row + ri) * stride
                    &&& rows[ri]->Some_0 + stride <= len
                }
            &&& forall|ri: int, rj: int|
                0 <= ri <= rj < MAX_MCU_HEIGHT && (#[trigger] rows[rj]) is Some ==> (
                #[trigger] rows[ri]) is Some
        }),
{
    let v = comp.v_samp_factor as int;
    let stride = row_stride_of(comp.width_in_blocks as nat);
    let first_row = comp_start_row(start_row, v, max_v);
    let input_height = len / stride;
    let height = comp_height(input_height, first_row, v);
    let rows = spec_write_rows(comp, len, start_row, max_v)->Ok_0;
    assert forall|ri: int| 0 <= ri < MAX_MCU_HEIGHT && (#[trigger] rows[ri]) is Some implies {
        &&& rows[ri]->Some_0 == (first_row + ri) * stride
        &&& rows[ri]->Some_0 + stride <= len
    } by {
        lemma_row_in_plane(len, stride, first_row, ri, input_height);
    }
}

/// At the bottom of an image a plane may have less than its full share
/// of rows for an MCU row, but never less than a block row, and never a
/// part of a block row.
///
/// This holds of a plane that is exactly as large as its component's
/// padded size, for an MCU row that starts at a multiple of the MCU height
/// and above the plane's last row: the table then has 8 or 16 rows for the
/// component, a whole number of block rows.
pub proof fn lemma_partial_rows_are_whole_blocks(
    comp: CompInfo,
    mcu_row: nat,
    max_v: int,
)
    requires
        1 <= comp.v_samp_factor <= max_v <= 2,
        comp.width_in_blocks > 0,
        mcu_row * comp.v_samp_factor < comp.height_in_blocks,
    ensures
        ({
            let len = plane_len_of(comp.width_in_blocks as nat, comp.height_in_blocks as nat);
            let start_row = (mcu_row * mcu_height_of(max_v)) as nat;
            let v = comp.v_samp_factor as int;
            let first_row = comp_start_row(start_row, v, max_v);
            let height = comp_height(8 * comp.height_in_blocks as nat, first_row, v);
            &&& first_row == 8 * (mcu_row * v)
            &&& len / row_stride_of(comp.width_in_blocks as nat) == 8 * comp.height_in_blocks
            &&& height == 8 || height == 16
            &&& height <= 8 * v
            &&& spec_write_rows(comp, len, start_row, max_v) is Ok
            &&& forall|ri: int|
                0 <= ri < MAX_MCU_HEIGHT ==> (#[trigger] spec_write_rows(
                    comp,
                    len,
                    start_row,
                    max_v,
                )->Ok_0[ri] is Some <==> ri < height)
        }),
{
    let w = comp.width_in_blocks as nat;
    let h = comp.height_in_blocks as nat;
    let stride = row_stride_of(w);
    lemma_mcu_row_start(mcu_row, comp.v_samp_factor as int, max_v);
    lemma_plane_is_rows(w, h);
    assert(((8 * h) * stride) as int / stride as int == 8 * h) by {
        vstd::arithmetic::div_mod::lemma_div_by_multiple((8 * h) as int, stride as int);
    }
}

/// A plane that holds its component has rows for every MCU row of the
/// image: a raw write that was accepted is not refused later for want of
/// rows.
///
/// This holds of a plane at least as large as its component's padded
/// size, for an MCU row that starts at a multiple of the MCU height and
/// above the plane's last row.
pub proof fn lemma_accepted_planes_have_rows(comp: CompInfo, len: nat, mcu_row: nat, max_v: int)
    requires
        1 <= comp.v_samp_factor <= max_v <= 2,
        check_plane(comp, len) is Ok,
        mcu_row * comp.v_samp_factor < comp.height_in_blocks,
    ensures
        spec_write_rows(comp, len, (mcu_row * mcu_height_of(max_v)) as nat, max_v) is Ok,
{
    let w = comp.width_in_blocks as nat;
    let h = comp.height_in_blocks as nat;
    lemma_mcu_row_start(mcu_row, comp.v_samp_factor as int, max_v);
    lemma_plane_is_rows(w, h);
    lemma_rows_of_plane(len, row_stride_of(w), 8 * h);
}

/// The MCU row with number `mcu_row` starts, in a plane with vertical
/// sampling factor `v`, at a whole number of block rows: `v` of them for
/// each MCU row before it.
proof fn lemma_mcu_row_start(mcu_row: nat, v: int, max_v: int)
    requires
        1 <= v <= max_v,
    ensures
        comp_start_row((mcu_row * mcu_height_of(max_v)) as nat, v, max_v) == 8 * (mcu_row * v),
        mcu_row * v >= 0,
{
    let k = mcu_row as int;
    let start_row = (mcu_row * mcu_height_of(max_v)) as nat;
    assert(start_row * v == (8 * (k * v)) * max_v) by (nonlinear_arith)
        requires
            start_row == k * (max_v * 8),
    ;
    assert(((8 * (k * v)) * max_v) / max_v == 8 * (k * v)) by {
        vstd::arithmetic::div_mod::lemma_div_by_multiple(8 * (k * v), max_v);
    }
    assert(k * v >= 0) by (nonlinear_arith)
        requires
            k >= 0,
            v >= 1,
    ;
}

/// A plane of a component's padded size is eight rows of its stride for
/// each block of its height.
proof fn lemma_plane_is_rows(width_in_blocks: nat, height_in_blocks: nat)
    ensures
        plane_len_of(width_in_blocks, height_in_blocks) == row_stride_of(width_in_blocks) * (8
            * height_in_blocks),
{
    assert((width_in_blocks * 8) * (height_in_blocks * 8) == (width_in_blocks * 8) * (8
        * height_in_blocks)) by (nonlinear_arith);
}

/// Row `first_row + ri` of a plane ends within the plane if the plane has
/// more whole rows than that.
proof fn lemma_row_in_plane(len: nat, stride: nat, first_row: nat, ri: int, input_height: nat)
    requires
        stride > 0,
        input_height == len / stride,
        0 <= ri,
        first_row + ri < input_height,
    ensures
        (first_row + ri) * stride + stride <= len,
        (first_row + ri) * stride >= 0,
{
    lemma_rows_of_plane(len, stride, (first_row + ri + 1) as nat);
    assert((first_row + ri) * stride + stride == stride * (first_row + ri + 1))
        by (nonlinear_arith);
    assert((first_row + ri) * stride >= 0) by (nonlinear_arith)
        requires
            first_row + ri >= 0,
            stride > 0,
    ;
}

/// The rows of one component in the table for a raw write; see
/// [`spec_write_rows`].
pub fn write_rows(comp: &CompInfo, len: usize, start_row: u32, max_v_samp_factor: i32) -> (rows:
    Result<[Option<usize>; MAX_MCU_HEIGHT], RawError>)
    ensures
        match rows {
            Ok(rows) => spec_write_rows(*comp, len as nat, start_row as nat, max_v_samp_factor as int)
                == Ok::<Seq<Option<usize>>, RawError>(rows@),
            Err(error) => spec_write_rows(
                *comp,
                len as nat,
                start_row as nat,
                max_v_samp_factor as int,
            ) == Err::<Seq<Option<usize>>, RawError>(error),
        },
{
    let mcu_height = match mcu_height(max_v_samp_factor) {
        Ok(height) => height,
        Err(error) => {
            return Err(error);
        },
    };
    let v = comp.v_samp_factor;
    if v < 1 || v > max_v_samp_factor {
        return Err(RawError::BadSampling);
    }
    if comp.width_in_blocks == 0 {
        return Err(RawError::NoGeometry);
    }
    let size: u64 = dct_size() as u64;
    let blocks_wide: u64 = comp.width_in_blocks as u64;
    assert(blocks_wide * size == row_stride_of(comp.width_in_blocks as nat));
    let row_stride: u64 = blocks_wide * size;
    let input_height: u64 = len as u64 / row_stride;
    assert(start_row as u64 * v as u64 <= 2 * 0xFFFF_FFFFu64) by (nonlinear_arith)
        requires
            1 <= v <= 2,
            start_row <= 0xFFFF_FFFFu32,
    ;
    let scaled: u64 = start_row as u64 * v as u64;
    let first_row: u64 = scaled / max_v_samp_factor as u64;
    let full: u64 = size * v as u64;
    let height: u64 = if input_height < first_row {
        0
    } else if input_height - first_row < full {
        input_height - first_row
    } else {
        full
    };
    if height < 8 {
        return Err(RawError::ShortRows);
    }
    let none: Option<usize> = None;
    let mut rows: [Option<usize>; MAX_MCU_HEIGHT] = [none;MAX_MCU_HEIGHT];
    let ghost want = spec_write_rows(
        *comp,
        len as nat,
        start_row as nat,
        max_v_samp_factor as int,
    )->Ok_0;
    let mut ri: usize = 0;
    while ri < MAX_MCU_HEIGHT
        invariant
            ri <= MAX_MCU_HEIGHT,
            row_stride > 0,
            row_stride == row_stride_of(comp.width_in_blocks as nat),
            input_height == len as nat / row_stride as nat,
            first_row == comp_start_row(start_row as nat, v as int, max_v_samp_factor as int),
            height == comp_height(input_height as nat, first_row as nat, v as int),
            8 <= height <= 16,
            first_row + height <= input_height,
            want.len() == MAX_MCU_HEIGHT,
            forall|k: int|
                0 <= k < MAX_MCU_HEIGHT ==> #[trigger] want[k] == if k < height {
                    Some(((first_row + k) * row_stride) as usize)
                } else {
                    None
                },
            forall|k: int| 0 <= k < ri ==> #[trigger] rows@[k] == want[k],
            forall|k: int| ri <= k < MAX_MCU_HEIGHT ==> (#[trigger] rows@[k]) is None,
        decreases MAX_MCU_HEIGHT - ri,
    {
        if (ri as u64) < height {
            proof {
                lemma_row_in_plane(
                    len as nat,
                    row_stride as nat,
                    first_row as nat,
                    ri as int,
                    input_height as nat,
                );
            }
            let row: u64 = first_row + ri as u64;
            let start_offset: u64 = row * row_stride;
            rows[ri] = Some(start_offset as usize);
        }
        ri += 1;
    }
    assert(rows@ =~= want);
    Ok(rows)
}

/// The error of the first component, from index `from` on, that has no
/// rows for the MCU row of a raw write.
pub open spec fn first_write_error(
    components: Seq<CompInfo>,
    lens: Seq<usize>,
    start_row: nat,
    max_v: int,
    from: int,
) -> Option<RawError>
    decreases components.len() - from,
{
    if from < 0 || from >= components.len() {
        None
    } else {
        match spec_write_rows(components[from], lens[from] as nat, start_row, max_v) {
            Err(error) => Some(error),
            Ok(_) => first_write_error(components, lens, start_row, max_v, from + 1),
        }
    }
}

/// Why no table can be made for the MCU row of a raw write, if none can:
/// too many components, or the first component without rows.
pub open spec fn write_table_error(
    components: Seq<CompInfo>,
    lens: Seq<usize>,
    start_row: nat,
    max_v: int,
) -> Option<RawError> {
    if components.len() > MAX_COMPONENTS || components.len() > lens.len() {
        Some(RawError::TooManyComponents)
    } else {
        first_write_error(components, lens, start_row, max_v, 0)
    }
}

/// Whether `table` is the table for the MCU row of a raw write: each
/// component has the rows of [`spec_write_rows`], and what the table holds
/// beyond the components is padding.
pub open spec fn is_write_table(
    table: RowPointers,
    components: Seq<CompInfo>,
    lens: Seq<usize>,
    start_row: nat,
    max_v: int,
) -> bool {
    &&& components.len() <= MAX_COMPONENTS
    &&& components.len() <= lens.len()
    &&& forall|ci: int|
        0 <= ci < components.len() ==> spec_write_rows(
            components[ci],
            lens[ci] as nat,
            start_row,
            max_v,
        ) == Ok::<Seq<Option<usize>>, RawError>(#[trigger] table.rows_of(ci))
    &&& forall|ci: int, ri: int|
        components.len() <= ci < MAX_COMPONENTS && 0 <= ri < MAX_MCU_HEIGHT ==> table.row(ci, ri)
            is None
}

/// The table of rows that the engine is given to read one MCU row from,
/// which starts at row `start_row` of the image.
///
/// A table is made exactly when there are at most four components, a
/// plane for each, and rows for each; else the first condition that fails
/// is returned.
pub fn raw_write_rows(
    components: &Vec<CompInfo>,
    plane_lens: &Vec<usize>,
    start_row: u32,
    max_v_samp_factor: i32,
) -> (table: Result<RowPointers, RawError>)
    ensures
        match table {
            Ok(table) => {
                &&& write_table_error(
                    components@,
                    plane_lens@,
                    start_row as nat,
                    max_v_samp_factor as int,
                ) is None
                &&& is_write_table(
                    table,
                    components@,
                    plane_lens@,
                    start_row as nat,
                    max_v_samp_factor as int,
                )
            },
            Err(error) => write_table_error(
                components@,
                plane_lens@,
                start_row as nat,
                max_v_samp_factor as int,
            ) == Some(error),
        },
{
    let num_components = components.len();
    if num_components > MAX_COMPONENTS || num_components > plane_lens.len() {
        return Err(RawError::TooManyComponents);
    }
    let mut table = RowPointers::new();
    let mut ci: usize = 0;
    while ci < num_components
        invariant
            ci <= num_components,
            num_components == components@.len(),
            num_components <= plane_lens@.len(),
            num_components <= MAX_COMPONENTS,
            first_write_error(
                components@,
                plane_lens@,
                start_row as nat,
                max_v_samp_factor as int,
                0,
            ) == first_write_error(
                components@,
                plane_lens@,
                start_row as nat,
                max_v_samp_factor as int,
                ci as int,
            ),
            forall|cj: int|
                0 <= cj < ci ==> spec_write_rows(
                    components@[cj],
                    plane_lens@[cj] as nat,
                    start_row as nat,
                    max_v_samp_factor as int,
                ) == Ok::<Seq<Option<usize>>, RawError>(#[trigger] table.rows_of(cj)),
            forall|cj: int, ri: int|
                ci <= cj < MAX_COMPONENTS && 0 <= ri < MAX_MCU_HEIGHT ==> table.row(cj, ri) is None,
        decreases num_components - ci,
    {
        let ghost before = table;
        match write_rows(&components[ci], plane_lens[ci], start_row, max_v_samp_factor) {
            Ok(rows) => {
                table.set_component(ci, rows);
                proof {
                    assert(table.rows_of(ci as int) =~= rows@);
                    assert forall|cj: int| 0 <= cj < ci implies #[trigger] table.rows_of(cj)
                        == before.rows_of(cj) by {
                        assert(table.rows_of(cj) =~= before.rows_of(cj));
                    }
                    assert(first_write_error(
                        components@,
                        plane_lens@,
                        start_row as nat,
                        max_v_samp_factor as int,
                        ci as int,
                    ) == first_write_error(
                        components@,
                        plane_lens@,
                        start_row as nat,
                        max_v_samp_factor as int,
                        ci + 1,
                    ));
                }
            },
            Err(error) => {
                assert(first_write_error(
                    components@,
                    plane_lens@,
                    start_row as nat,
                    max_v_samp_factor as int,
                    ci as int,
                ) == Some(error));
                return Err(error);
            },
        }
        ci += 1;
    }
    Ok(table)
}

/// What the engine's answer to a raw write of one MCU row means: an
/// engine that took no rows ends the writing, one that took the whole MCU
/// row lets it go on with the next, and any other number of rows is an
/// error.
pub open spec fn spec_raw_rows_written(start_row: u32, rows_written: u32, mcu_height: usize) -> Result<
    Option<u32>,
    RawError,
> {
    if rows_written == 0 {
        Ok(None)
    } else if rows_written != mcu_height {
        Err(RawError::PartialTransfer)
    } else if start_row + rows_written > u32::MAX {
        Ok(Some(u32::MAX))
    } else {
        Ok(Some((start_row + rows_written) as u32))
    }
}

/// What the engine's answer to a raw write means for the rows that
/// follow. The MCU row that was offered starts at row `start_row` of the
/// image and is `mcu_height` rows high, and the engine took `rows_written`
/// rows.
///
/// `Ok(None)` if the engine took no rows, which ends the writing, and else
/// the row of the image at which the next MCU row starts. A part of an MCU
/// row is `RawError::PartialTransfer`: the rows of the subsampled planes
/// that belong to it would no longer be known.
pub fn raw_rows_written(start_row: u32, rows_written: u32, mcu_height: usize) -> (next: Result<
    Option<u32>,
    RawError,
>)
    ensures
        next == spec_raw_rows_written(start_row, rows_written, mcu_height),
{
    if rows_written == 0 {
        Ok(None)
    } else if rows_written as usize != mcu_height {
        Err(RawError::PartialTransfer)
    } else {
        Ok(Some(start_row.saturating_add(rows_written)))
    }
}

/// What one component gets in a raw read of one MCU row: the number of
/// bytes by which its plane grows, and its rows in the table.
///
/// A plane of `len` bytes grows by a block row for each unit of the
/// component's vertical sampling factor. The rows of the table point at
/// the rows that were added, and the others are padding.
pub open spec fn spec_read_rows(comp: CompInfo, len: nat, max_v: int) -> Result<
    (nat, Seq<Option<usize>>),
    RawError,
> {
    let v = comp.v_samp_factor as int;
    let stride = row_stride_of(comp.width_in_blocks as nat);
    let height = 8 * v;
    if spec_mcu_height(max_v) is Err {
        Err(spec_mcu_height(max_v)->Err_0)
    } else if v < 1 || v > max_v {
        Err(RawError::BadSampling)
    } else if stride == 0 {
        Err(RawError::NoGeometry)
    } else if len + height * stride > usize::MAX {
        Err(RawError::PlaneTooLarge)
    } else {
        Ok(
            (
                (height * stride) as nat,
                Seq::new(
                    MAX_MCU_HEIGHT as nat,
                    |ri: int|
                        if ri < height {
                            Some((len + ri * stride) as usize)
                        } else {
                            None
                        },
                ),
            ),
        )
    }
}

/// The growth and the rows of one component in a raw read; see
/// [`spec_read_rows`].
pub fn read_rows(comp: &CompInfo, len: usize, max_v_samp_factor: i32) -> (rows: Result<
    (usize, [Option<usize>; MAX_MCU_HEIGHT]),
    RawError,
>)
    ensures
        match rows {
            Ok((growth, rows)) => spec_read_rows(*comp, len as nat, max_v_samp_factor as int)
                == Ok::<(nat, Seq<Option<usize>>), RawError>((growth as nat, rows@)),
            Err(error) => spec_read_rows(*comp, len as nat, max_v_samp_factor as int) == Err::<
                (nat, Seq<Option<usize>>),
                RawError,
            >(error),
        },
{
    let mcu_height = match mcu_height(max_v_samp_factor) {
        Ok(height) => height,
        Err(error) => {
            return Err(error);
        },
    };
    let v = comp.v_samp_factor;
    if v < 1 || v > max_v_samp_factor {
        return Err(RawError::BadSampling);
    }
    if comp.width_in_blocks == 0 {
        return Err(RawError::NoGeometry);
    }
    let size: u64 = dct_size() as u64;
    let blocks_wide: u64 = comp.width_in_blocks as u64;
    assert(blocks_wide * size == row_stride_of(comp.width_in_blocks as nat));
    let row_stride: u64 = blocks_wide * size;
    let height: u64 = size * v as u64;
    assert(height * row_stride <= 16 * row_stride) by (nonlinear_arith)
        requires
            height <= 16,
    ;
    let growth: u64 = height * row_stride;
    if growth > usize::MAX as u64 || len > usize::MAX - growth as usize {
        return Err(RawError::PlaneTooLarge);
    }
    let none: Option<usize> = None;
    let mut rows: [Option<usize>; MAX_MCU_HEIGHT] = [none;MAX_MCU_HEIGHT];
    let ghost want = spec_read_rows(*comp, len as nat, max_v_samp_factor as int)->Ok_0.1;
    let mut ri: usize = 0;
    while ri < MAX_MCU_HEIGHT
        invariant
            ri <= MAX_MCU_HEIGHT,
            row_stride > 0,
            8 <= height <= 16,
            len + height * row_stride <= usize::MAX,
            want.len() == MAX_MCU_HEIGHT,
            forall|k: int|
                0 <= k < MAX_MCU_HEIGHT ==> #[trigger] want[k] == if k < height {
                    Some((len + k * row_stride) as usize)
                } else {
                    None
                },
            forall|k: int| 0 <= k < ri ==> #[trigger] rows@[k] == want[k],
            forall|k: int| ri <= k < MAX_MCU_HEIGHT ==> (#[trigger] rows@[k]) is None,
        decreases MAX_MCU_HEIGHT - ri,
    {
        if (ri as u64) < height {
            assert(ri * row_stride <= height * row_stride) by (nonlinear_arith)
                requires
                    ri < height,
                    row_stride > 0,
            ;
            let start: u64 = len as u64 + ri as u64 * row_stride;
            rows[ri] = Some(start as usize);
        }
        ri += 1;
    }
    assert(rows@ =~= want);
    Ok((growth as usize, rows))
}

/// The error of the first component, from index `from` on, that cannot
/// take part in a raw read.
pub open spec fn first_read_error(
    components: Seq<CompInfo>,
    planes: Seq<Vec<u8>>,
    max_v: int,
    from: int,
) -> Option<RawError>
    decreases components.len() - from,
{
    if from < 0 || from >= components.len() {
        None
    } else {
        match spec_read_rows(components[from], planes[from]@.len(), max_v) {
            Err(error) => Some(error),
            Ok(_) => first_read_error(components, planes, max_v, from + 1),
        }
    }
}

/// Why no MCU row can be read raw, if none can. The conditions are tested
/// in this order: raw reading must be switched on; an MCU row must fit a
/// table of rows; there must be at most four components and a plane for
/// each; and each component, in turn, must have rows.
pub open spec fn read_chunk_error(
    raw_data_out: bool,
    max_v: int,
    components: Seq<CompInfo>,
    planes: Seq<Vec<u8>>,
) -> Option<RawError> {
    if !raw_data_out {
        Some(RawError::RawDataNotSet)
    } else if spec_mcu_height(max_v) is Err {
        Some(spec_mcu_height(max_v)->Err_0)
    } else if components.len() > MAX_COMPONENTS || components.len() > planes.len() {
        Some(RawError::TooManyComponents)
    } else {
        first_read_error(components, planes, max_v, 0)
    }
}

/// Whether component `ci` has its share in a raw read of one MCU row:
/// its plane has grown by the zeroed rows that [`spec_read_rows`] gives it,
/// and those rows are its rows in `table`.
pub open spec fn has_read_share(
    table: RowPointers,
    grown: Seq<u8>,
    comp: CompInfo,
    plane: Seq<u8>,
    max_v: int,
    ci: int,
) -> bool {
    &&& spec_read_rows(comp, plane.len(), max_v) matches Ok((growth, rows))
    &&& rows =~= table.rows_of(ci)
    &&& grown =~= plane + zeros(growth)
}

/// Whether `table` and `grown` are what a raw read of one MCU row makes of
/// the planes `planes`: each component has its share, and everything else
/// is as it was, or padding.
pub open spec fn is_read_chunk(
    table: RowPointers,
    grown: Seq<Vec<u8>>,
    components: Seq<CompInfo>,
    planes: Seq<Vec<u8>>,
    max_v: int,
) -> bool {
    &&& components.len() <= MAX_COMPONENTS
    &&& components.len() <= planes.len()
    &&& grown.len() == planes.len()
    &&& forall|ci: int|
        0 <= ci < components.len() ==> #[trigger] has_read_share(
            table,
            grown[ci]@,
            components[ci],
            planes[ci]@,
            max_v,
            ci,
        )
    &&& forall|ci: int|
        components.len() <= ci < planes.len() ==> (#[trigger] grown[ci])@ =~= planes[ci]@
    &&& forall|ci: int, ri: int|
        components.len() <= ci < MAX_COMPONENTS && 0 <= ri < MAX_MCU_HEIGHT ==> (#[trigger] table.row(
            ci,
            ri,
        )) is None
}

/// Makes room in the planes for one MCU row of a raw read, and returns the
/// table of rows that the engine is given to write it to.
///
/// Each component's plane grows by exactly the rows of its share of the
/// MCU row. Where the read cannot be made, the planes are left as they
/// were and the first condition that fails is returned.
pub fn read_raw_data_chunk(
    raw_data_out: bool,
    max_v_samp_factor: i32,
    components: &Vec<CompInfo>,
    image_dest: &mut Vec<Vec<u8>>,
) -> (table: Result<RowPointers, RawError>)
    ensures
        match table {
            Ok(table) => {
                &&& read_chunk_error(
                    raw_data_out,
                    max_v_samp_factor as int,
                    components@,
                    old(image_dest)@,
                ) is None
                &&& is_read_chunk(
                    table,
                    final(image_dest)@,
                    components@,
                    old(image_dest)@,
                    max_v_samp_factor as int,
                )
            },
            Err(error) => {
                &&& read_chunk_error(
                    raw_data_out,
                    max_v_samp_factor as int,
                    components@,
                    old(image_dest)@,
                ) == Some(error)
                &&& final(image_dest)@ == old(image_dest)@
            },
        },
{
    if !raw_data_out {
        return Err(RawError::RawDataNotSet);
    }
    match mcu_height(max_v_samp_factor) {
        Ok(_) => {},
        Err(error) => {
            return Err(error);
        },
    }
    let num_components = components.len();
    if num_components > MAX_COMPONENTS || num_components > image_dest.len() {
        return Err(RawError::TooManyComponents);
    }
    // Every component is looked at before any plane grows, so that a
    // refusal leaves the planes untouched.
    let mut table = RowPointers::new();
    let mut growths: Vec<usize> = Vec::new();
    let mut ci: usize = 0;
    while ci < num_components
        invariant
            ci <= num_components,
            num_components == components@.len(),
            num_components <= image_dest@.len(),
            num_components <= MAX_COMPONENTS,
            image_dest@ == old(image_dest)@,
            growths@.len() == ci,
            raw_data_out,
            spec_mcu_height(max_v_samp_factor as int) is Ok,
            forall|cj: int|
                0 <= cj < ci ==> image_dest@[cj]@.len() + (#[trigger] growths@[cj]) <= usize::MAX,
            first_read_error(components@, image_dest@, max_v_samp_factor as int, 0)
                == first_read_error(components@, image_dest@, max_v_samp_factor as int, ci as int),
            forall|cj: int|
                0 <= cj < ci ==> spec_read_rows(
                    components@[cj],
                    image_dest@[cj]@.len(),
                    max_v_samp_factor as int,
                ) == Ok::<(nat, Seq<Option<usize>>), RawError>(
                    (growths@[cj] as nat, #[trigger] table.rows_of(cj)),
                ),
            forall|cj: int, ri: int|
                ci <= cj < MAX_COMPONENTS && 0 <= ri < MAX_MCU_HEIGHT ==> table.row(cj, ri) is None,
        decreases num_components - ci,
    {
        let ghost before = table;
        match read_rows(&components[ci], image_dest[ci].len(), max_v_samp_factor) {
            Ok((growth, rows)) => {
                table.set_component(ci, rows);
                growths.push(growth);
                proof {
                    assert(spec_read_rows(
                        components@[ci as int],
                        image_dest@[ci as int]@.len(),
                        max_v_samp_factor as int,
                    ) is Ok);
                    assert(image_dest@[ci as int]@.len() + growth <= usize::MAX);
                    assert(table.rows_of(ci as int) =~= rows@);
                    assert forall|cj: int| 0 <= cj < ci implies #[trigger] table.rows_of(cj)
                        == before.rows_of(cj) by {
                        assert(table.rows_of(cj) =~= before.rows_of(cj));
                    }
                    assert(first_read_error(
                        components@,
                        image_dest@,
                        max_v_samp_factor as int,
                        ci as int,
                    ) == first_read_error(
                        components@,
                        image_dest@,
                        max_v_samp_factor as int,
                        ci + 1,
                    ));
                }
            },
            Err(error) => {
                assert(first_read_error(
                    components@,
                    image_dest@,
                    max_v_samp_factor as int,
                    ci as int,
                ) == Some(error));
                return Err(error);
            },
        }
        ci += 1;
    }
    assert(read_chunk_error(
        raw_data_out,
        max_v_samp_factor as int,
        components@,
        old(image_dest)@,
    ) is None);
    let mut cj: usize = 0;
    while cj < num_components
        invariant
            cj <= num_components,
            num_components == components@.len(),
            num_components <= old(image_dest)@.len(),
            num_components <= MAX_COMPONENTS,
            image_dest@.len() == old(image_dest)@.len(),
            growths@.len() == num_components,
            read_chunk_error(
                raw_data_out,
                max_v_samp_factor as int,
                components@,
                old(image_dest)@,
            ) is None,
            forall|ck: int|
                0 <= ck < num_components ==> spec_read_rows(
                    components@[ck],
                    old(image_dest)@[ck]@.len(),
                    max_v_samp_factor as int,
                ) == Ok::<(nat, Seq<Option<usize>>), RawError>(
                    (growths@[ck] as nat, #[trigger] table.rows_of(ck)),
                ),
            forall|ck: int, ri: int|
                num_components <= ck < MAX_COMPONENTS && 0 <= ri < MAX_MCU_HEIGHT ==> table.row(
                    ck,
                    ri,
                ) is None,
            forall|ck: int|
                0 <= ck < num_components ==> old(image_dest)@[ck]@.len() + (
                #[trigger] growths@[ck]) <= usize::MAX,
            forall|ck: int|
                0 <= ck < cj ==> (#[trigger] image_dest@[ck])@ == old(image_dest)@[ck]@ + zeros(
                    growths@[ck] as nat,
                ),
            forall|ck: int|
                cj <= ck < image_dest@.len() ==> #[trigger] image_dest@[ck] == old(image_dest)@[ck],
        decreases num_components - cj,
    {
        let growth = growths[cj];
        image_dest[cj].extend_uninit(growth);
        cj += 1;
    }
    proof {
        let planes = old(image_dest)@;
        let grown = image_dest@;
        let max_v = max_v_samp_factor as int;
        assert forall|ci: int| 0 <= ci < components@.len() implies #[trigger] has_read_share(
            table,
            grown[ci]@,
            components@[ci],
            planes[ci]@,
            max_v,
            ci,
        ) by {
            assert(grown[ci]@ == planes[ci]@ + zeros(growths@[ci] as nat));
            let r = spec_read_rows(components@[ci], planes[ci]@.len(), max_v);
            assert(r == Ok::<(nat, Seq<Option<usize>>), RawError>(
                (growths@[ci] as nat, table.rows_of(ci)),
            ));
        }
    }
    Ok(table)
}

/// Whether the engine moved exactly one MCU row in a raw read. Any other
/// number of rows is fatal: the height of the subsampled planes would no
/// longer be known.
pub fn check_lines_read(lines_read: u32, mcu_height: usize) -> (done: Result<(), RawError>)
    ensures
        done == if lines_read == mcu_height {
            Ok::<(), RawError>(())
        } else {
            Err(RawError::PartialTransfer)
        },
{
    if lines_read as usize == mcu_height {
        Ok(())
    } else {
        Err(RawError::PartialTransfer)
    }
}

} // verus!
