//! One color plane of an image, as the codec engine describes it, and the
//! padded size of the plane in samples.
use vstd::prelude::*;
use crate::engine::dct_size;
use crate::qtable::QTable;

verus! {

/// Descriptor of one component (color plane).
///
/// The sampling factors are chosen by the caller before compression, or read
/// from the file's header before decompression. The block counts are filled
/// in by the engine once it has computed the image's geometry; until then
/// they are zero.
#[derive(Clone, Copy, Debug)]
pub struct CompInfo {
    /// identifier for this component (0..255)
    pub component_id: i32,
    /// its index in the frame's list of components
    pub component_index: i32,
    /// horizontal sampling factor (1..4)
    pub h_samp_factor: i32,
    /// vertical sampling factor (1..4)
    pub v_samp_factor: i32,
    /// quantization table selector (0..3)
    pub quant_tbl_no: i32,
    /// DC entropy table selector (0..3)
    pub dc_tbl_no: i32,
    /// AC entropy table selector (0..3)
    pub ac_tbl_no: i32,
    /// number of 8x8 blocks in one row of the plane
    pub width_in_blocks: u32,
    /// number of rows of 8x8 blocks in the plane
    pub height_in_blocks: u32,
    /// the quantizers assigned to this component, once known
    pub quant_table: Option<[u16; 64]>,
}

/// Number of samples in one row of a plane that is `width_in_blocks` blocks
/// wide, padding included.
pub open spec fn row_stride_of(width_in_blocks: nat) -> nat {
    width_in_blocks * 8
}

/// Number of rows of a plane that is `height_in_blocks` blocks high, padding
/// included.
pub open spec fn col_stride_of(height_in_blocks: nat) -> nat {
    height_in_blocks * 8
}

/// Number of bytes that a whole plane occupies.
pub open spec fn plane_len_of(width_in_blocks: nat, height_in_blocks: nat) -> nat {
    row_stride_of(width_in_blocks) * col_stride_of(height_in_blocks)
}

/// The quantizers of a table as the 32-bit coefficients of a [`QTable`].
pub open spec fn widened(quantval: Seq<u16>) -> Seq<u32> {
    Seq::new(quantval.len(), |i: int| quantval[i] as u32)
}

pub trait CompInfoExt {
    /// The component's width in blocks.
    spec fn blocks_wide(&self) -> nat;

    /// The component's height in blocks.
    spec fn blocks_high(&self) -> nat;

    /// The horizontal and the vertical sampling factor.
    spec fn factors(&self) -> (int, int);

    /// The component's quantizers, if it has any.
    spec fn quantizers(&self) -> Option<Seq<u16>>;

    /// Number of pixels per row, including padding to MCU
    fn row_stride(&self) -> (stride: usize)
        requires
            self.blocks_wide() > 0,
            row_stride_of(self.blocks_wide()) <= usize::MAX,
        ensures
            stride == row_stride_of(self.blocks_wide()),
            stride % 8 == 0,
            stride >= 8,
    ;

    /// Total height, including padding to MCU
    fn col_stride(&self) -> (stride: usize)
        requires
            self.blocks_high() > 0,
            col_stride_of(self.blocks_high()) <= usize::MAX,
        ensures
            stride == col_stride_of(self.blocks_high()),
            stride % 8 == 0,
            stride >= 8,
    ;

    /// h,v sampling (1..4), each truncated to a byte.
    fn sampling(&self) -> (hv: (u8, u8))
        ensures
            hv.0 == self.factors().0 as u8,
            hv.1 == self.factors().1 as u8,
    ;

    /// Quantization table, if available
    fn qtable(&self) -> (table: Option<QTable>)
        ensures
            match self.quantizers() {
                Some(quantval) => table matches Some(t) && t@ == widened(quantval),
                None => table is None,
            },
    ;

    /// Number of blocks per row
    fn width_in_blocks(&self) -> (blocks: usize)
        ensures
            blocks == self.blocks_wide(),
    ;

    /// Number of block rows
    fn height_in_blocks(&self) -> (blocks: usize)
        ensures
            blocks == self.blocks_high(),
    ;
}

impl CompInfoExt for CompInfo {
    open spec fn blocks_wide(&self) -> nat {
        self.width_in_blocks as nat
    }

    open spec fn blocks_high(&self) -> nat {
        self.height_in_blocks as nat
    }

    open spec fn factors(&self) -> (int, int) {
        (self.h_samp_factor as int, self.v_samp_factor as int)
    }

    open spec fn quantizers(&self) -> Option<Seq<u16>> {
        match self.quant_table {
            Some(quantval) => Some(quantval@),
            None => None,
        }
    }

    fn qtable(&self) -> (table: Option<QTable>) {
        match self.quant_table {
            Some(quantval) => {
                let mut coeffs: [u32; 64] = [0u32;64];
                let mut i: usize = 0;
                while i < 64
                    invariant
                        i <= 64,
                        forall|k: int| 0 <= k < i ==> coeffs@[k] == quantval@[k] as u32,
                    decreases 64 - i,
                {
                    coeffs[i] = quantval[i] as u32;
                    i += 1;
                }
                let table = QTable::new(coeffs);
                assert(table@ =~= widened(quantval@));
                Some(table)
            },
            None => None,
        }
    }

    fn sampling(&self) -> (hv: (u8, u8)) {
        (
            #[verifier::truncate]
            (self.h_samp_factor as u8),
            #[verifier::truncate]
            (self.v_samp_factor as u8),
        )
    }

    fn row_stride(&self) -> (stride: usize) {
        let size: usize = dct_size();
        let blocks: usize = self.width_in_blocks as usize;
        assert(blocks * size == row_stride_of(self.blocks_wide()));
        blocks * size
    }

    fn col_stride(&self) -> (stride: usize) {
        let size: usize = dct_size();
        let blocks: usize = self.height_in_blocks as usize;
        assert(blocks * size == col_stride_of(self.blocks_high()));
        blocks * size
    }

    fn width_in_blocks(&self) -> (blocks: usize) {
        self.width_in_blocks as usize
    }

    fn height_in_blocks(&self) -> (blocks: usize) {
        self.height_in_blocks as usize
    }
}

impl CompInfo {
    /// A component with the given sampling factors, whose geometry the
    /// engine has not computed yet.
    pub fn new(component_index: i32, h_samp_factor: i32, v_samp_factor: i32) -> (comp: CompInfo)
        ensures
            comp.component_index == component_index,
            comp.component_id == component_index,
            comp.h_samp_factor == h_samp_factor,
            comp.v_samp_factor == v_samp_factor,
            comp.quant_tbl_no == 0,
            comp.dc_tbl_no == 0,
            comp.ac_tbl_no == 0,
            comp.width_in_blocks == 0,
            comp.height_in_blocks == 0,
            comp.quant_table is None,
    {
        CompInfo {
            component_id: component_index,
            component_index,
            h_samp_factor,
            v_samp_factor,
            quant_tbl_no: 0,
            dc_tbl_no: 0,
            ac_tbl_no: 0,
            width_in_blocks: 0,
            height_in_blocks: 0,
            quant_table: None,
        }
    }

    /// Whether both sampling factors lie in the range that the codec
    /// accepts, 1 to 4.
    pub open spec fn valid_sampling(&self) -> bool {
        1 <= self.h_samp_factor <= 4 && 1 <= self.v_samp_factor <= 4
    }

    /// Whether the engine has filled in the block counts.
    pub open spec fn has_geometry(&self) -> bool {
        self.width_in_blocks > 0 && self.height_in_blocks > 0
    }
}

/// The padded strides are whole numbers of blocks: each is 8 times its
/// block count, a multiple of 8, and at least 8 once the count is known;
/// and a plane holds exactly 64 samples per block. This holds of every
/// block count, whatever the sampling factors and the machine's word.
pub proof fn lemma_strides_are_block_multiples(width_in_blocks: nat, height_in_blocks: nat)
    ensures
        row_stride_of(width_in_blocks) == 8 * width_in_blocks,
        col_stride_of(height_in_blocks) == 8 * height_in_blocks,
        row_stride_of(width_in_blocks) % 8 == 0,
        col_stride_of(height_in_blocks) % 8 == 0,
        width_in_blocks >= 1 ==> row_stride_of(width_in_blocks) >= 8,
        height_in_blocks >= 1 ==> col_stride_of(height_in_blocks) >= 8,
        plane_len_of(width_in_blocks, height_in_blocks) == 64 * (width_in_blocks
            * height_in_blocks),
{
    assert((width_in_blocks * 8) * (height_in_blocks * 8) == 64 * (width_in_blocks
        * height_in_blocks)) by (nonlinear_arith);
}

} // verus!
