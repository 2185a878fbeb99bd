//! Quantization tables: 64 coefficient quantizers in natural order.
use vstd::prelude::*;
use vstd::std_specs::cmp::PartialEqSpecImpl;

verus! {

/// One quantization table.
#[derive(Debug)]
pub struct QTable {
    pub(crate) coeffs: [u32; 64],
}

impl View for QTable {
    type V = Seq<u32>;

    /// The 64 quantizers, in natural (not zigzag) order.
    closed spec fn view(&self) -> Seq<u32> {
        self.coeffs@
    }
}

impl QTable {
    /// A table of the given quantizers.
    pub fn new(coeffs: [u32; 64]) -> (table: QTable)
        ensures
            table@ == coeffs@,
    {
        QTable { coeffs }
    }

    /// The table's quantizers.
    pub fn coeffs(&self) -> (coeffs: [u32; 64])
        ensures
            coeffs@ == self@,
    {
        self.coeffs
    }
}

impl PartialEq for QTable {
    fn eq(&self, other: &Self) -> (equal: bool) {
        let mut i: usize = 0;
        while i < 64
            invariant
                i <= 64,
                forall|k: int| 0 <= k < i ==> self.coeffs@[k] == other.coeffs@[k],
            decreases 64 - i,
        {
            if self.coeffs[i] != other.coeffs[i] {
                return false;
            }
            i += 1;
        }
        assert(self.coeffs@ =~= other.coeffs@);
        true
    }
}

impl PartialEqSpecImpl for QTable {
    open spec fn obeys_eq_spec() -> bool {
        true
    }

    /// Two tables are equal when all 64 quantizers agree.
    open spec fn eq_spec(&self, other: &Self) -> bool {
        self@ == other@
    }
}

} // verus!
