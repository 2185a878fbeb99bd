//! Growing a byte buffer ahead of a transfer that fills it.
use vstd::prelude::*;

verus! {

/// `n` zero bytes.
pub open spec fn zeros(n: nat) -> Seq<u8> {
    Seq::new(n, |i: int| 0u8)
}

pub trait VecUninitExtender {
    /// The buffer's contents.
    spec fn contents(&self) -> Seq<u8>;

    /// Lengthens the buffer by `items` bytes, which the transfer that
    /// follows overwrites. Until then they are zero.
    fn extend_uninit(&mut self, items: usize)
        requires
            old(self).contents().len() + items <= usize::MAX,
        ensures
            final(self).contents() == old(self).contents() + zeros(items as nat),
    ;
}

impl VecUninitExtender for Vec<u8> {
    open spec fn contents(&self) -> Seq<u8> {
        self@
    }

    fn extend_uninit(&mut self, items: usize) {
        let ghost before = self@;
        let mut added: usize = 0;
        while added < items
            invariant
                added <= items,
                before.len() + items <= usize::MAX,
                self@ == before + zeros(added as nat),
            decreases items - added,
        {
            self.push(0u8);
            added += 1;
            assert(self@ =~= before + zeros(added as nat));
        }
    }
}

} // verus!
