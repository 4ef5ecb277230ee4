//! Address arithmetic used by the allocators.

use vstd::prelude::*;

verus! {

/// Rounds `addr` up to the next multiple of `align`.
pub fn align_up(addr: usize, align: usize) -> (r: usize)
    requires
        align >= 1,
        addr + align <= usize::MAX,
    ensures
        r as int % align as int == 0,
        addr <= r < addr + align,
{
    let remainder = addr % align;
    if remainder == 0 {
        proof {
            assert(addr as int % align as int == 0);
        }
        addr
    } else {
        proof {
            assert(addr % align < align && addr % align <= addr) by (nonlinear_arith)
                requires
                    align >= 1,
            ;
            assert((addr - addr % align + align) as int % align as int == 0) by (nonlinear_arith)
                requires
                    align >= 1,
            ;
        }
        addr - remainder + align
    }
}

} // verus!
