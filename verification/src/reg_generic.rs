//! Generic clocked register: synchronous update with active-high reset and
//! clock enable, holding its value when neither applies. Data is masked to
//! the configured width on every update.
use vstd::prelude::*;

verus! {

/// All-ones mask over the low `width` bits (width at most 32).
pub open spec fn spec_low_mask(width: u32) -> u32
    recommends
        width <= 32,
{
    if width == 32 {
        0xFFFF_FFFFu32
    } else {
        ((1u32 << width) - 1) as u32
    }
}

/// The register output after one clock edge.
pub open spec fn spec_reg_next(width: u32, out: u32, rst: bool, en: bool, data_in: u32) -> u32 {
    if rst {
        0
    } else if en {
        data_in & spec_low_mask(width)
    } else {
        out
    }
}

/// A width-parameterized synchronous register.
pub struct RegGeneric {
    pub data_out: u32,
    pub width: u32,
}

impl RegGeneric {
    /// Well-formed: the width fits the 32-bit storage.
    pub open spec fn wf(&self) -> bool {
        self.width <= 32
    }

    /// A fresh register of the given width, holding 0.
    pub fn new(width: u32) -> (r: Self)
        requires
            width <= 32,
        ensures
            r.wf(),
            r.data_out == 0,
            r.width == width,
    {
        RegGeneric { data_out: 0, width }
    }

    /// One clock edge: reset dominates, then clock enable, else hold.
    pub fn tick(&mut self, rst: bool, en: bool, data_in: u32)
        requires
            old(self).wf(),
        ensures
            final(self).wf(),
            final(self).width == old(self).width,
            final(self).data_out == spec_reg_next(
                old(self).width,
                old(self).data_out,
                rst,
                en,
                data_in,
            ),
    {
        if rst {
            self.data_out = 0;
        } else if en {
            let w = self.width;
            assert(w < 32 ==> 1u32 << w >= 1) by (bit_vector);
            let mask = if w == 32 {
                0xFFFF_FFFF
            } else {
                (1u32 << w) - 1
            };
            self.data_out = data_in & mask;
        }
    }
}

} // verus!
