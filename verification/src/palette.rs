//! The palette table: 256 channel-encoded colors addressed by an 8-bit index.
//!
//! Because the index type is 8 bits wide and the table always holds exactly
//! 256 entries, no out-of-range access is representable and no operation here
//! can fail. Entries carry no ordering or uniqueness invariant: the same
//! color may sit at several indices.

use vstd::prelude::*;

use crate::channel::{
    channel_b, channel_g, channel_r, channel_with_rgb8, ncchannel_b, ncchannel_g, ncchannel_r,
    ncchannel_set_rgb8,
};
use crate::{NcChannel, NcPaletteIndex};

verus! {

/// An ordered table of exactly 256 channel-encoded color entries.
pub struct NcPalette {
    chans: Vec<NcChannel>,
}

impl View for NcPalette {
    type V = Seq<NcChannel>;

    closed spec fn view(&self) -> Seq<NcChannel> {
        self.chans@
    }
}

impl NcPalette {
    /// Every 8-bit index is valid: the table holds exactly 256 entries.
    pub open spec fn wf(&self) -> bool {
        self@.len() == 256
    }

    /// A new table with every entry zeroed: each entry starts as the default
    /// color with opaque alpha.
    pub fn new() -> (p: Self)
        ensures
            p.wf(),
            forall|i: int| 0 <= i < 256 ==> p@[i] == 0u32,
    {
        let mut chans: Vec<NcChannel> = Vec::new();
        let mut i: usize = 0;
        while i < 256
            invariant
                i <= 256,
                chans@.len() == i,
                forall|j: int| 0 <= j < i ==> chans@[j] == 0u32,
            decreases 256 - i,
        {
            chans.push(0);
            i = i + 1;
        }
        NcPalette { chans }
    }
}

/// Gets the entry at `index`.
pub fn ncpalette_get(palette: &NcPalette, index: NcPaletteIndex) -> (c: NcChannel)
    requires
        palette.wf(),
    ensures
        c == palette@[index as int],
{
    palette.chans[index as usize]
}

/// Overwrites the entry at `index`, leaving every other entry untouched.
pub fn ncpalette_set(palette: &mut NcPalette, index: NcPaletteIndex, channel: NcChannel)
    requires
        old(palette).wf(),
    ensures
        final(palette).wf(),
        final(palette)@ == old(palette)@.update(index as int, channel),
{
    palette.chans[index as usize] = channel;
}

/// Gets the three RGB components of the entry at `index`.
pub fn ncpalette_get_rgb8(palette: &NcPalette, index: NcPaletteIndex) -> (rgb: (u8, u8, u8))
    requires
        palette.wf(),
    ensures
        rgb.0 == channel_r(palette@[index as int]),
        rgb.1 == channel_g(palette@[index as int]),
        rgb.2 == channel_b(palette@[index as int]),
{
    let c = ncpalette_get(palette, index);
    (ncchannel_r(c), ncchannel_g(c), ncchannel_b(c))
}

/// Sets the three RGB components of the entry at `index`, switching that
/// entry into RGB mode as the channel codec does, and leaving every other
/// entry untouched.
pub fn ncpalette_set_rgb8(palette: &mut NcPalette, index: NcPaletteIndex, r: u8, g: u8, b: u8)
    requires
        old(palette).wf(),
    ensures
        final(palette).wf(),
        final(palette)@ == old(palette)@.update(
            index as int,
            channel_with_rgb8(old(palette)@[index as int], r, g, b),
        ),
{
    let mut c = ncpalette_get(palette, index);
    ncchannel_set_rgb8(&mut c, r, g, b);
    ncpalette_set(palette, index, c);
}

} // verus!
