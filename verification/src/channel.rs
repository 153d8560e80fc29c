//! The channel codec: encoding and decoding of a single 32-bit color channel.
//!
//! Every operation is a pure function over the packed word (or an in-place
//! update through an exclusive reference). The spec functions below are the
//! word layout itself: each executable function's contract says exactly which
//! word it produces, and the lemmas relate the fields of the produced word to
//! the fields of the input.

use vstd::prelude::*;

use crate::{NcAlpha, NcChannel, NcError, NcPaletteIndex, NcRgb};
use crate::{
    NCALPHA_OPAQUE, NC_BGDEFAULT_MASK, NC_BG_ALPHA_MASK, NC_BG_PALETTE, NC_BG_RGB_MASK,
    NC_NOBACKGROUND_MASK,
};

verus! {

// ---------------------------------------------------------------------------
// The mathematical model: what each field of a channel word is.
// ---------------------------------------------------------------------------

/// The channel uses the terminal's default color: NOT-DEFAULT is clear.
pub open spec fn channel_default_p(c: NcChannel) -> bool {
    c & NC_BGDEFAULT_MASK == 0
}

/// The channel's color is a palette index: NOT-DEFAULT and PALETTE both set.
pub open spec fn channel_palindex_p(c: NcChannel) -> bool {
    c & NC_BGDEFAULT_MASK != 0 && c & NC_BG_PALETTE != 0
}

/// The channel's color is a true-color RGB triple: NOT-DEFAULT set, PALETTE
/// clear.
pub open spec fn channel_rgb_p(c: NcChannel) -> bool {
    c & NC_BGDEFAULT_MASK != 0 && c & NC_BG_PALETTE == 0
}

/// The 2-bit alpha field, unshifted.
pub open spec fn channel_alpha(c: NcChannel) -> NcAlpha {
    c & NC_BG_ALPHA_MASK
}

/// The red component.
pub open spec fn channel_r(c: NcChannel) -> u8 {
    ((c & 0x00ff_0000) >> 16) as u8
}

/// The green component.
pub open spec fn channel_g(c: NcChannel) -> u8 {
    ((c & 0x0000_ff00) >> 8) as u8
}

/// The blue component.
pub open spec fn channel_b(c: NcChannel) -> u8 {
    (c & 0x0000_00ff) as u8
}

/// The 24-bit RGB triple.
pub open spec fn channel_rgb(c: NcChannel) -> NcRgb {
    c & NC_BG_RGB_MASK
}

/// The palette index: the low byte.
pub open spec fn channel_palindex(c: NcChannel) -> NcPaletteIndex {
    (c & 0x0000_00ff) as u8
}

/// The channel with its red component replaced; every other bit is kept.
pub open spec fn channel_with_r(c: NcChannel, r: u8) -> NcChannel {
    (c & !0x00ff_0000) | ((r as u32) << 16)
}

/// The channel with its green component replaced; every other bit is kept.
pub open spec fn channel_with_g(c: NcChannel, g: u8) -> NcChannel {
    (c & !0x0000_ff00) | ((g as u32) << 8)
}

/// The channel with its blue component replaced; every other bit is kept.
pub open spec fn channel_with_b(c: NcChannel, b: u8) -> NcChannel {
    (c & !0x0000_00ff) | (b as u32)
}

/// The channel switched into RGB mode and holding the triple `(r, g, b)`:
/// PALETTE is cleared, NOT-DEFAULT is set, alpha and the flag bits above the
/// color are kept.
pub open spec fn channel_with_rgb8(c: NcChannel, r: u8, g: u8, b: u8) -> NcChannel {
    (c & !(NC_BG_RGB_MASK | NC_BG_PALETTE)) | NC_BGDEFAULT_MASK
        | (((r as u32) << 16) | ((g as u32) << 8) | (b as u32))
}

/// The channel switched into RGB mode and holding the low 24 bits of `rgb`.
pub open spec fn channel_with_rgb(c: NcChannel, rgb: NcRgb) -> NcChannel {
    (c & !(NC_BG_RGB_MASK | NC_BG_PALETTE)) | NC_BGDEFAULT_MASK | (rgb & NC_BG_RGB_MASK)
}

/// The channel with its alpha field replaced by the (already valid, unshifted)
/// mode `a`. Entering any mode but opaque forces NOT-DEFAULT on: the other
/// modes are defined in terms of color blending, which the default color
/// cannot take part in.
pub open spec fn channel_with_alpha(c: NcChannel, a: NcAlpha) -> NcChannel {
    if a == NCALPHA_OPAQUE {
        c & !NC_BG_ALPHA_MASK
    } else {
        (a | (c & !NC_BG_ALPHA_MASK)) | NC_BGDEFAULT_MASK
    }
}

/// The channel reverted to the terminal's default color: NOT-DEFAULT is
/// cleared and alpha is forced back to opaque.
pub open spec fn channel_as_default(c: NcChannel) -> NcChannel {
    (c & !NC_BGDEFAULT_MASK) & !NC_BG_ALPHA_MASK
}

/// The channel with NOT-DEFAULT set and every other bit kept.
pub open spec fn channel_as_not_default(c: NcChannel) -> NcChannel {
    c | NC_BGDEFAULT_MASK
}

/// The channel switched into palette-indexed mode holding `index`: alpha is
/// forced to opaque, the color bits below the flag byte are cleared,
/// NOT-DEFAULT and PALETTE are set, and the index lands in the low byte.
pub open spec fn channel_with_palindex(c: NcChannel, index: NcPaletteIndex) -> NcChannel {
    ((c & !NC_BG_ALPHA_MASK) & 0xff00_0000) | NC_BGDEFAULT_MASK | NC_BG_PALETTE | (index as u32)
}

// ---------------------------------------------------------------------------
// The laws of the model.
// ---------------------------------------------------------------------------

/// A channel is in exactly one of the three color modes, and RGB mode is
/// precisely the absence of the other two.
pub proof fn lemma_channel_modes(c: NcChannel)
    ensures
        channel_rgb_p(c) == !(channel_default_p(c) || channel_palindex_p(c)),
        channel_default_p(c) || channel_rgb_p(c) || channel_palindex_p(c),
        !(channel_default_p(c) && channel_rgb_p(c)),
        !(channel_default_p(c) && channel_palindex_p(c)),
        !(channel_rgb_p(c) && channel_palindex_p(c)),
{
}

/// Writing an RGB triple stores exactly that triple, puts the channel in RGB
/// mode, and leaves alpha and the no-background flag as they were.
pub proof fn lemma_channel_with_rgb8(c: NcChannel, r: u8, g: u8, b: u8)
    by (bit_vector)
    ensures
        channel_r(channel_with_rgb8(c, r, g, b)) == r,
        channel_g(channel_with_rgb8(c, r, g, b)) == g,
        channel_b(channel_with_rgb8(c, r, g, b)) == b,
        channel_rgb(channel_with_rgb8(c, r, g, b)) == ((r as u32) << 16) | ((g as u32) << 8) | (
        b as u32),
        channel_rgb_p(channel_with_rgb8(c, r, g, b)),
        !channel_default_p(channel_with_rgb8(c, r, g, b)),
        !channel_palindex_p(channel_with_rgb8(c, r, g, b)),
        channel_alpha(channel_with_rgb8(c, r, g, b)) == channel_alpha(c),
        channel_with_rgb8(c, r, g, b) & NC_NOBACKGROUND_MASK == c & NC_NOBACKGROUND_MASK,
{
}

/// Writing a packed 24-bit RGB value stores its three components, puts the
/// channel in RGB mode, and leaves alpha and the no-background flag alone.
pub proof fn lemma_channel_with_rgb(c: NcChannel, rgb: NcRgb)
    by (bit_vector)
    ensures
        channel_rgb(channel_with_rgb(c, rgb)) == rgb & NC_BG_RGB_MASK,
        channel_r(channel_with_rgb(c, rgb)) == ((rgb & 0x00ff_0000) >> 16) as u8,
        channel_g(channel_with_rgb(c, rgb)) == ((rgb & 0x0000_ff00) >> 8) as u8,
        channel_b(channel_with_rgb(c, rgb)) == (rgb & 0x0000_00ff) as u8,
        channel_rgb_p(channel_with_rgb(c, rgb)),
        !channel_default_p(channel_with_rgb(c, rgb)),
        !channel_palindex_p(channel_with_rgb(c, rgb)),
        channel_alpha(channel_with_rgb(c, rgb)) == channel_alpha(c),
        channel_with_rgb(c, rgb) & NC_NOBACKGROUND_MASK == c & NC_NOBACKGROUND_MASK,
{
}

/// Replacing one RGB component keeps the other two and the whole flag byte.
pub proof fn lemma_channel_with_component(c: NcChannel, r: u8, g: u8, b: u8)
    by (bit_vector)
    ensures
        channel_r(channel_with_r(c, r)) == r,
        channel_g(channel_with_r(c, r)) == channel_g(c),
        channel_b(channel_with_r(c, r)) == channel_b(c),
        channel_with_r(c, r) & 0xff00_0000 == c & 0xff00_0000,
        channel_g(channel_with_g(c, g)) == g,
        channel_r(channel_with_g(c, g)) == channel_r(c),
        channel_b(channel_with_g(c, g)) == channel_b(c),
        channel_with_g(c, g) & 0xff00_0000 == c & 0xff00_0000,
        channel_b(channel_with_b(c, b)) == b,
        channel_r(channel_with_b(c, b)) == channel_r(c),
        channel_g(channel_with_b(c, b)) == channel_g(c),
        channel_with_b(c, b) & 0xff00_0000 == c & 0xff00_0000,
{
}

/// Writing a valid alpha mode stores exactly that mode and keeps every bit
/// outside the alpha field and the NOT-DEFAULT flag; NOT-DEFAULT is forced on
/// by any mode but opaque and untouched by opaque.
pub proof fn lemma_channel_with_alpha(c: NcChannel, a: NcAlpha)
    by (bit_vector)
    requires
        a & !NC_BG_ALPHA_MASK == 0,
    ensures
        channel_alpha(channel_with_alpha(c, a)) == a,
        channel_with_alpha(c, a) & !(NC_BG_ALPHA_MASK | NC_BGDEFAULT_MASK) == c & !(
        NC_BG_ALPHA_MASK | NC_BGDEFAULT_MASK),
        channel_rgb(channel_with_alpha(c, a)) == channel_rgb(c),
        channel_r(channel_with_alpha(c, a)) == channel_r(c),
        channel_g(channel_with_alpha(c, a)) == channel_g(c),
        channel_b(channel_with_alpha(c, a)) == channel_b(c),
        channel_palindex(channel_with_alpha(c, a)) == channel_palindex(c),
        channel_with_alpha(c, a) & NC_BG_PALETTE == c & NC_BG_PALETTE,
        channel_with_alpha(c, a) & NC_NOBACKGROUND_MASK == c & NC_NOBACKGROUND_MASK,
        a == NCALPHA_OPAQUE ==> channel_default_p(channel_with_alpha(c, a)) == channel_default_p(
            c,
        ),
        a != NCALPHA_OPAQUE ==> !channel_default_p(channel_with_alpha(c, a)),
{
}

/// Reverting to the default color makes the channel default and opaque and
/// keeps every bit outside NOT-DEFAULT and the alpha field, the stale color
/// bits included.
pub proof fn lemma_channel_as_default(c: NcChannel)
    by (bit_vector)
    ensures
        channel_default_p(channel_as_default(c)),
        !channel_rgb_p(channel_as_default(c)),
        !channel_palindex_p(channel_as_default(c)),
        channel_alpha(channel_as_default(c)) == NCALPHA_OPAQUE,
        channel_as_default(c) & !(NC_BG_ALPHA_MASK | NC_BGDEFAULT_MASK) == c & !(NC_BG_ALPHA_MASK
            | NC_BGDEFAULT_MASK),
        channel_rgb(channel_as_default(c)) == channel_rgb(c),
        channel_palindex(channel_as_default(c)) == channel_palindex(c),
{
}

/// Setting NOT-DEFAULT keeps every other bit.
pub proof fn lemma_channel_as_not_default(c: NcChannel)
    by (bit_vector)
    ensures
        !channel_default_p(channel_as_not_default(c)),
        channel_as_not_default(c) & !NC_BGDEFAULT_MASK == c & !NC_BGDEFAULT_MASK,
        channel_alpha(channel_as_not_default(c)) == channel_alpha(c),
        channel_rgb(channel_as_not_default(c)) == channel_rgb(c),
        channel_palindex(channel_as_not_default(c)) == channel_palindex(c),
        channel_palindex_p(channel_as_not_default(c)) == (c & NC_BG_PALETTE != 0),
        channel_rgb_p(channel_as_not_default(c)) == (c & NC_BG_PALETTE == 0),
{
}

/// Writing a palette index stores exactly that index, puts the channel in
/// palette-indexed mode with opaque alpha, and keeps the no-background flag.
pub proof fn lemma_channel_with_palindex(c: NcChannel, index: NcPaletteIndex)
    by (bit_vector)
    ensures
        channel_palindex(channel_with_palindex(c, index)) == index,
        channel_palindex_p(channel_with_palindex(c, index)),
        !channel_default_p(channel_with_palindex(c, index)),
        !channel_rgb_p(channel_with_palindex(c, index)),
        channel_alpha(channel_with_palindex(c, index)) == NCALPHA_OPAQUE,
        channel_with_palindex(c, index) & NC_NOBACKGROUND_MASK == c & NC_NOBACKGROUND_MASK,
{
}

// ---------------------------------------------------------------------------
// Alpha.
// ---------------------------------------------------------------------------

/// Gets the alpha mode of a channel, unshifted: compare the result directly
/// against the `NCALPHA_*` constants.
pub fn ncchannel_alpha(channel: NcChannel) -> (a: NcAlpha)
    ensures
        a == channel_alpha(channel),
{
    channel & NC_BG_ALPHA_MASK
}

/// Sets the alpha mode of a channel.
///
/// Fails with [`NcError::InvalidAlphaBits`], leaving the channel unchanged,
/// if `alpha` has any bit set outside the 2-bit alpha field. Otherwise the
/// field is written and, unless the new mode is opaque, NOT-DEFAULT is forced
/// on.
pub fn ncchannel_set_alpha(channel: &mut NcChannel, alpha: NcAlpha) -> (r: Result<(), NcError>)
    ensures
        alpha & !NC_BG_ALPHA_MASK != 0 ==> r == Err::<(), NcError>(NcError::InvalidAlphaBits)
            && *final(channel) == *old(channel),
        alpha & !NC_BG_ALPHA_MASK == 0 ==> r == Ok::<(), NcError>(()) && *final(channel)
            == channel_with_alpha(*old(channel), alpha) && channel_alpha(*final(channel)) == alpha
            && channel_rgb(*final(channel)) == channel_rgb(*old(channel)) && channel_palindex(
            *final(channel),
        ) == channel_palindex(*old(channel)),
{
    if alpha & !NC_BG_ALPHA_MASK != 0 {
        return Err(NcError::InvalidAlphaBits);
    }
    proof {
        lemma_channel_with_alpha(*channel, alpha);
    }
    if alpha == NCALPHA_OPAQUE {
        *channel = *channel & !NC_BG_ALPHA_MASK;
    } else {
        *channel = (alpha | (*channel & !NC_BG_ALPHA_MASK)) | NC_BGDEFAULT_MASK;
    }
    Ok(())
}

// ---------------------------------------------------------------------------
// RGB components.
// ---------------------------------------------------------------------------

/// Gets the red component; meaningful only when the channel is in RGB mode.
pub fn ncchannel_r(channel: NcChannel) -> (r: u8)
    ensures
        r == channel_r(channel),
{
    ((channel & 0x00ff_0000) >> 16) as u8
}

/// Gets the green component; meaningful only when the channel is in RGB mode.
pub fn ncchannel_g(channel: NcChannel) -> (g: u8)
    ensures
        g == channel_g(channel),
{
    ((channel & 0x0000_ff00) >> 8) as u8
}

/// Gets the blue component; meaningful only when the channel is in RGB mode.
pub fn ncchannel_b(channel: NcChannel) -> (b: u8)
    ensures
        b == channel_b(channel),
{
    (channel & 0x0000_00ff) as u8
}

/// Sets the red component in place, leaving every other bit untouched, and
/// returns the new channel.
pub fn ncchannel_set_r(channel: &mut NcChannel, r: u8) -> (rv: NcChannel)
    ensures
        *final(channel) == channel_with_r(*old(channel), r),
        rv == *final(channel),
        channel_r(*final(channel)) == r,
        channel_g(*final(channel)) == channel_g(*old(channel)),
        channel_b(*final(channel)) == channel_b(*old(channel)),
{
    proof {
        lemma_channel_with_component(*channel, r, 0, 0);
    }
    *channel = (*channel & !0x00ff_0000) | ((r as u32) << 16);
    *channel
}

/// Sets the green component in place, leaving every other bit untouched, and
/// returns the new channel.
pub fn ncchannel_set_g(channel: &mut NcChannel, g: u8) -> (rv: NcChannel)
    ensures
        *final(channel) == channel_with_g(*old(channel), g),
        rv == *final(channel),
        channel_g(*final(channel)) == g,
        channel_r(*final(channel)) == channel_r(*old(channel)),
        channel_b(*final(channel)) == channel_b(*old(channel)),
{
    proof {
        lemma_channel_with_component(*channel, 0, g, 0);
    }
    *channel = (*channel & !0x0000_ff00) | ((g as u32) << 8);
    *channel
}

/// Sets the blue component in place, leaving every other bit untouched, and
/// returns the new channel.
pub fn ncchannel_set_b(channel: &mut NcChannel, b: u8) -> (rv: NcChannel)
    ensures
        *final(channel) == channel_with_b(*old(channel), b),
        rv == *final(channel),
        channel_b(*final(channel)) == b,
        channel_r(*final(channel)) == channel_r(*old(channel)),
        channel_g(*final(channel)) == channel_g(*old(channel)),
{
    proof {
        lemma_channel_with_component(*channel, 0, 0, b);
    }
    *channel = (*channel & !0x0000_00ff) | (b as u32);
    *channel
}

/// Gets the three RGB components at once, and returns the channel itself;
/// meaningful only when the channel is in RGB mode.
pub fn ncchannel_rgb8(channel: NcChannel, r: &mut u8, g: &mut u8, b: &mut u8) -> (rv: NcChannel)
    ensures
        *final(r) == channel_r(channel),
        *final(g) == channel_g(channel),
        *final(b) == channel_b(channel),
        rv == channel,
{
    *r = ncchannel_r(channel);
    *g = ncchannel_g(channel);
    *b = ncchannel_b(channel);
    channel
}

/// Sets the three RGB components at once, switching the channel into RGB
/// mode: PALETTE is cleared and NOT-DEFAULT is set, while alpha and the
/// remaining flag bits stay as they were.
pub fn ncchannel_set_rgb8(channel: &mut NcChannel, r: u8, g: u8, b: u8)
    ensures
        *final(channel) == channel_with_rgb8(*old(channel), r, g, b),
        channel_r(*final(channel)) == r,
        channel_g(*final(channel)) == g,
        channel_b(*final(channel)) == b,
        channel_rgb_p(*final(channel)),
        !channel_default_p(*final(channel)),
        channel_alpha(*final(channel)) == channel_alpha(*old(channel)),
{
    proof {
        lemma_channel_with_rgb8(*channel, r, g, b);
    }
    let rgb: NcRgb = ((r as u32) << 16) | ((g as u32) << 8) | (b as u32);
    *channel = (*channel & !(NC_BG_RGB_MASK | NC_BG_PALETTE)) | NC_BGDEFAULT_MASK | rgb;
}

// ---------------------------------------------------------------------------
// Packed RGB.
// ---------------------------------------------------------------------------

/// Gets the 24-bit RGB value: the channel with its flag byte removed.
pub fn ncchannel_rgb(channel: NcChannel) -> (rgb: NcRgb)
    ensures
        rgb == channel_rgb(channel),
{
    channel & NC_BG_RGB_MASK
}

/// Sets the 24-bit RGB value (the low three bytes of `rgb`; the top byte is
/// ignored), switching the channel into RGB mode as [`ncchannel_set_rgb8`]
/// does.
pub fn ncchannel_set(channel: &mut NcChannel, rgb: NcRgb)
    ensures
        *final(channel) == channel_with_rgb(*old(channel), rgb),
        channel_rgb(*final(channel)) == rgb & NC_BG_RGB_MASK,
        channel_rgb_p(*final(channel)),
        !channel_default_p(*final(channel)),
        channel_alpha(*final(channel)) == channel_alpha(*old(channel)),
{
    proof {
        lemma_channel_with_rgb(*channel, rgb);
    }
    *channel = (*channel & !(NC_BG_RGB_MASK | NC_BG_PALETTE)) | NC_BGDEFAULT_MASK | (rgb
        & NC_BG_RGB_MASK);
}

/// Is the channel carrying a true-color RGB triple?
pub fn ncchannel_rgb_p(channel: NcChannel) -> (p: bool)
    ensures
        p == channel_rgb_p(channel),
{
    channel & NC_BGDEFAULT_MASK != 0 && channel & NC_BG_PALETTE == 0
}

// ---------------------------------------------------------------------------
// Default color.
// ---------------------------------------------------------------------------

/// Is the channel using the terminal's default color rather than RGB or a
/// palette index?
pub fn ncchannel_default_p(channel: NcChannel) -> (p: bool)
    ensures
        p == channel_default_p(channel),
{
    channel & NC_BGDEFAULT_MASK == 0
}

/// Reverts the channel to the terminal's default color, forcing alpha back
/// to opaque, and returns the new channel.
pub fn ncchannel_set_default(channel: &mut NcChannel) -> (rv: NcChannel)
    ensures
        *final(channel) == channel_as_default(*old(channel)),
        rv == *final(channel),
        channel_default_p(*final(channel)),
        channel_alpha(*final(channel)) == NCALPHA_OPAQUE,
{
    proof {
        lemma_channel_as_default(*channel);
    }
    *channel = (*channel & !NC_BGDEFAULT_MASK) & !NC_BG_ALPHA_MASK;
    *channel
}

/// Marks the channel as not using the default color, leaving every other bit
/// untouched, and returns the new channel.
pub fn ncchannel_set_not_default(channel: &mut NcChannel) -> (rv: NcChannel)
    ensures
        *final(channel) == channel_as_not_default(*old(channel)),
        rv == *final(channel),
        !channel_default_p(*final(channel)),
{
    proof {
        lemma_channel_as_not_default(*channel);
    }
    *channel = *channel | NC_BGDEFAULT_MASK;
    *channel
}

// ---------------------------------------------------------------------------
// Palette index.
// ---------------------------------------------------------------------------

/// Gets the palette index (the low byte); meaningful only when the channel is
/// in palette-indexed mode.
pub fn ncchannel_palindex(channel: NcChannel) -> (index: NcPaletteIndex)
    ensures
        index == channel_palindex(channel),
{
    (channel & 0x0000_00ff) as u8
}

/// Sets the palette index and switches the channel into palette-indexed
/// mode: alpha is forced to opaque, NOT-DEFAULT and PALETTE are set, and the
/// index lands in the low byte.
pub fn ncchannel_set_palindex(channel: &mut NcChannel, index: NcPaletteIndex)
    ensures
        *final(channel) == channel_with_palindex(*old(channel), index),
        channel_palindex(*final(channel)) == index,
        channel_palindex_p(*final(channel)),
        !channel_default_p(*final(channel)),
        channel_alpha(*final(channel)) == NCALPHA_OPAQUE,
{
    proof {
        lemma_channel_with_palindex(*channel, index);
    }
    *channel = ((*channel & !NC_BG_ALPHA_MASK) & 0xff00_0000) | NC_BGDEFAULT_MASK | NC_BG_PALETTE
        | (index as u32);
}

/// Is the channel's color a palette index rather than RGB?
pub fn ncchannel_palindex_p(channel: NcChannel) -> (p: bool)
    ensures
        p == channel_palindex_p(channel),
{
    channel & NC_BGDEFAULT_MASK != 0 && channel & NC_BG_PALETTE != 0
}

} // verus!
