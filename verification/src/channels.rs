//! The channel-pair codec: a foreground and a background channel packed into
//! one 64-bit word, the foreground in the high half.
//!
//! Besides extraction, replacement and per-side forwarding of every channel
//! operation, this module implements the color-identity swap (`reverse`): the
//! two channels exchange their color bits while each position keeps its own
//! alpha and no-background bits, followed by a fixup that returns any channel
//! which ended up outside RGB mode with a non-opaque alpha to opaque.

use vstd::prelude::*;

use crate::channel::{
    channel_alpha, channel_as_default, channel_as_not_default, channel_b, channel_default_p,
    channel_g, channel_palindex, channel_palindex_p, channel_r, channel_rgb, channel_rgb_p,
    channel_with_alpha, channel_with_palindex, channel_with_rgb, channel_with_rgb8,
    ncchannel_alpha, ncchannel_default_p, ncchannel_palindex, ncchannel_palindex_p, ncchannel_rgb8,
    ncchannel_rgb_p, ncchannel_set, ncchannel_set_alpha, ncchannel_set_default,
    ncchannel_set_not_default, ncchannel_set_palindex, ncchannel_set_rgb8,
};
use crate::{NcAlpha, NcChannel, NcChannels, NcError, NcPaletteIndex, NcRgb};
use crate::{
    NCALPHA_HIGHCONTRAST, NCALPHA_OPAQUE, NC_BG_ALPHA_MASK, NC_BG_RGB_MASK, NC_NOBACKGROUND_MASK,
};

verus! {

// ---------------------------------------------------------------------------
// The mathematical model of a pair.
// ---------------------------------------------------------------------------

/// The foreground channel: the high 32 bits.
pub open spec fn pair_fchannel(ch: NcChannels) -> NcChannel {
    ((ch >> 32) & 0xffff_ffff) as u32
}

/// The background channel: the low 32 bits.
pub open spec fn pair_bchannel(ch: NcChannels) -> NcChannel {
    (ch & 0xffff_ffff) as u32
}

/// The pair with its foreground half replaced.
pub open spec fn pair_with_fchannel(ch: NcChannels, fchannel: NcChannel) -> NcChannels {
    (ch & 0xffff_ffff) | ((fchannel as u64) << 32)
}

/// The pair with its background half replaced.
pub open spec fn pair_with_bchannel(ch: NcChannels, bchannel: NcChannel) -> NcChannels {
    (ch & 0xffff_ffff_0000_0000) | (bchannel as u64)
}

/// The pair built from a foreground and a background channel.
pub open spec fn pair_combine(fchannel: NcChannel, bchannel: NcChannel) -> NcChannels {
    ((fchannel as u64) << 32) | (bchannel as u64)
}

/// The per-position state bits of a channel: the no-background flag and the
/// alpha field, which the swap leaves in place.
pub open spec fn channel_state_bits(c: NcChannel) -> u32 {
    c & (NC_NOBACKGROUND_MASK | NC_BG_ALPHA_MASK)
}

/// The color-identity bits of a channel: everything but the state bits, the
/// NOT-DEFAULT and PALETTE flags and the RGB or index value included.
pub open spec fn channel_color_bits(c: NcChannel) -> u32 {
    c & !(NC_NOBACKGROUND_MASK | NC_BG_ALPHA_MASK)
}

/// The alpha-legality fixup applied to each half after the swap: a channel
/// that is not in RGB mode cannot legally carry a non-opaque alpha (the other
/// modes are defined in terms of true-color blending), so such an alpha is
/// returned to opaque.
pub open spec fn channel_reverse_fixed(c: NcChannel) -> NcChannel {
    if channel_alpha(c) != NCALPHA_OPAQUE && !channel_rgb_p(c) {
        channel_with_alpha(c, NCALPHA_OPAQUE)
    } else {
        c
    }
}

/// The swap before its fixup: each position takes the other's color-identity
/// bits and keeps its own state bits.
pub open spec fn pair_reverse_raw(ch: NcChannels) -> NcChannels {
    ((((pair_bchannel(ch) as u64) << 32) | (pair_fchannel(ch) as u64)) & !(
    (((NC_NOBACKGROUND_MASK | NC_BG_ALPHA_MASK) as u64) << 32) | ((NC_NOBACKGROUND_MASK
        | NC_BG_ALPHA_MASK) as u64))) | (ch & ((((NC_NOBACKGROUND_MASK | NC_BG_ALPHA_MASK) as u64)
        << 32) | ((NC_NOBACKGROUND_MASK | NC_BG_ALPHA_MASK) as u64)))
}

// ---------------------------------------------------------------------------
// The laws of the model.
// ---------------------------------------------------------------------------

/// Replacing the foreground half stores exactly that channel and keeps the
/// background half.
pub proof fn lemma_pair_with_fchannel(ch: NcChannels, fchannel: NcChannel)
    by (bit_vector)
    ensures
        pair_fchannel(pair_with_fchannel(ch, fchannel)) == fchannel,
        pair_bchannel(pair_with_fchannel(ch, fchannel)) == pair_bchannel(ch),
{
}

/// Replacing the background half stores exactly that channel and keeps the
/// foreground half.
pub proof fn lemma_pair_with_bchannel(ch: NcChannels, bchannel: NcChannel)
    by (bit_vector)
    ensures
        pair_bchannel(pair_with_bchannel(ch, bchannel)) == bchannel,
        pair_fchannel(pair_with_bchannel(ch, bchannel)) == pair_fchannel(ch),
{
}

/// Combining two channels yields the pair whose halves are exactly those two
/// channels.
pub proof fn lemma_pair_combine(fchannel: NcChannel, bchannel: NcChannel)
    by (bit_vector)
    ensures
        pair_fchannel(pair_combine(fchannel, bchannel)) == fchannel,
        pair_bchannel(pair_combine(fchannel, bchannel)) == bchannel,
        pair_combine(fchannel, bchannel) == pair_with_bchannel(
            pair_with_fchannel(0, fchannel),
            bchannel,
        ),
{
}

/// The swap, before its fixup, gives each position the other position's
/// color-identity bits together with its own state bits.
pub proof fn lemma_pair_reverse_raw(ch: NcChannels)
    by (bit_vector)
    ensures
        pair_fchannel(pair_reverse_raw(ch)) == channel_color_bits(pair_bchannel(ch))
            | channel_state_bits(pair_fchannel(ch)),
        pair_bchannel(pair_reverse_raw(ch)) == channel_color_bits(pair_fchannel(ch))
            | channel_state_bits(pair_bchannel(ch)),
{
}

// ---------------------------------------------------------------------------
// Extraction, replacement, combination.
// ---------------------------------------------------------------------------

/// Extracts the background channel: the low 32 bits.
pub fn ncchannels_bchannel(channels: NcChannels) -> (c: NcChannel)
    ensures
        c == pair_bchannel(channels),
{
    (channels & 0xffff_ffff) as u32
}

/// Extracts the foreground channel: the high 32 bits.
pub fn ncchannels_fchannel(channels: NcChannels) -> (c: NcChannel)
    ensures
        c == pair_fchannel(channels),
{
    ((channels >> 32) & 0xffff_ffff) as u32
}

/// Replaces the background channel, leaving the foreground half untouched,
/// and returns the new pair.
pub fn ncchannels_set_bchannel(channels: &mut NcChannels, bchannel: NcChannel) -> (rv: NcChannels)
    ensures
        *final(channels) == pair_with_bchannel(*old(channels), bchannel),
        pair_bchannel(*final(channels)) == bchannel,
        pair_fchannel(*final(channels)) == pair_fchannel(*old(channels)),
        rv == *final(channels),
{
    proof {
        lemma_pair_with_bchannel(*channels, bchannel);
    }
    *channels = (*channels & 0xffff_ffff_0000_0000) | (bchannel as u64);
    *channels
}

/// Replaces the foreground channel, leaving the background half untouched,
/// and returns the new pair.
pub fn ncchannels_set_fchannel(channels: &mut NcChannels, fchannel: NcChannel) -> (rv: NcChannels)
    ensures
        *final(channels) == pair_with_fchannel(*old(channels), fchannel),
        pair_fchannel(*final(channels)) == fchannel,
        pair_bchannel(*final(channels)) == pair_bchannel(*old(channels)),
        rv == *final(channels),
{
    proof {
        lemma_pair_with_fchannel(*channels, fchannel);
    }
    *channels = (*channels & 0xffff_ffff) | ((fchannel as u64) << 32);
    *channels
}

/// Combines a foreground and a background channel into one pair.
pub fn ncchannels_combine(fchannel: NcChannel, bchannel: NcChannel) -> (channels: NcChannels)
    ensures
        channels == pair_combine(fchannel, bchannel),
        pair_fchannel(channels) == fchannel,
        pair_bchannel(channels) == bchannel,
{
    proof {
        lemma_pair_combine(fchannel, bchannel);
    }
    let mut channels: NcChannels = 0;
    ncchannels_set_fchannel(&mut channels, fchannel);
    ncchannels_set_bchannel(&mut channels, bchannel);
    channels
}

// ---------------------------------------------------------------------------
// Alpha.
// ---------------------------------------------------------------------------

/// Gets the foreground channel's alpha mode, unshifted.
pub fn ncchannels_fg_alpha(channels: NcChannels) -> (a: NcAlpha)
    ensures
        a == channel_alpha(pair_fchannel(channels)),
{
    ncchannel_alpha(ncchannels_fchannel(channels))
}

/// Gets the background channel's alpha mode, unshifted.
pub fn ncchannels_bg_alpha(channels: NcChannels) -> (a: NcAlpha)
    ensures
        a == channel_alpha(pair_bchannel(channels)),
{
    ncchannel_alpha(ncchannels_bchannel(channels))
}

/// Sets the foreground channel's alpha mode.
///
/// Fails with [`NcError::InvalidAlphaBits`], leaving the pair unchanged, if
/// `alpha` has any bit set outside the 2-bit alpha field.
pub fn ncchannels_set_fg_alpha(channels: &mut NcChannels, alpha: NcAlpha) -> (r: Result<
    (),
    NcError,
>)
    ensures
        alpha & !NC_BG_ALPHA_MASK != 0 ==> r == Err::<(), NcError>(NcError::InvalidAlphaBits)
            && *final(channels) == *old(channels),
        alpha & !NC_BG_ALPHA_MASK == 0 ==> r == Ok::<(), NcError>(()) && pair_fchannel(
            *final(channels),
        ) == channel_with_alpha(pair_fchannel(*old(channels)), alpha) && pair_bchannel(
            *final(channels),
        ) == pair_bchannel(*old(channels)),
{
    let mut channel = ncchannels_fchannel(*channels);
    match ncchannel_set_alpha(&mut channel, alpha) {
        Err(e) => Err(e),
        Ok(()) => {
            ncchannels_set_fchannel(channels, channel);
            Ok(())
        },
    }
}

/// Sets the background channel's alpha mode.
///
/// Fails with [`NcError::IllegalBackgroundAlpha`] if the mode is
/// high-contrast, which a background must never carry, and with
/// [`NcError::InvalidAlphaBits`] if `alpha` has any bit set outside the 2-bit
/// alpha field; either way the pair is left unchanged.
pub fn ncchannels_set_bg_alpha(channels: &mut NcChannels, alpha: NcAlpha) -> (r: Result<
    (),
    NcError,
>)
    ensures
        alpha == NCALPHA_HIGHCONTRAST ==> r == Err::<(), NcError>(NcError::IllegalBackgroundAlpha)
            && *final(channels) == *old(channels),
        alpha != NCALPHA_HIGHCONTRAST && alpha & !NC_BG_ALPHA_MASK != 0 ==> r == Err::<
            (),
            NcError,
        >(NcError::InvalidAlphaBits) && *final(channels) == *old(channels),
        alpha != NCALPHA_HIGHCONTRAST && alpha & !NC_BG_ALPHA_MASK == 0 ==> r == Ok::<
            (),
            NcError,
        >(()) && pair_bchannel(*final(channels)) == channel_with_alpha(
            pair_bchannel(*old(channels)),
            alpha,
        ) && pair_fchannel(*final(channels)) == pair_fchannel(*old(channels)),
{
    if alpha == NCALPHA_HIGHCONTRAST {
        return Err(NcError::IllegalBackgroundAlpha);
    }
    let mut channel = ncchannels_bchannel(*channels);
    match ncchannel_set_alpha(&mut channel, alpha) {
        Err(e) => Err(e),
        Ok(()) => {
            ncchannels_set_bchannel(channels, channel);
            Ok(())
        },
    }
}

// ---------------------------------------------------------------------------
// The color-identity swap.
// ---------------------------------------------------------------------------

/// Swaps the color identity of the two channels while each position keeps
/// its own alpha and no-background bits, then returns any half that ended up
/// outside RGB mode with a non-opaque alpha to opaque.
pub fn ncchannels_reverse(channels: NcChannels) -> (r: NcChannels)
    ensures
        pair_fchannel(r) == channel_reverse_fixed(
            channel_color_bits(pair_bchannel(channels)) | channel_state_bits(
                pair_fchannel(channels),
            ),
        ),
        pair_bchannel(r) == channel_reverse_fixed(
            channel_color_bits(pair_fchannel(channels)) | channel_state_bits(
                pair_bchannel(channels),
            ),
        ),
{
    proof {
        lemma_pair_reverse_raw(channels);
        assert(NCALPHA_OPAQUE & !NC_BG_ALPHA_MASK == 0) by (bit_vector);
    }
    let statemask: u64 = (((NC_NOBACKGROUND_MASK | NC_BG_ALPHA_MASK) as u64) << 32) | ((
    NC_NOBACKGROUND_MASK | NC_BG_ALPHA_MASK) as u64);
    let raw: u64 = ((ncchannels_bchannel(channels) as u64) << 32) | (ncchannels_fchannel(channels)
        as u64);
    let mut ret: u64 = (raw & !statemask) | (channels & statemask);
    if ncchannels_bg_alpha(ret) != NCALPHA_OPAQUE && !ncchannels_bg_rgb_p(ret) {
        let _ = ncchannels_set_bg_alpha(&mut ret, NCALPHA_OPAQUE);
    }
    if ncchannels_fg_alpha(ret) != NCALPHA_OPAQUE && !ncchannels_fg_rgb_p(ret) {
        let _ = ncchannels_set_fg_alpha(&mut ret, NCALPHA_OPAQUE);
    }
    ret
}

// ---------------------------------------------------------------------------
// RGB components.
// ---------------------------------------------------------------------------

/// Gets the foreground channel's three RGB components, and returns the
/// foreground channel itself.
pub fn ncchannels_fg_rgb8(channels: NcChannels, r: &mut u8, g: &mut u8, b: &mut u8) -> (rv:
    NcChannel)
    ensures
        *final(r) == channel_r(pair_fchannel(channels)),
        *final(g) == channel_g(pair_fchannel(channels)),
        *final(b) == channel_b(pair_fchannel(channels)),
        rv == pair_fchannel(channels),
{
    ncchannel_rgb8(ncchannels_fchannel(channels), r, g, b)
}

/// Gets the background channel's three RGB components, and returns the
/// background channel itself.
pub fn ncchannels_bg_rgb8(channels: NcChannels, r: &mut u8, g: &mut u8, b: &mut u8) -> (rv:
    NcChannel)
    ensures
        *final(r) == channel_r(pair_bchannel(channels)),
        *final(g) == channel_g(pair_bchannel(channels)),
        *final(b) == channel_b(pair_bchannel(channels)),
        rv == pair_bchannel(channels),
{
    ncchannel_rgb8(ncchannels_bchannel(channels), r, g, b)
}

/// Sets the foreground channel's three RGB components, switching that half
/// into RGB mode, and returns the new pair.
pub fn ncchannels_set_fg_rgb8(channels: &mut NcChannels, r: u8, g: u8, b: u8) -> (rv: NcChannels)
    ensures
        pair_fchannel(*final(channels)) == channel_with_rgb8(pair_fchannel(*old(channels)), r, g, b),
        pair_bchannel(*final(channels)) == pair_bchannel(*old(channels)),
        rv == *final(channels),
{
    let mut channel = ncchannels_fchannel(*channels);
    ncchannel_set_rgb8(&mut channel, r, g, b);
    ncchannels_set_fchannel(channels, channel)
}

/// Sets the background channel's three RGB components, switching that half
/// into RGB mode, and returns the new pair.
pub fn ncchannels_set_bg_rgb8(channels: &mut NcChannels, r: u8, g: u8, b: u8) -> (rv: NcChannels)
    ensures
        pair_bchannel(*final(channels)) == channel_with_rgb8(pair_bchannel(*old(channels)), r, g, b),
        pair_fchannel(*final(channels)) == pair_fchannel(*old(channels)),
        rv == *final(channels),
{
    let mut channel = ncchannels_bchannel(*channels);
    ncchannel_set_rgb8(&mut channel, r, g, b);
    ncchannels_set_bchannel(channels, channel)
}

// ---------------------------------------------------------------------------
// Packed RGB.
// ---------------------------------------------------------------------------

/// Gets the foreground channel's 24-bit RGB value.
pub fn ncchannels_fg_rgb(channels: NcChannels) -> (rgb: NcRgb)
    ensures
        rgb == channel_rgb(pair_fchannel(channels)),
{
    ncchannels_fchannel(channels) & NC_BG_RGB_MASK
}

/// Gets the background channel's 24-bit RGB value.
pub fn ncchannels_bg_rgb(channels: NcChannels) -> (rgb: NcRgb)
    ensures
        rgb == channel_rgb(pair_bchannel(channels)),
{
    ncchannels_bchannel(channels) & NC_BG_RGB_MASK
}

/// Sets the foreground channel's 24-bit RGB value, switching that half into
/// RGB mode.
pub fn ncchannels_set_fg_rgb(channels: &mut NcChannels, rgb: NcRgb)
    ensures
        pair_fchannel(*final(channels)) == channel_with_rgb(pair_fchannel(*old(channels)), rgb),
        pair_bchannel(*final(channels)) == pair_bchannel(*old(channels)),
{
    let mut channel = ncchannels_fchannel(*channels);
    ncchannel_set(&mut channel, rgb);
    ncchannels_set_fchannel(channels, channel);
}

/// Sets the background channel's 24-bit RGB value, switching that half into
/// RGB mode.
pub fn ncchannels_set_bg_rgb(channels: &mut NcChannels, rgb: NcRgb)
    ensures
        pair_bchannel(*final(channels)) == channel_with_rgb(pair_bchannel(*old(channels)), rgb),
        pair_fchannel(*final(channels)) == pair_fchannel(*old(channels)),
{
    let mut channel = ncchannels_bchannel(*channels);
    ncchannel_set(&mut channel, rgb);
    ncchannels_set_bchannel(channels, channel);
}

/// Is the foreground channel carrying a true-color RGB triple?
pub fn ncchannels_fg_rgb_p(channels: NcChannels) -> (p: bool)
    ensures
        p == channel_rgb_p(pair_fchannel(channels)),
{
    ncchannel_rgb_p(ncchannels_fchannel(channels))
}

/// Is the background channel carrying a true-color RGB triple?
pub fn ncchannels_bg_rgb_p(channels: NcChannels) -> (p: bool)
    ensures
        p == channel_rgb_p(pair_bchannel(channels)),
{
    ncchannel_rgb_p(ncchannels_bchannel(channels))
}

// ---------------------------------------------------------------------------
// Default color.
// ---------------------------------------------------------------------------

/// Is the foreground channel using the terminal's default color?
pub fn ncchannels_fg_default_p(channels: NcChannels) -> (p: bool)
    ensures
        p == channel_default_p(pair_fchannel(channels)),
{
    ncchannel_default_p(ncchannels_fchannel(channels))
}

/// Is the background channel using the terminal's default color?
pub fn ncchannels_bg_default_p(channels: NcChannels) -> (p: bool)
    ensures
        p == channel_default_p(pair_bchannel(channels)),
{
    ncchannel_default_p(ncchannels_bchannel(channels))
}

/// Reverts the foreground channel to the terminal's default color, forcing
/// its alpha back to opaque, and returns the new pair.
pub fn ncchannels_set_fg_default(channels: &mut NcChannels) -> (rv: NcChannels)
    ensures
        pair_fchannel(*final(channels)) == channel_as_default(pair_fchannel(*old(channels))),
        pair_bchannel(*final(channels)) == pair_bchannel(*old(channels)),
        rv == *final(channels),
{
    let mut channel = ncchannels_fchannel(*channels);
    ncchannel_set_default(&mut channel);
    ncchannels_set_fchannel(channels, channel)
}

/// Marks the foreground channel as not using the default color, leaving its
/// other bits untouched, and returns the new pair.
pub fn ncchannels_set_fg_not_default(channels: &mut NcChannels) -> (rv: NcChannels)
    ensures
        pair_fchannel(*final(channels)) == channel_as_not_default(pair_fchannel(*old(channels))),
        pair_bchannel(*final(channels)) == pair_bchannel(*old(channels)),
        rv == *final(channels),
{
    let mut channel = ncchannels_fchannel(*channels);
    ncchannel_set_not_default(&mut channel);
    ncchannels_set_fchannel(channels, channel)
}

/// Reverts the background channel to the terminal's default color, forcing
/// its alpha back to opaque, and returns the new pair.
pub fn ncchannels_set_bg_default(channels: &mut NcChannels) -> (rv: NcChannels)
    ensures
        pair_bchannel(*final(channels)) == channel_as_default(pair_bchannel(*old(channels))),
        pair_fchannel(*final(channels)) == pair_fchannel(*old(channels)),
        rv == *final(channels),
{
    let mut channel = ncchannels_bchannel(*channels);
    ncchannel_set_default(&mut channel);
    ncchannels_set_bchannel(channels, channel)
}

/// Marks the background channel as not using the default color, leaving its
/// other bits untouched, and returns the new pair.
pub fn ncchannels_set_bg_not_default(channels: &mut NcChannels) -> (rv: NcChannels)
    ensures
        pair_bchannel(*final(channels)) == channel_as_not_default(pair_bchannel(*old(channels))),
        pair_fchannel(*final(channels)) == pair_fchannel(*old(channels)),
        rv == *final(channels),
{
    let mut channel = ncchannels_bchannel(*channels);
    ncchannel_set_not_default(&mut channel);
    ncchannels_set_bchannel(channels, channel)
}

/// Reverts both channels to the terminal's default color, forcing both
/// alphas back to opaque, and returns the new pair.
pub fn ncchannels_set_default(channels: &mut NcChannels) -> (rv: NcChannels)
    ensures
        pair_fchannel(*final(channels)) == channel_as_default(pair_fchannel(*old(channels))),
        pair_bchannel(*final(channels)) == channel_as_default(pair_bchannel(*old(channels))),
        rv == *final(channels),
{
    ncchannels_set_fg_default(channels);
    ncchannels_set_bg_default(channels)
}

/// Marks both channels as not using the default color, leaving their other
/// bits untouched, and returns the new pair.
pub fn ncchannels_set_not_default(channels: &mut NcChannels) -> (rv: NcChannels)
    ensures
        pair_fchannel(*final(channels)) == channel_as_not_default(pair_fchannel(*old(channels))),
        pair_bchannel(*final(channels)) == channel_as_not_default(pair_bchannel(*old(channels))),
        rv == *final(channels),
{
    ncchannels_set_fg_not_default(channels);
    ncchannels_set_bg_not_default(channels)
}

// ---------------------------------------------------------------------------
// Palette index.
// ---------------------------------------------------------------------------

/// Gets the foreground channel's palette index; meaningful only when that
/// half is in palette-indexed mode.
pub fn ncchannels_fg_palindex(channels: NcChannels) -> (index: NcPaletteIndex)
    ensures
        index == channel_palindex(pair_fchannel(channels)),
{
    ncchannel_palindex(ncchannels_fchannel(channels))
}

/// Gets the background channel's palette index; meaningful only when that
/// half is in palette-indexed mode.
pub fn ncchannels_bg_palindex(channels: NcChannels) -> (index: NcPaletteIndex)
    ensures
        index == channel_palindex(pair_bchannel(channels)),
{
    ncchannel_palindex(ncchannels_bchannel(channels))
}

/// Is the foreground channel's color a palette index?
pub fn ncchannels_fg_palindex_p(channels: NcChannels) -> (p: bool)
    ensures
        p == channel_palindex_p(pair_fchannel(channels)),
{
    ncchannel_palindex_p(ncchannels_fchannel(channels))
}

/// Is the background channel's color a palette index?
pub fn ncchannels_bg_palindex_p(channels: NcChannels) -> (p: bool)
    ensures
        p == channel_palindex_p(pair_bchannel(channels)),
{
    ncchannel_palindex_p(ncchannels_bchannel(channels))
}

/// Sets the foreground channel's palette index, switching that half into
/// palette-indexed mode with opaque alpha.
pub fn ncchannels_set_fg_palindex(channels: &mut NcChannels, index: NcPaletteIndex)
    ensures
        pair_fchannel(*final(channels)) == channel_with_palindex(
            pair_fchannel(*old(channels)),
            index,
        ),
        pair_bchannel(*final(channels)) == pair_bchannel(*old(channels)),
{
    let mut channel = ncchannels_fchannel(*channels);
    ncchannel_set_palindex(&mut channel, index);
    ncchannels_set_fchannel(channels, channel);
}

/// Sets the background channel's palette index, switching that half into
/// palette-indexed mode with opaque alpha.
pub fn ncchannels_set_bg_palindex(channels: &mut NcChannels, index: NcPaletteIndex)
    ensures
        pair_bchannel(*final(channels)) == channel_with_palindex(
            pair_bchannel(*old(channels)),
            index,
        ),
        pair_fchannel(*final(channels)) == pair_fchannel(*old(channels)),
{
    let mut channel = ncchannels_bchannel(*channels);
    ncchannel_set_palindex(&mut channel, index);
    ncchannels_set_bchannel(channels, channel);
}

} // verus!
