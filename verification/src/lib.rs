//! Bit-packed terminal cell coloring.
//!
//! A cell's coloring is a pair of 32-bit *channels* (foreground and
//! background) packed into one 64-bit word. Each channel carries either an
//! explicit RGB triple, an 8-bit palette index, or the terminal's "default
//! color", together with a 2-bit alpha mode and housekeeping flags.
//!
//! Channel word layout, MSB to LSB:
//!
//! ```text
//! bit 31     reserved, must be 0
//! bit 30     NOT-DEFAULT: set when the channel carries an explicit color
//! bits 29-28 alpha mode (opaque, blend, transparent, high-contrast)
//! bit 27     PALETTE: the color is a palette index, not RGB
//! bit 26     NO-BACKGROUND: glyph fully occludes the background
//!            (meaningful only on the foreground half of a pair)
//! bits 25-24 reserved, must be 0
//! bits 23-0  RGB triple (8 bits each), or palette index in the low byte
//! ```
//!
//! The [`channel`] module encodes and decodes a single channel, [`channels`]
//! packs two of them into a pair and implements the color-identity swap with
//! its alpha-legality fixup, and [`palette`] holds the 256-entry table that
//! palette-indexed channels refer into.

use vstd::prelude::*;

pub mod channel;
pub mod channels;
pub mod palette;

verus! {

/// One color channel: 32 bits of RGB or palette index, alpha and flags.
pub type NcChannel = u32;

/// A foreground and a background [`NcChannel`] packed into 64 bits,
/// foreground in the high half.
pub type NcChannels = u64;

/// A 24-bit RGB value in the low three bytes; the top byte is ignored.
pub type NcRgb = u32;

/// An alpha mode, held unshifted in bits 29-28 of a channel. Compare
/// directly against the `NCALPHA_*` constants.
pub type NcAlpha = u32;

/// An index into the 256-entry [`palette::NcPalette`].
pub type NcPaletteIndex = u8;

/// Alpha mode: the glyph's color fully replaces what is under it.
pub const NCALPHA_OPAQUE: u32 = 0x0000_0000;

/// Alpha mode: the glyph's color is averaged with what is under it.
pub const NCALPHA_BLEND: u32 = 0x1000_0000;

/// Alpha mode: what is under the glyph shows through.
pub const NCALPHA_TRANSPARENT: u32 = 0x2000_0000;

/// Alpha mode: the foreground is forced to contrast with the background.
/// Never legal on a background channel.
pub const NCALPHA_HIGHCONTRAST: u32 = 0x3000_0000;

/// Set when the channel does *not* use the terminal's default color.
pub const NC_BGDEFAULT_MASK: u32 = 0x4000_0000;

/// Extracts the 2-bit alpha mode of a channel.
pub const NC_BG_ALPHA_MASK: u32 = 0x3000_0000;

/// Set when the channel's color is a palette index rather than RGB.
pub const NC_BG_PALETTE: u32 = 0x0800_0000;

/// Extracts the 24-bit RGB triple of a channel.
pub const NC_BG_RGB_MASK: u32 = 0x00ff_ffff;

/// Set when the glyph fully occludes the background; meaningful only on
/// the foreground half of a pair, reserved (zero) on a background channel.
pub const NC_NOBACKGROUND_MASK: u32 = 0x0400_0000;

/// Why a channel operation was refused; the operand is left unchanged.
#[derive(Debug, Clone, Copy, PartialEq, Eq, Structural)]
pub enum NcError {
    /// The supplied alpha value has bits set outside the 2-bit alpha field.
    InvalidAlphaBits,
    /// A background channel was asked to carry the high-contrast alpha mode.
    IllegalBackgroundAlpha,
}

} // verus!
