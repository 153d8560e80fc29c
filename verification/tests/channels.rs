//! Tests of the channel-pair codec.

use ncchannels::channels::{
    ncchannels_bchannel, ncchannels_bg_alpha, ncchannels_bg_default_p, ncchannels_bg_palindex,
    ncchannels_bg_palindex_p, ncchannels_bg_rgb, ncchannels_bg_rgb8, ncchannels_bg_rgb_p,
    ncchannels_combine, ncchannels_fchannel, ncchannels_fg_alpha, ncchannels_fg_default_p,
    ncchannels_fg_palindex, ncchannels_fg_palindex_p, ncchannels_fg_rgb, ncchannels_fg_rgb8,
    ncchannels_fg_rgb_p, ncchannels_reverse, ncchannels_set_bchannel, ncchannels_set_bg_alpha,
    ncchannels_set_bg_default, ncchannels_set_bg_not_default, ncchannels_set_bg_palindex,
    ncchannels_set_bg_rgb, ncchannels_set_bg_rgb8, ncchannels_set_default, ncchannels_set_fchannel,
    ncchannels_set_fg_alpha, ncchannels_set_fg_default, ncchannels_set_fg_not_default,
    ncchannels_set_fg_palindex, ncchannels_set_fg_rgb, ncchannels_set_fg_rgb8,
    ncchannels_set_not_default,
};
use ncchannels::{
    NcError, NCALPHA_BLEND, NCALPHA_HIGHCONTRAST, NCALPHA_OPAQUE, NCALPHA_TRANSPARENT,
};

#[test]
fn combine_worked_scenario() {
    let pair = ncchannels_combine(0x40FF0000, 0x40000000);
    assert_eq!(pair, 0x40FF0000_40000000);
    assert_eq!(ncchannels_fchannel(pair), 0x40FF0000);
    assert_eq!(ncchannels_bchannel(pair), 0x40000000);
}

#[test]
fn combine_extracts_any_words() {
    for &(fg, bg) in &[
        (0u32, 0u32),
        (0xFFFFFFFF, 0xFFFFFFFF),
        (0x12345678, 0x9ABCDEF0),
        (0, 0xFFFFFFFF),
    ] {
        let pair = ncchannels_combine(fg, bg);
        assert_eq!(ncchannels_fchannel(pair), fg);
        assert_eq!(ncchannels_bchannel(pair), bg);
    }
}

#[test]
fn replace_halves_independently() {
    let mut pair: u64 = 0x11111111_22222222;
    let rv = ncchannels_set_fchannel(&mut pair, 0xAAAAAAAA);
    assert_eq!(rv, pair);
    assert_eq!(pair, 0xAAAAAAAA_22222222);
    let rv = ncchannels_set_bchannel(&mut pair, 0xBBBBBBBB);
    assert_eq!(rv, pair);
    assert_eq!(pair, 0xAAAAAAAA_BBBBBBBB);
}

#[test]
fn fg_bg_alpha_read() {
    let pair = ncchannels_combine(0x50FF0000, 0x60000040);
    assert_eq!(ncchannels_fg_alpha(pair), NCALPHA_BLEND);
    assert_eq!(ncchannels_bg_alpha(pair), NCALPHA_TRANSPARENT);
}

#[test]
fn set_fg_alpha_accepts_high_contrast() {
    let mut pair = ncchannels_combine(0x40FF0000, 0x40000000);
    assert_eq!(
        ncchannels_set_fg_alpha(&mut pair, NCALPHA_HIGHCONTRAST),
        Ok(())
    );
    assert_eq!(ncchannels_fg_alpha(pair), NCALPHA_HIGHCONTRAST);
    assert_eq!(ncchannels_bchannel(pair), 0x40000000);
}

#[test]
fn set_bg_alpha_rejects_high_contrast() {
    let mut pair: u64 = 0x40FF0000_40000000;
    assert_eq!(
        ncchannels_set_bg_alpha(&mut pair, NCALPHA_HIGHCONTRAST),
        Err(NcError::IllegalBackgroundAlpha)
    );
    assert_eq!(pair, 0x40FF0000_40000000);
}

#[test]
fn pair_alpha_setters_reject_stray_bits() {
    let mut pair: u64 = 0x40FF0000_40000000;
    assert_eq!(
        ncchannels_set_fg_alpha(&mut pair, 0x08000000),
        Err(NcError::InvalidAlphaBits)
    );
    assert_eq!(pair, 0x40FF0000_40000000);
    assert_eq!(
        ncchannels_set_bg_alpha(&mut pair, 0x00000003),
        Err(NcError::InvalidAlphaBits)
    );
    assert_eq!(pair, 0x40FF0000_40000000);
}

#[test]
fn set_bg_alpha_writes_background_only() {
    let mut pair: u64 = 0x40FF0000_40000040;
    assert_eq!(ncchannels_set_bg_alpha(&mut pair, NCALPHA_BLEND), Ok(()));
    assert_eq!(ncchannels_bg_alpha(pair), NCALPHA_BLEND);
    assert_eq!(ncchannels_fchannel(pair), 0x40FF0000);
    assert_eq!(ncchannels_bchannel(pair), 0x50000040);
}

#[test]
fn fg_bg_rgb8_round_trip() {
    let mut pair: u64 = 0;
    let rv = ncchannels_set_fg_rgb8(&mut pair, 10, 20, 30);
    assert_eq!(rv, pair);
    let rv = ncchannels_set_bg_rgb8(&mut pair, 40, 50, 60);
    assert_eq!(rv, pair);

    let (mut r, mut g, mut b) = (0u8, 0u8, 0u8);
    let fchan = ncchannels_fg_rgb8(pair, &mut r, &mut g, &mut b);
    assert_eq!((r, g, b), (10, 20, 30));
    assert_eq!(fchan, ncchannels_fchannel(pair));
    let bchan = ncchannels_bg_rgb8(pair, &mut r, &mut g, &mut b);
    assert_eq!((r, g, b), (40, 50, 60));
    assert_eq!(bchan, ncchannels_bchannel(pair));

    assert!(ncchannels_fg_rgb_p(pair));
    assert!(ncchannels_bg_rgb_p(pair));
}

#[test]
fn packed_rgb_per_side() {
    let mut pair: u64 = 0;
    ncchannels_set_fg_rgb(&mut pair, 0x00123456);
    ncchannels_set_bg_rgb(&mut pair, 0x00654321);
    assert_eq!(ncchannels_fg_rgb(pair), 0x00123456);
    assert_eq!(ncchannels_bg_rgb(pair), 0x00654321);
    assert_eq!(pair, 0x40123456_40654321);
}

#[test]
fn default_flags_per_side() {
    let mut pair: u64 = 0;
    assert!(ncchannels_fg_default_p(pair));
    assert!(ncchannels_bg_default_p(pair));

    let rv = ncchannels_set_fg_not_default(&mut pair);
    assert_eq!(rv, pair);
    assert!(!ncchannels_fg_default_p(pair));
    assert!(ncchannels_bg_default_p(pair));

    let rv = ncchannels_set_bg_not_default(&mut pair);
    assert_eq!(rv, pair);
    assert!(!ncchannels_bg_default_p(pair));
    assert_eq!(pair, 0x40000000_40000000);

    let rv = ncchannels_set_fg_default(&mut pair);
    assert_eq!(rv, pair);
    assert!(ncchannels_fg_default_p(pair));
    assert!(!ncchannels_bg_default_p(pair));

    let rv = ncchannels_set_bg_default(&mut pair);
    assert_eq!(rv, pair);
    assert!(ncchannels_bg_default_p(pair));
    assert_eq!(pair, 0);
}

#[test]
fn default_setters_both_sides_at_once() {
    let mut pair: u64 = 0;
    let rv = ncchannels_set_not_default(&mut pair);
    assert_eq!(rv, pair);
    assert_eq!(pair, 0x40000000_40000000);

    // reverting to default also forces both alphas back to opaque
    ncchannels_set_fg_alpha(&mut pair, NCALPHA_BLEND).unwrap();
    ncchannels_set_bg_alpha(&mut pair, NCALPHA_TRANSPARENT).unwrap();
    let rv = ncchannels_set_default(&mut pair);
    assert_eq!(rv, pair);
    assert!(ncchannels_fg_default_p(pair));
    assert!(ncchannels_bg_default_p(pair));
    assert_eq!(ncchannels_fg_alpha(pair), NCALPHA_OPAQUE);
    assert_eq!(ncchannels_bg_alpha(pair), NCALPHA_OPAQUE);
    assert_eq!(pair, 0);
}

#[test]
fn palindex_per_side() {
    let mut pair: u64 = 0x50FF0000_40000040;
    ncchannels_set_fg_palindex(&mut pair, 7);
    ncchannels_set_bg_palindex(&mut pair, 250);
    assert_eq!(ncchannels_fg_palindex(pair), 7);
    assert_eq!(ncchannels_bg_palindex(pair), 250);
    assert!(ncchannels_fg_palindex_p(pair));
    assert!(ncchannels_bg_palindex_p(pair));
    assert_eq!(ncchannels_fg_alpha(pair), NCALPHA_OPAQUE);
    assert_eq!(ncchannels_bg_alpha(pair), NCALPHA_OPAQUE);
}

#[test]
fn reverse_fixup_worked_scenario() {
    // foreground: RGB red with blend alpha; background: default, opaque
    let fg: u32 = 0x50FF0000;
    let bg: u32 = 0x00000000;
    let pair = ncchannels_combine(fg, bg);
    let rev = ncchannels_reverse(pair);

    // the new background carries red's color bits...
    assert_eq!(ncchannels_bg_rgb(rev), 0x00FF0000);
    assert!(ncchannels_bg_rgb_p(rev));
    // ...with the *original background's* alpha (alpha stays with the
    // position, not with the color), which was opaque
    assert_eq!(ncchannels_bg_alpha(rev), ncchannels_bg_alpha(pair));
    assert_eq!(ncchannels_bg_alpha(rev), NCALPHA_OPAQUE);

    // the new foreground took the old background's color identity (default);
    // a default channel cannot carry the blend alpha it inherited from its
    // position, so the fixup returns it to opaque
    assert!(ncchannels_fg_default_p(rev));
    assert_eq!(ncchannels_fg_alpha(rev), NCALPHA_OPAQUE);
    assert_eq!(rev, 0x00000000_40FF0000);
}

#[test]
fn reverse_keeps_alpha_on_rgb_positions() {
    // both halves in RGB mode: each position keeps its own alpha
    let pair = ncchannels_combine(0x60FF0000, 0x500000FF);
    let rev = ncchannels_reverse(pair);
    assert_eq!(ncchannels_fg_rgb(rev), 0x000000FF);
    assert_eq!(ncchannels_bg_rgb(rev), 0x00FF0000);
    assert_eq!(ncchannels_fg_alpha(rev), NCALPHA_TRANSPARENT);
    assert_eq!(ncchannels_bg_alpha(rev), NCALPHA_BLEND);
    assert_eq!(rev, 0x600000FF_50FF0000);
}

#[test]
fn reverse_fixes_non_rgb_background() {
    // the background position keeps its blend alpha, but inherits a
    // palette-indexed identity, which cannot carry it: forced opaque
    let pair = ncchannels_combine(0x48000005, 0x500000FF);
    let rev = ncchannels_reverse(pair);
    assert!(ncchannels_bg_palindex_p(rev));
    assert_eq!(ncchannels_bg_palindex(rev), 5);
    assert_eq!(ncchannels_bg_alpha(rev), NCALPHA_OPAQUE);
    // the foreground became RGB blue and may keep its (opaque) alpha
    assert_eq!(ncchannels_fg_rgb(rev), 0x000000FF);
    assert_eq!(rev, 0x400000FF_48000005);
}

#[test]
fn reverse_keeps_no_background_bit_in_place() {
    // the no-background flag is state: it stays at the foreground position
    let pair = ncchannels_combine(0x44FF0000, 0x40000040);
    let rev = ncchannels_reverse(pair);
    assert_eq!(ncchannels_fchannel(rev), 0x44000040);
    assert_eq!(ncchannels_bchannel(rev), 0x40FF0000);
}

#[test]
fn reverse_twice_restores_colors() {
    // with both halves RGB and opaque, reverse is an involution
    let pair = ncchannels_combine(0x40FF0000, 0x4000FF00);
    let rev = ncchannels_reverse(ncchannels_reverse(pair));
    assert_eq!(rev, pair);
}
