//! Tests of the palette table.

use ncchannels::channel::{ncchannel_rgb_p, ncchannel_set_rgb8};
use ncchannels::palette::{
    ncpalette_get, ncpalette_get_rgb8, ncpalette_set, ncpalette_set_rgb8, NcPalette,
};

#[test]
fn new_palette_is_zeroed() {
    let p = NcPalette::new();
    for &idx in &[0u8, 1, 127, 254, 255] {
        assert_eq!(ncpalette_get(&p, idx), 0);
    }
}

#[test]
fn set_then_get() {
    let mut p = NcPalette::new();
    ncpalette_set(&mut p, 3, 0x40ABCDEF);
    assert_eq!(ncpalette_get(&p, 3), 0x40ABCDEF);
    // neighbours untouched
    assert_eq!(ncpalette_get(&p, 2), 0);
    assert_eq!(ncpalette_get(&p, 4), 0);
}

#[test]
fn set_get_at_extreme_indices() {
    let mut p = NcPalette::new();
    ncpalette_set(&mut p, 0, 0x40111111);
    ncpalette_set(&mut p, 255, 0x40222222);
    assert_eq!(ncpalette_get(&p, 0), 0x40111111);
    assert_eq!(ncpalette_get(&p, 255), 0x40222222);
}

#[test]
fn rgb8_accessors_delegate_to_channel_codec() {
    let mut p = NcPalette::new();
    ncpalette_set_rgb8(&mut p, 42, 255, 128, 64);
    assert_eq!(ncpalette_get_rgb8(&p, 42), (255, 128, 64));

    // the entry is exactly what the channel codec would have produced
    let mut c: u32 = 0;
    ncchannel_set_rgb8(&mut c, 255, 128, 64);
    assert_eq!(ncpalette_get(&p, 42), c);
    assert!(ncchannel_rgb_p(ncpalette_get(&p, 42)));
}

#[test]
fn duplicate_colors_are_allowed() {
    let mut p = NcPalette::new();
    ncpalette_set_rgb8(&mut p, 10, 1, 2, 3);
    ncpalette_set_rgb8(&mut p, 20, 1, 2, 3);
    assert_eq!(ncpalette_get(&p, 10), ncpalette_get(&p, 20));
}
