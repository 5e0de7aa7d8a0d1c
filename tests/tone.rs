use pathtracer::tone::{clamp_to_byte, pack_rgb};

#[test]
fn packs_red_highest() {
    assert_eq!(pack_rgb(255, 0, 0), 0x00FF_0000);
    assert_eq!(pack_rgb(0, 255, 0), 0x0000_FF00);
    assert_eq!(pack_rgb(0, 0, 255), 0x0000_00FF);
}

#[test]
fn packs_mixed_channels() {
    assert_eq!(pack_rgb(0x12, 0x34, 0x56), 0x0012_3456);
    assert_eq!(pack_rgb(0, 0, 0), 0);
}

#[test]
fn channels_above_byte_are_clamped() {
    assert_eq!(clamp_to_byte(300), 255);
    assert_eq!(clamp_to_byte(255), 255);
    assert_eq!(clamp_to_byte(17), 17);
    assert_eq!(pack_rgb(256, 1000, u32::MAX), 0x00FF_FFFF);
}

#[test]
fn quantised_sky_colour() {
    // sky-blue (0.5, 0.7, 1.0) after truncating `channel * 255`
    let r = (0.5f32 * 255.0) as u32;
    let g = (0.7f32 * 255.0) as u32;
    let b = (1.0f32 * 255.0) as u32;
    assert_eq!(pack_rgb(r, g, b), (127 << 16) | (178 << 8) | 255);
}
