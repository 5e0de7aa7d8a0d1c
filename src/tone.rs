//! Quantised colour channels and packed 24-bit pixels.

use vstd::prelude::*;

verus! {

/// Largest value an 8-bit colour channel can hold.
pub const CHANNEL_MAX: u32 = 255;

/// A quantised channel clamped into the 8-bit range.
pub open spec fn clamp_channel(v: u32) -> nat {
    if v > CHANNEL_MAX { CHANNEL_MAX as nat } else { v as nat }
}

/// The 24-bit word holding red, green and blue bytes, red highest.
pub open spec fn packed(r: nat, g: nat, b: nat) -> nat {
    r * 65536 + g * 256 + b
}

/// Clamps a quantised channel into `0..=255`.
pub fn clamp_to_byte(v: u32) -> (r: u32)
    ensures
        r == clamp_channel(v),
{
    if v > CHANNEL_MAX {
        CHANNEL_MAX
    } else {
        v
    }
}

/// Packs three quantised channels, each clamped to a byte, into one
/// `0x00RRGGBB` word.
pub fn pack_rgb(r: u32, g: u32, b: u32) -> (p: u32)
    ensures
        p == packed(clamp_channel(r), clamp_channel(g), clamp_channel(b)),
        p < 0x0100_0000,
{
    let r8 = clamp_to_byte(r);
    let g8 = clamp_to_byte(g);
    let b8 = clamp_to_byte(b);
    r8 * 65536 + g8 * 256 + b8
}

} // verus!
