//! The blend of the compositing stage on 8-bit channels: a scene colour is
//! scaled by the mask at the same place, so that a fully lit mask lets the
//! scene through and a darker mask darkens it in proportion.

use vstd::prelude::*;
use crate::target::LIT_INTENSITY;

verus! {

/// A colour of four 8-bit channels.
#[derive(Clone, Copy, Debug, PartialEq, Eq)]
pub struct Rgba {
    pub r: u8,
    pub g: u8,
    pub b: u8,
    pub a: u8,
}

/// A channel of the scene scaled by a channel of the mask: `scene * mask /
/// 255`, rounded to the nearest whole number.
pub open spec fn blend_channel_of(scene: u8, mask: u8) -> int {
    (scene * mask + 127) / 255
}

/// The scene colour scaled channel by channel by the mask colour. The
/// scene's alpha is kept.
pub open spec fn blend_of(scene: Rgba, mask: Rgba) -> Rgba {
    Rgba {
        r: blend_channel_of(scene.r, mask.r) as u8,
        g: blend_channel_of(scene.g, mask.g) as u8,
        b: blend_channel_of(scene.b, mask.b) as u8,
        a: scene.a,
    }
}

/// The gray of a given intensity, opaque.
pub open spec fn gray_of(intensity: u8) -> Rgba {
    Rgba { r: intensity, g: intensity, b: intensity, a: 255 }
}

/// A blended channel is never brighter than the scene's, a fully lit mask
/// leaves the scene's channel as it is, and a black mask blacks it out.
pub proof fn lemma_blend_channel_bounds(scene: u8, mask: u8)
    ensures
        0 <= blend_channel_of(scene, mask) <= scene,
        blend_channel_of(scene, LIT_INTENSITY) == scene,
        blend_channel_of(scene, 0) == 0,
{
    assert(0 <= scene * mask <= scene * 255) by (nonlinear_arith)
        requires
            0 <= scene,
            0 <= mask <= 255,
    ;
}

/// The blend is monotonic in the mask: a brighter mask never gives a darker
/// result.
pub proof fn lemma_blend_monotonic_in_mask(scene: u8, darker: u8, brighter: u8)
    requires
        darker <= brighter,
    ensures
        blend_channel_of(scene, darker) <= blend_channel_of(scene, brighter),
{
    assert(scene * darker <= scene * brighter) by (nonlinear_arith)
        requires
            0 <= scene,
            darker <= brighter,
    ;
}

/// The blend is monotonic in the scene: a brighter scene never gives a
/// darker result under one mask.
pub proof fn lemma_blend_monotonic_in_scene(darker: u8, brighter: u8, mask: u8)
    requires
        darker <= brighter,
    ensures
        blend_channel_of(darker, mask) <= blend_channel_of(brighter, mask),
{
    assert(darker * mask <= brighter * mask) by (nonlinear_arith)
        requires
            0 <= mask,
            darker <= brighter,
    ;
}

/// Inside the field of view the mask is fully lit and the scene's colour
/// comes out unchanged; outside it every colour channel comes out scaled by
/// the clear intensity, never brighter than it went in.
pub proof fn lemma_blend_inside_and_outside(scene: Rgba, clear_intensity: u8)
    ensures
        blend_of(scene, gray_of(LIT_INTENSITY)) == scene,
        blend_of(scene, gray_of(clear_intensity)).r <= scene.r,
        blend_of(scene, gray_of(clear_intensity)).g <= scene.g,
        blend_of(scene, gray_of(clear_intensity)).b <= scene.b,
        blend_of(scene, gray_of(clear_intensity)).a == scene.a,
{
    lemma_blend_channel_bounds(scene.r, clear_intensity);
    lemma_blend_channel_bounds(scene.g, clear_intensity);
    lemma_blend_channel_bounds(scene.b, clear_intensity);
    lemma_blend_channel_bounds(scene.r, LIT_INTENSITY);
    lemma_blend_channel_bounds(scene.g, LIT_INTENSITY);
    lemma_blend_channel_bounds(scene.b, LIT_INTENSITY);
}

/// Scales a channel of the scene by a channel of the mask.
pub fn blend_channel(scene: u8, mask: u8) -> (blended: u8)
    ensures
        blended == blend_channel_of(scene, mask),
{
    proof {
        lemma_blend_channel_bounds(scene, mask);
        assert(0 <= scene * mask <= 255 * 255) by (nonlinear_arith)
            requires
                0 <= scene <= 255,
                0 <= mask <= 255,
        ;
    }
    let product: u32 = (scene as u32) * (mask as u32);
    ((product + 127) / 255) as u8
}

/// Blends a pixel of the scene with the pixel of the mask at the same
/// place.
pub fn blend(scene: Rgba, mask: Rgba) -> (blended: Rgba)
    ensures
        blended == blend_of(scene, mask),
{
    Rgba {
        r: blend_channel(scene.r, mask.r),
        g: blend_channel(scene.g, mask.g),
        b: blend_channel(scene.b, mask.b),
        a: scene.a,
    }
}

/// The opaque gray of a given intensity: the colour of a mask pixel.
pub fn gray(intensity: u8) -> (color: Rgba)
    ensures
        color == gray_of(intensity),
{
    Rgba { r: intensity, g: intensity, b: intensity, a: 255 }
}

} // verus!
