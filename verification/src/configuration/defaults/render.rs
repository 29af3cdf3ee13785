//! Defaults of rendering details: palette effects, aspect, sprites,
//! textures, light and shadows.

use vstd::prelude::*;

use crate::configuration::bounded::AmbientLight;
use crate::configuration::bounded::DetailMaxDistance;
use crate::configuration::bounded::Fov;
use crate::configuration::bounded::GlGamma;
use crate::configuration::bounded::MouseStrafeDivisor;
use crate::configuration::bounded::MultisamplingLevel;
use crate::configuration::bounded::PatchScale;
use crate::configuration::bounded::Percentage;
use crate::configuration::bounded::RightAngle;
use crate::configuration::bounded::ScreenFactor;
use crate::configuration::bounded::ShadowFactor;
use crate::configuration::bounded::ShadowMaxDistance;
use crate::configuration::options::AspectRatio;
use crate::configuration::options::Color;
use crate::configuration::options::HqResizeMode;
use crate::configuration::options::LightMode;
use crate::configuration::options::PatchStretch;
use crate::configuration::options::SpriteClip;
use crate::configuration::options::SpriteDoomOrder;

verus! {

/// Default of `palette_ondamage`.
pub fn default_palette_ondamage() -> (r: bool)
    ensures
        r,
{
    true
}

/// Default of `palette_onbonus`.
pub fn default_palette_onbonus() -> (r: bool)
    ensures
        r,
{
    true
}

/// Default of `palette_onpowers`.
pub fn default_palette_onpowers() -> (r: bool)
    ensures
        r,
{
    true
}

/// Default of `render_wipescreen`.
pub fn default_render_wipescreen() -> (r: bool)
    ensures
        r,
{
    true
}

/// Default of `render_screen_multiply`.
pub fn default_render_screen_multiply() -> (r: ScreenFactor)
    ensures
        r@ == 1,
{
    ScreenFactor::new(1).unwrap()
}

/// Default of `render_aspect`.
pub fn default_render_aspect() -> (r: AspectRatio)
    ensures
        r == AspectRatio::R16x9,
{
    AspectRatio::R16x9
}

/// Default of `render_doom_lightmaps`.
pub fn default_render_doom_lightmaps() -> (r: bool)
    ensures
        !r,
{
    false
}

/// Default of `fake_contrast`.
pub fn default_fake_contrast() -> (r: bool)
    ensures
        r,
{
    true
}

/// Default of `render_stretch_hud`.
pub fn default_render_stretch_hud() -> (r: PatchStretch)
    ensures
        r == PatchStretch::StretchFull,
{
    PatchStretch::StretchFull
}

/// Default of `render_patches_scalex`.
pub fn default_render_patches_scalex() -> (r: PatchScale)
    ensures
        r@ == 0,
{
    PatchScale::new(0).unwrap()
}

/// Default of `render_patches_scaley`.
pub fn default_render_patches_scaley() -> (r: PatchScale)
    ensures
        r@ == 0,
{
    PatchScale::new(0).unwrap()
}

/// Default of `render_stretchsky`.
pub fn default_render_stretchsky() -> (r: bool)
    ensures
        r,
{
    true
}

/// Default of `sprites_doom_order`.
pub fn default_sprites_doom_order() -> (r: SpriteDoomOrder)
    ensures
        r == SpriteDoomOrder::Static,
{
    SpriteDoomOrder::Static
}

/// Default of `movement_mouselook`.
pub fn default_movement_mouselook() -> (r: bool)
    ensures
        !r,
{
    false
}

/// Default of `movement_maxviewpitch`.
pub fn default_movement_maxviewpitch() -> (r: RightAngle)
    ensures
        r@ == 90,
{
    RightAngle::new(90).unwrap()
}

/// Default of `movement_mousestrafedivisor`.
pub fn default_movement_mousestrafedivisor() -> (r: MouseStrafeDivisor)
    ensures
        r@ == 4,
{
    MouseStrafeDivisor::new(4).unwrap()
}

/// Default of `movement_mouseinvert`.
pub fn default_movement_mouseinvert() -> (r: bool)
    ensures
        !r,
{
    false
}

/// Default of `gl_allow_detail_textures`.
pub fn default_gl_allow_detail_textures() -> (r: bool)
    ensures
        r,
{
    true
}

/// Default of `gl_detail_maxdist`.
pub fn default_gl_detail_maxdist() -> (r: DetailMaxDistance)
    ensures
        r@ == 0,
{
    DetailMaxDistance::new(0).unwrap()
}

/// Default of `render_multisampling`.
pub fn default_render_multisampling() -> (r: MultisamplingLevel)
    ensures
        r@ == 0,
{
    MultisamplingLevel::new(0).unwrap()
}

/// Default of `render_fov`.
pub fn default_render_fov() -> (r: Fov)
    ensures
        r@ == 90,
{
    Fov::new(90).unwrap()
}

/// Default of `gl_spriteclip`.
pub fn default_gl_spriteclip() -> (r: SpriteClip)
    ensures
        r == SpriteClip::Smart,
{
    SpriteClip::Smart
}

/// Default of `gl_spriteclip_threshold`.
pub fn default_gl_spriteclip_threshold() -> (r: Percentage)
    ensures
        r@ == 10,
{
    Percentage::new(10).unwrap()
}

/// Default of `gl_sprites_frustum_culling`.
pub fn default_gl_sprites_frustum_culling() -> (r: bool)
    ensures
        r,
{
    true
}

/// Default of `render_paperitems`.
pub fn default_render_paperitems() -> (r: bool)
    ensures
        !r,
{
    false
}

/// Default of `gl_boom_colormaps`.
pub fn default_gl_boom_colormaps() -> (r: bool)
    ensures
        r,
{
    true
}

/// Default of `gl_hires_24bit_colormap`.
pub fn default_gl_hires_24bit_colormap() -> (r: bool)
    ensures
        !r,
{
    false
}

/// Default of `gl_texture_internal_hires`.
pub fn default_gl_texture_internal_hires() -> (r: bool)
    ensures
        r,
{
    true
}

/// Default of `gl_texture_external_hires`.
pub fn default_gl_texture_external_hires() -> (r: bool)
    ensures
        !r,
{
    false
}

/// Default of `gl_hires_override_pwads`.
pub fn default_gl_hires_override_pwads() -> (r: bool)
    ensures
        !r,
{
    false
}

/// Default of `gl_texture_hires_dir`.
pub fn default_gl_texture_hires_dir() -> (r: String)
    ensures
        r@ == ""@,
{
    "".to_owned()
}

/// Default of `gl_texture_hqresize`.
pub fn default_gl_texture_hqresize() -> (r: bool)
    ensures
        !r,
{
    false
}

/// Default of `gl_texture_hqresize_textures`.
pub fn default_gl_texture_hqresize_textures() -> (r: HqResizeMode)
    ensures
        r == HqResizeMode::Off,
{
    HqResizeMode::Off
}

/// Default of `gl_texture_hqresize_sprites`.
pub fn default_gl_texture_hqresize_sprites() -> (r: HqResizeMode)
    ensures
        r == HqResizeMode::Off,
{
    HqResizeMode::Off
}

/// Default of `gl_texture_hqresize_patches`.
pub fn default_gl_texture_hqresize_patches() -> (r: HqResizeMode)
    ensures
        r == HqResizeMode::Off,
{
    HqResizeMode::Off
}

/// Default of `gl_motionblur`.
pub fn default_gl_motionblur() -> (r: bool)
    ensures
        !r,
{
    false
}

/// Default of `gl_lightmode`.
pub fn default_gl_lightmode() -> (r: LightMode)
    ensures
        r == LightMode::Shaders,
{
    LightMode::Shaders
}

/// Default of `gl_light_ambient`.
pub fn default_gl_light_ambient() -> (r: AmbientLight)
    ensures
        r@ == 20,
{
    AmbientLight::new(20).unwrap()
}

/// Default of `gl_fog`.
pub fn default_gl_fog() -> (r: bool)
    ensures
        r,
{
    true
}

/// Default of `gl_fog_color`.
pub fn default_gl_fog_color() -> (r: Color)
    ensures
        r == 0xffffff,
{
    0xffffff
}

/// Default of `useglgamma`.
pub fn default_useglgamma() -> (r: GlGamma)
    ensures
        r@ == 6,
{
    GlGamma::new(6).unwrap()
}

/// Default of `gl_color_mip_levels`.
pub fn default_gl_color_mip_levels() -> (r: bool)
    ensures
        !r,
{
    false
}

/// Default of `gl_shadows`.
pub fn default_gl_shadows() -> (r: bool)
    ensures
        !r,
{
    false
}

/// Default of `gl_shadows_maxdist`.
pub fn default_gl_shadows_maxdist() -> (r: ShadowMaxDistance)
    ensures
        r@ == 1000,
{
    ShadowMaxDistance::new(1000).unwrap()
}

/// Default of `gl_shadows_factor`.
pub fn default_gl_shadows_factor() -> (r: ShadowFactor)
    ensures
        r@ == 128,
{
    ShadowFactor::new(128).unwrap()
}

/// Default of `gl_blend_animations`.
pub fn default_gl_blend_animations() -> (r: bool)
    ensures
        !r,
{
    false
}

} // verus!
