//! Defaults of the settings of the screen and of both renderers.

use vstd::prelude::*;

use crate::configuration::bounded::BufferBits;
use crate::configuration::bounded::GammaCorrectionLevel;
use crate::configuration::bounded::Percentage;
use crate::configuration::bounded::PositiveInt;
use crate::configuration::bounded::Screenblocks;
use crate::configuration::bounded::SkyDetail;
use crate::configuration::bounded::SpriteOffset;
use crate::configuration::options::AnisotropicFilter;
use crate::configuration::options::Filter;
use crate::configuration::options::InterpolationMethod;
use crate::configuration::options::PatchFilter;
use crate::configuration::options::ScreenResolution;
use crate::configuration::options::SkyType;
use crate::configuration::options::SlopedEdgeType;
use crate::configuration::options::SpriteFilter;
use crate::configuration::options::TextureFilter;
use crate::configuration::options::VideoMode;
use crate::configuration::options::ZFilter;

verus! {

/// Default of `videomode`.
pub fn default_videomode() -> (r: VideoMode)
    ensures
        r == VideoMode::ModeGL,
{
    VideoMode::ModeGL
}

/// Default of `screen_resolution`.
pub fn default_screen_resolution() -> (r: ScreenResolution)
    ensures
        r == (ScreenResolution { width: 640, height: 480 }),
{
    ScreenResolution { width: 640, height: 480 }
}

/// Default of `use_fullscreen`.
pub fn default_use_fullscreen() -> (r: bool)
    ensures
        !r,
{
    false
}

/// Default of `render_vsync`.
pub fn default_render_vsync() -> (r: bool)
    ensures
        r,
{
    true
}

/// Default of `translucency`.
pub fn default_translucency() -> (r: bool)
    ensures
        r,
{
    true
}

/// Default of `tran_filter_pct`.
pub fn default_tran_filter_pct() -> (r: Percentage)
    ensures
        r@ == 66,
{
    Percentage::new(66).unwrap()
}

/// Default of `screenblocks`.
pub fn default_screenblocks() -> (r: Screenblocks)
    ensures
        r@ == 10,
{
    Screenblocks::new(10).unwrap()
}

/// Default of `usegamma`.
pub fn default_usegamma() -> (r: GammaCorrectionLevel)
    ensures
        r@ == 0,
{
    GammaCorrectionLevel::new(0).unwrap()
}

/// Default of `uncapped_framerate`.
pub fn default_uncapped_framerate() -> (r: bool)
    ensures
        r,
{
    true
}

/// Default of `test_interpolation_method`.
pub fn default_test_interpolation_method() -> (r: InterpolationMethod)
    ensures
        r == InterpolationMethod::Fixme0,
{
    InterpolationMethod::Fixme0
}

/// Default of `filter_wall`.
pub fn default_filter_wall() -> (r: Filter)
    ensures
        r == Filter::Point,
{
    Filter::Point
}

/// Default of `filter_floor`.
pub fn default_filter_floor() -> (r: Filter)
    ensures
        r == Filter::Point,
{
    Filter::Point
}

/// Default of `filter_sprite`.
pub fn default_filter_sprite() -> (r: Filter)
    ensures
        r == Filter::Point,
{
    Filter::Point
}

/// Default of `filter_z`.
pub fn default_filter_z() -> (r: ZFilter)
    ensures
        r == ZFilter::Point,
{
    ZFilter::Point
}

/// Default of `filter_patch`.
pub fn default_filter_patch() -> (r: Filter)
    ensures
        r == Filter::Point,
{
    Filter::Point
}

/// Default of `filter_threshold`.
pub fn default_filter_threshold() -> (r: PositiveInt)
    ensures
        r@ == 49152,
{
    PositiveInt::new(49152).unwrap()
}

/// Default of `sprite_edges`.
pub fn default_sprite_edges() -> (r: SlopedEdgeType)
    ensures
        r == SlopedEdgeType::Square,
{
    SlopedEdgeType::Square
}

/// Default of `patch_edges`.
pub fn default_patch_edges() -> (r: SlopedEdgeType)
    ensures
        r == SlopedEdgeType::Square,
{
    SlopedEdgeType::Square
}

/// Default of `gl_compatibility`.
pub fn default_gl_compatibility() -> (r: bool)
    ensures
        !r,
{
    false
}

/// Default of `gl_arb_multitexture`.
pub fn default_gl_arb_multitexture() -> (r: bool)
    ensures
        r,
{
    true
}

/// Default of `gl_arb_texture_compression`.
pub fn default_gl_arb_texture_compression() -> (r: bool)
    ensures
        r,
{
    true
}

/// Default of `gl_arb_texture_non_power_of_two`.
pub fn default_gl_arb_texture_non_power_of_two() -> (r: bool)
    ensures
        r,
{
    true
}

/// Default of `gl_ext_arb_vertex_buffer_object`.
pub fn default_gl_ext_arb_vertex_buffer_object() -> (r: bool)
    ensures
        r,
{
    true
}

/// Default of `gl_arb_pixel_buffer_object`.
pub fn default_gl_arb_pixel_buffer_object() -> (r: bool)
    ensures
        r,
{
    true
}

/// Default of `gl_arb_shader_objects`.
pub fn default_gl_arb_shader_objects() -> (r: bool)
    ensures
        r,
{
    true
}

/// Default of `gl_ext_blend_color`.
pub fn default_gl_ext_blend_color() -> (r: bool)
    ensures
        r,
{
    true
}

/// Default of `gl_ext_framebuffer_object`.
pub fn default_gl_ext_framebuffer_object() -> (r: bool)
    ensures
        r,
{
    true
}

/// Default of `gl_ext_packed_depth_stencil`.
pub fn default_gl_ext_packed_depth_stencil() -> (r: bool)
    ensures
        r,
{
    true
}

/// Default of `gl_ext_texture_filter_anisotropic`.
pub fn default_gl_ext_texture_filter_anisotropic() -> (r: bool)
    ensures
        r,
{
    true
}

/// Default of `gl_use_stencil`.
pub fn default_gl_use_stencil() -> (r: bool)
    ensures
        r,
{
    true
}

/// Default of `gl_use_display_lists`.
pub fn default_gl_use_display_lists() -> (r: bool)
    ensures
        !r,
{
    false
}

/// Default of `gl_finish`.
pub fn default_gl_finish() -> (r: bool)
    ensures
        r,
{
    true
}

/// Default of `gl_clear`.
pub fn default_gl_clear() -> (r: bool)
    ensures
        !r,
{
    false
}

/// Default of `gl_ztrick`.
pub fn default_gl_ztrick() -> (r: bool)
    ensures
        !r,
{
    false
}

/// Default of `gl_nearclip`.
pub fn default_gl_nearclip() -> (r: PositiveInt)
    ensures
        r@ == 5,
{
    PositiveInt::new(5).unwrap()
}

/// Default of `gl_colorbuffer_bits`.
pub fn default_gl_colorbuffer_bits() -> (r: BufferBits)
    ensures
        r@ == 32,
{
    BufferBits::new(32).unwrap()
}

/// Default of `gl_depthbuffer_bits`.
pub fn default_gl_depthbuffer_bits() -> (r: BufferBits)
    ensures
        r@ == 24,
{
    BufferBits::new(24).unwrap()
}

/// Default of `gl_texture_filter`.
pub fn default_gl_texture_filter() -> (r: TextureFilter)
    ensures
        r == TextureFilter::NearestMipmapLinear,
{
    TextureFilter::NearestMipmapLinear
}

/// Default of `gl_sprite_filter`.
pub fn default_gl_sprite_filter() -> (r: SpriteFilter)
    ensures
        r == SpriteFilter::NearestMipmapLinear,
{
    SpriteFilter::NearestMipmapLinear
}

/// Default of `gl_patch_filter`.
pub fn default_gl_patch_filter() -> (r: PatchFilter)
    ensures
        r == PatchFilter::Nearest,
{
    PatchFilter::Nearest
}

/// Default of `gl_texture_filter_anisotropic`.
pub fn default_gl_texture_filter_anisotropic() -> (r: AnisotropicFilter)
    ensures
        r == AnisotropicFilter::On16x,
{
    AnisotropicFilter::On16x
}

/// Default of `gl_tex_format_string`.
pub fn default_gl_tex_format_string() -> (r: String)
    ensures
        r@ == "GL_RGBA"@,
{
    "GL_RGBA".to_owned()
}

/// Default of `gl_sprite_offset`.
pub fn default_gl_sprite_offset() -> (r: SpriteOffset)
    ensures
        r@ == 0,
{
    SpriteOffset::new(0).unwrap()
}

/// Default of `gl_sprite_blend`.
pub fn default_gl_sprite_blend() -> (r: bool)
    ensures
        !r,
{
    false
}

/// Default of `gl_mask_sprite_threshold`.
pub fn default_gl_mask_sprite_threshold() -> (r: Percentage)
    ensures
        r@ == 50,
{
    Percentage::new(50).unwrap()
}

/// Default of `gl_skymode`.
pub fn default_gl_skymode() -> (r: SkyType)
    ensures
        r == SkyType::Auto,
{
    SkyType::Auto
}

/// Default of `gl_sky_detail`.
pub fn default_gl_sky_detail() -> (r: SkyDetail)
    ensures
        r@ == 16,
{
    SkyDetail::new(16).unwrap()
}

/// Default of `gl_use_paletted_texture`.
pub fn default_gl_use_paletted_texture() -> (r: bool)
    ensures
        !r,
{
    false
}

/// Default of `gl_use_shared_texture_palette`.
pub fn default_gl_use_shared_texture_palette() -> (r: bool)
    ensures
        !r,
{
    false
}

} // verus!
