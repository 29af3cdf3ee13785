//! Defaults of the automap: its colours and its behaviour.

use vstd::prelude::*;

use crate::configuration::bounded::Height;
use crate::configuration::bounded::MapGridSize;
use crate::configuration::bounded::MapScrollSpeed;
use crate::configuration::bounded::Percentage;
use crate::configuration::bounded::Width;
use crate::configuration::bounded::XPosition;
use crate::configuration::bounded::YPosition;
use crate::configuration::options::AutomapMode;
use crate::configuration::options::Color;
use crate::configuration::options::MapThingsAppearance;

verus! {

/// Default of `mapcolor_back`.
pub fn default_mapcolor_back() -> (r: Color)
    ensures
        r == 247,
{
    247
}

/// Default of `mapcolor_grid`.
pub fn default_mapcolor_grid() -> (r: Color)
    ensures
        r == 104,
{
    104
}

/// Default of `mapcolor_wall`.
pub fn default_mapcolor_wall() -> (r: Color)
    ensures
        r == 23,
{
    23
}

/// Default of `mapcolor_fchg`.
pub fn default_mapcolor_fchg() -> (r: Color)
    ensures
        r == 55,
{
    55
}

/// Default of `mapcolor_cchg`.
pub fn default_mapcolor_cchg() -> (r: Color)
    ensures
        r == 215,
{
    215
}

/// Default of `mapcolor_clsd`.
pub fn default_mapcolor_clsd() -> (r: Color)
    ensures
        r == 208,
{
    208
}

/// Default of `mapcolor_rkey`.
pub fn default_mapcolor_rkey() -> (r: Color)
    ensures
        r == 175,
{
    175
}

/// Default of `mapcolor_bkey`.
pub fn default_mapcolor_bkey() -> (r: Color)
    ensures
        r == 204,
{
    204
}

/// Default of `mapcolor_ykey`.
pub fn default_mapcolor_ykey() -> (r: Color)
    ensures
        r == 231,
{
    231
}

/// Default of `mapcolor_rdor`.
pub fn default_mapcolor_rdor() -> (r: Color)
    ensures
        r == 175,
{
    175
}

/// Default of `mapcolor_bdor`.
pub fn default_mapcolor_bdor() -> (r: Color)
    ensures
        r == 204,
{
    204
}

/// Default of `mapcolor_ydor`.
pub fn default_mapcolor_ydor() -> (r: Color)
    ensures
        r == 231,
{
    231
}

/// Default of `mapcolor_tele`.
pub fn default_mapcolor_tele() -> (r: Color)
    ensures
        r == 119,
{
    119
}

/// Default of `mapcolor_secr`.
pub fn default_mapcolor_secr() -> (r: Color)
    ensures
        r == 252,
{
    252
}

/// Default of `mapcolor_exit`.
pub fn default_mapcolor_exit() -> (r: Color)
    ensures
        r == 0,
{
    0
}

/// Default of `mapcolor_unsn`.
pub fn default_mapcolor_unsn() -> (r: Color)
    ensures
        r == 104,
{
    104
}

/// Default of `mapcolor_flat`.
pub fn default_mapcolor_flat() -> (r: Color)
    ensures
        r == 88,
{
    88
}

/// Default of `mapcolor_sprt`.
pub fn default_mapcolor_sprt() -> (r: Color)
    ensures
        r == 112,
{
    112
}

/// Default of `mapcolor_item`.
pub fn default_mapcolor_item() -> (r: Color)
    ensures
        r == 231,
{
    231
}

/// Default of `mapcolor_hair`.
pub fn default_mapcolor_hair() -> (r: Color)
    ensures
        r == 208,
{
    208
}

/// Default of `mapcolor_sngl`.
pub fn default_mapcolor_sngl() -> (r: Color)
    ensures
        r == 208,
{
    208
}

/// Default of `mapcolor_me`.
pub fn default_mapcolor_me() -> (r: Color)
    ensures
        r == 112,
{
    112
}

/// Default of `mapcolor_enemy`.
pub fn default_mapcolor_enemy() -> (r: Color)
    ensures
        r == 177,
{
    177
}

/// Default of `mapcolor_frnd`.
pub fn default_mapcolor_frnd() -> (r: Color)
    ensures
        r == 112,
{
    112
}

/// Default of `map_secret_after`.
pub fn default_map_secret_after() -> (r: bool)
    ensures
        !r,
{
    false
}

/// Default of `map_point_coord`.
pub fn default_map_point_coord() -> (r: bool)
    ensures
        !r,
{
    false
}

/// Default of `map_level_stat`.
pub fn default_map_level_stat() -> (r: bool)
    ensures
        r,
{
    true
}

/// Default of `automapmode`.
pub fn default_automapmode() -> (r: AutomapMode)
    ensures
        r == (AutomapMode {
            active: false,
            follow: true,
            grid: false,
            overlay: false,
            rotate: false,
        }),
{
    AutomapMode { active: false, follow: true, grid: false, overlay: false, rotate: false }
}

/// Default of `map_always_updates`.
pub fn default_map_always_updates() -> (r: bool)
    ensures
        r,
{
    true
}

/// Default of `map_grid_size`.
pub fn default_map_grid_size() -> (r: MapGridSize)
    ensures
        r@ == 128,
{
    MapGridSize::new(128).unwrap()
}

/// Default of `map_scroll_speed`.
pub fn default_map_scroll_speed() -> (r: MapScrollSpeed)
    ensures
        r@ == 8,
{
    MapScrollSpeed::new(8).unwrap()
}

/// Default of `map_wheel_zoom`.
pub fn default_map_wheel_zoom() -> (r: bool)
    ensures
        r,
{
    true
}

/// Default of `map_use_multisampling`.
pub fn default_map_use_multisampling() -> (r: bool)
    ensures
        r,
{
    true
}

/// Default of `map_textured`.
pub fn default_map_textured() -> (r: bool)
    ensures
        r,
{
    true
}

/// Default of `map_textured_trans`.
pub fn default_map_textured_trans() -> (r: Percentage)
    ensures
        r@ == 100,
{
    Percentage::new(100).unwrap()
}

/// Default of `map_textured_overlay_trans`.
pub fn default_map_textured_overlay_trans() -> (r: Percentage)
    ensures
        r@ == 66,
{
    Percentage::new(66).unwrap()
}

/// Default of `map_lines_overlay_trans`.
pub fn default_map_lines_overlay_trans() -> (r: Percentage)
    ensures
        r@ == 100,
{
    Percentage::new(100).unwrap()
}

/// Default of `map_overlay_pos_x`.
pub fn default_map_overlay_pos_x() -> (r: XPosition)
    ensures
        r@ == 0,
{
    XPosition::new(0).unwrap()
}

/// Default of `map_overlay_pos_y`.
pub fn default_map_overlay_pos_y() -> (r: YPosition)
    ensures
        r@ == 0,
{
    YPosition::new(0).unwrap()
}

/// Default of `map_overlay_pos_width`.
pub fn default_map_overlay_pos_width() -> (r: Width)
    ensures
        r@ == 320,
{
    Width::new(320).unwrap()
}

/// Default of `map_overlay_pos_height`.
pub fn default_map_overlay_pos_height() -> (r: Height)
    ensures
        r@ == 200,
{
    Height::new(200).unwrap()
}

/// Default of `map_things_appearance`.
pub fn default_map_things_appearance() -> (r: MapThingsAppearance)
    ensures
        r == MapThingsAppearance::Icon,
{
    MapThingsAppearance::Icon
}

} // verus!
