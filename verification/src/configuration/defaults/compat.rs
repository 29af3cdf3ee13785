//! Defaults of the compatibility options: whether each quirk of the old
//! engines is imitated.

use vstd::prelude::*;

verus! {

/// Default of `comp_zombie`.
pub fn default_comp_zombie() -> (r: bool)
    ensures
        r,
{
    true
}

/// Default of `comp_infcheat`.
pub fn default_comp_infcheat() -> (r: bool)
    ensures
        !r,
{
    false
}

/// Default of `comp_stairs`.
pub fn default_comp_stairs() -> (r: bool)
    ensures
        !r,
{
    false
}

/// Default of `comp_telefrag`.
pub fn default_comp_telefrag() -> (r: bool)
    ensures
        !r,
{
    false
}

/// Default of `comp_dropoff`.
pub fn default_comp_dropoff() -> (r: bool)
    ensures
        !r,
{
    false
}

/// Default of `comp_falloff`.
pub fn default_comp_falloff() -> (r: bool)
    ensures
        !r,
{
    false
}

/// Default of `comp_staylift`.
pub fn default_comp_staylift() -> (r: bool)
    ensures
        !r,
{
    false
}

/// Default of `comp_doorstuck`.
pub fn default_comp_doorstuck() -> (r: bool)
    ensures
        !r,
{
    false
}

/// Default of `comp_pursuit`.
pub fn default_comp_pursuit() -> (r: bool)
    ensures
        !r,
{
    false
}

/// Default of `comp_vile`.
pub fn default_comp_vile() -> (r: bool)
    ensures
        !r,
{
    false
}

/// Default of `comp_pain`.
pub fn default_comp_pain() -> (r: bool)
    ensures
        !r,
{
    false
}

/// Default of `comp_skull`.
pub fn default_comp_skull() -> (r: bool)
    ensures
        !r,
{
    false
}

/// Default of `comp_blazing`.
pub fn default_comp_blazing() -> (r: bool)
    ensures
        !r,
{
    false
}

/// Default of `comp_doorlight`.
pub fn default_comp_doorlight() -> (r: bool)
    ensures
        !r,
{
    false
}

/// Default of `comp_god`.
pub fn default_comp_god() -> (r: bool)
    ensures
        !r,
{
    false
}

/// Default of `comp_skymap`.
pub fn default_comp_skymap() -> (r: bool)
    ensures
        !r,
{
    false
}

/// Default of `comp_floors`.
pub fn default_comp_floors() -> (r: bool)
    ensures
        !r,
{
    false
}

/// Default of `comp_model`.
pub fn default_comp_model() -> (r: bool)
    ensures
        !r,
{
    false
}

/// Default of `comp_zerotags`.
pub fn default_comp_zerotags() -> (r: bool)
    ensures
        !r,
{
    false
}

/// Default of `comp_moveblock`.
pub fn default_comp_moveblock() -> (r: bool)
    ensures
        !r,
{
    false
}

/// Default of `comp_sound`.
pub fn default_comp_sound() -> (r: bool)
    ensures
        !r,
{
    false
}

/// Default of `comp_666`.
pub fn default_comp_666() -> (r: bool)
    ensures
        !r,
{
    false
}

/// Default of `comp_soul`.
pub fn default_comp_soul() -> (r: bool)
    ensures
        !r,
{
    false
}

/// Default of `comp_maskedanim`.
pub fn default_comp_maskedanim() -> (r: bool)
    ensures
        !r,
{
    false
}

/// Default of `comp_ouchface`.
pub fn default_comp_ouchface() -> (r: bool)
    ensures
        !r,
{
    false
}

/// Default of `comp_maxhealth`.
pub fn default_comp_maxhealth() -> (r: bool)
    ensures
        !r,
{
    false
}

/// Default of `comp_translucency`.
pub fn default_comp_translucency() -> (r: bool)
    ensures
        !r,
{
    false
}

} // verus!
