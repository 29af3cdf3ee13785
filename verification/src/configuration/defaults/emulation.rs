//! Defaults of the emulation of overruns and of errors of the first engine.

use vstd::prelude::*;

verus! {

/// Default of `overrun_spechit_warn`.
pub fn default_overrun_spechit_warn() -> (r: bool)
    ensures
        !r,
{
    false
}

/// Default of `overrun_spechit_emulate`.
pub fn default_overrun_spechit_emulate() -> (r: bool)
    ensures
        r,
{
    true
}

/// Default of `overrun_reject_warn`.
pub fn default_overrun_reject_warn() -> (r: bool)
    ensures
        !r,
{
    false
}

/// Default of `overrun_reject_emulate`.
pub fn default_overrun_reject_emulate() -> (r: bool)
    ensures
        r,
{
    true
}

/// Default of `overrun_intercept_warn`.
pub fn default_overrun_intercept_warn() -> (r: bool)
    ensures
        !r,
{
    false
}

/// Default of `overrun_intercept_emulate`.
pub fn default_overrun_intercept_emulate() -> (r: bool)
    ensures
        r,
{
    true
}

/// Default of `overrun_playeringame_warn`.
pub fn default_overrun_playeringame_warn() -> (r: bool)
    ensures
        !r,
{
    false
}

/// Default of `overrun_playeringame_emulate`.
pub fn default_overrun_playeringame_emulate() -> (r: bool)
    ensures
        r,
{
    true
}

/// Default of `overrun_donut_warn`.
pub fn default_overrun_donut_warn() -> (r: bool)
    ensures
        !r,
{
    false
}

/// Default of `overrun_donut_emulate`.
pub fn default_overrun_donut_emulate() -> (r: bool)
    ensures
        !r,
{
    false
}

/// Default of `overrun_missedbackside_warn`.
pub fn default_overrun_missedbackside_warn() -> (r: bool)
    ensures
        !r,
{
    false
}

/// Default of `overrun_missedbackside_emulate`.
pub fn default_overrun_missedbackside_emulate() -> (r: bool)
    ensures
        !r,
{
    false
}

/// Default of `comperr_zerotag`.
pub fn default_comperr_zerotag() -> (r: bool)
    ensures
        !r,
{
    false
}

/// Default of `comperr_passuse`.
pub fn default_comperr_passuse() -> (r: bool)
    ensures
        !r,
{
    false
}

/// Default of `comperr_hangsolid`.
pub fn default_comperr_hangsolid() -> (r: bool)
    ensures
        !r,
{
    false
}

/// Default of `comperr_blockmap`.
pub fn default_comperr_blockmap() -> (r: bool)
    ensures
        !r,
{
    false
}

/// Default of `comperr_allowjump`.
pub fn default_comperr_allowjump() -> (r: bool)
    ensures
        !r,
{
    false
}

/// Default of `comperr_freeaim`.
pub fn default_comperr_freeaim() -> (r: bool)
    ensures
        !r,
{
    false
}

} // verus!
