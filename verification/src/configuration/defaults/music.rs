//! Defaults of the music files that replace the built-in tracks.

use vstd::prelude::*;

verus! {

/// Default of `mus_e1m1`.
pub fn default_mus_e1m1() -> (r: String)
    ensures
        r@ == "e1m1.mp3"@,
{
    "e1m1.mp3".to_owned()
}

/// Default of `mus_e1m2`.
pub fn default_mus_e1m2() -> (r: String)
    ensures
        r@ == "e1m2.mp3"@,
{
    "e1m2.mp3".to_owned()
}

/// Default of `mus_e1m3`.
pub fn default_mus_e1m3() -> (r: String)
    ensures
        r@ == "e1m3.mp3"@,
{
    "e1m3.mp3".to_owned()
}

/// Default of `mus_e1m4`.
pub fn default_mus_e1m4() -> (r: String)
    ensures
        r@ == "e1m4.mp3"@,
{
    "e1m4.mp3".to_owned()
}

/// Default of `mus_e1m5`.
pub fn default_mus_e1m5() -> (r: String)
    ensures
        r@ == "e1m5.mp3"@,
{
    "e1m5.mp3".to_owned()
}

/// Default of `mus_e1m6`.
pub fn default_mus_e1m6() -> (r: String)
    ensures
        r@ == "e1m6.mp3"@,
{
    "e1m6.mp3".to_owned()
}

/// Default of `mus_e1m7`.
pub fn default_mus_e1m7() -> (r: String)
    ensures
        r@ == "e1m7.mp3"@,
{
    "e1m7.mp3".to_owned()
}

/// Default of `mus_e1m8`.
pub fn default_mus_e1m8() -> (r: String)
    ensures
        r@ == "e1m8.mp3"@,
{
    "e1m8.mp3".to_owned()
}

/// Default of `mus_e1m9`.
pub fn default_mus_e1m9() -> (r: String)
    ensures
        r@ == "e1m9.mp3"@,
{
    "e1m9.mp3".to_owned()
}

/// Default of `mus_e2m1`.
pub fn default_mus_e2m1() -> (r: String)
    ensures
        r@ == "e2m1.mp3"@,
{
    "e2m1.mp3".to_owned()
}

/// Default of `mus_e2m2`.
pub fn default_mus_e2m2() -> (r: String)
    ensures
        r@ == "e2m2.mp3"@,
{
    "e2m2.mp3".to_owned()
}

/// Default of `mus_e2m3`.
pub fn default_mus_e2m3() -> (r: String)
    ensures
        r@ == "e2m3.mp3"@,
{
    "e2m3.mp3".to_owned()
}

/// Default of `mus_e2m4`.
pub fn default_mus_e2m4() -> (r: String)
    ensures
        r@ == "e2m4.mp3"@,
{
    "e2m4.mp3".to_owned()
}

/// Default of `mus_e2m5`.
pub fn default_mus_e2m5() -> (r: String)
    ensures
        r@ == "e2m5.mp3"@,
{
    "e2m5.mp3".to_owned()
}

/// Default of `mus_e2m6`.
pub fn default_mus_e2m6() -> (r: String)
    ensures
        r@ == "e2m6.mp3"@,
{
    "e2m6.mp3".to_owned()
}

/// Default of `mus_e2m7`.
pub fn default_mus_e2m7() -> (r: String)
    ensures
        r@ == "e2m7.mp3"@,
{
    "e2m7.mp3".to_owned()
}

/// Default of `mus_e2m8`.
pub fn default_mus_e2m8() -> (r: String)
    ensures
        r@ == "e2m8.mp3"@,
{
    "e2m8.mp3".to_owned()
}

/// Default of `mus_e2m9`.
pub fn default_mus_e2m9() -> (r: String)
    ensures
        r@ == "e2m9.mp3"@,
{
    "e2m9.mp3".to_owned()
}

/// Default of `mus_e3m1`.
pub fn default_mus_e3m1() -> (r: String)
    ensures
        r@ == "e3m1.mp3"@,
{
    "e3m1.mp3".to_owned()
}

/// Default of `mus_e3m2`.
pub fn default_mus_e3m2() -> (r: String)
    ensures
        r@ == "e3m2.mp3"@,
{
    "e3m2.mp3".to_owned()
}

/// Default of `mus_e3m3`.
pub fn default_mus_e3m3() -> (r: String)
    ensures
        r@ == "e3m3.mp3"@,
{
    "e3m3.mp3".to_owned()
}

/// Default of `mus_e3m4`.
pub fn default_mus_e3m4() -> (r: String)
    ensures
        r@ == "e3m4.mp3"@,
{
    "e3m4.mp3".to_owned()
}

/// Default of `mus_e3m5`.
pub fn default_mus_e3m5() -> (r: String)
    ensures
        r@ == "e3m5.mp3"@,
{
    "e3m5.mp3".to_owned()
}

/// Default of `mus_e3m6`.
pub fn default_mus_e3m6() -> (r: String)
    ensures
        r@ == "e3m6.mp3"@,
{
    "e3m6.mp3".to_owned()
}

/// Default of `mus_e3m7`.
pub fn default_mus_e3m7() -> (r: String)
    ensures
        r@ == "e3m7.mp3"@,
{
    "e3m7.mp3".to_owned()
}

/// Default of `mus_e3m8`.
pub fn default_mus_e3m8() -> (r: String)
    ensures
        r@ == "e3m8.mp3"@,
{
    "e3m8.mp3".to_owned()
}

/// Default of `mus_e3m9`.
pub fn default_mus_e3m9() -> (r: String)
    ensures
        r@ == "e3m9.mp3"@,
{
    "e3m9.mp3".to_owned()
}

/// Default of `mus_inter`.
pub fn default_mus_inter() -> (r: String)
    ensures
        r@ == "inter.mp3"@,
{
    "inter.mp3".to_owned()
}

/// Default of `mus_intro`.
pub fn default_mus_intro() -> (r: String)
    ensures
        r@ == "intro.mp3"@,
{
    "intro.mp3".to_owned()
}

/// Default of `mus_bunny`.
pub fn default_mus_bunny() -> (r: String)
    ensures
        r@ == "bunny.mp3"@,
{
    "bunny.mp3".to_owned()
}

/// Default of `mus_victor`.
pub fn default_mus_victor() -> (r: String)
    ensures
        r@ == "victor.mp3"@,
{
    "victor.mp3".to_owned()
}

/// Default of `mus_introa`.
pub fn default_mus_introa() -> (r: String)
    ensures
        r@ == "introa.mp3"@,
{
    "introa.mp3".to_owned()
}

/// Default of `mus_runnin`.
pub fn default_mus_runnin() -> (r: String)
    ensures
        r@ == "runnin.mp3"@,
{
    "runnin.mp3".to_owned()
}

/// Default of `mus_stalks`.
pub fn default_mus_stalks() -> (r: String)
    ensures
        r@ == "stalks.mp3"@,
{
    "stalks.mp3".to_owned()
}

/// Default of `mus_countd`.
pub fn default_mus_countd() -> (r: String)
    ensures
        r@ == "countd.mp3"@,
{
    "countd.mp3".to_owned()
}

/// Default of `mus_betwee`.
pub fn default_mus_betwee() -> (r: String)
    ensures
        r@ == "betwee.mp3"@,
{
    "betwee.mp3".to_owned()
}

/// Default of `mus_doom`.
pub fn default_mus_doom() -> (r: String)
    ensures
        r@ == "doom.mp3"@,
{
    "doom.mp3".to_owned()
}

/// Default of `mus_the_da`.
pub fn default_mus_the_da() -> (r: String)
    ensures
        r@ == "the_da.mp3"@,
{
    "the_da.mp3".to_owned()
}

/// Default of `mus_shawn`.
pub fn default_mus_shawn() -> (r: String)
    ensures
        r@ == "shawn.mp3"@,
{
    "shawn.mp3".to_owned()
}

/// Default of `mus_ddtblu`.
pub fn default_mus_ddtblu() -> (r: String)
    ensures
        r@ == "ddtblu.mp3"@,
{
    "ddtblu.mp3".to_owned()
}

/// Default of `mus_in_cit`.
pub fn default_mus_in_cit() -> (r: String)
    ensures
        r@ == "in_cit.mp3"@,
{
    "in_cit.mp3".to_owned()
}

/// Default of `mus_dead`.
pub fn default_mus_dead() -> (r: String)
    ensures
        r@ == "dead.mp3"@,
{
    "dead.mp3".to_owned()
}

/// Default of `mus_stlks2`.
pub fn default_mus_stlks2() -> (r: String)
    ensures
        r@ == "stlks2.mp3"@,
{
    "stlks2.mp3".to_owned()
}

/// Default of `mus_theda2`.
pub fn default_mus_theda2() -> (r: String)
    ensures
        r@ == "theda2.mp3"@,
{
    "theda2.mp3".to_owned()
}

/// Default of `mus_doom2`.
pub fn default_mus_doom2() -> (r: String)
    ensures
        r@ == "doom2.mp3"@,
{
    "doom2.mp3".to_owned()
}

/// Default of `mus_ddtbl2`.
pub fn default_mus_ddtbl2() -> (r: String)
    ensures
        r@ == "ddtbl2.mp3"@,
{
    "ddtbl2.mp3".to_owned()
}

/// Default of `mus_runni2`.
pub fn default_mus_runni2() -> (r: String)
    ensures
        r@ == "runni2.mp3"@,
{
    "runni2.mp3".to_owned()
}

/// Default of `mus_dead2`.
pub fn default_mus_dead2() -> (r: String)
    ensures
        r@ == "dead2.mp3"@,
{
    "dead2.mp3".to_owned()
}

/// Default of `mus_stlks3`.
pub fn default_mus_stlks3() -> (r: String)
    ensures
        r@ == "stlks3.mp3"@,
{
    "stlks3.mp3".to_owned()
}

/// Default of `mus_romero`.
pub fn default_mus_romero() -> (r: String)
    ensures
        r@ == "romero.mp3"@,
{
    "romero.mp3".to_owned()
}

/// Default of `mus_shawn2`.
pub fn default_mus_shawn2() -> (r: String)
    ensures
        r@ == "shawn2.mp3"@,
{
    "shawn2.mp3".to_owned()
}

/// Default of `mus_messag`.
pub fn default_mus_messag() -> (r: String)
    ensures
        r@ == "messag.mp3"@,
{
    "messag.mp3".to_owned()
}

/// Default of `mus_count2`.
pub fn default_mus_count2() -> (r: String)
    ensures
        r@ == "count2.mp3"@,
{
    "count2.mp3".to_owned()
}

/// Default of `mus_ddtbl3`.
pub fn default_mus_ddtbl3() -> (r: String)
    ensures
        r@ == "ddtbl3.mp3"@,
{
    "ddtbl3.mp3".to_owned()
}

/// Default of `mus_ampie`.
pub fn default_mus_ampie() -> (r: String)
    ensures
        r@ == "ampie.mp3"@,
{
    "ampie.mp3".to_owned()
}

/// Default of `mus_theda3`.
pub fn default_mus_theda3() -> (r: String)
    ensures
        r@ == "theda3.mp3"@,
{
    "theda3.mp3".to_owned()
}

/// Default of `mus_adrian`.
pub fn default_mus_adrian() -> (r: String)
    ensures
        r@ == "adrian.mp3"@,
{
    "adrian.mp3".to_owned()
}

/// Default of `mus_messg2`.
pub fn default_mus_messg2() -> (r: String)
    ensures
        r@ == "messg2.mp3"@,
{
    "messg2.mp3".to_owned()
}

/// Default of `mus_romer2`.
pub fn default_mus_romer2() -> (r: String)
    ensures
        r@ == "romer2.mp3"@,
{
    "romer2.mp3".to_owned()
}

/// Default of `mus_tense`.
pub fn default_mus_tense() -> (r: String)
    ensures
        r@ == "tense.mp3"@,
{
    "tense.mp3".to_owned()
}

/// Default of `mus_shawn3`.
pub fn default_mus_shawn3() -> (r: String)
    ensures
        r@ == "shawn3.mp3"@,
{
    "shawn3.mp3".to_owned()
}

/// Default of `mus_openin`.
pub fn default_mus_openin() -> (r: String)
    ensures
        r@ == "openin.mp3"@,
{
    "openin.mp3".to_owned()
}

/// Default of `mus_evil`.
pub fn default_mus_evil() -> (r: String)
    ensures
        r@ == "evil.mp3"@,
{
    "evil.mp3".to_owned()
}

/// Default of `mus_ultima`.
pub fn default_mus_ultima() -> (r: String)
    ensures
        r@ == "ultima.mp3"@,
{
    "ultima.mp3".to_owned()
}

/// Default of `mus_read_m`.
pub fn default_mus_read_m() -> (r: String)
    ensures
        r@ == "read_m.mp3"@,
{
    "read_m.mp3".to_owned()
}

/// Default of `mus_dm2ttl`.
pub fn default_mus_dm2ttl() -> (r: String)
    ensures
        r@ == "dm2ttl.mp3"@,
{
    "dm2ttl.mp3".to_owned()
}

/// Default of `mus_dm2int`.
pub fn default_mus_dm2int() -> (r: String)
    ensures
        r@ == "dm2int.mp3"@,
{
    "dm2int.mp3".to_owned()
}

} // verus!
