use ezboom::configuration::level::CompatibilityLevel;
use ezboom::error::StartupError;
use ezboom::game::{derive_legacy_flags, parse_compatibility_level, CompatibilityFlags};

fn all_off() -> CompatibilityFlags {
    CompatibilityFlags {
        comp_zombie: false,
        comp_telefrag: false,
        comp_dropoff: false,
        comp_vile: false,
        comp_pain: false,
        comp_skull: false,
        comp_blazing: false,
        comp_doorlight: false,
        comp_model: false,
        comp_god: false,
        comp_falloff: false,
        comp_floors: false,
        comp_skymap: false,
        comp_pursuit: false,
        comp_doorstuck: false,
        comp_staylift: false,
        comp_stairs: false,
        comp_infcheat: false,
        comp_zerotags: false,
        comp_moveblock: false,
        comp_respawn: false,
        comp_sound: false,
        comp_666: false,
        comp_soul: false,
        comp_maskedanim: false,
        comp_ouchface: false,
        comp_maxhealth: false,
        comp_translucency: false,
    }
}

#[test]
fn oldest_level_forces_the_quirks() {
    let flags = derive_legacy_flags(CompatibilityLevel::DoomV12, all_off());
    assert!(flags.comp_telefrag);
    assert!(flags.comp_dropoff);
    assert!(flags.comp_vile);
    assert!(flags.comp_respawn);
    assert!(flags.comp_maskedanim);
    assert!(flags.comp_666);
}

#[test]
fn newest_level_keeps_what_is_configured() {
    let mut configured = all_off();
    configured.comp_vile = true;
    configured.comp_ouchface = true;
    let flags = derive_legacy_flags(CompatibilityLevel::PrBoomLatest, configured);
    assert_eq!(flags, configured);
    assert_eq!(derive_legacy_flags(CompatibilityLevel::PrBoomLatest, all_off()), all_off());
}

#[test]
fn name_and_ordinal_of_mbf_agree() {
    assert_eq!(parse_compatibility_level("Mbf"), Ok(CompatibilityLevel::Mbf));
    assert_eq!(parse_compatibility_level("11"), Ok(CompatibilityLevel::Mbf));
    assert_eq!(CompatibilityLevel::try_from_primitive(11), Some(CompatibilityLevel::Mbf));
    assert_eq!(CompatibilityLevel::from_name("Mbf"), Some(CompatibilityLevel::Mbf));
}

#[test]
fn minus_one_is_the_newest_level() {
    assert_eq!(parse_compatibility_level("-1"), Ok(CompatibilityLevel::PrBoomLatest));
    assert_eq!(CompatibilityLevel::try_from_primitive(-1), None);
}

#[test]
fn unknown_levels_are_refused() {
    assert_eq!(parse_compatibility_level("18"), Err(StartupError::UnknownCompatibilityLevel));
    assert_eq!(parse_compatibility_level("-2"), Err(StartupError::UnknownCompatibilityLevel));
    assert_eq!(parse_compatibility_level("mbf"), Err(StartupError::UnknownCompatibilityLevel));
    assert_eq!(parse_compatibility_level(""), Err(StartupError::UnknownCompatibilityLevel));
}

#[test]
fn levels_are_ordered_in_time() {
    assert!(CompatibilityLevel::DoomV12 < CompatibilityLevel::DoomV1666);
    assert!(CompatibilityLevel::Boom < CompatibilityLevel::Mbf);
    assert!(CompatibilityLevel::PrBoomV240 < CompatibilityLevel::PrBoomLatest);
    assert!(CompatibilityLevel::Mbf >= CompatibilityLevel::Mbf);
    assert!(!(CompatibilityLevel::Mbf < CompatibilityLevel::LxDoomV1));
}
