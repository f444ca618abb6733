use star_setup::build_types::{BuildSystem, BuildType};

#[test]
fn cmake_and_meson_names() {
    assert_eq!(BuildType::Debug.to_cmake(), "Debug");
    assert_eq!(BuildType::Release.to_cmake(), "Release");
    assert_eq!(BuildType::RelWithDebInfo.to_cmake(), "RelWithDebInfo");
    assert_eq!(BuildType::MinSizeRel.to_cmake(), "MinSizeRel");
    assert_eq!(BuildType::Debug.to_meson(), "debug");
    assert_eq!(BuildType::Release.to_meson(), "release");
    assert_eq!(BuildType::RelWithDebInfo.to_meson(), "debugoptimized");
    assert_eq!(BuildType::MinSizeRel.to_meson(), "minsize");
}

#[test]
fn aliases_parse() {
    assert_eq!(BuildType::from_str("DEBUG"), Ok(BuildType::Debug));
    assert_eq!(BuildType::from_str("rel-with-deb-info"), Ok(BuildType::RelWithDebInfo));
    assert_eq!(BuildType::from_str("debugoptimized"), Ok(BuildType::RelWithDebInfo));
    assert_eq!(BuildType::from_str("MinSizeRel"), Ok(BuildType::MinSizeRel));
    assert_eq!(BuildType::from_str("minsize"), Ok(BuildType::MinSizeRel));
}

#[test]
fn names_round_trip() {
    for t in [BuildType::Debug, BuildType::Release, BuildType::RelWithDebInfo, BuildType::MinSizeRel] {
        assert_eq!(BuildType::from_str(t.to_cmake()), Ok(t));
        assert_eq!(BuildType::from_str(t.to_meson()), Ok(t));
    }
}

#[test]
fn unknown_build_type() {
    assert_eq!(
        BuildType::from_str("fast"),
        Err("Unknown build type 'fast'. Canonical: debug, release, rel-with-deb-info, min-size-rel".to_string())
    );
}

#[test]
fn default_is_debug() {
    assert_eq!(BuildType::default(), BuildType::Debug);
}

#[test]
fn build_systems() {
    assert_eq!(BuildSystem::from_str("cmake"), Ok(BuildSystem::Cmake));
    assert_eq!(BuildSystem::from_str("meson"), Ok(BuildSystem::Meson));
    assert_eq!(BuildSystem::from_str("npm"), Ok(BuildSystem::Npm));
    assert_eq!(BuildSystem::from_str("make"), Err("Unknown build system 'make'. Valid: cmake, meson, npm".to_string()));
    assert_eq!(BuildSystem::Npm.label(), "npm");
}
