//! The supported build systems and build types, with their names and aliases.
use vstd::prelude::*;
use crate::text::{ascii_lower, chars_eq_ignore_case, chars_of, eq_ignore_case, push_str, to_string};

verus! {

/// A build system that a repository can use.
#[derive(Debug, Clone, Copy, PartialEq, Eq, Structural)]
pub enum BuildSystem {
    /// `CMake` (`CMakeLists.txt`).
    Cmake,
    /// Meson (`meson.build`).
    Meson,
    /// npm (`package.json`).
    Npm,
}

/// A build configuration.
#[derive(Debug, Clone, Copy, PartialEq, Eq, Structural)]
pub enum BuildType {
    /// Debug build with no optimizations.
    Debug,
    /// Optimized release build.
    Release,
    /// Release build with debug info.
    RelWithDebInfo,
    /// Minimized binary size release build.
    MinSizeRel,
}

/// The name under which a build system is offered in a choice.
pub open spec fn system_label(s: BuildSystem) -> Seq<char> {
    match s {
        BuildSystem::Cmake => "CMake"@,
        BuildSystem::Meson => "Meson"@,
        BuildSystem::Npm => "npm"@,
    }
}

/// The build system named by `s`, ignoring ASCII case.
pub open spec fn system_named(s: Seq<char>) -> Option<BuildSystem> {
    if eq_ignore_case(s, "cmake"@) {
        Some(BuildSystem::Cmake)
    } else if eq_ignore_case(s, "meson"@) {
        Some(BuildSystem::Meson)
    } else if eq_ignore_case(s, "npm"@) {
        Some(BuildSystem::Npm)
    } else {
        None
    }
}

/// The error for an unknown build system name.
pub open spec fn unknown_system_msg(s: Seq<char>) -> Seq<char> {
    "Unknown build system '"@ + s + "'. Valid: cmake, meson, npm"@
}

impl BuildSystem {
    /// The label shown when several build systems are detected.
    pub fn label(&self) -> (r: &'static str)
        ensures
            r@ == system_label(*self),
    {
        match self {
            BuildSystem::Cmake => "CMake",
            BuildSystem::Meson => "Meson",
            BuildSystem::Npm => "npm",
        }
    }

    /// Parses a build system name, ignoring ASCII case.
    pub fn from_str(s: &str) -> (r: Result<BuildSystem, String>)
        ensures
            match system_named(s@) {
                Some(b) => r == Ok::<BuildSystem, String>(b),
                None => r matches Err(e) && e@ == unknown_system_msg(s@),
            },
    {
        let v = chars_of(s);
        if chars_eq_ignore_case(&v, "cmake") {
            Ok(BuildSystem::Cmake)
        } else if chars_eq_ignore_case(&v, "meson") {
            Ok(BuildSystem::Meson)
        } else if chars_eq_ignore_case(&v, "npm") {
            Ok(BuildSystem::Npm)
        } else {
            let mut e = to_string("Unknown build system '");
            push_str(&mut e, s);
            push_str(&mut e, "'. Valid: cmake, meson, npm");
            Err(e)
        }
    }
}

/// The `CMAKE_BUILD_TYPE` value of a build type.
pub open spec fn cmake_name(t: BuildType) -> Seq<char> {
    match t {
        BuildType::Debug => "Debug"@,
        BuildType::Release => "Release"@,
        BuildType::RelWithDebInfo => "RelWithDebInfo"@,
        BuildType::MinSizeRel => "MinSizeRel"@,
    }
}

/// The Meson `--buildtype` value of a build type.
pub open spec fn meson_name(t: BuildType) -> Seq<char> {
    match t {
        BuildType::Debug => "debug"@,
        BuildType::Release => "release"@,
        BuildType::RelWithDebInfo => "debugoptimized"@,
        BuildType::MinSizeRel => "minsize"@,
    }
}

/// The build type that `s` names, through its canonical name or an alias, ignoring ASCII case.
pub open spec fn build_type_named(s: Seq<char>) -> Option<BuildType> {
    if eq_ignore_case(s, "debug"@) {
        Some(BuildType::Debug)
    } else if eq_ignore_case(s, "release"@) {
        Some(BuildType::Release)
    } else if eq_ignore_case(s, "rel-with-deb-info"@) || eq_ignore_case(s, "relwithdebinfo"@)
        || eq_ignore_case(s, "debugoptimized"@) {
        Some(BuildType::RelWithDebInfo)
    } else if eq_ignore_case(s, "min-size-rel"@) || eq_ignore_case(s, "minsizerel"@)
        || eq_ignore_case(s, "minsize"@) {
        Some(BuildType::MinSizeRel)
    } else {
        None
    }
}

/// The error for an unknown build type name.
pub open spec fn unknown_type_msg(s: Seq<char>) -> Seq<char> {
    "Unknown build type '"@ + s
        + "'. Canonical: debug, release, rel-with-deb-info, min-size-rel"@
}

impl BuildType {
    /// The `CMake` name of this build type.
    pub fn to_cmake(&self) -> (r: &'static str)
        ensures
            r@ == cmake_name(*self),
    {
        match self {
            BuildType::Debug => "Debug",
            BuildType::Release => "Release",
            BuildType::RelWithDebInfo => "RelWithDebInfo",
            BuildType::MinSizeRel => "MinSizeRel",
        }
    }

    /// The Meson name of this build type.
    pub fn to_meson(&self) -> (r: &'static str)
        ensures
            r@ == meson_name(*self),
    {
        match self {
            BuildType::Debug => "debug",
            BuildType::Release => "release",
            BuildType::RelWithDebInfo => "debugoptimized",
            BuildType::MinSizeRel => "minsize",
        }
    }

    /// Parses a build type from its canonical name or a system-specific alias.
    pub fn from_str(s: &str) -> (r: Result<BuildType, String>)
        ensures
            match build_type_named(s@) {
                Some(t) => r == Ok::<BuildType, String>(t),
                None => r matches Err(e) && e@ == unknown_type_msg(s@),
            },
    {
        let v = chars_of(s);
        if chars_eq_ignore_case(&v, "debug") {
            Ok(BuildType::Debug)
        } else if chars_eq_ignore_case(&v, "release") {
            Ok(BuildType::Release)
        } else if chars_eq_ignore_case(&v, "rel-with-deb-info") || chars_eq_ignore_case(
            &v,
            "relwithdebinfo",
        ) || chars_eq_ignore_case(&v, "debugoptimized") {
            Ok(BuildType::RelWithDebInfo)
        } else if chars_eq_ignore_case(&v, "min-size-rel") || chars_eq_ignore_case(
            &v,
            "minsizerel",
        ) || chars_eq_ignore_case(&v, "minsize") {
            Ok(BuildType::MinSizeRel)
        } else {
            let mut e = to_string("Unknown build type '");
            push_str(&mut e, s);
            push_str(&mut e, "'. Canonical: debug, release, rel-with-deb-info, min-size-rel");
            Err(e)
        }
    }
}

impl Default for BuildType {
    fn default() -> (r: Self)
        ensures
            r == BuildType::Debug,
    {
        BuildType::Debug
    }
}

/// Every build type's `CMake` name parses back to it: the names that
/// `to_cmake` prints are accepted by `from_str`.
pub proof fn cmake_name_round_trip(t: BuildType)
    ensures
        build_type_named(cmake_name(t)) == Some(t),
{
    reveal_strlit("Debug");
    reveal_strlit("debug");
    reveal_strlit("Release");
    reveal_strlit("release");
    reveal_strlit("RelWithDebInfo");
    reveal_strlit("rel-with-deb-info");
    reveal_strlit("relwithdebinfo");
    reveal_strlit("debugoptimized");
    reveal_strlit("MinSizeRel");
    reveal_strlit("min-size-rel");
    reveal_strlit("minsizerel");
    reveal_strlit("minsize");
    match t {
        BuildType::Debug => {
            assert(eq_ignore_case("Debug"@, "debug"@));
        },
        BuildType::Release => {
            assert(!eq_ignore_case("Release"@, "debug"@));
            assert(eq_ignore_case("Release"@, "release"@));
        },
        BuildType::RelWithDebInfo => {
            assert(!eq_ignore_case("RelWithDebInfo"@, "debug"@));
            assert(!eq_ignore_case("RelWithDebInfo"@, "release"@));
            assert(eq_ignore_case("RelWithDebInfo"@, "relwithdebinfo"@));
        },
        BuildType::MinSizeRel => {
            assert(!eq_ignore_case("MinSizeRel"@, "debug"@));
            assert(!eq_ignore_case("MinSizeRel"@, "release"@));
            assert(!eq_ignore_case("MinSizeRel"@, "rel-with-deb-info"@));
            assert(!eq_ignore_case("MinSizeRel"@, "relwithdebinfo"@));
            assert(!eq_ignore_case("MinSizeRel"@, "debugoptimized"@));
            assert(eq_ignore_case("MinSizeRel"@, "minsizerel"@));
        },
    }
}

/// Every build type's Meson name parses back to it.
pub proof fn meson_name_round_trip(t: BuildType)
    ensures
        build_type_named(meson_name(t)) == Some(t),
{
    reveal_strlit("debug");
    reveal_strlit("release");
    reveal_strlit("rel-with-deb-info");
    reveal_strlit("relwithdebinfo");
    reveal_strlit("debugoptimized");
    reveal_strlit("min-size-rel");
    reveal_strlit("minsizerel");
    reveal_strlit("minsize");
    match t {
        BuildType::Debug => {
            assert(eq_ignore_case("debug"@, "debug"@));
        },
        BuildType::Release => {
            assert(!eq_ignore_case("release"@, "debug"@));
            assert(eq_ignore_case("release"@, "release"@));
        },
        BuildType::RelWithDebInfo => {
            assert(!eq_ignore_case("debugoptimized"@, "debug"@));
            assert(!eq_ignore_case("debugoptimized"@, "release"@));
            assert(!eq_ignore_case("debugoptimized"@, "rel-with-deb-info"@));
            assert(ascii_lower("debugoptimized"@[0]) != ascii_lower("relwithdebinfo"@[0]));
            assert(!eq_ignore_case("debugoptimized"@, "relwithdebinfo"@));
            assert(eq_ignore_case("debugoptimized"@, "debugoptimized"@));
        },
        BuildType::MinSizeRel => {
            assert(!eq_ignore_case("minsize"@, "debug"@));
            assert(ascii_lower("minsize"@[0]) != ascii_lower("release"@[0]));
            assert(!eq_ignore_case("minsize"@, "release"@));
            assert(!eq_ignore_case("minsize"@, "rel-with-deb-info"@));
            assert(!eq_ignore_case("minsize"@, "relwithdebinfo"@));
            assert(!eq_ignore_case("minsize"@, "debugoptimized"@));
            assert(!eq_ignore_case("minsize"@, "min-size-rel"@));
            assert(!eq_ignore_case("minsize"@, "minsizerel"@));
            assert(eq_ignore_case("minsize"@, "minsize"@));
        },
    }
}

} // verus!
