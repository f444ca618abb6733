//! The root configuration of a mono-repo, for the build system in use.
use vstd::prelude::*;
use crate::build_types::BuildSystem;
use crate::ctx::{IoCtx, RunFlags};
use crate::hoist::{hoist_outcome, hoist_wraps, WrapProject};
use crate::mono_config::{
    cmake_root_text, create_mono_repo_cmakelists, create_mono_repo_mesonbuild, create_mono_repo_package_json,
    library_pkgs, meson_root_text, module_names, override_names, override_warnings, package_root_text, root_config_outcome,
    writes_any,
};
use crate::repo::{dir_name_of, repo_dir_name};
use crate::scripts::{pair_views, writes_all};

verus! {

/// The name under which directory `dir` is known: the first project name of
/// the table that maps to it, else the directory name itself.
pub open spec fn name_for_dir(t: Seq<(Seq<char>, Seq<char>)>, dir: Seq<char>) -> Seq<char>
    decreases t.len(),
{
    if t.len() == 0 {
        dir
    } else if t[0].1 == dir {
        t[0].0
    } else {
        name_for_dir(t.drop_first(), dir)
    }
}

/// The subproject names of the repositories, given the hoisted project table.
pub open spec fn subproject_names(t: Seq<(Seq<char>, Seq<char>)>, repos: Seq<String>) -> Seq<Seq<char>> {
    repos.map_values(|r: String| name_for_dir(t, dir_name_of(r@)))
}

/// The module names of the root `meson.build`: the directory names of the subproject names.
pub open spec fn subproject_modules(t: Seq<(Seq<char>, Seq<char>)>, repos: Seq<String>) -> Seq<Seq<char>> {
    subproject_names(t, repos).map_values(|n: Seq<char>| dir_name_of(n))
}

/// The name in table `t` for directory `dir`.
fn lookup_dir(t: &Vec<(String, String)>, dir: String) -> (r: String)
    ensures
        r@ == name_for_dir(pair_views(t@), dir@),
{
    let ghost tv = pair_views(t@);
    let mut i: usize = 0;
    assert(tv.skip(0) =~= tv);
    while i < t.len()
        invariant
            i <= t@.len(),
            tv == pair_views(t@),
            name_for_dir(tv, dir@) == name_for_dir(tv.skip(i as int), dir@),
        decreases t@.len() - i,
    {
        assert(tv.skip(i as int).drop_first() =~= tv.skip(i + 1));
        if t[i].1 == dir {
            return t[i].0.clone();
        }
        i = i + 1;
    }
    dir
}

/// The subproject names of the repositories, given the hoisted project table.
fn subprojects(t: &Vec<(String, String)>, repos: &Vec<String>) -> (r: Vec<String>)
    ensures
        r@.map_values(|s: String| s@) == subproject_names(pair_views(t@), repos@),
{
    let mut r: Vec<String> = Vec::new();
    let mut i: usize = 0;
    while i < repos.len()
        invariant
            i <= repos@.len(),
            r@.len() == i,
            forall|j: int| 0 <= j < i ==> #[trigger] r@[j]@ == name_for_dir(pair_views(t@), dir_name_of(repos@[j]@)),
        decreases repos@.len() - i,
    {
        r.push(lookup_dir(t, repo_dir_name(repos[i].as_str())));
        i = i + 1;
    }
    assert(r@.map_values(|s: String| s@) =~= subproject_names(pair_views(t@), repos@));
    r
}

/// Generates the root configuration of a mono-repo for `build_system`.
///
/// CMake gets a root `CMakeLists.txt` over the repositories. Meson first
/// hoists the clones' wraps (see `hoist_wraps`, with `write_wrap`), then gets
/// a root `meson.build` over the subproject names, the hoisted project name
/// of each clone where there is one; the table of hoisted names comes back.
/// npm gets a root workspace `package.json` (see
/// `create_mono_repo_package_json`, with `repo_pkgs` for every repository).
/// Root files go through `write_root`.
pub fn generate_mono_config<R: FnOnce(&str, &str) -> Result<(), String>, W: Fn(&str, &str) -> Result<(), String>>(
    build_system: BuildSystem,
    mono_dir: &str,
    repos: &Vec<String>,
    projects: &Vec<WrapProject>,
    wrap_files: &Vec<String>,
    repo_pkgs: &Vec<(String, Option<String>)>,
    io: &mut IoCtx,
    flags: RunFlags,
    write_root: R,
    write_wrap: W,
) -> (r: Result<Option<Vec<(String, String)>>, String>)
    requires
        writes_any(write_root),
        writes_all(write_wrap),
    ensures
        exists|mid: IoCtx| {
            &&& #[trigger] mid.wrote(old(io), "  Creating mono-repo configuration\n"@)
            &&& match build_system {
                BuildSystem::Cmake => exists|rr: Result<(), String>| {
                    &&& #[trigger] root_config_outcome(write_root, "  Creating CMake configuration\n"@, "CMakeLists.txt"@,
                        cmake_root_text(module_names(repos@)), mono_dir@, flags, mid, *final(io), rr)
                    &&& match rr {
                        Ok(_) => r == Ok::<Option<Vec<(String, String)>>, String>(None),
                        Err(e) => r == Err::<Option<Vec<(String, String)>>, String>(e),
                    }
                },
                BuildSystem::Npm => exists|rr: Result<(), String>| {
                    &&& #[trigger] root_config_outcome(write_root,
                        "  Creating npm workspace configuration\n"@ + override_warnings(library_pkgs(repo_pkgs@), flags), "package.json"@,
                        package_root_text(module_names(repos@), override_names(library_pkgs(repo_pkgs@))), mono_dir@, flags, mid, *final(io), rr)
                    &&& match rr {
                        Ok(_) => r == Ok::<Option<Vec<(String, String)>>, String>(None),
                        Err(e) => r == Err::<Option<Vec<(String, String)>>, String>(e),
                    }
                },
                BuildSystem::Meson => exists|hio: IoCtx, hr: Result<Vec<(String, String)>, String>| {
                    &&& #[trigger] hoist_outcome(write_wrap, projects@, wrap_files@, mid, hio, hr)
                    &&& match hr {
                        Err(e) => r == Err::<Option<Vec<(String, String)>>, String>(e) && *final(io) == hio,
                        Ok(t) => exists|rr: Result<(), String>| {
                            &&& #[trigger] root_config_outcome(write_root, "  Creating Meson configuration\n"@, "meson.build"@,
                                meson_root_text(subproject_modules(pair_views(t@), repos@)),
                                mono_dir@, flags, hio, *final(io), rr)
                            &&& match rr {
                                Ok(_) => r matches Ok(Some(v)) && pair_views(v@) == pair_views(t@),
                                Err(e) => r == Err::<Option<Vec<(String, String)>>, String>(e),
                            }
                        },
                    }
                },
            }
        },
{
    io.write("  Creating mono-repo configuration\n");
    let ghost mid = *io;
    match build_system {
        BuildSystem::Cmake => {
            let rr = create_mono_repo_cmakelists(mono_dir, repos, io, flags, write_root);
            let ghost rrv = rr;
            assert(root_config_outcome(write_root, "  Creating CMake configuration\n"@, "CMakeLists.txt"@,
                cmake_root_text(module_names(repos@)), mono_dir@, flags, mid, *io, rrv));
            match rr {
                Ok(_) => Ok(None),
                Err(e) => Err(e),
            }
        },
        BuildSystem::Npm => {
            let rr = create_mono_repo_package_json(mono_dir, repos, repo_pkgs, io, flags, write_root);
            let ghost rrv = rr;
            assert(root_config_outcome(write_root,
                "  Creating npm workspace configuration\n"@ + override_warnings(library_pkgs(repo_pkgs@), flags), "package.json"@,
                package_root_text(module_names(repos@), override_names(library_pkgs(repo_pkgs@))), mono_dir@, flags, mid, *io, rrv));
            match rr {
                Ok(_) => Ok(None),
                Err(e) => Err(e),
            }
        },
        BuildSystem::Meson => {
            let hr = hoist_wraps(projects, wrap_files, io, write_wrap);
            let ghost hio = *io;
            let ghost hrv = hr;
            assert(hoist_outcome(write_wrap, projects@, wrap_files@, mid, hio, hrv));
            match hr {
                Err(e) => Err(e),
                Ok(t) => {
                    let names = subprojects(&t, repos);
                    assert(module_names(names@) =~= subproject_modules(pair_views(t@), repos@));
                    let rr = create_mono_repo_mesonbuild(mono_dir, &names, io, flags, write_root);
                    let ghost rrv = rr;
                    assert(root_config_outcome(write_root, "  Creating Meson configuration\n"@, "meson.build"@,
                        meson_root_text(subproject_modules(pair_views(t@), repos@)),
                        mono_dir@, flags, hio, *io, rrv));
                    match rr {
                        Ok(_) => Ok(Some(t)),
                        Err(e) => Err(e),
                    }
                },
            }
        },
    }
}

} // verus!
