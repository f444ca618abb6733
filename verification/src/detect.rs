//! Choosing the build system of a repository, or of all the repositories
//! of a mono-repo, from the build files they hold.
use vstd::prelude::*;
use crate::build_types::{system_label, BuildSystem};
use crate::ctx::{eof_msg, IoCtx};
use crate::prompts::{answer, ask_choice, choice_pred, first_where, options_text, out_of_range_msg, valid_choice};
use crate::text::{digits_value, number_body, repeat, to_string};

verus! {

/// Which build files a directory holds.
#[derive(Debug, Clone, Copy, PartialEq, Eq, Structural)]
pub struct BuildFiles {
    /// `CMakeLists.txt` exists.
    pub cmakelists: bool,
    /// `meson.build` exists.
    pub meson_build: bool,
    /// `package.json` exists.
    pub package_json: bool,
}

/// The build systems whose files are present, in the order CMake, Meson, npm.
pub open spec fn systems_found(cmake: bool, meson: bool, npm: bool) -> Seq<BuildSystem> {
    (if cmake { seq![BuildSystem::Cmake] } else { Seq::empty() })
        + (if meson { seq![BuildSystem::Meson] } else { Seq::empty() })
        + (if npm { seq![BuildSystem::Npm] } else { Seq::empty() })
}

/// The lines written in verbose mode for the build files found.
pub open spec fn found_text(cmake: bool, meson: bool, npm: bool) -> Seq<char> {
    (if cmake { "  Found CMakeLists.txt\n"@ } else { Seq::empty() })
        + (if meson { "  Found meson.build\n"@ } else { Seq::empty() })
        + (if npm { "  Found package.json\n"@ } else { Seq::empty() })
}

/// The labels of a list of build systems.
pub open spec fn labels_of(d: Seq<BuildSystem>) -> Seq<Seq<char>> {
    d.map_values(|s: BuildSystem| system_label(s))
}

/// The outcome of picking among detected build systems: none is an error,
/// one is taken, several are offered as a numbered choice.
pub open spec fn picked(d: Seq<BuildSystem>, none_err: Seq<char>, old_io: IoCtx, new_io: IoCtx, r: Result<BuildSystem, String>) -> bool {
    if d.len() == 0 {
        &&& r matches Err(e) && e@ == none_err
        &&& new_io == old_io
    } else if d.len() == 1 {
        &&& r == Ok::<BuildSystem, String>(d[0])
        &&& new_io == old_io
    } else {
        let lines = old_io.pending();
        let k = first_where(lines, choice_pred());
        let header = "Multiple build systems detected:"@ + "\n"@ + options_text(labels_of(d), d.len());
        match r {
            Ok(s) => {
                &&& k < lines.len()
                &&& valid_choice(answer(lines[k as int]), d.len())
                &&& s == d[digits_value(number_body(answer(lines[k as int]))) - 1]
                &&& new_io.wrote_read(&old_io, header + repeat("Select: "@, k + 1), k + 1)
            },
            Err(e) => {
                ||| {
                    &&& e@ == eof_msg()
                    &&& k == lines.len()
                    &&& new_io.wrote_read(&old_io, header + repeat("Select: "@, k + 1), k)
                }
                ||| {
                    &&& k < lines.len()
                    &&& !valid_choice(answer(lines[k as int]), d.len())
                    &&& e@ == out_of_range_msg(answer(lines[k as int]))
                    &&& new_io.wrote_read(&old_io, header + repeat("Select: "@, k + 1), k + 1)
                }
            },
        }
    }
}

/// Picks among detected build systems: none is an error, a single one is
/// taken, and between several the user chooses.
pub fn pick_build_system(detected: &Vec<BuildSystem>, none_err: &str, io: &mut IoCtx) -> (r: Result<BuildSystem, String>)
    ensures
        picked(detected@, none_err@, *old(io), *final(io), r),
{
    if detected.len() == 0 {
        return Err(to_string(none_err));
    }
    if detected.len() == 1 {
        return Ok(detected[0]);
    }
    let mut labels: Vec<&str> = Vec::new();
    let mut i: usize = 0;
    while i < detected.len()
        invariant
            i <= detected@.len(),
            labels@.len() == i,
            forall|j: int| 0 <= j < i ==> #[trigger] labels@[j]@ == system_label(detected@[j]),
        decreases detected@.len() - i,
    {
        labels.push(detected[i].label());
        i = i + 1;
    }
    assert(labels@.map_values(|o: &str| o@) =~= labels_of(detected@));
    let choice = ask_choice("Multiple build systems detected:", labels.as_slice(), io);
    match choice {
        Err(e) => Err(e),
        Ok(c) => Ok(detected[c]),
    }
}

/// Detects the build system of a repository from the build files it holds;
/// in verbose mode reports each file found.
pub fn detect_build_system(files: BuildFiles, io: &mut IoCtx) -> (r: Result<BuildSystem, String>)
    ensures
        ({
            let found = if old(io).verbose {
                found_text(files.cmakelists, files.meson_build, files.package_json)
            } else {
                Seq::empty()
            };
            exists|mid: IoCtx| {
                &&& mid.wrote(old(io), found)
                &&& #[trigger] picked(
                    systems_found(files.cmakelists, files.meson_build, files.package_json),
                    "No supported build system found"@,
                    mid,
                    *final(io),
                    r,
                )
            }
        }),
{
    let detected = collect(files.cmakelists, files.meson_build, files.package_json, io);
    let ghost mid = *io;
    let r = pick_build_system(&detected, "No supported build system found", io);
    assert(mid.wrote(old(io), if old(io).verbose {
        found_text(files.cmakelists, files.meson_build, files.package_json)
    } else {
        Seq::empty()
    }) && picked(
        systems_found(files.cmakelists, files.meson_build, files.package_json),
        "No supported build system found"@,
        mid,
        *io,
        r,
    ));
    r
}

/// The detected build systems, reporting each file found in verbose mode.
fn collect(cmake: bool, meson: bool, npm: bool, io: &mut IoCtx) -> (d: Vec<BuildSystem>)
    ensures
        d@ == systems_found(cmake, meson, npm),
        final(io).wrote(old(io), if old(io).verbose { found_text(cmake, meson, npm) } else { Seq::empty() }),
{
    let mut d: Vec<BuildSystem> = Vec::new();
    if cmake {
        if io.verbose {
            io.write("  Found CMakeLists.txt\n");
        }
        d.push(BuildSystem::Cmake);
    }
    if meson {
        if io.verbose {
            io.write("  Found meson.build\n");
        }
        d.push(BuildSystem::Meson);
    }
    if npm {
        if io.verbose {
            io.write("  Found package.json\n");
        }
        d.push(BuildSystem::Npm);
    }
    assert(d@ =~= systems_found(cmake, meson, npm));
    assert(io.output@ =~= old(io).output@ + (if old(io).verbose { found_text(cmake, meson, npm) } else { Seq::empty() }));
    d
}

/// Every directory holds the build file of the given kind (0: CMake, 1: Meson, 2: npm).
pub open spec fn all_have(dirs: Seq<BuildFiles>, kind: int) -> bool {
    forall|i: int| 0 <= i < dirs.len() ==> #[trigger] has_kind(dirs[i], kind)
}

/// A directory holds the build file of the given kind.
pub open spec fn has_kind(f: BuildFiles, kind: int) -> bool {
    if kind == 0 { f.cmakelists } else if kind == 1 { f.meson_build } else { f.package_json }
}

fn every(dirs: &Vec<BuildFiles>, kind: u8) -> (r: bool)
    ensures
        r == all_have(dirs@, kind as int),
{
    let mut i: usize = 0;
    while i < dirs.len()
        invariant
            i <= dirs@.len(),
            forall|j: int| 0 <= j < i ==> #[trigger] has_kind(dirs@[j], kind as int),
        decreases dirs@.len() - i,
    {
        let f = dirs[i];
        let ok = if kind == 0 { f.cmakelists } else if kind == 1 { f.meson_build } else { f.package_json };
        if !ok {
            assert(!has_kind(dirs@[i as int], kind as int));
            return false;
        }
        i = i + 1;
    }
    true
}

/// Detects the build system shared by all repositories of a mono-repo: a
/// system counts only when every repository holds its build file.
pub fn detect_mono_build_system(dirs: &Vec<BuildFiles>, io: &mut IoCtx) -> (r: Result<BuildSystem, String>)
    ensures
        ({
            let c = all_have(dirs@, 0);
            let m = all_have(dirs@, 1);
            let n = all_have(dirs@, 2);
            exists|mid: IoCtx| {
                &&& mid.wrote(old(io), if old(io).verbose { found_text(c, m, n) } else { Seq::empty() })
                &&& #[trigger] picked(
                    systems_found(c, m, n),
                    "Repositories have inconsistent or missing build systems"@,
                    mid,
                    *final(io),
                    r,
                )
            }
        }),
{
    let c = every(dirs, 0);
    let m = every(dirs, 1);
    let n = every(dirs, 2);
    let detected = collect(c, m, n, io);
    let ghost mid = *io;
    let r = pick_build_system(&detected, "Repositories have inconsistent or missing build systems", io);
    assert(mid.wrote(old(io), if old(io).verbose { found_text(c, m, n) } else { Seq::empty() })
        && picked(
        systems_found(c, m, n),
        "Repositories have inconsistent or missing build systems"@,
        mid,
        *io,
        r,
    ));
    r
}


/// Each build file found contributes its build system, and nothing else
/// does: CMake for `CMakeLists.txt`, Meson for `meson.build`, npm for
/// `package.json`, each at most once.
pub proof fn found_systems_match_files(cmake: bool, meson: bool, npm: bool)
    ensures
        systems_found(cmake, meson, npm).contains(BuildSystem::Cmake) <==> cmake,
        systems_found(cmake, meson, npm).contains(BuildSystem::Meson) <==> meson,
        systems_found(cmake, meson, npm).contains(BuildSystem::Npm) <==> npm,
        systems_found(cmake, meson, npm).len() == (if cmake { 1int } else { 0 }) + (if meson { 1int } else { 0 }) + (if npm { 1int } else { 0 }),
{
    let s = systems_found(cmake, meson, npm);
    let a: Seq<BuildSystem> = if cmake { seq![BuildSystem::Cmake] } else { Seq::empty() };
    let b: Seq<BuildSystem> = if meson { seq![BuildSystem::Meson] } else { Seq::empty() };
    let c: Seq<BuildSystem> = if npm { seq![BuildSystem::Npm] } else { Seq::empty() };
    assert(s == a + b + c);
    if cmake {
        assert(s[0] == BuildSystem::Cmake);
    }
    if meson {
        assert(s[a.len() as int] == BuildSystem::Meson);
    }
    if npm {
        assert(s[(a.len() + b.len()) as int] == BuildSystem::Npm);
    }
    assert forall|i: int| 0 <= i < s.len() implies
        (s[i] == BuildSystem::Cmake ==> cmake) && (s[i] == BuildSystem::Meson ==> meson) && (s[i] == BuildSystem::Npm ==> npm) by {
        if i < a.len() {
            assert(s[i] == a[i]);
        } else if i < a.len() + b.len() {
            assert(s[i] == b[i - a.len()]);
        } else {
            assert(s[i] == c[i - a.len() - b.len()]);
        }
    }
}


/// Picking never invents a build system: a success is one of the systems
/// found, the only one when a single system was found, and finding none is
/// an error.
pub proof fn picked_is_found(d: Seq<BuildSystem>, none_err: Seq<char>, old_io: IoCtx, new_io: IoCtx, r: Result<BuildSystem, String>)
    requires
        picked(d, none_err, old_io, new_io, r),
    ensures
        r matches Ok(s) ==> d.contains(s),
        d.len() == 1 ==> r == Ok::<BuildSystem, String>(d[0]),
        d.len() == 0 ==> r is Err,
{
    if d.len() > 1 {
        if let Ok(s) = r {
            let k = first_where(old_io.pending(), choice_pred());
            let i = digits_value(number_body(answer(old_io.pending()[k as int]))) - 1;
            assert(d[i] == s);
        }
    }
}

} // verus!
