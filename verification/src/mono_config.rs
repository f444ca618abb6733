//! The root build files that wire the repositories of a mono-repo together:
//! a `CMakeLists.txt`, a `meson.build`, or an npm workspace `package.json`.
use vstd::prelude::*;
use crate::ctx::{IoCtx, RunFlags};
use crate::npm::{package_json_of, read_package_json, malformed_text, unreadable_text, PackageJson};
use crate::repo::{dir_name_of, repo_dir_name};
use crate::text::push_str;

verus! {

/// The strings of `items`, each between `pre` and `post`, separated by `sep`.
pub open spec fn join_wrapped(items: Seq<Seq<char>>, pre: Seq<char>, post: Seq<char>, sep: Seq<char>) -> Seq<char>
    decreases items.len(),
{
    if items.len() == 0 {
        seq![]
    } else if items.len() == 1 {
        pre + items[0] + post
    } else {
        join_wrapped(items.drop_last(), pre, post, sep) + sep + pre + items.last() + post
    }
}

/// The directory names of a list of repositories.
pub open spec fn module_names(repos: Seq<String>) -> Seq<Seq<char>> {
    repos.map_values(|r: String| dir_name_of(r@))
}

/// The root `CMakeLists.txt` for the given modules.
pub open spec fn cmake_root_text(modules: Seq<Seq<char>>) -> Seq<char> {
    "cmake_minimum_required(VERSION 3.23)\n\nproject(star_setup LANGUAGES CXX)\nset(CMAKE_CXX_STANDARD 20)\n\nset(MONO_REPO_MODULES\n  "@
        + join_wrapped(modules, ""@, ""@, "\n  "@)
        + "\n)\n\nforeach(module IN LISTS MONO_REPO_MODULES)\n  if(EXISTS \"${CMAKE_CURRENT_SOURCE_DIR}/repos/${module}/CMakeLists.txt\")\n    add_subdirectory(repos/${module})\n  else()\n    message(WARNING \"Module ${module} not found or missing CMakeLists.txt\")\n  endif()\nendforeach()\n\nset_property(GLOBAL PROPERTY USE_FOLDERS ON)\nset_property(GLOBAL PROPERTY PREDEFINED_TARGETS_FOLDER \"External\")\n"@
}

/// The root `meson.build` for the given modules.
pub open spec fn meson_root_text(modules: Seq<Seq<char>>) -> Seq<char> {
    "project('star_setup', 'cpp',\n  default_options: ['cpp_std=c++20'],\n  subproject_dir: 'repos'\n)\n\nmodules = [\n"@
        + join_wrapped(modules, "  '"@, "'"@, ",\n"@)
        + ",\n]\n\nforeach module : modules\n  subproject(module)\nendforeach\n"@
}

/// The root npm workspace `package.json` for the given modules and the
/// package names to override.
pub open spec fn package_root_text(modules: Seq<Seq<char>>, overrides: Seq<Seq<char>>) -> Seq<char> {
    "{\n  \"name\": \"star-setup-workspace\",\n  \"private\": true,\n  \"workspaces\": [\n"@
        + join_wrapped(modules, "    \"repos/"@, "\""@, ",\n"@)
        + "\n  ]"@
        + (if overrides.len() == 0 {
            Seq::empty()
        } else {
            ",\n  \"overrides\": {\n"@ + join_wrapped(overrides, "    \""@, "\": \"*\""@, ",\n"@) + "\n  }"@
        })
        + "\n}\n"@
}

/// What is reported after the root file `name` is written into `dir`.
pub open spec fn root_written_text(name: Seq<char>, dir: Seq<char>, flags: RunFlags) -> Seq<char> {
    if flags.dry_run {
        if flags.verbose {
            "  Would create root "@ + name + " at "@ + dir + "\n\n"@
        } else {
            Seq::empty()
        }
    } else {
        "  Created root "@ + name + " at "@ + dir + "\n\n"@
    }
}

/// What `write` may be handed: any file name and content.
pub open spec fn writes_any<W: FnOnce(&str, &str) -> Result<(), String>>(write: W) -> bool {
    forall|f: &str, c: &str| #[trigger] write.requires((f, c))
}

/// `write` was handed file `name` with `content` and gave `r`.
pub open spec fn wrote_file<W: FnOnce(&str, &str) -> Result<(), String>>(write: W, name: Seq<char>, content: Seq<char>, r: Result<(), String>) -> bool {
    exists|f: &str, c: &str| f@ == name && c@ == content && #[trigger] write.ensures((f, c), r)
}

/// The outcome of writing a root file: nothing is written in dry-run mode;
/// otherwise the write's error, or the report of success.
pub open spec fn root_file_outcome<W: FnOnce(&str, &str) -> Result<(), String>>(
    write: W, name: Seq<char>, content: Seq<char>, dir: Seq<char>, flags: RunFlags,
    old_io: IoCtx, new_io: IoCtx, r: Result<(), String>,
) -> bool {
    if flags.dry_run {
        r == Ok::<(), String>(()) && new_io.wrote(&old_io, root_written_text(name, dir, flags))
    } else {
        &&& wrote_file(write, name, content, r)
        &&& match r {
            Ok(_) => new_io.wrote(&old_io, root_written_text(name, dir, flags)),
            Err(_) => new_io == old_io,
        }
    }
}

/// What generating a root file does: `label` is written first, then the file
/// is written and reported as `root_file_outcome` says.
pub open spec fn root_config_outcome<W: FnOnce(&str, &str) -> Result<(), String>>(
    write: W, label: Seq<char>, name: Seq<char>, content: Seq<char>, dir: Seq<char>, flags: RunFlags,
    old_io: IoCtx, new_io: IoCtx, r: Result<(), String>,
) -> bool {
    exists|mid: IoCtx| {
        &&& mid.wrote(&old_io, label)
        &&& #[trigger] root_file_outcome(write, name, content, dir, flags, mid, new_io, r)
    }
}

/// Writes a root file through `write` (unless in dry-run mode) and reports it.
fn write_root_file<W: FnOnce(&str, &str) -> Result<(), String>>(mono_dir: &str, name: &str, content: &String, io: &mut IoCtx, flags: RunFlags, write: W) -> (r: Result<(), String>)
    requires
        writes_any(write),
    ensures
        root_file_outcome(write, name@, content@, mono_dir@, flags, *old(io), *final(io), r),
{
    if flags.dry_run {
        if flags.verbose {
            io.write("  Would create root ");
            io.write(name);
            io.write(" at ");
            io.write(mono_dir);
            io.write("\n\n");
        }
        assert(io.output@ =~= old(io).output@ + root_written_text(name@, mono_dir@, flags));
        return Ok(());
    }
    let c = content.as_str();
    let w = write(name, c);
    assert(write.ensures((name, c), w));
    assert(wrote_file(write, name@, content@, w));
    if w.is_ok() {
        io.write("  Created root ");
        io.write(name);
        io.write(" at ");
        io.write(mono_dir);
        io.write("\n\n");
        assert(io.output@ =~= old(io).output@ + root_written_text(name@, mono_dir@, flags));
    }
    w
}

/// Appends the strings of `items[..k]`, wrapped and separated.
pub(crate) fn push_joined(out: &mut String, items: &Vec<String>, pre: &str, post: &str, sep: &str)
    ensures
        final(out)@ == old(out)@ + join_wrapped(items@.map_values(|s: String| s@), pre@, post@, sep@),
{
    let ghost views = items@.map_values(|s: String| s@);
    let mut i: usize = 0;
    assert(views.take(0) =~= Seq::<Seq<char>>::empty());
    while i < items.len()
        invariant
            i <= items@.len(),
            views == items@.map_values(|s: String| s@),
            out@ == old(out)@ + join_wrapped(views.take(i as int), pre@, post@, sep@),
        decreases items@.len() - i,
    {
        if i > 0 {
            push_str(out, sep);
        }
        push_str(out, pre);
        push_str(out, items[i].as_str());
        push_str(out, post);
        assert(views.take(i + 1).drop_last() =~= views.take(i as int));
        i = i + 1;
        assert(out@ =~= old(out)@ + join_wrapped(views.take(i as int), pre@, post@, sep@));
    }
    assert(views.take(i as int) =~= views);
}

/// The directory names of a list of repositories.
pub(crate) fn dir_names(repos: &Vec<String>) -> (r: Vec<String>)
    ensures
        r@.map_values(|s: String| s@) == module_names(repos@),
{
    let mut r: Vec<String> = Vec::new();
    let mut i: usize = 0;
    while i < repos.len()
        invariant
            i <= repos@.len(),
            r@.len() == i,
            forall|j: int| 0 <= j < i ==> #[trigger] r@[j]@ == dir_name_of(repos@[j]@),
        decreases repos@.len() - i,
    {
        r.push(repo_dir_name(repos[i].as_str()));
        i = i + 1;
    }
    assert(r@.map_values(|s: String| s@) =~= module_names(repos@));
    r
}

/// Generates the root `CMakeLists.txt` of a mono-repo, which adds every
/// repository under `repos/` as a subdirectory; `write` writes a file of
/// `mono_dir` given its name and content.
pub fn create_mono_repo_cmakelists<W: FnOnce(&str, &str) -> Result<(), String>>(mono_dir: &str, repos: &Vec<String>, io: &mut IoCtx, flags: RunFlags, write: W) -> (r: Result<(), String>)
    requires
        writes_any(write),
    ensures
        root_config_outcome(write, "  Creating CMake configuration\n"@, "CMakeLists.txt"@, cmake_root_text(module_names(repos@)), mono_dir@, flags, *old(io), *final(io), r),
{
    io.write("  Creating CMake configuration\n");
    let ghost mid = *io;
    let names = dir_names(repos);
    let mut content = String::new();
    push_str(&mut content, "cmake_minimum_required(VERSION 3.23)\n\nproject(star_setup LANGUAGES CXX)\nset(CMAKE_CXX_STANDARD 20)\n\nset(MONO_REPO_MODULES\n  ");
    push_joined(&mut content, &names, "", "", "\n  ");
    push_str(&mut content, "\n)\n\nforeach(module IN LISTS MONO_REPO_MODULES)\n  if(EXISTS \"${CMAKE_CURRENT_SOURCE_DIR}/repos/${module}/CMakeLists.txt\")\n    add_subdirectory(repos/${module})\n  else()\n    message(WARNING \"Module ${module} not found or missing CMakeLists.txt\")\n  endif()\nendforeach()\n\nset_property(GLOBAL PROPERTY USE_FOLDERS ON)\nset_property(GLOBAL PROPERTY PREDEFINED_TARGETS_FOLDER \"External\")\n");
    assert(content@ =~= cmake_root_text(module_names(repos@)));
    let r = write_root_file(mono_dir, "CMakeLists.txt", &content, io, flags, write);
    assert(root_file_outcome(write, "CMakeLists.txt"@, cmake_root_text(module_names(repos@)), mono_dir@, flags, mid, *io, r));
    r
}

/// Generates the root `meson.build` of a mono-repo, which loads every
/// repository as a subproject of `repos/`; `write` writes a file of
/// `mono_dir` given its name and content.
pub fn create_mono_repo_mesonbuild<W: FnOnce(&str, &str) -> Result<(), String>>(mono_dir: &str, repos: &Vec<String>, io: &mut IoCtx, flags: RunFlags, write: W) -> (r: Result<(), String>)
    requires
        writes_any(write),
    ensures
        root_config_outcome(write, "  Creating Meson configuration\n"@, "meson.build"@, meson_root_text(module_names(repos@)), mono_dir@, flags, *old(io), *final(io), r),
{
    io.write("  Creating Meson configuration\n");
    let ghost mid = *io;
    let names = dir_names(repos);
    let mut content = String::new();
    push_str(&mut content, "project('star_setup', 'cpp',\n  default_options: ['cpp_std=c++20'],\n  subproject_dir: 'repos'\n)\n\nmodules = [\n");
    push_joined(&mut content, &names, "  '", "'", ",\n");
    push_str(&mut content, ",\n]\n\nforeach module : modules\n  subproject(module)\nendforeach\n");
    assert(content@ =~= meson_root_text(module_names(repos@)));
    let r = write_root_file(mono_dir, "meson.build", &content, io, flags, write);
    assert(root_file_outcome(write, "meson.build"@, meson_root_text(module_names(repos@)), mono_dir@, flags, mid, *io, r));
    r
}

/// The package names that the libraries' `package.json` files give, in order.
pub open spec fn override_names(pkgs: Seq<(String, Option<String>)>) -> Seq<Seq<char>>
    decreases pkgs.len(),
{
    if pkgs.len() == 0 {
        seq![]
    } else {
        let r = override_names(pkgs.drop_last());
        match pkgs.last().1 {
            Some(t) => match package_json_of(t@) {
                Some(p) => match p.name {
                    Some(n) => r.push(n),
                    None => r,
                },
                None => r,
            },
            None => r,
        }
    }
}

/// The verbose warnings about libraries whose `package.json` cannot be used.
pub open spec fn override_warnings(pkgs: Seq<(String, Option<String>)>, flags: RunFlags) -> Seq<char>
    decreases pkgs.len(),
{
    if pkgs.len() == 0 || !flags.verbose {
        seq![]
    } else {
        let w = override_warnings(pkgs.drop_last(), flags);
        match pkgs.last().1 {
            Some(t) => match package_json_of(t@) {
                Some(_) => w,
                None => w + malformed_text(pkgs.last().0@, "skipping override"@),
            },
            None => w + unreadable_text(pkgs.last().0@, "skipping override"@),
        }
    }
}

/// The packages of the libraries: every repository's but the first (the
/// test repository's).
pub open spec fn library_pkgs(pkgs: Seq<(String, Option<String>)>) -> Seq<(String, Option<String>)> {
    if pkgs.len() == 0 {
        pkgs
    } else {
        pkgs.drop_first()
    }
}

/// Generates the root `package.json` of a mono-repo, an npm workspace of all
/// repositories that overrides the libraries' packages with the local ones.
/// `repo_pkgs` holds, for each repository in order, the displayed path of its
/// `package.json` and its text when it could be read; the first repository
/// is the test repository, whose package is not overridden.
pub fn create_mono_repo_package_json<W: FnOnce(&str, &str) -> Result<(), String>>(
    mono_dir: &str,
    repos: &Vec<String>,
    repo_pkgs: &Vec<(String, Option<String>)>,
    io: &mut IoCtx,
    flags: RunFlags,
    write: W,
) -> (r: Result<(), String>)
    requires
        writes_any(write),
    ensures
        root_config_outcome(
            write,
            "  Creating npm workspace configuration\n"@ + override_warnings(library_pkgs(repo_pkgs@), flags),
            "package.json"@,
            package_root_text(module_names(repos@), override_names(library_pkgs(repo_pkgs@))),
            mono_dir@,
            flags,
            *old(io),
            *final(io),
            r,
        ),
{
    io.write("  Creating npm workspace configuration\n");
    let names = dir_names(repos);
    let mut overrides: Vec<String> = Vec::new();
    let ghost libs = library_pkgs(repo_pkgs@);
    let mut i: usize = 1;
    assert(libs.take(0) =~= Seq::<(String, Option<String>)>::empty());
    while i < repo_pkgs.len()
        invariant
            1 <= i,
            i == 1 || i <= repo_pkgs@.len(),
            libs == library_pkgs(repo_pkgs@),
            overrides@.map_values(|s: String| s@) == override_names(libs.take(i - 1)),
            io.wrote(old(io), "  Creating npm workspace configuration\n"@ + override_warnings(libs.take(i - 1), flags)),
        decreases repo_pkgs@.len() - i,
    {
        assert(libs[i - 1] == repo_pkgs@[i as int]);
        let text: Option<&str> = match &repo_pkgs[i].1 {
            Some(t) => Some(t.as_str()),
            None => None,
        };
        let pkg = read_package_json(repo_pkgs[i].0.as_str(), text, "skipping override", io, flags);
        let ghost prev = overrides@;
        match pkg {
            Some(PackageJson { name: Some(n), .. }) => {
                overrides.push(n);
            },
            _ => {},
        }
        assert(libs.take(i as int).drop_last() =~= libs.take(i - 1));
        assert(overrides@.map_values(|s: String| s@) =~= override_names(libs.take(i as int)));
        assert(io.output@ =~= old(io).output@ + ("  Creating npm workspace configuration\n"@ + override_warnings(libs.take(i as int), flags)));
        i = i + 1;
    }
    proof {
        if repo_pkgs@.len() == 0 {
            assert(libs.len() == 0);
        } else {
            assert(i == repo_pkgs@.len());
            assert(libs.len() == i - 1);
        }
        assert(libs.len() == i - 1);
        assert(libs.take(libs.len() as int) =~= libs);
    }
    let ghost mid = *io;
    let mut content = String::new();
    push_str(&mut content, "{\n  \"name\": \"star-setup-workspace\",\n  \"private\": true,\n  \"workspaces\": [\n");
    push_joined(&mut content, &names, "    \"repos/", "\"", ",\n");
    push_str(&mut content, "\n  ]");
    if overrides.len() > 0 {
        push_str(&mut content, ",\n  \"overrides\": {\n");
        push_joined(&mut content, &overrides, "    \"", "\": \"*\"", ",\n");
        push_str(&mut content, "\n  }");
    }
    push_str(&mut content, "\n}\n");
    assert(content@ =~= package_root_text(module_names(repos@), override_names(libs)));
    let r = write_root_file(mono_dir, "package.json", &content, io, flags, write);
    assert(root_file_outcome(write, "package.json"@, package_root_text(module_names(repos@), override_names(libs)), mono_dir@, flags, mid, *io, r));
    r
}


/// The root `CMakeLists.txt` adds each listed module that has a
/// `CMakeLists.txt` of its own as a subdirectory: after the module list it
/// holds the positive existence test followed by `add_subdirectory`.
pub proof fn cmake_root_adds_existing_modules(modules: Seq<Seq<char>>)
    ensures
        exists|before: Seq<char>, after: Seq<char>|
            cmake_root_text(modules) == before
                + "  if(EXISTS \"${CMAKE_CURRENT_SOURCE_DIR}/repos/${module}/CMakeLists.txt\")\n    add_subdirectory(repos/${module})\n"@
                + after,
{
    let head = "cmake_minimum_required(VERSION 3.23)\n\nproject(star_setup LANGUAGES CXX)\nset(CMAKE_CXX_STANDARD 20)\n\nset(MONO_REPO_MODULES\n  "@
        + join_wrapped(modules, ""@, ""@, "\n  "@);
    let tail = "\n)\n\nforeach(module IN LISTS MONO_REPO_MODULES)\n  if(EXISTS \"${CMAKE_CURRENT_SOURCE_DIR}/repos/${module}/CMakeLists.txt\")\n    add_subdirectory(repos/${module})\n  else()\n    message(WARNING \"Module ${module} not found or missing CMakeLists.txt\")\n  endif()\nendforeach()\n\nset_property(GLOBAL PROPERTY USE_FOLDERS ON)\nset_property(GLOBAL PROPERTY PREDEFINED_TARGETS_FOLDER \"External\")\n"@;
    let mid = "\n)\n\nforeach(module IN LISTS MONO_REPO_MODULES)\n"@;
    let guard = "  if(EXISTS \"${CMAKE_CURRENT_SOURCE_DIR}/repos/${module}/CMakeLists.txt\")\n    add_subdirectory(repos/${module})\n"@;
    let rest = "  else()\n    message(WARNING \"Module ${module} not found or missing CMakeLists.txt\")\n  endif()\nendforeach()\n\nset_property(GLOBAL PROPERTY USE_FOLDERS ON)\nset_property(GLOBAL PROPERTY PREDEFINED_TARGETS_FOLDER \"External\")\n"@;
    reveal_strlit("\n)\n\nforeach(module IN LISTS MONO_REPO_MODULES)\n  if(EXISTS \"${CMAKE_CURRENT_SOURCE_DIR}/repos/${module}/CMakeLists.txt\")\n    add_subdirectory(repos/${module})\n  else()\n    message(WARNING \"Module ${module} not found or missing CMakeLists.txt\")\n  endif()\nendforeach()\n\nset_property(GLOBAL PROPERTY USE_FOLDERS ON)\nset_property(GLOBAL PROPERTY PREDEFINED_TARGETS_FOLDER \"External\")\n");
    reveal_strlit("\n)\n\nforeach(module IN LISTS MONO_REPO_MODULES)\n");
    reveal_strlit("  if(EXISTS \"${CMAKE_CURRENT_SOURCE_DIR}/repos/${module}/CMakeLists.txt\")\n    add_subdirectory(repos/${module})\n");
    reveal_strlit("  else()\n    message(WARNING \"Module ${module} not found or missing CMakeLists.txt\")\n  endif()\nendforeach()\n\nset_property(GLOBAL PROPERTY USE_FOLDERS ON)\nset_property(GLOBAL PROPERTY PREDEFINED_TARGETS_FOLDER \"External\")\n");
    assert(tail =~= mid + guard + rest);
    assert(cmake_root_text(modules) == head + tail);
    assert(cmake_root_text(modules) =~= (head + mid) + guard + rest);
}

} // verus!
