use std::cell::RefCell;
use star_setup::build_types::BuildSystem;
use star_setup::ctx::{IoCtx, RunFlags};
use star_setup::detect::{detect_build_system, detect_mono_build_system, BuildFiles};
use star_setup::dispatch::generate_mono_config;
use star_setup::hoist::{hoist_wraps, WrapProject};
use star_setup::mono_config::{create_mono_repo_cmakelists, create_mono_repo_mesonbuild, create_mono_repo_package_json};
use star_setup::scripts::{generate_terminal_scripts, generate_watch_scripts, terminal_script_texts, LibFiles};
use star_setup::wraps::{parse_project_name, parse_provide_pairs};

fn flags(verbose: bool, dry_run: bool) -> RunFlags {
    RunFlags { verbose, timing: false, dry_run }
}

fn io_with(lines: &[&str], f: RunFlags) -> IoCtx {
    IoCtx::new(lines.iter().map(|l| l.to_string()).collect(), f)
}

fn strs(v: &[&str]) -> Vec<String> {
    v.iter().map(|s| s.to_string()).collect()
}

#[test]
fn cmakelists_lists_modules() {
    let written = RefCell::new(Vec::new());
    let mut io = io_with(&[], flags(false, false));
    let r = create_mono_repo_cmakelists("/m", &strs(&["u/app", "https://github.com/u/lib.git"]), &mut io, flags(false, false), |n: &str, c: &str| {
        written.borrow_mut().push((n.to_string(), c.to_string()));
        Ok(())
    });
    assert!(r.is_ok());
    let w = written.borrow();
    assert_eq!(w[0].0, "CMakeLists.txt");
    assert!(w[0].1.contains("set(MONO_REPO_MODULES\n  app\n  lib\n)\n"));
    assert_eq!(io.output, "  Creating CMake configuration\n  Created root CMakeLists.txt at /m\n\n");
}

#[test]
fn mesonbuild_dry_run_writes_nothing() {
    let mut io = io_with(&[], flags(true, true));
    let r = create_mono_repo_mesonbuild("/m", &strs(&["u/a"]), &mut io, flags(true, true), |_n: &str, _c: &str| Err("no".to_string()));
    assert!(r.is_ok());
    assert_eq!(io.output, "  Creating Meson configuration\n  Would create root meson.build at /m\n\n");
}

#[test]
fn mesonbuild_content() {
    let written = RefCell::new(String::new());
    let mut io = io_with(&[], flags(false, false));
    create_mono_repo_mesonbuild("/m", &strs(&["u/a", "u/b"]), &mut io, flags(false, false), |_n: &str, c: &str| {
        *written.borrow_mut() = c.to_string();
        Ok(())
    })
    .unwrap();
    assert_eq!(
        *written.borrow(),
        "project('star_setup', 'cpp',\n  default_options: ['cpp_std=c++20'],\n  subproject_dir: 'repos'\n)\n\nmodules = [\n  'a',\n  'b',\n]\n\nforeach module : modules\n  subproject(module)\nendforeach\n"
    );
}

#[test]
fn package_json_workspace_with_overrides() {
    let written = RefCell::new(String::new());
    let mut io = io_with(&[], flags(true, false));
    let libs = vec![
        ("repos/app/package.json".to_string(), Some(r#"{"name":"@u/app"}"#.to_string())),
        ("repos/lib/package.json".to_string(), Some(r#"{"name":"@u/lib"}"#.to_string())),
        ("repos/bad/package.json".to_string(), None),
    ];
    let r = create_mono_repo_package_json("/m", &strs(&["u/app", "u/lib", "u/bad"]), &libs, &mut io, flags(true, false), |_n: &str, c: &str| {
        *written.borrow_mut() = c.to_string();
        Ok(())
    });
    assert!(r.is_ok());
    assert_eq!(
        *written.borrow(),
        "{\n  \"name\": \"star-setup-workspace\",\n  \"private\": true,\n  \"workspaces\": [\n    \"repos/app\",\n    \"repos/lib\",\n    \"repos/bad\"\n  ],\n  \"overrides\": {\n    \"@u/lib\": \"*\"\n  }\n}\n"
    );
    assert_eq!(
        io.output,
        "  Creating npm workspace configuration\n  Warning: could not read repos/bad/package.json, skipping override\n  Created root package.json at /m\n\n"
    );
}

#[test]
fn root_file_write_error_is_returned() {
    let mut io = io_with(&[], flags(false, false));
    let r = create_mono_repo_cmakelists("/m", &strs(&["u/a"]), &mut io, flags(false, false), |_n: &str, _c: &str| Err("denied".to_string()));
    assert_eq!(r, Err("denied".to_string()));
    assert_eq!(io.output, "  Creating CMake configuration\n");
}

#[test]
fn project_names() {
    assert_eq!(parse_project_name("project('my-lib', 'cpp')"), Some("my_lib".to_string()));
    assert_eq!(parse_project_name("# x\nproject(\"core\", 'c')\n"), Some("core".to_string()));
    assert_eq!(parse_project_name("subproject('x')"), None);
    assert_eq!(parse_project_name("no project here"), None);
    assert_eq!(parse_project_name("project(x"), None);
}

#[test]
fn provide_pairs() {
    let text = "[wrap-file]\ndirectory = x\n\n[provide]\nfoo = foo_dep\n bar=bar_dep \nbad\n= v\n[other]\nz = 1\n";
    let mut pairs = parse_provide_pairs(text);
    pairs.sort();
    assert_eq!(pairs, vec![("bar".to_string(), "bar_dep".to_string()), ("foo".to_string(), "foo_dep".to_string())]);
    let later = parse_provide_pairs("[provide]\nk = a\nk = b\n");
    assert_eq!(later, vec![("k".to_string(), "b".to_string())]);
}

#[test]
fn hoisting_wraps() {
    let written = RefCell::new(Vec::new());
    let projects = vec![
        WrapProject { dir_name: "app".to_string(), meson_build: Some("project('app')".to_string()) },
        WrapProject { dir_name: "u-core".to_string(), meson_build: Some("project('core-lib', 'cpp')".to_string()) },
        WrapProject { dir_name: "docs".to_string(), meson_build: None },
    ];
    let wraps = strs(&["[provide]\ncore_lib = core_dep\napp = app_dep\n", "[provide]\ncore_lib = other_dep\n"]);
    let mut io = io_with(&[], flags(false, false));
    let table = hoist_wraps(&projects, &wraps, &mut io, |n: &str, c: &str| {
        written.borrow_mut().push((n.to_string(), c.to_string()));
        Ok(())
    })
    .unwrap();
    assert_eq!(table, vec![("app".to_string(), "app".to_string()), ("core_lib".to_string(), "u-core".to_string())]);
    let w = written.borrow();
    assert_eq!(w[0], ("app.wrap".to_string(), "[wrap-file]\ndirectory = app\n\n[provide]\napp = app_dep\n".to_string()));
    assert_eq!(w[1], ("core_lib.wrap".to_string(), "[wrap-file]\ndirectory = u-core\n\n[provide]\ncore_lib = core_dep\n".to_string()));
    assert_eq!(io.output, "  Generated wrap: app.wrap -> app\n  Generated wrap: core_lib.wrap -> u-core\n");
}

#[test]
fn hoisting_stops_at_write_error() {
    let projects = vec![
        WrapProject { dir_name: "a".to_string(), meson_build: Some("project('a')".to_string()) },
        WrapProject { dir_name: "b".to_string(), meson_build: Some("project('b')".to_string()) },
    ];
    let mut io = io_with(&[], flags(false, false));
    let r = hoist_wraps(&projects, &vec![], &mut io, |n: &str, _c: &str| if n == "b.wrap" { Err("full".to_string()) } else { Ok(()) });
    assert_eq!(r, Err("full".to_string()));
    assert_eq!(io.output, "  Generated wrap: a.wrap -> a\n");
}

#[test]
fn mono_config_for_meson_uses_project_names() {
    let roots = RefCell::new(String::new());
    let projects = vec![
        WrapProject { dir_name: "app".to_string(), meson_build: Some("project('app')".to_string()) },
        WrapProject { dir_name: "u-core".to_string(), meson_build: Some("project('core')".to_string()) },
    ];
    let mut io = io_with(&[], flags(false, false));
    let r = generate_mono_config(
        BuildSystem::Meson,
        "/m",
        &strs(&["u/app", "u/u-core"]),
        &projects,
        &vec![],
        &vec![],
        &mut io,
        flags(false, false),
        |_n: &str, c: &str| {
            *roots.borrow_mut() = c.to_string();
            Ok(())
        },
        |_n: &str, _c: &str| Ok(()),
    );
    let table = r.unwrap().unwrap();
    assert_eq!(table.len(), 2);
    assert!(roots.borrow().contains("modules = [\n  'app',\n  'core',\n]"));
    assert!(io.output.starts_with("  Creating mono-repo configuration\n  Generated wrap: app.wrap -> app\n"));
}

#[test]
fn mono_config_for_cmake_has_no_table() {
    let mut io = io_with(&[], flags(false, false));
    let r = generate_mono_config(BuildSystem::Cmake, "/m", &strs(&["u/a"]), &vec![], &vec![], &vec![], &mut io, flags(false, false), |_n: &str, _c: &str| Ok(()), |_n: &str, _c: &str| Ok(()));
    assert_eq!(r, Ok(None));
    assert!(io.output.starts_with("  Creating mono-repo configuration\n  Creating CMake configuration\n"));
}

#[test]
fn terminal_scripts_text() {
    let (ps1, sh) = terminal_script_texts("Watch", &vec![("/m".to_string(), "npm run a".to_string()), ("/m".to_string(), "npm run b".to_string())]);
    assert_eq!(
        ps1,
        "# Watch\nStart-Process powershell -ArgumentList '-NoExit', '-Command', 'cd \"/m\"; npm run a'\nStart-Process powershell -ArgumentList '-NoExit', '-Command', 'cd \"/m\"; npm run b'\n"
    );
    assert_eq!(sh, "#!/bin/bash\ntrap 'kill $(jobs -p)' EXIT\n# Watch\ncd \"/m\" && npm run a &\ncd \"/m\" && npm run b &\nwait\n");
}

#[test]
fn terminal_scripts_write_error_names_file() {
    let mut io = io_with(&[], flags(false, false));
    let r = generate_terminal_scripts("dev", "Dev", "/m", &vec![], &mut io, flags(false, false), |n: &str, _c: &str| {
        if n == "dev.sh" { Err("denied".to_string()) } else { Ok(()) }
    });
    assert_eq!(r, Err("Failed to write dev.sh: denied".to_string()));
    assert_eq!(io.output, "");
}

#[test]
fn watch_scripts_for_libraries() {
    let written = RefCell::new(Vec::new());
    let deps = strs(&["u/liba", "u/libb"]);
    let libs = vec![
        LibFiles { pkg_path: "repos/liba/package.json".to_string(), pkg_text: Some(r#"{"scripts":{"watch":"w"}}"#.to_string()), full_path: "/m/repos/liba".to_string() },
        LibFiles { pkg_path: "repos/libb/package.json".to_string(), pkg_text: Some(r#"{"scripts":{}}"#.to_string()), full_path: "/m/repos/libb".to_string() },
    ];
    let mut io = io_with(&[], flags(true, false));
    let r = generate_watch_scripts("/m", &deps, &libs, &mut io, flags(true, false), |n: &str, c: &str| {
        written.borrow_mut().push((n.to_string(), c.to_string()));
        Ok(())
    });
    assert_eq!(r, Ok(true));
    let w = written.borrow();
    assert_eq!(w.len(), 2);
    assert_eq!(w[1].1, "#!/bin/bash\ntrap 'kill $(jobs -p)' EXIT\n# Watch all lib repositories\ncd \"/m\" && npm --workspace=repos/liba run watch &\nwait\n");
    assert_eq!(
        io.output,
        format!(
            "  Warning: libb has no watch or build script, skipping\n  Generated watch scripts at /m\n  Watching 2 libraries:\n  {:<24} -> /m/repos/liba\n  {:<24} -> /m/repos/libb\n",
            "liba", "libb"
        )
    );
}

#[test]
fn watch_scripts_without_libraries() {
    let mut io = io_with(&[], flags(true, false));
    assert_eq!(generate_watch_scripts("/m", &vec![], &vec![], &mut io, flags(true, false), |_n: &str, _c: &str| Ok(())), Ok(false));
    assert_eq!(io.output, "");
}

#[test]
fn detect_single_and_ambiguous() {
    let mut io = io_with(&[], flags(true, false));
    let r = detect_build_system(BuildFiles { cmakelists: true, meson_build: false, package_json: false }, &mut io);
    assert_eq!(r, Ok(BuildSystem::Cmake));
    assert_eq!(io.output, "  Found CMakeLists.txt\n");

    let mut io = io_with(&["2\n"], flags(false, false));
    let r = detect_build_system(BuildFiles { cmakelists: true, meson_build: true, package_json: false }, &mut io);
    assert_eq!(r, Ok(BuildSystem::Meson));
    assert_eq!(io.output, "Multiple build systems detected:\n  1) CMake\n  2) Meson\nSelect: ");

    let mut io = io_with(&[], flags(false, false));
    let r = detect_build_system(BuildFiles { cmakelists: false, meson_build: false, package_json: false }, &mut io);
    assert_eq!(r, Err("No supported build system found".to_string()));
}

#[test]
fn detect_mono_needs_every_repo() {
    let dirs = vec![
        BuildFiles { cmakelists: true, meson_build: true, package_json: false },
        BuildFiles { cmakelists: true, meson_build: false, package_json: true },
    ];
    let mut io = io_with(&[], flags(false, false));
    assert_eq!(detect_mono_build_system(&dirs, &mut io), Ok(BuildSystem::Cmake));
    let dirs = vec![
        BuildFiles { cmakelists: true, meson_build: false, package_json: false },
        BuildFiles { cmakelists: false, meson_build: true, package_json: false },
    ];
    let mut io = io_with(&[], flags(false, false));
    assert_eq!(detect_mono_build_system(&dirs, &mut io), Err("Repositories have inconsistent or missing build systems".to_string()));
}
