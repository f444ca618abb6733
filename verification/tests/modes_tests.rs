use std::cell::RefCell;
use star_setup::build_types::{BuildSystem, BuildType};
use star_setup::cli::{ResolvedArgs, ResolvedBuildFlags, ResolvedConnectionFlags, ResolvedDiagnosticFlags, ResolvedMonoFlags};
use star_setup::config::{insert_profile, Profile, SetupConfig};
use star_setup::ctx::{IoCtx, RunFlags};
use star_setup::header::{print_mode_header, print_setup_complete, ModeHeader, SetupPaths};
use star_setup::modes::{
    clone_mono_repos, mono_repo_finish, mono_repo_start, note_npm_clean, prepare_build_dir, setup_exe_names, setup_paths,
    single_repo_finish, single_repo_start,
};

fn args(repo: Option<&str>, profile: Option<&str>, repos: Option<Vec<&str>>, clean: bool) -> ResolvedArgs {
    ResolvedArgs {
        repo: repo.map(|r| r.to_string()),
        yes: false,
        connection: ResolvedConnectionFlags { ssh: true },
        diagnostic: ResolvedDiagnosticFlags { verbose: false, timing: false, dry_run: false },
        build: ResolvedBuildFlags {
            build_type: BuildType::Debug,
            build_dir: "build".to_string(),
            build_system: None,
            no_build: false,
            clean,
            cmake_flags: vec![],
            meson_flags: vec![],
            watch: false,
            no_watch: false,
            dev: false,
            no_dev: false,
        },
        mono: ResolvedMonoFlags {
            mono_repo: true,
            mono_dir: "build-mono".to_string(),
            repos: repos.map(|v| v.into_iter().map(String::from).collect()),
            profile: profile.map(|p| p.to_string()),
        },
    }
}

fn flags(verbose: bool, timing: bool, dry_run: bool) -> RunFlags {
    RunFlags { verbose, timing, dry_run }
}

fn io(f: RunFlags) -> IoCtx {
    IoCtx::new(vec![], f)
}

#[test]
fn mono_start_from_repo_list() {
    let f = flags(false, false, false);
    let mut o = io(f);
    let m = mono_repo_start(&args(Some("https://github.com/u/app.git"), None, Some(vec!["u/lib", "x/app"]), false), &SetupConfig::new(), &mut o, f).unwrap();
    assert_eq!(m.test_repo, "u/app");
    assert_eq!(m.deps, vec!["u/lib".to_string(), "x/app".to_string()]);
    assert_eq!(m.repos, vec!["u/app".to_string(), "u/lib".to_string()]);
    assert_eq!(
        o.output,
        "Star Setup: Mono-repository\n  Test Repositories: 1\n  Clone Method: SSH\n  Directory: build-mono\n  Libraries: 2\n  Total repositories: 2\n\n"
    );
}

#[test]
fn mono_start_from_profile_verbose() {
    let f = flags(true, false, false);
    let mut c = SetupConfig::new();
    insert_profile(&mut c, "eco", Profile { test_repo: Some("u/t".to_string()), deps: vec!["u/a".to_string()] });
    let mut o = io(f);
    let m = mono_repo_start(&args(Some("u/game/"), Some("eco"), None, false), &c, &mut o, f).unwrap();
    assert_eq!(m.test_repo, "u/game");
    assert_eq!(m.repos, vec!["u/game".to_string(), "u/a".to_string()]);
    assert_eq!(
        o.output,
        "Star Setup: Profile\n  Profile: eco\n  Test Repositories:\n    u/game\n  Clone Method: SSH\n  Directory: build-mono\n  Libraries: 1\n  Total repositories: 2\n\nCreating directory\n"
    );
}

#[test]
fn mono_start_errors() {
    let f = flags(false, false, false);
    let mut o = io(f);
    let r = mono_repo_start(&args(None, None, None, false), &SetupConfig::new(), &mut o, f);
    assert_eq!(r.err(), Some("No repository specified".to_string()));
    assert_eq!(o.output, "");
    let mut c = SetupConfig::new();
    insert_profile(&mut c, "eco", Profile { test_repo: Some("u/t".to_string()), deps: vec!["u/a".to_string()] });
    let r = mono_repo_start(&args(None, Some("eco"), None, false), &c, &mut o, f);
    assert_eq!(r.err(), Some("No repository specified".to_string()));
    assert_eq!(o.output, "");
    let r = mono_repo_start(&args(None, Some("ghost"), None, false), &c, &mut o, f);
    assert_eq!(r.err(), Some("No repository specified".to_string()));
    assert_eq!(o.output, "");
    let r = mono_repo_start(&args(Some("norepo"), Some("ghost"), None, false), &c, &mut o, f);
    assert_eq!(r.err(), Some("Repository must be in format 'username/repo' for mono-repo mode".to_string()));
    assert_eq!(o.output, "");
    let mut o = io(f);
    let r = mono_repo_start(&args(Some("u/t"), Some("ghost"), None, false), &SetupConfig::new(), &mut o, f);
    assert_eq!(r.err(), Some("Profile 'ghost' not found".to_string()));
    assert_eq!(o.output, "No profiles configured. Run with profile add to create a new profile.\n");
}

#[test]
fn single_start_and_finish() {
    let f = flags(false, true, false);
    let mut o = io(f);
    let (repo, dir) = single_repo_start(&args(Some("https://github.com/u/tool.git/"), None, None, false), &mut o, f).unwrap();
    assert_eq!(repo, "https://github.com/u/tool.git");
    assert_eq!(dir, "tool");
    assert_eq!(o.output, "Star Setup: Single Repository Mode\n  Repository: tool\n  Clone Method: SSH\n\nCloning repository\n");
    let mut o = io(f);
    single_repo_finish(&args(None, None, None, false), Some(BuildSystem::Cmake), "tool", "1.20s", &mut o, f);
    assert_eq!(o.output, "Project finished in tool/build\n[timing] Total: 1.20s\n");
    let mut o = io(flags(false, false, false));
    single_repo_finish(&args(None, None, None, false), Some(BuildSystem::Npm), "tool", "", &mut o, flags(false, false, false));
    assert_eq!(o.output, "Project finished in tool\n");
    let mut o = io(flags(false, false, true));
    single_repo_finish(&args(None, None, None, false), Some(BuildSystem::Npm), "tool", "", &mut o, flags(false, false, true));
    assert_eq!(o.output, "Would finish in tool\n");
}

#[test]
fn single_start_needs_repo() {
    let f = flags(false, false, false);
    let mut o = io(f);
    assert_eq!(single_repo_start(&args(None, None, None, false), &mut o, f).err(), Some("No repository specified".to_string()));
}

#[test]
fn cloning_in_order_and_stopping() {
    let seen = RefCell::new(Vec::new());
    let mut o = io(flags(false, false, false));
    let repos = vec!["u/a".to_string(), "u/b".to_string()];
    let r = clone_mono_repos(&repos, &mut o, |r: &str| {
        seen.borrow_mut().push(r.to_string());
        Ok(())
    });
    assert!(r.is_ok());
    assert_eq!(*seen.borrow(), repos);
    assert_eq!(o.output, "Cloning repositories\n  Cloning a\n  Cloning b\n  Finished cloning (2 repositories)\n\n");

    let mut o = io(flags(false, false, false));
    let r = clone_mono_repos(&repos, &mut o, |r: &str| if r == "u/a" { Err("no network".to_string()) } else { Ok(()) });
    assert_eq!(r, Err("no network".to_string()));
    assert_eq!(o.output, "Cloning repositories\n  Cloning a\n");
}

#[test]
fn build_dir_preparation() {
    let calls = RefCell::new(Vec::new());
    let f = flags(true, false, false);
    let mut o = io(f);
    let r = prepare_build_dir(true, &mut o, f, || {
        calls.borrow_mut().push("remove");
        Ok(())
    }, || {
        calls.borrow_mut().push("create");
        Ok(())
    });
    assert!(r.is_ok());
    assert_eq!(*calls.borrow(), vec!["remove", "create"]);
    assert_eq!(o.output, "Cleaning build directory\n  Finished cleaning\n\nCreating build directory\n  Finished creating\n\n");

    let f = flags(false, false, true);
    let mut o = io(f);
    let r = prepare_build_dir(false, &mut o, f, || Err("x".to_string()), || Err("y".to_string()));
    assert!(r.is_ok());
    assert_eq!(o.output, "Creating build directory\n");

    let f = flags(false, false, false);
    let mut o = io(f);
    let r = prepare_build_dir(true, &mut o, f, || Err("busy".to_string()), || Ok(()));
    assert_eq!(r, Err("busy".to_string()));
    assert_eq!(o.output, "Cleaning build directory\n");
}

#[test]
fn exe_names_from_table() {
    let table = vec![("core".to_string(), "u-core".to_string()), ("app_x".to_string(), "app".to_string())];
    let tests = vec!["u/app".to_string(), "u/none".to_string()];
    assert_eq!(setup_exe_names(&table, &tests, ".exe"), vec![("app".to_string(), "app_x.exe".to_string())]);
    assert_eq!(setup_exe_names(&table, &tests, ""), vec![("app".to_string(), "app_x".to_string())]);
}

#[test]
fn paths_shown_at_the_end() {
    let exes = vec![("app".to_string(), "/b/repos/app/app".to_string())];
    let p = setup_paths(false, true, Some(BuildSystem::Meson), "/m".to_string(), "/b".to_string(), exes.clone());
    assert_eq!(p.exe_paths, exes);
    assert_eq!(p.build_disp, None);
    let p = setup_paths(true, true, Some(BuildSystem::Meson), "/m".to_string(), "/b".to_string(), exes.clone());
    assert!(p.exe_paths.is_empty());
    assert_eq!(p.build_disp, Some("/b".to_string()));
    let p = setup_paths(false, false, Some(BuildSystem::Npm), "/m".to_string(), "/b".to_string(), exes);
    assert_eq!(p.build_disp, None);
}

#[test]
fn mono_finish_texts() {
    let paths = SetupPaths { mono_repo_disp: "/m".to_string(), exe_paths: vec![("app".to_string(), "/x/app".to_string())], build_disp: Some("/b".to_string()) };
    let mut o = io(flags(false, false, false));
    mono_repo_finish(&paths, None, "", &mut o, flags(false, false, false));
    assert_eq!(o.output, "Would finish setup in /m\n");
    let f = flags(true, true, false);
    let mut o = io(f);
    mono_repo_finish(&paths, Some(BuildSystem::Cmake), "3s", &mut o, f);
    assert_eq!(o.output, "  Setup complete\n  Repositories in: /m\n  Executable [app]: /x/app\n  Build output in: /b\n  [timing] Total: 3s\n");
    let mut o = io(flags(false, false, false));
    print_setup_complete(&paths, "", &mut o, flags(false, false, false));
    assert_eq!(o.output, "  Setup complete\n  Repositories in: /m\n  Executables: 1\n  Build output in: /b\n");
}

#[test]
fn npm_clean_note() {
    let f = flags(true, false, false);
    let mut o = io(f);
    note_npm_clean(&args(None, None, None, true), &mut o, f);
    assert_eq!(o.output, "  --clean has no effect for npm projects\n");
    let mut o = io(flags(false, false, false));
    note_npm_clean(&args(None, None, None, true), &mut o, flags(false, false, false));
    assert_eq!(o.output, "");
}

#[test]
fn header_counts_test_repositories() {
    let h = ModeHeader {
        mode: "Mono-repository".to_string(),
        test_repos: vec!["u/a".to_string(), "u/b".to_string()],
        repo_name: None,
        mono_dir: Some("m".to_string()),
        profile: None,
        lib_count: Some(0),
        repo_count: Some(2),
        use_ssh: false,
        verbose: false,
    };
    let mut o = io(flags(false, false, false));
    print_mode_header(&h, &mut o);
    assert_eq!(o.output, "Star Setup: Mono-repository\n  Test Repositories: 2\n  Clone Method: HTTPS\n  Directory: m\n  Libraries: 0\n  Total repositories: 2\n\n");
}

#[test]
fn libraries_leave_out_the_test_repository() {
    let f = flags(false, false, false);
    let mut o = io(f);
    let m = mono_repo_start(&args(Some("u/app"), None, Some(vec!["x/app", "u/lib", "v/lib"]), false), &SetupConfig::new(), &mut o, f).unwrap();
    assert_eq!(m.deps, vec!["x/app".to_string(), "u/lib".to_string(), "v/lib".to_string()]);
    assert_eq!(m.libraries(), vec!["u/lib".to_string()]);
}
