use star_setup::build_types::BuildType;
use star_setup::cli::{
    BuildFlags, ConfigAction, ConnectionFlags, DiagnosticFlags, MonoRepoFlags, ProfileAction, ResolvedArgs, ResolvedBuildFlags,
    ResolvedConnectionFlags, ResolvedDiagnosticFlags, ResolvedMonoFlags,
};
use star_setup::config::{
    add_config, apply_change, create_default_config, format_entry, get_config, get_profile, has_config, has_profile,
    insert_config, insert_profile, list_configs, remove_config, remove_config_entry, remove_profile_entry, ConfigChange,
    ConfigEntry, Profile, SetupConfig,
};
use star_setup::ctx::{IoCtx, RunFlags};
use star_setup::handlers::{handle_config_cmd, handle_profile_cmd};
use star_setup::profile::{add_profile, list_profiles, remove_profile};

fn flags(dry_run: bool) -> RunFlags {
    RunFlags { verbose: false, timing: false, dry_run }
}

fn io_with(lines: &[&str], f: RunFlags) -> IoCtx {
    IoCtx::new(lines.iter().map(|l| l.to_string()).collect(), f)
}

fn entry(dir: &str) -> ConfigEntry {
    let mut e = ConfigEntry::default();
    e.build_dir = dir.to_string();
    e
}

const DEFAULT_TEXT: &str = "  SSH: false\n  Build Type: Debug\n  Build Directory: build\n  Mono-build Directory: build-mono\n  No-build flag: false\n  Clean flag: false\n  Verbose flag: false\n  Timing flag: false\n\n\n";

#[test]
fn format_entry_of_default() {
    assert_eq!(format_entry(&ConfigEntry::default()), DEFAULT_TEXT);
}

#[test]
fn format_entry_lists_arguments() {
    let mut e = ConfigEntry::default();
    e.ssh = true;
    e.build_type = BuildType::Release;
    e.cmake_flags = vec!["-DA=1".to_string()];
    e.meson_flags = vec!["-Db=2".to_string(), "-Dc=3".to_string()];
    let text = format_entry(&e);
    assert!(text.starts_with("  SSH: true\n  Build Type: Release\n"));
    assert!(text.ends_with("  CMake argument: -DA=1\n  Meson arguments:\n    -Db=2\n    -Dc=3\n"));
}

#[test]
fn insert_then_lookup_and_others_untouched() {
    let mut c = SetupConfig::new();
    insert_config(&mut c, "a", entry("ba"));
    insert_config(&mut c, "b", entry("bb"));
    assert!(has_config(&c, "a"));
    assert_eq!(get_config(&c, "a").unwrap().build_dir, "ba");
    insert_config(&mut c, "a", entry("ba2"));
    assert_eq!(get_config(&c, "a").unwrap().build_dir, "ba2");
    assert_eq!(get_config(&c, "b").unwrap().build_dir, "bb");
    assert_eq!(c.configs.len(), 2);
}

#[test]
fn insert_then_remove_restores() {
    let mut c = SetupConfig::new();
    insert_config(&mut c, "keep", entry("k"));
    apply_change(&mut c, ConfigChange::InsertConfig("tmp".to_string(), entry("t")));
    apply_change(&mut c, ConfigChange::RemoveConfig("tmp".to_string()));
    assert_eq!(c.configs.len(), 1);
    assert_eq!(c.configs[0].0, "keep");
    assert!(!has_config(&c, "tmp"));
    assert!(!remove_config_entry(&mut c, "tmp"));
    assert!(remove_config_entry(&mut c, "keep"));
    assert!(!has_config(&c, "keep"));
}

#[test]
fn profiles_insert_remove() {
    let mut c = SetupConfig::new();
    insert_profile(&mut c, "p", Profile { test_repo: Some("u/t".to_string()), deps: vec!["u/a".to_string()] });
    assert!(has_profile(&c, "p"));
    assert_eq!(get_profile(&c, "p").unwrap().deps, vec!["u/a".to_string()]);
    assert!(remove_profile_entry(&mut c, "p"));
    assert!(!has_profile(&c, "p"));
    assert!(!remove_profile_entry(&mut c, "p"));
}

#[test]
fn profile_needs_something() {
    let e = Profile::from_args(None, vec![]).err().unwrap();
    assert_eq!(e, "profile requires --test-repo or at least one dependency repo");
    assert!(Profile::from_args(Some("u/t".to_string()), vec![]).is_ok());
    assert!(Profile::from_args(None, vec!["u/a".to_string()]).is_ok());
}

#[test]
fn list_configs_empty_and_full() {
    let mut io = io_with(&[], flags(false));
    list_configs(&SetupConfig::new(), &mut io);
    assert_eq!(io.output, "  No configurations created.\n  Run with --init-config to create a default configuration.\n");
    let mut c = SetupConfig::new();
    insert_config(&mut c, "default", ConfigEntry::default());
    let mut io = io_with(&[], flags(false));
    list_configs(&c, &mut io);
    assert_eq!(io.output, format!("Configurations:\n\ndefault:\n{DEFAULT_TEXT}"));
}

#[test]
fn add_config_saves_and_reports() {
    let mut c = SetupConfig::new();
    let mut io = io_with(&[], flags(false));
    let r = add_config(&mut c, "dev", ConfigEntry::default(), false, &mut io, flags(false), |_c: &SetupConfig| Ok("/tmp/cfg.json".to_string()));
    assert!(r.is_ok());
    assert!(has_config(&c, "dev"));
    assert_eq!(io.output, format!("Configuration 'dev' added successfully to /tmp/cfg.json\nConfiguration details:\n{DEFAULT_TEXT}"));
}

#[test]
fn add_config_dry_run_changes_nothing() {
    let mut c = SetupConfig::new();
    let mut io = io_with(&[], flags(true));
    let r = add_config(&mut c, "dev", ConfigEntry::default(), false, &mut io, flags(true), |_c: &SetupConfig| Err("unused".to_string()));
    assert!(r.is_ok());
    assert!(!has_config(&c, "dev"));
    assert_eq!(io.output, "Would save configuration 'dev' to config file\n");
}

#[test]
fn add_config_declined_overwrite() {
    let mut c = SetupConfig::new();
    insert_config(&mut c, "dev", entry("old"));
    let mut io = io_with(&["n\n"], flags(false));
    let r = add_config(&mut c, "dev", entry("new"), false, &mut io, flags(false), |_c: &SetupConfig| Ok("p".to_string()));
    assert!(r.is_ok());
    assert_eq!(get_config(&c, "dev").unwrap().build_dir, "old");
    assert_eq!(io.output, "Warning: Configuration 'dev' already exists. Overwrite? (y/n): Aborted.\n");
}

#[test]
fn add_config_confirm_runs_out_of_input() {
    let mut c = SetupConfig::new();
    insert_config(&mut c, "dev", entry("old"));
    let mut io = io_with(&[], flags(false));
    let r = add_config(&mut c, "dev", entry("new"), false, &mut io, flags(false), |_c: &SetupConfig| Ok("p".to_string()));
    assert_eq!(r, Err("unexpected end of input".to_string()));
    assert_eq!(get_config(&c, "dev").unwrap().build_dir, "old");
}

#[test]
fn add_config_save_error() {
    let mut c = SetupConfig::new();
    let mut io = io_with(&[], flags(false));
    let r = add_config(&mut c, "dev", ConfigEntry::default(), true, &mut io, flags(false), |_c: &SetupConfig| Err("disk full".to_string()));
    assert_eq!(r, Err("disk full".to_string()));
    assert_eq!(io.output, "");
}

#[test]
fn remove_config_missing_and_present() {
    let mut c = SetupConfig::new();
    let mut io = io_with(&[], flags(false));
    assert!(remove_config(&mut c, "x", true, &mut io, flags(false), |_c: &SetupConfig| Ok("p".to_string())).is_ok());
    assert_eq!(io.output, "\nWarning: Config 'x' not found.\n\n");

    insert_config(&mut c, "x", ConfigEntry::default());
    let mut io = io_with(&["y\n"], flags(false));
    assert!(remove_config(&mut c, "x", false, &mut io, flags(false), |_c: &SetupConfig| Ok("/p.json".to_string())).is_ok());
    assert!(!has_config(&c, "x"));
    assert_eq!(
        io.output,
        format!("Config x\nConfiguration details:\n{DEFAULT_TEXT}\nAre you sure you want to remove this config? (y/n): \nConfig 'x' was successfully removed\nConfiguration saved to: /p.json\n\n")
    );
}

#[test]
fn profiles_add_list_remove() {
    let mut c = SetupConfig::new();
    let mut io = io_with(&[], flags(false));
    let p = Profile { test_repo: Some("u/t".to_string()), deps: vec!["u/a".to_string(), "u/b".to_string()] };
    assert!(add_profile(&mut c, "eco", p, false, &mut io, flags(false), |_c: &SetupConfig| Ok("/p.json".to_string())).is_ok());
    assert!(has_profile(&c, "eco"));
    assert!(io.output.contains("  Profile 'eco' added successfully\n  Configuration saved to: /p.json\n"));
    assert!(io.output.contains("  Usage: star-setup username/test-repo --profile eco\n"));

    let mut io = io_with(&[], flags(false));
    list_profiles(&c, &mut io);
    assert_eq!(io.output, "Configured profiles:\n\n  eco\n  u/t\n    Repositories: 2\n      - u/a\n      - u/b\n\n");

    let mut io = io_with(&[], flags(false));
    assert!(remove_profile(&mut c, "eco", true, &mut io, flags(false), |_c: &SetupConfig| Ok("/p.json".to_string())).is_ok());
    assert!(!has_profile(&c, "eco"));

    let mut io = io_with(&[], flags(false));
    list_profiles(&c, &mut io);
    assert_eq!(io.output, "No profiles configured. Run with profile add to create a new profile.\n");
}

#[test]
fn default_config_created() {
    let saved = std::cell::RefCell::new(None);
    let mut io = io_with(&[], flags(false));
    let r = create_default_config(
        ".star-setup.json",
        false,
        false,
        &mut io,
        flags(false),
        |c: &SetupConfig| {
            *saved.borrow_mut() = Some((c.configs.len(), c.configs[0].0.clone(), c.path.clone()));
            Ok(".star-setup.json".to_string())
        },
        |p: &str| format!("/home/u/{p}"),
    );
    assert!(r.is_ok());
    assert_eq!(saved.borrow().clone(), Some((1, "default".to_string(), Some(".star-setup.json".to_string()))));
    assert_eq!(
        io.output,
        "Created config file: /home/u/.star-setup.json\nEdit this file to customize your defaults.\n\nConfig files are checked in this order:\n  1. ./.star-setup.json (current directory)\n  2. ~/.star-setup.json (home directory)\n"
    );
}

#[test]
fn default_config_overwrite_declined() {
    let mut io = io_with(&["no\n"], flags(false));
    let r = create_default_config(".star-setup.json", true, false, &mut io, flags(false), |_c: &SetupConfig| Ok("x".to_string()), |p: &str| p.to_string());
    assert!(r.is_ok());
    assert_eq!(io.output, ".star-setup.json already exists. Overwrite? (y/n): Aborted.\n");
}

#[test]
fn handlers_dispatch() {
    let mut c = SetupConfig::new();
    let mut io = io_with(&[], flags(false));
    let action = ConfigAction::Add {
        name: "ci".to_string(),
        connection: ConnectionFlags { ssh: true, https: false },
        build: BuildFlags {
            build_type: Some("release".to_string()),
            build_dir: None,
            build_system: None,
            build: false,
            no_build: true,
            clean: false,
            no_clean: false,
            cmake_flags: vec![],
            meson_flags: vec![],
            watch: false,
            no_watch: false,
            dev: false,
            no_dev: false,
        },
        mono: MonoRepoFlags { mono_repo: false, mono_dir: Some("mono".to_string()), deps: None, profile: None },
        diagnostic: DiagnosticFlags { verbose: false, no_verbose: false, timing: false, no_timing: false, dry_run: false, no_dry_run: false },
    };
    let r = handle_config_cmd(action, &mut c, ".star-setup.json", false, true, &mut io, flags(false), |_c: &SetupConfig| Ok("p".to_string()), |p: &str| p.to_string());
    assert!(r.is_ok());
    let e = get_config(&c, "ci").unwrap();
    assert!(e.ssh);
    assert_eq!(e.build_type, BuildType::Release);
    assert_eq!(e.build_dir, "build");
    assert_eq!(e.mono_dir, "mono");
    assert!(e.no_build);

    let mut io = io_with(&[], flags(false));
    let r = handle_profile_cmd(ProfileAction::Add { name: "e".to_string(), test_repo: None, repos: vec![] }, &mut c, true, &mut io, flags(false), |_c: &SetupConfig| Ok("p".to_string()));
    assert_eq!(r, Err("profile requires --test-repo or at least one dependency repo".to_string()));
    assert!(!has_profile(&c, "e"));
}

#[test]
fn from_flags_unknown_type_is_debug() {
    let build = BuildFlags {
        build_type: Some("weird".to_string()),
        build_dir: Some("out".to_string()),
        build_system: None,
        build: false,
        no_build: false,
        clean: true,
        no_clean: false,
        cmake_flags: vec!["-DX=1".to_string()],
        meson_flags: vec![],
        watch: true,
        no_watch: false,
        dev: false,
        no_dev: true,
    };
    let e = ConfigEntry::from_flags(
        &ConnectionFlags { ssh: false, https: true },
        &build,
        &MonoRepoFlags { mono_repo: false, mono_dir: None, deps: None, profile: None },
        &DiagnosticFlags { verbose: true, no_verbose: false, timing: false, no_timing: false, dry_run: true, no_dry_run: false },
    );
    assert_eq!(e.build_type, BuildType::Debug);
    assert_eq!(e.build_dir, "out");
    assert_eq!(e.mono_dir, "build-mono");
    assert!(e.clean && e.watch && e.no_dev && e.verbose && e.dry_run);
    assert_eq!(e.cmake_flags, vec!["-DX=1".to_string()]);
}

#[test]
fn entry_from_resolved_run() {
    let args = ResolvedArgs {
        repo: Some("user/game".to_string()),
        yes: true,
        connection: ResolvedConnectionFlags { ssh: true },
        diagnostic: ResolvedDiagnosticFlags { verbose: false, timing: true, dry_run: false },
        build: ResolvedBuildFlags {
            build_type: BuildType::RelWithDebInfo,
            build_dir: "out".to_string(),
            build_system: None,
            no_build: true,
            clean: false,
            cmake_flags: vec!["-DA=1".to_string()],
            meson_flags: vec!["-Db=2".to_string()],
            watch: false,
            no_watch: true,
            dev: true,
            no_dev: false,
        },
        mono: ResolvedMonoFlags { mono_repo: true, mono_dir: "mono".to_string(), repos: None, profile: None },
    };
    let e = ConfigEntry::from_resolved(&args);
    assert!(e.ssh && e.no_build && e.timing && e.no_watch && e.dev);
    assert!(!e.clean && !e.verbose && !e.dry_run && !e.watch && !e.no_dev);
    assert_eq!(e.build_type, BuildType::RelWithDebInfo);
    assert_eq!(e.build_dir, "out");
    assert_eq!(e.mono_dir, "mono");
    assert_eq!(e.cmake_flags, vec!["-DA=1".to_string()]);
    assert_eq!(e.meson_flags, vec!["-Db=2".to_string()]);
}
