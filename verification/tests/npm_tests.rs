use star_setup::build_types::{BuildSystem, BuildType};
use star_setup::cli::{ResolvedArgs, ResolvedBuildFlags, ResolvedConnectionFlags, ResolvedDiagnosticFlags, ResolvedMonoFlags};
use star_setup::ctx::{IoCtx, RunFlags};
use star_setup::npm::{get_watch_command, maybe_open_dev_server, package_has_script, read_package_json, resolve_dev_command};

fn flags(verbose: bool, dry_run: bool) -> RunFlags {
    RunFlags { verbose, timing: false, dry_run }
}

fn io(f: RunFlags) -> IoCtx {
    IoCtx::new(vec![], f)
}

fn dev_args(dev: bool) -> ResolvedArgs {
    ResolvedArgs {
        repo: None,
        yes: false,
        connection: ResolvedConnectionFlags { ssh: false },
        diagnostic: ResolvedDiagnosticFlags { verbose: false, timing: false, dry_run: false },
        build: ResolvedBuildFlags {
            build_type: BuildType::Debug,
            build_dir: "build".to_string(),
            build_system: None,
            no_build: false,
            clean: false,
            cmake_flags: vec![],
            meson_flags: vec![],
            watch: false,
            no_watch: false,
            dev,
            no_dev: false,
        },
        mono: ResolvedMonoFlags { mono_repo: false, mono_dir: "build-mono".to_string(), repos: None, profile: None },
    }
}

#[test]
fn reads_package_fields() {
    let mut o = io(flags(true, false));
    let text = r#"{"name":"@scope/lib","scripts":{"watch":"x","build":"y"},"devDependencies":{"@vercel/node":"1"}}"#;
    let p = read_package_json("lib/package.json", Some(text), "skipping", &mut o, flags(true, false)).unwrap();
    assert_eq!(p.name, Some("@scope/lib".to_string()));
    assert!(package_has_script(&p, "watch"));
    assert!(package_has_script(&p, "build"));
    assert!(!package_has_script(&p, "dev"));
    assert_eq!(o.output, "");
}

#[test]
fn unreadable_and_malformed_package() {
    let mut o = io(flags(true, false));
    assert!(read_package_json("a/package.json", None, "skipping", &mut o, flags(true, false)).is_none());
    assert!(read_package_json("b/package.json", Some("[1,"), "skipping", &mut o, flags(true, false)).is_none());
    assert_eq!(o.output, "  Warning: could not read a/package.json, skipping\n  Warning: malformed b/package.json, skipping\n");
    let mut quiet = io(flags(false, false));
    assert!(read_package_json("a/package.json", None, "skipping", &mut quiet, flags(false, false)).is_none());
    assert_eq!(quiet.output, "");
}

#[test]
fn scripts_not_an_object_means_no_scripts() {
    let mut o = io(flags(false, false));
    let p = read_package_json("p", Some(r#"{"scripts":5}"#), "s", &mut o, flags(false, false)).unwrap();
    assert_eq!(p.scripts, Some(vec![]));
    assert!(!package_has_script(&p, "build"));
}

#[test]
fn watch_command_prefers_watch() {
    let mut o = io(flags(true, false));
    let p = read_package_json("p", Some(r#"{"scripts":{"watch":"a","build":"b"}}"#), "s", &mut o, flags(true, false));
    assert_eq!(get_watch_command("lib", p, &mut o, flags(true, false)), Some("npm --workspace=repos/lib run watch".to_string()));
    let p = read_package_json("p", Some(r#"{"scripts":{"build":"b"}}"#), "s", &mut o, flags(true, false));
    assert_eq!(get_watch_command("lib", p, &mut o, flags(true, false)), Some("npm --workspace=repos/lib run build ''--'' --watch".to_string()));
    let p = read_package_json("p", Some(r#"{"scripts":{"test":"t"}}"#), "s", &mut o, flags(true, false));
    assert_eq!(get_watch_command("lib", p, &mut o, flags(true, false)), None);
    assert_eq!(o.output, "  Warning: lib has no watch or build script, skipping\n");
    let p = read_package_json("p", Some(r#"{}"#), "s", &mut o, flags(true, false));
    assert_eq!(get_watch_command("lib", p, &mut o, flags(true, false)), None);
}

#[test]
fn dev_commands() {
    let mut o = io(flags(true, false));
    let p = read_package_json("p", Some(r#"{"scripts":{"dev":"vite"}}"#), "s", &mut o, flags(true, false));
    assert_eq!(resolve_dev_command(p, &mut o, flags(true, false)), Some("npm run dev".to_string()));
    assert_eq!(o.output, "");
    let p = read_package_json("p", Some(r#"{"dependencies":{"@vercel/node":"3"}}"#), "s", &mut o, flags(true, false));
    assert_eq!(resolve_dev_command(p, &mut o, flags(true, false)), None);
    assert_eq!(o.output, "  No dev script found, skipping dev server\n");
    let mut quiet = io(flags(false, false));
    let p = read_package_json("p", Some(r#"{"scripts":{"build":"b"}}"#), "s", &mut quiet, flags(false, false));
    assert_eq!(resolve_dev_command(p, &mut quiet, flags(false, false)), None);
    assert_eq!(resolve_dev_command(None, &mut quiet, flags(false, false)), None);
    assert_eq!(quiet.output, "");
}

#[test]
fn dev_server_only_for_npm_with_dev() {
    let mut o = io(flags(false, false));
    assert_eq!(maybe_open_dev_server(&dev_args(false), Some(BuildSystem::Npm), None, &mut o, flags(false, false)), None);
    assert_eq!(maybe_open_dev_server(&dev_args(true), Some(BuildSystem::Cmake), None, &mut o, flags(false, false)), None);
    assert_eq!(
        maybe_open_dev_server(&dev_args(true), Some(BuildSystem::Npm), None, &mut o, flags(false, true)),
        Some("npm run dev".to_string())
    );
}
