use star_setup::build_types::BuildType;
use star_setup::cli::{ResolvedArgs, ResolvedBuildFlags, ResolvedConnectionFlags, ResolvedDiagnosticFlags, ResolvedMonoFlags};
use star_setup::ctx::{IoCtx, RunFlags};
use star_setup::interactive::interactive_mode;

fn blank_args() -> ResolvedArgs {
    ResolvedArgs {
        repo: None,
        yes: false,
        connection: ResolvedConnectionFlags { ssh: false },
        diagnostic: ResolvedDiagnosticFlags { verbose: false, timing: false, dry_run: false },
        build: ResolvedBuildFlags {
            build_type: BuildType::Debug,
            build_dir: "build".to_string(),
            build_system: None,
            no_build: false,
            clean: false,
            cmake_flags: vec![],
            meson_flags: vec![],
            watch: false,
            no_watch: false,
            dev: false,
            no_dev: false,
        },
        mono: ResolvedMonoFlags { mono_repo: false, mono_dir: "build-mono".to_string(), repos: None, profile: None },
    }
}

fn io_with(lines: &[&str]) -> IoCtx {
    IoCtx::new(lines.iter().map(|l| l.to_string()).collect(), RunFlags { verbose: false, timing: false, dry_run: false })
}

#[test]
fn mono_repo_with_manual_list() {
    let mut a = blank_args();
    let mut io = io_with(&["\n", "u/app\n", "y\n", "\n", "n\n", "y\n", "3\n", "2\n", "2\n", "u/a  u/b\tu/c\n", "release\n", "\n", "\n"]);
    assert!(interactive_mode(&mut a, &mut io).is_ok());
    assert_eq!(a.repo, Some("u/app".to_string()));
    assert!(a.connection.ssh);
    assert!(!a.diagnostic.verbose);
    assert!(!a.diagnostic.timing);
    assert!(a.build.clean);
    assert!(a.mono.mono_repo);
    assert_eq!(a.mono.repos, Some(vec!["u/a".to_string(), "u/b".to_string(), "u/c".to_string()]));
    assert_eq!(a.build.build_type, BuildType::Release);
    assert_eq!(a.build.build_dir, "build");
    assert!(!a.build.no_build);
    assert_eq!(
        io.output,
        "Star Setup Interactive Mode\nEnter repository (user/repo or URL): Enter repository (user/repo or URL): Use SSH? (y/n) [N]: Verbose? (y/n) [N]: Show timing? (y/n) [N]: Clean build directory if exists? (y/n) [N]: Select mode: (1) Single Repo (2) Mono-Repo: Select mode: (1) Single Repo (2) Mono-Repo: Mono-repo: (1) Use profile (2) Manual repo list: Enter repos (space separated 'username/lib1 username/lib2'): Build type [Debug]: Build directory [build]: Configure only (skip build)? (y/n) [N]: \nInteractive mode complete\n"
    );
}

#[test]
fn single_repo_given_on_command_line() {
    let mut a = blank_args();
    a.repo = Some("u/x".to_string());
    let mut io = io_with(&["n\n", "n\n", "n\n", "n\n", "1\n", "\n", "out\n", "y\n"]);
    assert!(interactive_mode(&mut a, &mut io).is_ok());
    assert!(!a.mono.mono_repo);
    assert_eq!(a.build.build_type, BuildType::Debug);
    assert_eq!(a.build.build_dir, "out");
    assert!(a.build.no_build);
}

#[test]
fn unknown_build_type_ends_dialog() {
    let mut a = blank_args();
    a.repo = Some("u/x".to_string());
    a.mono.mono_repo = true;
    a.mono.profile = Some("p".to_string());
    let mut io = io_with(&["n\n", "n\n", "n\n", "n\n", "turbo\n", "more\n"]);
    let r = interactive_mode(&mut a, &mut io);
    assert_eq!(r, Err("Unknown build type 'turbo'. Canonical: debug, release, rel-with-deb-info, min-size-rel".to_string()));
    assert_eq!(a.build.build_type, BuildType::Debug);
    assert_eq!(io.input.len() - io.pos, 1);
}

#[test]
fn running_out_of_input() {
    let mut a = blank_args();
    a.repo = Some("u/x".to_string());
    let mut io = io_with(&["y\n"]);
    assert_eq!(interactive_mode(&mut a, &mut io), Err("unexpected end of input".to_string()));
    assert!(a.connection.ssh);
    assert_eq!(io.output, "Star Setup Interactive Mode\nUse SSH? (y/n) [N]: Verbose? (y/n) [N]: ");
}
