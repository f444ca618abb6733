use star_setup::build_types::BuildType;
use star_setup::cli::{ResolvedArgs, ResolvedBuildFlags, ResolvedConnectionFlags, ResolvedDiagnosticFlags, ResolvedMonoFlags};
use star_setup::config::{insert_profile, Profile, SetupConfig};
use star_setup::ctx::{IoCtx, RunFlags};
use star_setup::repo::{
    build_repo_list, clone_url, extract_repo_input, fetch_plan, Fetch, repo_dir_name, resolve_profile, resolve_repos_for_mono, resolve_test_repo,
    resolve_test_repo_for_mono,
};

fn args(repo: Option<&str>, profile: Option<&str>, repos: Option<Vec<&str>>) -> ResolvedArgs {
    ResolvedArgs {
        repo: repo.map(|r| r.to_string()),
        yes: false,
        connection: ResolvedConnectionFlags { ssh: false },
        diagnostic: ResolvedDiagnosticFlags { verbose: false, timing: false, dry_run: false },
        build: ResolvedBuildFlags {
            build_type: BuildType::Debug,
            build_dir: "build".to_string(),
            build_system: None,
            no_build: false,
            clean: false,
            cmake_flags: vec![],
            meson_flags: vec![],
            watch: false,
            no_watch: false,
            dev: false,
            no_dev: false,
        },
        mono: ResolvedMonoFlags {
            mono_repo: true,
            mono_dir: "build-mono".to_string(),
            repos: repos.map(|v| v.into_iter().map(String::from).collect()),
            profile: profile.map(|p| p.to_string()),
        },
    }
}

fn quiet_io() -> IoCtx {
    IoCtx::new(vec![], RunFlags { verbose: false, timing: false, dry_run: false })
}

#[test]
fn test_repo_from_https_url() {
    assert_eq!(resolve_test_repo("https://github.com/user/repo.git/"), Ok("user/repo".to_string()));
    assert_eq!(resolve_test_repo("https://github.com/user/repo"), Ok("user/repo".to_string()));
}

#[test]
fn test_repo_from_ssh_url() {
    assert_eq!(resolve_test_repo("git@github.com:user/repo.git"), Ok("user/repo".to_string()));
}

#[test]
fn test_repo_plain_and_errors() {
    assert_eq!(resolve_test_repo("user/repo"), Ok("user/repo".to_string()));
    assert_eq!(resolve_test_repo("https://gitlab.com/user/repo"), Err("Could not parse repository URL".to_string()));
    assert_eq!(
        resolve_test_repo("repo"),
        Err("Repository must be in format 'username/repo' for mono-repo mode".to_string())
    );
}

#[test]
fn test_repo_normalising_twice_changes_nothing() {
    let once = resolve_test_repo("https://github.com/user/repo.git").unwrap();
    assert_eq!(resolve_test_repo(&once), Ok(once.clone()));
}

#[test]
fn dir_names() {
    assert_eq!(repo_dir_name("user/repo"), "repo");
    assert_eq!(repo_dir_name("https://github.com/user/repo.git"), "repo");
    assert_eq!(repo_dir_name("git@github.com:user/lib.git/"), "lib");
    assert_eq!(repo_dir_name("plain"), "plain");
    let d = repo_dir_name("https://github.com/a/b.git.git");
    assert_eq!(d, "b");
    assert_eq!(repo_dir_name(&d), d);
}

#[test]
fn repo_list_dedups_by_directory() {
    let tests = vec!["u/app".to_string()];
    let deps = vec!["u/lib".to_string(), "other/app".to_string(), "v/lib.git".to_string(), "u/core".to_string()];
    let list = build_repo_list(&tests, &deps);
    assert_eq!(list, vec!["u/app".to_string(), "u/lib".to_string(), "u/core".to_string()]);
}

#[test]
fn repo_input_trims_slashes() {
    assert_eq!(extract_repo_input(&args(Some("user/repo//"), None, None)), Ok("user/repo".to_string()));
    assert_eq!(extract_repo_input(&args(None, None, None)), Err("No repository specified".to_string()));
}

#[test]
fn profile_resolution() {
    let mut c = SetupConfig::new();
    insert_profile(&mut c, "eco", Profile { test_repo: Some("u/t".to_string()), deps: vec!["u/a".to_string()] });
    let mut io = quiet_io();
    let a = args(None, Some("eco"), None);
    let p = resolve_profile(&a, &c, &mut io).unwrap().unwrap();
    assert_eq!(p.deps, vec!["u/a".to_string()]);
    assert_eq!(resolve_test_repo_for_mono(&a, Some(p)), Ok("u/t".to_string()));
    assert_eq!(resolve_repos_for_mono(&a, Some(p)), vec!["u/a".to_string()]);

    let missing = args(None, Some("nope"), None);
    let mut io = quiet_io();
    assert_eq!(resolve_profile(&missing, &c, &mut io).err(), Some("Profile 'nope' not found".to_string()));
    assert!(io.output.starts_with("Configured profiles:\n"));
}

#[test]
fn mono_repos_without_profile() {
    let a = args(Some("https://github.com/u/t"), None, Some(vec!["u/x", "u/y"]));
    assert_eq!(resolve_test_repo_for_mono(&a, None), Ok("u/t".to_string()));
    assert_eq!(resolve_repos_for_mono(&a, None), vec!["u/x".to_string(), "u/y".to_string()]);
    let none = args(None, None, None);
    assert_eq!(resolve_test_repo_for_mono(&none, None), Err("No repository specified".to_string()));
    assert!(resolve_repos_for_mono(&none, None).is_empty());
}

#[test]
fn clone_urls_and_fetch_plans() {
    assert_eq!(clone_url("u/app", false), "https://github.com/u/app.git");
    assert_eq!(clone_url("u/app", true), "git@github.com:u/app.git");
    assert_eq!(clone_url("https://gitlab.com/u/app", true), "https://gitlab.com/u/app");
    assert_eq!(fetch_plan("u/app", true, false, true), Fetch::Clone("git@github.com:u/app.git".to_string()));
    assert_eq!(fetch_plan("u/app", true, true, true), Fetch::Pull);
    assert_eq!(fetch_plan("u/app", true, true, false), Fetch::Skip);
}
