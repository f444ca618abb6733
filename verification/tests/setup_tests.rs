use star_setup::build_types::{BuildSystem, BuildType};
use star_setup::cli::{ResolvedArgs, ResolvedBuildFlags, ResolvedConnectionFlags, ResolvedDiagnosticFlags, ResolvedMonoFlags};
use star_setup::setup::{setup_step, SetupAction, SetupEvent, SetupState};

fn args(build_system: Option<BuildSystem>, watch: bool, no_watch: bool) -> ResolvedArgs {
    ResolvedArgs {
        repo: None,
        yes: false,
        connection: ResolvedConnectionFlags { ssh: false },
        diagnostic: ResolvedDiagnosticFlags { verbose: false, timing: false, dry_run: false },
        build: ResolvedBuildFlags {
            build_type: BuildType::Debug,
            build_dir: "build".to_string(),
            build_system,
            no_build: false,
            clean: false,
            cmake_flags: vec![],
            meson_flags: vec![],
            watch,
            no_watch,
            dev: false,
            no_dev: false,
        },
        mono: ResolvedMonoFlags { mono_repo: true, mono_dir: "build-mono".to_string(), repos: None, profile: None },
    }
}

/// Runs the machine, answering each action with the next event, and gives the actions.
fn walk(a: &ResolvedArgs, mono: bool, dry_run: bool, events: &[SetupEvent]) -> Vec<SetupAction> {
    let mut state = SetupState::Begin;
    let mut actions = Vec::new();
    for e in events {
        let (s, act) = setup_step(a, mono, dry_run, state, *e);
        state = s;
        actions.push(act);
    }
    actions
}

#[test]
fn mono_npm_with_watch() {
    let a = args(None, true, false);
    let acts = walk(
        &a,
        true,
        false,
        &[
            SetupEvent::Started,
            SetupEvent::Done,
            SetupEvent::Cloned(true),
            SetupEvent::Detected(BuildSystem::Npm),
            SetupEvent::Done,
            SetupEvent::Done,
            SetupEvent::Done,
            SetupEvent::WatchGenerated(true),
            SetupEvent::Done,
        ],
    );
    assert_eq!(
        acts,
        vec![
            SetupAction::CreateReposDir,
            SetupAction::Clone,
            SetupAction::Detect,
            SetupAction::GenerateConfig(BuildSystem::Npm),
            SetupAction::NoteNpmClean,
            SetupAction::RunBuild(BuildSystem::Npm),
            SetupAction::GenerateWatchScripts,
            SetupAction::OpenWatchScripts,
            SetupAction::Finish(Some(BuildSystem::Npm)),
        ]
    );
}

#[test]
fn dry_run_without_clone_has_no_build_system() {
    let a = args(None, false, false);
    let acts = walk(&a, true, true, &[SetupEvent::Started, SetupEvent::Cloned(false)]);
    assert_eq!(acts, vec![SetupAction::Clone, SetupAction::Finish(None)]);
}

#[test]
fn single_cmake_given_on_command_line() {
    let a = args(Some(BuildSystem::Cmake), false, false);
    let acts = walk(&a, false, false, &[SetupEvent::Started, SetupEvent::Cloned(true), SetupEvent::Done, SetupEvent::Done]);
    assert_eq!(
        acts,
        vec![
            SetupAction::Clone,
            SetupAction::PrepareBuildDir,
            SetupAction::RunBuild(BuildSystem::Cmake),
            SetupAction::Finish(Some(BuildSystem::Cmake)),
        ]
    );
}

#[test]
fn no_watch_and_unopened_scripts() {
    let a = args(Some(BuildSystem::Npm), false, true);
    let acts = walk(&a, true, false, &[SetupEvent::Started, SetupEvent::Done, SetupEvent::Cloned(true), SetupEvent::Done, SetupEvent::Done, SetupEvent::Done]);
    assert_eq!(acts.last(), Some(&SetupAction::Finish(Some(BuildSystem::Npm))));
    let a = args(Some(BuildSystem::Npm), false, false);
    let acts = walk(
        &a,
        true,
        false,
        &[SetupEvent::Started, SetupEvent::Done, SetupEvent::Cloned(true), SetupEvent::Done, SetupEvent::Done, SetupEvent::Done, SetupEvent::WatchGenerated(true)],
    );
    assert_eq!(acts.last(), Some(&SetupAction::Finish(Some(BuildSystem::Npm))));
}
