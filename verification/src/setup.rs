//! The course of a setup, single repository or mono-repo, as a state
//! machine: from what the caller reports after each piece of outside work
//! (creating directories, cloning, detecting, building), the next state and
//! the next piece of work.
use vstd::prelude::*;
use crate::build_types::BuildSystem;
use crate::cli::ResolvedArgs;

verus! {

/// Where a setup stands.
#[derive(Debug, Clone, Copy, PartialEq, Eq, Structural)]
pub enum SetupState {
    /// Nothing is done yet.
    Begin,
    /// The directory that receives the clones is being created.
    CreatingRepos,
    /// The repositories are being cloned.
    Cloning,
    /// The build system is being detected.
    Detecting,
    /// The root configuration of a mono-repo is being generated.
    Configuring(BuildSystem),
    /// The build directory is being prepared.
    Preparing(BuildSystem),
    /// The project is being built.
    Building(BuildSystem),
    /// The watch scripts are being generated.
    Watching,
    /// The watch scripts are being opened.
    Opening,
    /// The setup is over, with the build system it used.
    Finished(Option<BuildSystem>),
}

/// What the caller reports about the work it was asked for.
#[derive(Debug, Clone, Copy, PartialEq, Eq, Structural)]
pub enum SetupEvent {
    /// The setup starts.
    Started,
    /// The work was done.
    Done,
    /// The repositories were cloned; whether the cloned directory exists.
    Cloned(bool),
    /// The build system that detection found.
    Detected(BuildSystem),
    /// Whether watch scripts were generated.
    WatchGenerated(bool),
}

/// The next piece of work.
#[derive(Debug, Clone, Copy, PartialEq, Eq, Structural)]
pub enum SetupAction {
    /// Create the directory that receives the clones.
    CreateReposDir,
    /// Clone the repositories.
    Clone,
    /// Detect the build system.
    Detect,
    /// Generate the root configuration of the mono-repo.
    GenerateConfig(BuildSystem),
    /// Note that cleaning has no effect on an npm project.
    NoteNpmClean,
    /// Clean (if asked) and create the build directory.
    PrepareBuildDir,
    /// Build the project.
    RunBuild(BuildSystem),
    /// Generate the watch scripts of the libraries.
    GenerateWatchScripts,
    /// Open the watch scripts.
    OpenWatchScripts,
    /// Report the end of the setup.
    Finish(Option<BuildSystem>),
}

/// Before building with `b`: an npm project is built in place (cleaning has
/// no effect), another gets its build directory prepared.
pub open spec fn prepare_for(b: BuildSystem) -> (SetupState, SetupAction) {
    (SetupState::Preparing(b), if b == BuildSystem::Npm { SetupAction::NoteNpmClean } else { SetupAction::PrepareBuildDir })
}

/// Once the build system `b` is known: a mono-repo first gets its root
/// configuration.
pub open spec fn known(mono: bool, b: BuildSystem) -> (SetupState, SetupAction) {
    if mono {
        (SetupState::Configuring(b), SetupAction::GenerateConfig(b))
    } else {
        prepare_for(b)
    }
}

/// After the build with `b`: an npm mono-repo gets watch scripts unless
/// `--no-watch` was given.
pub open spec fn built(args: ResolvedArgs, mono: bool, b: BuildSystem) -> (SetupState, SetupAction) {
    if mono && b == BuildSystem::Npm && !args.build.no_watch {
        (SetupState::Watching, SetupAction::GenerateWatchScripts)
    } else {
        (SetupState::Finished(Some(b)), SetupAction::Finish(Some(b)))
    }
}

/// The next state and work of a setup in state `s` on event `e`.
///
/// A mono-repo creates the directory of its clones first, except in a dry
/// run. After cloning, the build system is the one given on the command
/// line; else, in a dry run where nothing was cloned, there is none and the
/// setup ends; else it is detected. Generated watch scripts are opened when
/// `--watch` was given. Events that do not fit the state end the setup.
pub open spec fn setup_next(args: ResolvedArgs, mono: bool, dry_run: bool, s: SetupState, e: SetupEvent) -> (SetupState, SetupAction) {
    match (s, e) {
        (SetupState::Begin, SetupEvent::Started) => if mono && !dry_run {
            (SetupState::CreatingRepos, SetupAction::CreateReposDir)
        } else {
            (SetupState::Cloning, SetupAction::Clone)
        },
        (SetupState::CreatingRepos, SetupEvent::Done) => (SetupState::Cloning, SetupAction::Clone),
        (SetupState::Cloning, SetupEvent::Cloned(exists)) => match args.build.build_system {
            Some(b) => known(mono, b),
            None => if dry_run && !exists {
                (SetupState::Finished(None), SetupAction::Finish(None))
            } else {
                (SetupState::Detecting, SetupAction::Detect)
            },
        },
        (SetupState::Detecting, SetupEvent::Detected(b)) => known(mono, b),
        (SetupState::Configuring(b), SetupEvent::Done) => prepare_for(b),
        (SetupState::Preparing(b), SetupEvent::Done) => (SetupState::Building(b), SetupAction::RunBuild(b)),
        (SetupState::Building(b), SetupEvent::Done) => built(args, mono, b),
        (SetupState::Watching, SetupEvent::WatchGenerated(g)) => if g && args.build.watch {
            (SetupState::Opening, SetupAction::OpenWatchScripts)
        } else {
            (SetupState::Finished(Some(BuildSystem::Npm)), SetupAction::Finish(Some(BuildSystem::Npm)))
        },
        (SetupState::Opening, SetupEvent::Done) => (
            SetupState::Finished(Some(BuildSystem::Npm)),
            SetupAction::Finish(Some(BuildSystem::Npm)),
        ),
        (SetupState::Finished(b), _) => (SetupState::Finished(b), SetupAction::Finish(b)),
        _ => (SetupState::Finished(None), SetupAction::Finish(None)),
    }
}

fn prepare_step(b: BuildSystem) -> (r: (SetupState, SetupAction))
    ensures
        r == prepare_for(b),
{
    let a = match b {
        BuildSystem::Npm => SetupAction::NoteNpmClean,
        _ => SetupAction::PrepareBuildDir,
    };
    (SetupState::Preparing(b), a)
}

fn known_step(mono: bool, b: BuildSystem) -> (r: (SetupState, SetupAction))
    ensures
        r == known(mono, b),
{
    if mono {
        (SetupState::Configuring(b), SetupAction::GenerateConfig(b))
    } else {
        prepare_step(b)
    }
}

/// Takes a setup one step on: the next state and the next work, as
/// `setup_next` says, for the repository of `args` (a mono-repo when `mono`).
pub fn setup_step(args: &ResolvedArgs, mono: bool, dry_run: bool, state: SetupState, event: SetupEvent) -> (r: (SetupState, SetupAction))
    ensures
        r == setup_next(*args, mono, dry_run, state, event),
{
    match (state, event) {
        (SetupState::Begin, SetupEvent::Started) => if mono && !dry_run {
            (SetupState::CreatingRepos, SetupAction::CreateReposDir)
        } else {
            (SetupState::Cloning, SetupAction::Clone)
        },
        (SetupState::CreatingRepos, SetupEvent::Done) => (SetupState::Cloning, SetupAction::Clone),
        (SetupState::Cloning, SetupEvent::Cloned(exists)) => match args.build.build_system {
            Some(b) => known_step(mono, b),
            None => if dry_run && !exists {
                (SetupState::Finished(None), SetupAction::Finish(None))
            } else {
                (SetupState::Detecting, SetupAction::Detect)
            },
        },
        (SetupState::Detecting, SetupEvent::Detected(b)) => known_step(mono, b),
        (SetupState::Configuring(b), SetupEvent::Done) => prepare_step(b),
        (SetupState::Preparing(b), SetupEvent::Done) => (SetupState::Building(b), SetupAction::RunBuild(b)),
        (SetupState::Building(b), SetupEvent::Done) => {
            let npm = match b {
                BuildSystem::Npm => true,
                _ => false,
            };
            if mono && npm && !args.build.no_watch {
                (SetupState::Watching, SetupAction::GenerateWatchScripts)
            } else {
                (SetupState::Finished(Some(b)), SetupAction::Finish(Some(b)))
            }
        },
        (SetupState::Watching, SetupEvent::WatchGenerated(g)) => if g && args.build.watch {
            (SetupState::Opening, SetupAction::OpenWatchScripts)
        } else {
            (SetupState::Finished(Some(BuildSystem::Npm)), SetupAction::Finish(Some(BuildSystem::Npm)))
        },
        (SetupState::Opening, SetupEvent::Done) => (
            SetupState::Finished(Some(BuildSystem::Npm)),
            SetupAction::Finish(Some(BuildSystem::Npm)),
        ),
        (SetupState::Finished(b), _) => (SetupState::Finished(b), SetupAction::Finish(b)),
        _ => (SetupState::Finished(None), SetupAction::Finish(None)),
    }
}

/// A dry run never creates the directory of the clones, and a setup that
/// has finished stays finished, whatever is reported.
pub proof fn dry_setup_creates_nothing(args: ResolvedArgs, mono: bool, s: SetupState, e: SetupEvent)
    ensures
        setup_next(args, mono, true, s, e).1 != SetupAction::CreateReposDir,
        s is Finished ==> setup_next(args, mono, true, s, e) == (s, SetupAction::Finish(s->Finished_0)),
{
}


/// A single repository is never given a mono-repo root configuration: no
/// step of single-repository mode asks to generate one, and once its build
/// system is detected the next work prepares the build (npm is built in
/// place, the others get a build directory). A mono-repo gets its root
/// configuration for the detected system first.
pub proof fn single_repo_has_no_root_config(args: ResolvedArgs, dry_run: bool, s: SetupState, e: SetupEvent, b: BuildSystem)
    ensures
        !(setup_next(args, false, dry_run, s, e).1 is GenerateConfig),
        !(setup_next(args, false, dry_run, s, e).0 is Configuring),
        setup_next(args, false, dry_run, SetupState::Detecting, SetupEvent::Detected(b)) == (
            SetupState::Preparing(b),
            if b == BuildSystem::Npm { SetupAction::NoteNpmClean } else { SetupAction::PrepareBuildDir },
        ),
        setup_next(args, true, dry_run, SetupState::Detecting, SetupEvent::Detected(b)) == (
            SetupState::Configuring(b),
            SetupAction::GenerateConfig(b),
        ),
{
}

} // verus!
