//! Command-line arguments as plain data, and their resolution against a
//! saved configuration.
use vstd::prelude::*;
use crate::build_types::{build_type_named, unknown_type_msg, BuildSystem, BuildType};
use crate::config::{get_config, ConfigEntry, SetupConfig};
use crate::text::{cat3, clone_strings, to_string};

verus! {

/// Connection flags.
pub struct ConnectionFlags {
    /// Use SSH instead of HTTPS for cloning.
    pub ssh: bool,
    /// Use HTTPS instead of SSH for cloning.
    pub https: bool,
}

/// Build flags.
pub struct BuildFlags {
    /// Build type.
    pub build_type: Option<String>,
    /// Build directory name.
    pub build_dir: Option<String>,
    /// Build system to use, skipping auto-detection.
    pub build_system: Option<BuildSystem>,
    /// Build after configuring (overrides config).
    pub build: bool,
    /// Skip building, only configure.
    pub no_build: bool,
    /// Clean build directory before building.
    pub clean: bool,
    /// Do not clean build directory.
    pub no_clean: bool,
    /// Additional `CMake` arguments.
    pub cmake_flags: Vec<String>,
    /// Additional Meson arguments.
    pub meson_flags: Vec<String>,
    /// Automatically open watch scripts for libraries if applicable.
    pub watch: bool,
    /// Skip generating watch scripts (overrides config).
    pub no_watch: bool,
    /// Automatically open the dev server.
    pub dev: bool,
    /// Skip opening the dev server (overrides config).
    pub no_dev: bool,
}

/// Mono-repo flags.
pub struct MonoRepoFlags {
    /// Mono-repo mode.
    pub mono_repo: bool,
    /// Directory name for mono-repo cloning.
    pub mono_dir: Option<String>,
    /// Library dependencies to clone in mono-repo mode.
    pub deps: Option<Vec<String>>,
    /// Use a saved profile.
    pub profile: Option<String>,
}

/// Diagnostic flags.
pub struct DiagnosticFlags {
    /// Show detailed command output.
    pub verbose: bool,
    /// Suppress detailed command output (overrides config).
    pub no_verbose: bool,
    /// Show timing information for each phase.
    pub timing: bool,
    /// Suppress timing information (overrides config).
    pub no_timing: bool,
    /// Print commands instead of executing them.
    pub dry_run: bool,
    /// Do not use dry-run mode (overrides config).
    pub no_dry_run: bool,
}

/// The `config` subcommand.
pub struct ConfigCommand {
    /// What to do.
    pub action: ConfigAction,
}

/// Actions of the `config` subcommand.
pub enum ConfigAction {
    /// Create a default config file in the current directory.
    Init,
    /// Add or overwrite a named configuration entry.
    Add {
        name: String,
        connection: ConnectionFlags,
        build: BuildFlags,
        mono: MonoRepoFlags,
        diagnostic: DiagnosticFlags,
    },
    /// Remove a named configuration entry.
    Remove { name: String },
    /// List all saved configuration entries.
    List,
}

/// The `profile` subcommand.
pub struct ProfileCommand {
    /// What to do.
    pub action: ProfileAction,
}

/// Actions of the `profile` subcommand.
pub enum ProfileAction {
    /// Add or overwrite a named profile.
    Add { name: String, test_repo: Option<String>, repos: Vec<String> },
    /// Remove a named profile.
    Remove { name: String },
    /// List all saved profiles.
    List,
}

/// Where a workspace command acts.
pub struct WorkspaceTarget {
    /// Workspace root directory (default: current directory).
    pub path: Option<String>,
    /// Mono-repo workspace directory name (default: build-mono).
    pub mono_dir: Option<String>,
    /// Build directory name.
    pub build_dir: Option<String>,
}

/// The `workspace` subcommand.
pub struct WorkspaceCommand {
    /// What to do.
    pub action: WorkspaceAction,
}

/// Actions of the `workspace` subcommand.
pub enum WorkspaceAction {
    /// Pull latest changes for all repos in the workspace.
    Update { target: WorkspaceTarget },
    /// Show status of all repos in the workspace.
    Status { target: WorkspaceTarget, fetch: bool },
    /// Remove the build directory from the workspace.
    Clean { target: WorkspaceTarget },
}

/// A subcommand.
pub enum Command {
    /// Manage saved configurations.
    Config(ConfigCommand),
    /// Manage saved profiles.
    Profile(ProfileCommand),
    /// Manage a workspace.
    Workspace(WorkspaceCommand),
}

/// Top-level command-line arguments.
pub struct Args {
    /// Repository name (username/repo) or full GitHub URL.
    pub repo: Option<String>,
    /// Skip confirmation prompts.
    pub yes: bool,
    /// Select a named configuration to use.
    pub config_name: Option<String>,
    /// Subcommand, if any.
    pub command: Option<Command>,
    /// Connection flags.
    pub connection: ConnectionFlags,
    /// Build flags.
    pub build: BuildFlags,
    /// Mono-repo flags.
    pub mono: MonoRepoFlags,
    /// Diagnostic flags.
    pub diagnostic: DiagnosticFlags,
}

/// Resolved connection flags.
#[derive(Clone)]
pub struct ResolvedConnectionFlags {
    pub ssh: bool,
}

/// Resolved diagnostic flags.
#[derive(Clone)]
pub struct ResolvedDiagnosticFlags {
    pub verbose: bool,
    pub timing: bool,
    pub dry_run: bool,
}

/// Resolved build flags.
#[derive(Clone)]
pub struct ResolvedBuildFlags {
    pub build_type: BuildType,
    pub build_dir: String,
    pub build_system: Option<BuildSystem>,
    pub no_build: bool,
    pub clean: bool,
    pub cmake_flags: Vec<String>,
    pub meson_flags: Vec<String>,
    pub watch: bool,
    pub no_watch: bool,
    pub dev: bool,
    pub no_dev: bool,
}

/// Resolved mono-repo flags.
#[derive(Clone)]
pub struct ResolvedMonoFlags {
    pub mono_repo: bool,
    pub mono_dir: String,
    pub repos: Option<Vec<String>>,
    pub profile: Option<String>,
}

/// Fully resolved arguments, ready for command execution.
#[derive(Clone)]
pub struct ResolvedArgs {
    pub repo: Option<String>,
    pub yes: bool,
    pub connection: ResolvedConnectionFlags,
    pub diagnostic: ResolvedDiagnosticFlags,
    pub build: ResolvedBuildFlags,
    pub mono: ResolvedMonoFlags,
}

/// A flag with a negative form: the negative flag wins, then the positive
/// one, then the configured value, then the default.
pub open spec fn bool_choice(positive: bool, negative: bool, config: Option<bool>, default: bool) -> bool {
    if negative {
        false
    } else if positive {
        true
    } else {
        match config {
            Some(v) => v,
            None => default,
        }
    }
}

/// Resolves a boolean flag from its positive and negative forms, a configured
/// value and a default. The negative flag takes highest priority, then the
/// positive flag, then the configuration, then the default.
pub fn resolve_bool(positive: bool, negative: bool, config: Option<bool>, default: bool) -> (r: bool)
    ensures
        r == bool_choice(positive, negative, config, default),
{
    if negative {
        return false;
    }
    if positive {
        return true;
    }
    match config {
        Some(val) => val,
        None => default,
    }
}

/// The name of the configuration that a run starts from.
pub open spec fn config_name_of(args: Args) -> Seq<char> {
    match args.config_name {
        Some(n) => n@,
        None => "default"@,
    }
}

/// The configuration entry that a run starts from, if it exists.
pub open spec fn base_entry(args: Args, config: SetupConfig) -> Option<ConfigEntry> {
    if config.config_map().dom().contains(config_name_of(args)) {
        Some(config.config_map()[config_name_of(args)])
    } else {
        None
    }
}

/// A field of the base entry, if there is one.
pub open spec fn from_base<T>(base: Option<ConfigEntry>, f: spec_fn(ConfigEntry) -> T) -> Option<T> {
    match base {
        Some(e) => Some(f(e)),
        None => None,
    }
}

/// A directory name: the command line's, else the configuration's, else the default.
pub open spec fn dir_choice(cli: Option<String>, base: Option<Seq<char>>, default: Seq<char>) -> Seq<char> {
    match cli {
        Some(d) => d@,
        None => match base {
            Some(d) => d,
            None => default,
        },
    }
}

/// Extra arguments: the command line's when it gives any, else the configuration's.
pub open spec fn args_choice(cli: Seq<String>, base: Option<Seq<String>>) -> Seq<String> {
    if cli.len() > 0 {
        cli
    } else {
        match base {
            Some(a) => a,
            None => Seq::empty(),
        }
    }
}

/// The error given when the selected configuration does not exist.
pub open spec fn config_missing_msg(name: Seq<char>) -> Seq<char> {
    "Configuration '"@ + name + "' not found"@
}

/// `r` holds the flags resolved from `args` against the entry `base`, with build type `t`.
pub open spec fn resolved_from(args: Args, base: Option<ConfigEntry>, t: BuildType, r: ResolvedArgs) -> bool {
    let d = args.diagnostic;
    let b = args.build;
    &&& r.repo == args.repo
    &&& r.yes == args.yes
    &&& r.connection.ssh == bool_choice(args.connection.ssh, args.connection.https, from_base(base, |e: ConfigEntry| e.ssh), false)
    &&& r.diagnostic.verbose == bool_choice(d.verbose, d.no_verbose, from_base(base, |e: ConfigEntry| e.verbose), false)
    &&& r.diagnostic.timing == bool_choice(d.timing, d.no_timing, from_base(base, |e: ConfigEntry| e.timing), false)
    &&& r.diagnostic.dry_run == bool_choice(d.dry_run, d.no_dry_run, from_base(base, |e: ConfigEntry| e.dry_run), false)
    &&& r.build.build_type == t
    &&& r.build.build_dir@ == dir_choice(b.build_dir, from_base(base, |e: ConfigEntry| e.build_dir@), "build"@)
    &&& r.build.build_system == b.build_system
    &&& r.build.no_build == bool_choice(b.no_build, b.build, from_base(base, |e: ConfigEntry| e.no_build), false)
    &&& r.build.clean == bool_choice(b.clean, b.no_clean, from_base(base, |e: ConfigEntry| e.clean), false)
    &&& r.build.cmake_flags@ == args_choice(b.cmake_flags@, from_base(base, |e: ConfigEntry| e.cmake_flags@))
    &&& r.build.meson_flags@ == args_choice(b.meson_flags@, from_base(base, |e: ConfigEntry| e.meson_flags@))
    &&& r.build.watch == bool_choice(b.watch, b.no_watch, from_base(base, |e: ConfigEntry| e.watch), false)
    &&& r.build.no_watch == bool_choice(b.no_watch, b.watch, from_base(base, |e: ConfigEntry| e.no_watch), false)
    &&& r.build.dev == bool_choice(b.dev, b.no_dev, from_base(base, |e: ConfigEntry| e.dev), false)
    &&& r.build.no_dev == bool_choice(b.no_dev, b.dev, from_base(base, |e: ConfigEntry| e.no_dev), false)
    &&& r.mono.mono_repo == (args.mono.mono_repo || args.mono.deps is Some || args.mono.profile is Some)
    &&& r.mono.mono_dir@ == dir_choice(args.mono.mono_dir, from_base(base, |e: ConfigEntry| e.mono_dir@), "build-mono"@)
    &&& r.mono.repos == args.mono.deps
    &&& r.mono.profile == args.mono.profile
}

/// The build type a run uses: the command line's if it names one (which must
/// parse), else the configuration's, else `Debug`.
pub open spec fn build_type_choice(cli: Option<String>, base: Option<ConfigEntry>) -> Option<BuildType> {
    match cli {
        Some(s) => build_type_named(s@),
        None => match base {
            Some(e) => Some(e.build_type),
            None => Some(BuildType::Debug),
        },
    }
}

fn pick_dir(cli: Option<String>, base: Option<&String>, default: &str) -> (r: String)
    ensures
        r@ == dir_choice(cli, match base { Some(s) => Some(s@), None => None }, default@),
{
    match cli {
        Some(d) => d,
        None => match base {
            Some(d) => d.clone(),
            None => to_string(default),
        },
    }
}

fn pick_args(cli: Vec<String>, base: Option<&Vec<String>>) -> (r: Vec<String>)
    ensures
        r@ == args_choice(cli@, match base { Some(a) => Some(a@), None => None }),
{
    if cli.len() > 0 {
        cli
    } else {
        match base {
            Some(a) => clone_strings(a),
            None => Vec::new(),
        }
    }
}

fn field_bool(base: Option<&ConfigEntry>, which: u8) -> (r: Option<bool>)
    ensures
        match base {
            Some(e) => r == Some(
                if which == 0 { e.ssh }
                else if which == 1 { e.verbose }
                else if which == 2 { e.timing }
                else if which == 3 { e.dry_run }
                else if which == 4 { e.no_build }
                else if which == 5 { e.clean }
                else if which == 6 { e.watch }
                else if which == 7 { e.no_watch }
                else if which == 8 { e.dev }
                else { e.no_dev }
            ),
            None => r is None,
        },
{
    match base {
        Some(e) => Some(
            if which == 0 { e.ssh }
            else if which == 1 { e.verbose }
            else if which == 2 { e.timing }
            else if which == 3 { e.dry_run }
            else if which == 4 { e.no_build }
            else if which == 5 { e.clean }
            else if which == 6 { e.watch }
            else if which == 7 { e.no_watch }
            else if which == 8 { e.dev }
            else { e.no_dev }
        ),
        None => None,
    }
}

/// Resolves raw arguments against a configuration: each setting comes from
/// the command line, else from the selected configuration entry (`default`
/// unless one is named), else from the built-in default.
pub fn resolve_with_config(args: Args, config: &SetupConfig) -> (r: Result<ResolvedArgs, String>)
    ensures
        ({
            let base = base_entry(args, *config);
            if args.config_name is Some && base is None {
                r matches Err(e) && e@ == config_missing_msg(config_name_of(args))
            } else {
                match build_type_choice(args.build.build_type, base) {
                    None => r matches Err(e) && e@ == unknown_type_msg(args.build.build_type->0@),
                    Some(t) => r matches Ok(v) && resolved_from(args, base, t, v),
                }
            }
        }),
{
    let ghost a0 = args;
    let ghost base = base_entry(args, *config);
    let name: String = match &args.config_name {
        Some(n) => n.clone(),
        None => to_string("default"),
    };
    let default = get_config(config, name.as_str());
    assert(match default { Some(e) => base == Some(*e), None => base is None });
    if args.config_name.is_some() && default.is_none() {
        return Err(cat3("Configuration '", name.as_str(), "' not found"));
    }
    let build_type = match &args.build.build_type {
        Some(s) => match BuildType::from_str(s.as_str()) {
            Ok(t) => t,
            Err(e) => return Err(e),
        },
        None => match default {
            Some(e) => e.build_type,
            None => BuildType::Debug,
        },
    };
    let ssh = resolve_bool(args.connection.ssh, args.connection.https, field_bool(default, 0), false);
    let verbose = resolve_bool(args.diagnostic.verbose, args.diagnostic.no_verbose, field_bool(default, 1), false);
    let timing = resolve_bool(args.diagnostic.timing, args.diagnostic.no_timing, field_bool(default, 2), false);
    let dry_run = resolve_bool(args.diagnostic.dry_run, args.diagnostic.no_dry_run, field_bool(default, 3), false);
    let no_build = resolve_bool(args.build.no_build, args.build.build, field_bool(default, 4), false);
    let clean = resolve_bool(args.build.clean, args.build.no_clean, field_bool(default, 5), false);
    let watch = resolve_bool(args.build.watch, args.build.no_watch, field_bool(default, 6), false);
    let no_watch = resolve_bool(args.build.no_watch, args.build.watch, field_bool(default, 7), false);
    let dev = resolve_bool(args.build.dev, args.build.no_dev, field_bool(default, 8), false);
    let no_dev = resolve_bool(args.build.no_dev, args.build.dev, field_bool(default, 9), false);
    let mono_repo = args.mono.mono_repo || args.mono.deps.is_some() || args.mono.profile.is_some();
    let build_dir = pick_dir(args.build.build_dir, match default { Some(e) => Some(&e.build_dir), None => None }, "build");
    let mono_dir = pick_dir(args.mono.mono_dir, match default { Some(e) => Some(&e.mono_dir), None => None }, "build-mono");
    let cmake_flags = pick_args(args.build.cmake_flags, match default { Some(e) => Some(&e.cmake_flags), None => None });
    let meson_flags = pick_args(args.build.meson_flags, match default { Some(e) => Some(&e.meson_flags), None => None });
    let r = ResolvedArgs {
        repo: args.repo,
        yes: args.yes,
        connection: ResolvedConnectionFlags { ssh },
        diagnostic: ResolvedDiagnosticFlags { verbose, timing, dry_run },
        build: ResolvedBuildFlags {
            build_type,
            build_dir,
            build_system: args.build.build_system,
            no_build,
            clean,
            cmake_flags,
            meson_flags,
            watch,
            no_watch,
            dev,
            no_dev,
        },
        mono: ResolvedMonoFlags {
            mono_repo,
            mono_dir,
            repos: args.mono.deps,
            profile: args.mono.profile,
        },
    };
    assert(resolved_from(a0, base, build_type, r));
    Ok(r)
}

/// The build type that an optional name gives: the named one, `Debug` when
/// there is no name or the name is unknown.
pub open spec fn type_or_debug(name: Option<String>) -> BuildType {
    match name {
        Some(s) => match build_type_named(s@) {
            Some(t) => t,
            None => BuildType::Debug,
        },
        None => BuildType::Debug,
    }
}

/// A text, or `default` when there is none.
pub open spec fn text_or(o: Option<String>, default: Seq<char>) -> Seq<char> {
    match o {
        Some(s) => s@,
        None => default,
    }
}

/// `e` is the entry that the flags of `config add` describe.
pub open spec fn entry_from_flags(e: ConfigEntry, connection: ConnectionFlags, build: BuildFlags, mono: MonoRepoFlags, diagnostic: DiagnosticFlags) -> bool {
    &&& e.ssh == connection.ssh
    &&& e.build_type == type_or_debug(build.build_type)
    &&& e.build_dir@ == text_or(build.build_dir, "build"@)
    &&& e.mono_dir@ == text_or(mono.mono_dir, "build-mono"@)
    &&& e.no_build == build.no_build
    &&& e.clean == build.clean
    &&& e.verbose == diagnostic.verbose
    &&& e.timing == diagnostic.timing
    &&& e.dry_run == diagnostic.dry_run
    &&& e.watch == build.watch
    &&& e.no_watch == build.no_watch
    &&& e.dev == build.dev
    &&& e.no_dev == build.no_dev
    &&& e.cmake_flags@ == build.cmake_flags@
    &&& e.meson_flags@ == build.meson_flags@
}

impl ConfigEntry {
    /// The entry that the flags of `config add` describe; an unknown or
    /// missing build type gives `Debug`, a missing directory its default.
    pub fn from_flags(connection: &ConnectionFlags, build: &BuildFlags, mono: &MonoRepoFlags, diagnostic: &DiagnosticFlags) -> (r: ConfigEntry)
        ensures
            entry_from_flags(r, *connection, *build, *mono, *diagnostic),
    {
        let build_type = match &build.build_type {
            Some(s) => match BuildType::from_str(s.as_str()) {
                Ok(t) => t,
                Err(_) => BuildType::Debug,
            },
            None => BuildType::Debug,
        };
        ConfigEntry {
            ssh: connection.ssh,
            build_type,
            build_dir: match &build.build_dir {
                Some(d) => d.clone(),
                None => to_string("build"),
            },
            mono_dir: match &mono.mono_dir {
                Some(d) => d.clone(),
                None => to_string("build-mono"),
            },
            no_build: build.no_build,
            clean: build.clean,
            verbose: diagnostic.verbose,
            timing: diagnostic.timing,
            dry_run: diagnostic.dry_run,
            watch: build.watch,
            no_watch: build.no_watch,
            dev: build.dev,
            no_dev: build.no_dev,
            cmake_flags: clone_strings(&build.cmake_flags),
            meson_flags: clone_strings(&build.meson_flags),
        }
    }

    /// The entry that records the settings of a resolved run.
    pub fn from_resolved(args: &ResolvedArgs) -> (r: ConfigEntry)
        ensures
            r.ssh == args.connection.ssh,
            r.build_type == args.build.build_type,
            r.build_dir@ == args.build.build_dir@,
            r.mono_dir@ == args.mono.mono_dir@,
            r.no_build == args.build.no_build,
            r.clean == args.build.clean,
            r.verbose == args.diagnostic.verbose,
            r.timing == args.diagnostic.timing,
            r.dry_run == args.diagnostic.dry_run,
            r.watch == args.build.watch,
            r.no_watch == args.build.no_watch,
            r.dev == args.build.dev,
            r.no_dev == args.build.no_dev,
            r.cmake_flags@ == args.build.cmake_flags@,
            r.meson_flags@ == args.build.meson_flags@,
    {
        ConfigEntry {
            ssh: args.connection.ssh,
            build_type: args.build.build_type,
            build_dir: args.build.build_dir.clone(),
            mono_dir: args.mono.mono_dir.clone(),
            no_build: args.build.no_build,
            clean: args.build.clean,
            verbose: args.diagnostic.verbose,
            timing: args.diagnostic.timing,
            dry_run: args.diagnostic.dry_run,
            watch: args.build.watch,
            no_watch: args.build.no_watch,
            dev: args.build.dev,
            no_dev: args.build.no_dev,
            cmake_flags: clone_strings(&args.build.cmake_flags),
            meson_flags: clone_strings(&args.build.meson_flags),
        }
    }
}


/// Extra CMake and Meson arguments given on the command line win over the
/// configuration's: when the command line gives some, the run uses exactly
/// those; only when it gives none does the configuration's list (or none)
/// apply.
pub proof fn command_line_args_win(args: Args, base: Option<ConfigEntry>, t: BuildType, r: ResolvedArgs)
    requires
        resolved_from(args, base, t, r),
    ensures
        args.build.cmake_flags@.len() > 0 ==> r.build.cmake_flags@ == args.build.cmake_flags@,
        args.build.meson_flags@.len() > 0 ==> r.build.meson_flags@ == args.build.meson_flags@,
        args.build.cmake_flags@.len() == 0 ==> r.build.cmake_flags@ == match base {
            Some(e) => e.cmake_flags@,
            None => Seq::<String>::empty(),
        },
        args.build.meson_flags@.len() == 0 ==> r.build.meson_flags@ == match base {
            Some(e) => e.meson_flags@,
            None => Seq::<String>::empty(),
        },
{
}


/// A directory named on the command line wins over the configuration's;
/// without either, the build directory is `build` and the mono-repo
/// directory `build-mono`.
pub proof fn command_line_dirs_win(args: Args, base: Option<ConfigEntry>, t: BuildType, r: ResolvedArgs)
    requires
        resolved_from(args, base, t, r),
    ensures
        args.build.build_dir matches Some(d) ==> r.build.build_dir@ == d@,
        args.mono.mono_dir matches Some(d) ==> r.mono.mono_dir@ == d@,
        args.build.build_dir is None && base is Some ==> r.build.build_dir@ == base->0.build_dir@,
        args.mono.mono_dir is None && base is Some ==> r.mono.mono_dir@ == base->0.mono_dir@,
        args.build.build_dir is None && base is None ==> r.build.build_dir@ == "build"@,
        args.mono.mono_dir is None && base is None ==> r.mono.mono_dir@ == "build-mono"@,
{
}

} // verus!
