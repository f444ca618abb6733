//! Saved configurations and profiles: the data model, its lookups and
//! updates, and how entries are shown.
use vstd::prelude::*;
use crate::build_types::{cmake_name, BuildType};
use crate::ctx::{eof_msg, IoCtx, RunFlags};
use crate::prompts::{aborted_text, answer, confirm_abort, confirm_text, is_yes};
use crate::table::{table_get, table_has, table_insert, table_map, table_remove};
use crate::text::{bool_text, cat3, push_bool, push_str, to_string};

verus! {

/// A named configuration: the defaults that a run starts from.
#[derive(Clone)]
pub struct ConfigEntry {
    /// Use SSH instead of HTTPS for cloning.
    pub ssh: bool,
    /// Build type.
    pub build_type: BuildType,
    /// Build directory name.
    pub build_dir: String,
    /// Mono-repo build directory name.
    pub mono_dir: String,
    /// Skip the build step, only configure.
    pub no_build: bool,
    /// Clean the build directory before configuring.
    pub clean: bool,
    /// Show detailed command output.
    pub verbose: bool,
    /// Show timing information.
    pub timing: bool,
    /// Print commands instead of executing them.
    pub dry_run: bool,
    /// Automatically open the libraries' watch scripts.
    pub watch: bool,
    /// Do not generate the libraries' watch scripts.
    pub no_watch: bool,
    /// Automatically open the test repository's dev server.
    pub dev: bool,
    /// Do not open the test repository's dev server.
    pub no_dev: bool,
    /// Additional `CMake` arguments.
    pub cmake_flags: Vec<String>,
    /// Additional Meson arguments.
    pub meson_flags: Vec<String>,
}

/// A named profile: an optional test repository and the dependency repositories.
#[derive(Clone)]
pub struct Profile {
    /// The test repository, if the profile names one.
    pub test_repo: Option<String>,
    /// Dependency repositories.
    pub deps: Vec<String>,
}

/// Everything a configuration file holds, and where it was loaded from.
#[derive(Clone)]
pub struct SetupConfig {
    /// Named configuration entries.
    pub configs: Vec<(String, ConfigEntry)>,
    /// Named profiles.
    pub profiles: Vec<(String, Profile)>,
    /// Path of the configuration file this was loaded from, if any.
    pub path: Option<String>,
}

/// The entry that a fresh configuration file holds under `default`.
pub open spec fn is_default_entry(e: ConfigEntry) -> bool {
    &&& !e.ssh
    &&& e.build_type == BuildType::Debug
    &&& e.build_dir@ == "build"@
    &&& e.mono_dir@ == "build-mono"@
    &&& !e.no_build && !e.clean && !e.verbose && !e.timing && !e.dry_run
    &&& !e.watch && !e.no_watch && !e.dev && !e.no_dev
    &&& e.cmake_flags@.len() == 0
    &&& e.meson_flags@.len() == 0
}

impl Default for ConfigEntry {
    fn default() -> (r: Self)
        ensures
            is_default_entry(r),
    {
        ConfigEntry {
            ssh: false,
            build_type: BuildType::Debug,
            build_dir: to_string("build"),
            mono_dir: to_string("build-mono"),
            no_build: false,
            clean: false,
            verbose: false,
            timing: false,
            dry_run: false,
            watch: false,
            no_watch: false,
            dev: false,
            no_dev: false,
            cmake_flags: Vec::new(),
            meson_flags: Vec::new(),
        }
    }
}

impl Profile {
    /// A copy of this profile.
    pub fn duplicate(&self) -> (r: Profile)
        ensures
            r.test_repo == self.test_repo,
            r.deps@ == self.deps@,
    {
        Profile {
            test_repo: crate::text::clone_opt(&self.test_repo),
            deps: crate::text::clone_strings(&self.deps),
        }
    }

    /// The error given for a profile with neither a test repository nor dependencies.
    pub open spec fn empty_msg() -> Seq<char> {
        "profile requires --test-repo or at least one dependency repo"@
    }

    /// Builds a profile; it must name a test repository or at least one dependency.
    pub fn from_args(test_repo: Option<String>, deps: Vec<String>) -> (r: Result<Profile, String>)
        ensures
            match r {
                Ok(p) => {
                    &&& test_repo is Some || deps@.len() > 0
                    &&& p.test_repo == test_repo
                    &&& p.deps@ == deps@
                },
                Err(e) => test_repo is None && deps@.len() == 0 && e@ == Profile::empty_msg(),
            },
    {
        if test_repo.is_none() && deps.len() == 0 {
            return Err(to_string("profile requires --test-repo or at least one dependency repo"));
        }
        Ok(Profile { test_repo, deps })
    }
}

impl SetupConfig {
    /// The named configurations, as a map.
    pub open spec fn config_map(&self) -> Map<Seq<char>, ConfigEntry> {
        table_map(self.configs@)
    }

    /// The named profiles, as a map.
    pub open spec fn profile_map(&self) -> Map<Seq<char>, Profile> {
        table_map(self.profiles@)
    }

    /// An empty configuration that was loaded from nowhere.
    pub fn new() -> (r: SetupConfig)
        ensures
            r.configs@.len() == 0,
            r.profiles@.len() == 0,
            r.config_map() == Map::<Seq<char>, ConfigEntry>::empty(),
            r.profile_map() == Map::<Seq<char>, Profile>::empty(),
            r.path is None,
    {
        SetupConfig { configs: Vec::new(), profiles: Vec::new(), path: None }
    }
}

/// Inserts or overwrites a named configuration entry.
pub fn insert_config(config: &mut SetupConfig, name: &str, entry: ConfigEntry)
    ensures
        final(config).config_map() == old(config).config_map().insert(name@, entry),
        final(config).profiles == old(config).profiles,
        final(config).path == old(config).path,
{
    table_insert(&mut config.configs, to_string(name), entry);
}

/// Removes a named configuration entry; `true` if it existed.
pub fn remove_config_entry(config: &mut SetupConfig, name: &str) -> (r: bool)
    ensures
        r == old(config).config_map().dom().contains(name@),
        final(config).config_map() == old(config).config_map().remove(name@),
        final(config).profiles == old(config).profiles,
        final(config).path == old(config).path,
{
    table_remove(&mut config.configs, name).is_some()
}

/// Whether a configuration with the given name exists.
pub fn has_config(config: &SetupConfig, name: &str) -> (r: bool)
    ensures
        r == config.config_map().dom().contains(name@),
{
    table_has(&config.configs, name)
}

/// Inserts or overwrites a named profile.
pub fn insert_profile(config: &mut SetupConfig, name: &str, profile: Profile)
    ensures
        final(config).profile_map() == old(config).profile_map().insert(name@, profile),
        final(config).configs == old(config).configs,
        final(config).path == old(config).path,
{
    table_insert(&mut config.profiles, to_string(name), profile);
}

/// Removes a named profile; `true` if it existed.
pub fn remove_profile_entry(config: &mut SetupConfig, name: &str) -> (r: bool)
    ensures
        r == old(config).profile_map().dom().contains(name@),
        final(config).profile_map() == old(config).profile_map().remove(name@),
        final(config).configs == old(config).configs,
        final(config).path == old(config).path,
{
    table_remove(&mut config.profiles, name).is_some()
}

/// Whether a profile with the given name exists.
pub fn has_profile(config: &SetupConfig, name: &str) -> (r: bool)
    ensures
        r == config.profile_map().dom().contains(name@),
{
    table_has(&config.profiles, name)
}

/// The named configuration entry, if it exists.
pub fn get_config<'a>(config: &'a SetupConfig, name: &str) -> (r: Option<&'a ConfigEntry>)
    ensures
        match r {
            Some(e) => config.config_map().dom().contains(name@) && *e == config.config_map()[name@],
            None => !config.config_map().dom().contains(name@),
        },
{
    table_get(&config.configs, name)
}

/// The named profile, if it exists.
pub fn get_profile<'a>(config: &'a SetupConfig, name: &str) -> (r: Option<&'a Profile>)
    ensures
        match r {
            Some(p) => config.profile_map().dom().contains(name@) && *p
                == config.profile_map()[name@],
            None => !config.profile_map().dom().contains(name@),
        },
{
    table_get(&config.profiles, name)
}

/// The lines listing extra arguments under `label`: a blank line when there
/// are none, one line for a single argument, else a heading and one line each.
pub open spec fn args_text(label: Seq<char>, args: Seq<String>) -> Seq<char> {
    if args.len() == 0 {
        "\n"@
    } else if args.len() == 1 {
        "  "@ + label + " argument: "@ + args[0]@ + "\n"@
    } else {
        "  "@ + label + " arguments:\n"@ + arg_lines(args, args.len())
    }
}

/// One indented line for each of the first `k` arguments.
pub open spec fn arg_lines(args: Seq<String>, k: nat) -> Seq<char>
    decreases k,
{
    if k == 0 || k > args.len() {
        seq![]
    } else {
        arg_lines(args, (k - 1) as nat) + "    "@ + args[k - 1]@ + "\n"@
    }
}

/// The human-readable text of a configuration entry.
pub open spec fn entry_text(e: ConfigEntry) -> Seq<char> {
    "  SSH: "@ + bool_text(e.ssh) + "\n"@
    + "  Build Type: "@ + cmake_name(e.build_type) + "\n"@
    + "  Build Directory: "@ + e.build_dir@ + "\n"@
    + "  Mono-build Directory: "@ + e.mono_dir@ + "\n"@
    + "  No-build flag: "@ + bool_text(e.no_build) + "\n"@
    + "  Clean flag: "@ + bool_text(e.clean) + "\n"@
    + "  Verbose flag: "@ + bool_text(e.verbose) + "\n"@
    + "  Timing flag: "@ + bool_text(e.timing) + "\n"@
    + args_text("CMake"@, e.cmake_flags@)
    + args_text("Meson"@, e.meson_flags@)
}

fn push_args(out: &mut String, label: &str, args: &Vec<String>)
    ensures
        final(out)@ == old(out)@ + args_text(label@, args@),
{
    if args.len() == 0 {
        push_str(out, "\n");
    } else if args.len() == 1 {
        push_str(out, "  ");
        push_str(out, label);
        push_str(out, " argument: ");
        push_str(out, args[0].as_str());
        push_str(out, "\n");
        assert(final(out)@ =~= old(out)@ + args_text(label@, args@));
    } else {
        push_str(out, "  ");
        push_str(out, label);
        push_str(out, " arguments:\n");
        let ghost head = out@;
        let mut i: usize = 0;
        assert(out@ =~= head + arg_lines(args@, 0));
        while i < args.len()
            invariant
                i <= args@.len(),
                out@ == head + arg_lines(args@, i as nat),
            decreases args@.len() - i,
        {
            push_str(out, "    ");
            push_str(out, args[i].as_str());
            push_str(out, "\n");
            i = i + 1;
            assert(out@ =~= head + arg_lines(args@, i as nat));
        }
        assert(final(out)@ =~= old(out)@ + args_text(label@, args@));
    }
}

/// Formats a configuration entry as human-readable text.
pub fn format_entry(e: &ConfigEntry) -> (r: String)
    ensures
        r@ == entry_text(*e),
{
    let mut out = String::new();
    push_str(&mut out, "  SSH: ");
    push_bool(&mut out, e.ssh);
    push_str(&mut out, "\n");
    push_str(&mut out, "  Build Type: ");
    push_str(&mut out, e.build_type.to_cmake());
    push_str(&mut out, "\n");
    push_str(&mut out, "  Build Directory: ");
    push_str(&mut out, e.build_dir.as_str());
    push_str(&mut out, "\n");
    push_str(&mut out, "  Mono-build Directory: ");
    push_str(&mut out, e.mono_dir.as_str());
    push_str(&mut out, "\n");
    push_str(&mut out, "  No-build flag: ");
    push_bool(&mut out, e.no_build);
    push_str(&mut out, "\n");
    push_str(&mut out, "  Clean flag: ");
    push_bool(&mut out, e.clean);
    push_str(&mut out, "\n");
    push_str(&mut out, "  Verbose flag: ");
    push_bool(&mut out, e.verbose);
    push_str(&mut out, "\n");
    push_str(&mut out, "  Timing flag: ");
    push_bool(&mut out, e.timing);
    push_str(&mut out, "\n");
    let ghost head = out@;
    push_args(&mut out, "CMake", &e.cmake_flags);
    push_args(&mut out, "Meson", &e.meson_flags);
    assert(out@ =~= entry_text(*e));
    out
}

/// The listing of the first `k` configurations of a table.
pub open spec fn configs_text(t: Seq<(String, ConfigEntry)>, k: nat) -> Seq<char>
    decreases k,
{
    if k == 0 || k > t.len() {
        seq![]
    } else {
        configs_text(t, (k - 1) as nat) + "\n"@ + t[k - 1].0@ + ":\n"@ + entry_text(t[k - 1].1)
    }
}

/// The text of `list_configs`.
pub open spec fn list_configs_text(config: SetupConfig) -> Seq<char> {
    if config.configs@.len() == 0 {
        "  No configurations created.\n  Run with --init-config to create a default configuration.\n"@
    } else {
        "Configurations:\n"@ + configs_text(config.configs@, config.configs@.len())
    }
}

/// Writes one entry of the listing.
fn write_config_item(name: &String, e: &ConfigEntry, io: &mut IoCtx)
    ensures
        final(io).wrote(old(io), "\n"@ + name@ + ":\n"@ + entry_text(*e)),
{
    io.write("\n");
    io.write(name.as_str());
    io.write(":\n");
    let text = format_entry(e);
    io.write_string(&text);
    assert(io.output@ =~= old(io).output@ + ("\n"@ + name@ + ":\n"@ + entry_text(*e)));
}

/// Lists all saved configuration entries, in the order they were added.
pub fn list_configs(config: &SetupConfig, io: &mut IoCtx)
    ensures
        final(io).wrote(old(io), list_configs_text(*config)),
{
    if config.configs.len() == 0 {
        io.write(
            "  No configurations created.\n  Run with --init-config to create a default configuration.\n",
        );
        return ;
    }
    io.write("Configurations:\n");
    let ghost head = io.output@;
    let mut i: usize = 0;
    assert(io.output@ =~= head + configs_text(config.configs@, 0));
    while i < config.configs.len()
        invariant
            i <= config.configs@.len(),
            io.wrote(old(io), "Configurations:\n"@ + configs_text(config.configs@, i as nat)),
        decreases config.configs@.len() - i,
    {
        write_config_item(&config.configs[i].0, &config.configs[i].1, io);
        i = i + 1;
        assert(io.output@ =~= old(io).output@ + ("Configurations:\n"@ + configs_text(
            config.configs@,
            i as nat,
        )));
    }
}

} // verus!

verus! {

/// A change to the saved configuration.
pub enum ConfigChange {
    /// Set the named configuration entry.
    InsertConfig(String, ConfigEntry),
    /// Drop the named configuration entry.
    RemoveConfig(String),
    /// Set the named profile.
    InsertProfile(String, Profile),
    /// Drop the named profile.
    RemoveProfile(String),
}

/// `new` is `old` with `change` made.
pub open spec fn applied(old: SetupConfig, change: ConfigChange, new: SetupConfig) -> bool {
    &&& new.path == old.path
    &&& match change {
        ConfigChange::InsertConfig(n, e) => new.config_map() == old.config_map().insert(n@, e)
            && new.profiles == old.profiles,
        ConfigChange::RemoveConfig(n) => new.config_map() == old.config_map().remove(n@)
            && new.profiles == old.profiles,
        ConfigChange::InsertProfile(n, p) => new.profile_map() == old.profile_map().insert(n@, p)
            && new.configs == old.configs,
        ConfigChange::RemoveProfile(n) => new.profile_map() == old.profile_map().remove(n@)
            && new.configs == old.configs,
    }
}

/// Makes a change to the configuration.
pub fn apply_change(config: &mut SetupConfig, change: ConfigChange)
    ensures
        applied(*old(config), change, *final(config)),
{
    match change {
        ConfigChange::InsertConfig(n, e) => insert_config(config, n.as_str(), e),
        ConfigChange::RemoveConfig(n) => {
            remove_config_entry(config, n.as_str());
        },
        ConfigChange::InsertProfile(n, p) => insert_profile(config, n.as_str(), p),
        ConfigChange::RemoveProfile(n) => {
            remove_profile_entry(config, n.as_str());
        },
    }
}

/// What `save` may be handed: it accepts any configuration.
pub open spec fn saves_any<S: FnOnce(&SetupConfig) -> Result<String, String>>(save: S) -> bool {
    forall|c: &SetupConfig| #[trigger] save.requires((c,))
}

/// Makes `change` and saves the configuration through `save`, which gives the
/// path it wrote; in dry-run mode only reports `would_msg` and changes nothing.
pub fn persist_or_dry_run<S: FnOnce(&SetupConfig) -> Result<String, String>>(
    config: &mut SetupConfig,
    dry_run: bool,
    io: &mut IoCtx,
    would_msg: &str,
    change: ConfigChange,
    save: S,
) -> (r: Result<Option<String>, String>)
    requires
        saves_any(save),
    ensures
        dry_run ==> {
            &&& r == Ok::<Option<String>, String>(None)
            &&& *final(config) == *old(config)
            &&& final(io).wrote(old(io), "  "@ + would_msg@ + "\n"@)
        },
        !dry_run ==> {
            &&& applied(*old(config), change, *final(config))
            &&& *final(io) == *old(io)
            &&& match r {
                Ok(Some(p)) => save.ensures((&*final(config),), Ok::<String, String>(p)),
                Ok(None) => false,
                Err(e) => save.ensures((&*final(config),), Err::<String, String>(e)),
            }
        },
{
    if dry_run {
        io.write("  ");
        io.write(would_msg);
        io.write("\n");
        assert(io.output@ =~= old(io).output@ + ("  "@ + would_msg@ + "\n"@));
        Ok(None)
    } else {
        apply_change(config, change);
        match save(config) {
            Ok(p) => Ok(Some(p)),
            Err(e) => Err(e),
        }
    }
}

} // verus!

verus! {

/// The question asked before a configuration entry is overwritten.
pub open spec fn overwrite_config_prompt(name: Seq<char>) -> Seq<char> {
    "Warning: Configuration '"@ + name + "' already exists. Overwrite?"@
}

/// What `add_config` reports in dry-run mode.
pub open spec fn would_save_config_text(name: Seq<char>) -> Seq<char> {
    "Would save configuration '"@ + name + "' to config file\n"@
}

/// What `add_config` reports once the entry is saved to `path`.
pub open spec fn config_added_text(name: Seq<char>, path: Seq<char>, e: ConfigEntry) -> Seq<char> {
    "Configuration '"@ + name + "' added successfully to "@ + path + "\n"@
        + "Configuration details:\n"@ + entry_text(e)
}

/// How a command that may first ask for confirmation went: `Some(n)` when it
/// went on after reading `n` lines, `None` when it stopped at the question.
pub open spec fn gate_lines(asked: bool, io: IoCtx) -> Option<nat> {
    if !asked {
        Some(0)
    } else if io.pending().len() > 0 && is_yes(answer(io.pending()[0])) {
        Some(1)
    } else {
        None
    }
}

/// What was written for the confirmation question before going on.
pub open spec fn gate_text(asked: bool, prompt: Seq<char>) -> Seq<char> {
    if asked { confirm_text(prompt) } else { Seq::empty() }
}

/// The outcome of a declined or unanswered confirmation question: the input
/// ran out (an error) or the answer was not yes (nothing done).
pub open spec fn gate_stopped(
    prompt: Seq<char>,
    old_io: IoCtx,
    new_io: IoCtx,
    r: Result<(), String>,
) -> bool {
    if old_io.pending().len() == 0 {
        &&& r matches Err(e) && e@ == eof_msg()
        &&& new_io.wrote(&old_io, confirm_text(prompt))
    } else {
        &&& r == Ok::<(), String>(())
        &&& new_io.wrote_read(&old_io, confirm_text(prompt) + aborted_text(), 1)
    }
}

/// Asks `prompt` when `needed` and `yes` is not set: `Ok(true)` to go on,
/// `Ok(false)` when the answer is not yes, an error when input runs out.
pub fn gate(needed: bool, prompt: &str, yes: bool, io: &mut IoCtx) -> (r: Result<bool, String>)
    ensures
        ({
            let asked = needed && !yes;
            match gate_lines(asked, *old(io)) {
                None => {
                    &&& asked
                    &&& if old(io).pending().len() == 0 {
                        &&& r matches Err(e) && e@ == eof_msg()
                        &&& final(io).wrote(old(io), confirm_text(prompt@))
                    } else {
                        &&& r == Ok::<bool, String>(false)
                        &&& final(io).wrote_read(old(io), confirm_text(prompt@) + aborted_text(), 1)
                    }
                },
                Some(n) => {
                    &&& r == Ok::<bool, String>(true)
                    &&& final(io).wrote_read(old(io), gate_text(asked, prompt@), n)
                },
            }
        }),
{
    if needed {
        let r = confirm_abort(prompt, yes, io);
        proof {
            if yes {
                assert(old(io).pending().skip(0) =~= old(io).pending());
                assert(io.output@ =~= old(io).output@ + Seq::<char>::empty());
            } else if r == Ok::<bool, String>(true) {
                assert(confirm_text(prompt@) + Seq::<char>::empty() =~= confirm_text(prompt@));
            }
        }
        r
    } else {
        assert(old(io).pending().skip(0) =~= old(io).pending());
        assert(io.output@ =~= old(io).output@ + Seq::<char>::empty());
        Ok(true)
    }
}

/// What `add_config` does, from `old_cfg` and `old_io` to `new_cfg` and `new_io`.
pub open spec fn add_config_outcome<S: FnOnce(&SetupConfig) -> Result<String, String>>(
    save: S, old_cfg: SetupConfig, new_cfg: SetupConfig, name: Seq<char>, entry: ConfigEntry, yes: bool, flags: RunFlags,
    old_io: IoCtx, new_io: IoCtx, r: Result<(), String>,
) -> bool {
    ({
        let asked = old_cfg.config_map().dom().contains(name) && !yes;
        let q = overwrite_config_prompt(name);
        match gate_lines(asked, old_io) {
            None => new_cfg == old_cfg && gate_stopped(q, old_io, new_io, r),
            Some(n) => if flags.dry_run {
                &&& r == Ok::<(), String>(())
                &&& new_cfg == old_cfg
                &&& new_io.wrote_read(&old_io, gate_text(asked, q) + would_save_config_text(name), n)
            } else {
                &&& new_cfg.config_map() == old_cfg.config_map().insert(name, entry)
                &&& new_cfg.profiles == old_cfg.profiles
                &&& new_cfg.path == old_cfg.path
                &&& match r {
                    Ok(_) => exists|p: String| {
                        &&& save.ensures((&new_cfg,), Ok::<String, String>(p))
                        &&& new_io.wrote_read(&old_io, gate_text(asked, q) + config_added_text(name, p@, entry), n)
                    },
                    Err(e) => {
                        &&& save.ensures((&new_cfg,), Err::<String, String>(e))
                        &&& new_io.wrote_read(&old_io, gate_text(asked, q), n)
                    },
                }
            },
        }
    })
}

/// Adds or overwrites a named configuration entry and saves the
/// configuration; asks first when the name is taken, unless `yes` is set.
pub fn add_config<S: FnOnce(&SetupConfig) -> Result<String, String>>(
    config: &mut SetupConfig,
    name: &str,
    entry: ConfigEntry,
    yes: bool,
    io: &mut IoCtx,
    flags: RunFlags,
    save: S,
) -> (r: Result<(), String>)
    requires
        saves_any(save),
    ensures
        add_config_outcome(save, *old(config), *final(config), name@, entry, yes, flags, *old(io), *final(io), r),
{
    let ghost asked = old(config).config_map().dom().contains(name@) && !yes;
    let ghost q = overwrite_config_prompt(name@);
    let prompt = cat3("Warning: Configuration '", name, "' already exists. Overwrite?");
    let exists = has_config(config, name);
    match gate(exists, prompt.as_str(), yes, io) {
        Err(e) => return Err(e),
        Ok(false) => return Ok(()),
        Ok(true) => {},
    }
    if flags.dry_run {
        io.write("Would save configuration '");
        io.write(name);
        io.write("' to config file\n");
        assert(io.output@ =~= old(io).output@ + (gate_text(asked, q) + would_save_config_text(name@)));
        Ok(())
    } else {
        insert_config(config, name, entry);
        let saved = save(config);
        match saved {
            Err(e) => Err(e),
            Ok(path) => {
                let ghost gated = io.output@;
                report_config_added(config, name, &path, io);
                assert(io.output@ =~= old(io).output@ + (gate_text(asked, q) + config_added_text(name@, path@, entry)));
                Ok(())
            },
        }
    }
}

/// Reports a saved entry: where it was saved and what it holds.
fn report_config_added(config: &SetupConfig, name: &str, path: &String, io: &mut IoCtx)
    requires
        config.config_map().dom().contains(name@),
    ensures
        final(io).wrote(old(io), config_added_text(name@, path@, config.config_map()[name@])),
{
    io.write("Configuration '");
    io.write(name);
    io.write("' added successfully to ");
    io.write_string(path);
    io.write("\n");
    io.write("Configuration details:\n");
    match get_config(config, name) {
        Some(e) => {
            let text = format_entry(e);
            io.write_string(&text);
        },
        None => {},
    }
    assert(io.output@ =~= old(io).output@ + config_added_text(name@, path@, config.config_map()[name@]));
}

/// What `remove_config` reports for an unknown name.
pub open spec fn config_missing_text(name: Seq<char>) -> Seq<char> {
    "\nWarning: Config '"@ + name + "' not found.\n\n"@
}

/// What `remove_config` shows of the entry it is about to remove.
pub open spec fn config_shown_text(name: Seq<char>, e: ConfigEntry) -> Seq<char> {
    "Config "@ + name + "\n"@ + "Configuration details:\n"@ + entry_text(e)
}

/// The question asked before a configuration entry is removed.
pub open spec fn remove_config_prompt() -> Seq<char> {
    "\nAre you sure you want to remove this config?"@
}

/// What `remove_config` reports in dry-run mode.
pub open spec fn would_remove_config_text(name: Seq<char>) -> Seq<char> {
    "Would remove configuration '"@ + name + "' from config file\n"@
}

/// What `remove_config` reports once the configuration is saved to `path`.
pub open spec fn config_removed_text(name: Seq<char>, path: Seq<char>) -> Seq<char> {
    "\nConfig '"@ + name + "' was successfully removed\n"@ + "Configuration saved to: "@ + path
        + "\n\n"@
}

/// What `remove_config` does, from `old_cfg` and `old_io` to `new_cfg` and `new_io`.
pub open spec fn remove_config_outcome<S: FnOnce(&SetupConfig) -> Result<String, String>>(
    save: S, old_cfg: SetupConfig, new_cfg: SetupConfig, name: Seq<char>, yes: bool, flags: RunFlags,
    old_io: IoCtx, new_io: IoCtx, r: Result<(), String>,
) -> bool {
    &&& !old_cfg.config_map().dom().contains(name) ==> {
        &&& r == Ok::<(), String>(())
        &&& new_cfg == old_cfg
        &&& new_io.wrote(&old_io, config_missing_text(name))
    }
    &&& old_cfg.config_map().dom().contains(name) ==> ({
        let shown = config_shown_text(name, old_cfg.config_map()[name]);
        let asked = !yes;
        let q = remove_config_prompt();
        match gate_lines(asked, old_io) {
            None => {
                &&& new_cfg == old_cfg
                &&& if old_io.pending().len() == 0 {
                    &&& r matches Err(e) && e@ == eof_msg()
                    &&& new_io.wrote(&old_io, shown + confirm_text(q))
                } else {
                    &&& r == Ok::<(), String>(())
                    &&& new_io.wrote_read(&old_io, shown + confirm_text(q) + aborted_text(), 1)
                }
            },
            Some(n) => if flags.dry_run {
                &&& r == Ok::<(), String>(())
                &&& new_cfg == old_cfg
                &&& new_io.wrote_read(&old_io, shown + gate_text(asked, q) + would_remove_config_text(name), n)
            } else {
                &&& new_cfg.config_map() == old_cfg.config_map().remove(name)
                &&& new_cfg.profiles == old_cfg.profiles
                &&& new_cfg.path == old_cfg.path
                &&& match r {
                    Ok(_) => exists|p: String| {
                        &&& save.ensures((&new_cfg,), Ok::<String, String>(p))
                        &&& new_io.wrote_read(&old_io, shown + gate_text(asked, q) + config_removed_text(name, p@), n)
                    },
                    Err(e) => {
                        &&& save.ensures((&new_cfg,), Err::<String, String>(e))
                        &&& new_io.wrote_read(&old_io, shown + gate_text(asked, q), n)
                    },
                }
            },
        }
    })
}

/// Removes a named configuration entry and saves the configuration, after
/// showing it and asking for confirmation unless `yes` is set.
#[verifier::rlimit(30)]
pub fn remove_config<S: FnOnce(&SetupConfig) -> Result<String, String>>(
    config: &mut SetupConfig,
    name: &str,
    yes: bool,
    io: &mut IoCtx,
    flags: RunFlags,
    save: S,
) -> (r: Result<(), String>)
    requires
        saves_any(save),
    ensures
        remove_config_outcome(save, *old(config), *final(config), name@, yes, flags, *old(io), *final(io), r),
{
    let shown_text = match get_config(config, name) {
        None => {
            io.write("\nWarning: Config '");
            io.write(name);
            io.write("' not found.\n\n");
            assert(io.output@ =~= old(io).output@ + config_missing_text(name@));
            return Ok(());
        },
        Some(e) => format_entry(e),
    };
    let ghost shown = config_shown_text(name@, old(config).config_map()[name@]);
    let ghost asked = !yes;
    let ghost q = remove_config_prompt();
    io.write("Config ");
    io.write(name);
    io.write("\n");
    io.write("Configuration details:\n");
    io.write_string(&shown_text);
    assert(io.output@ =~= old(io).output@ + shown);
    let ghost shown_io = *io;
    let go = gate(true, "\nAre you sure you want to remove this config?", yes, io);
    match go {
        Err(e) => {
            assert(io.output@ =~= old(io).output@ + (shown + confirm_text(q)));
            return Err(e);
        },
        Ok(false) => {
            assert(io.output@ =~= old(io).output@ + (shown + confirm_text(q) + aborted_text()));
            assert(io.pending() =~= old(io).pending().skip(1));
            return Ok(());
        },
        Ok(true) => {},
    }
    assert(io.output@ =~= old(io).output@ + (shown + gate_text(asked, q)));
    assert(io.pending() =~= old(io).pending().skip(gate_lines(asked, *old(io))->0 as int));
    let ghost mid = *io;
    let r = finish_remove_config(config, name, io, flags, save);
    proof {
        let before = shown + gate_text(asked, q);
        if flags.dry_run {
            assert(io.output@ =~= old(io).output@ + (before + would_remove_config_text(name@)));
        } else {
            match r {
                Ok(_) => {
                    let p = choose|p: String| {
                        &&& save.ensures((&*config,), Ok::<String, String>(p))
                        &&& io.wrote(&mid, config_removed_text(name@, p@))
                    };
                    assert(io.output@ =~= old(io).output@ + (before + config_removed_text(name@, p@)));
                },
                Err(_) => {},
            }
        }
    }
    r
}

/// Removes the entry (or reports what would be removed) and saves.
fn finish_remove_config<S: FnOnce(&SetupConfig) -> Result<String, String>>(
    config: &mut SetupConfig,
    name: &str,
    io: &mut IoCtx,
    flags: RunFlags,
    save: S,
) -> (r: Result<(), String>)
    requires
        saves_any(save),
    ensures
        if flags.dry_run {
            &&& r == Ok::<(), String>(())
            &&& *final(config) == *old(config)
            &&& final(io).wrote(old(io), would_remove_config_text(name@))
        } else {
            &&& final(config).config_map() == old(config).config_map().remove(name@)
            &&& final(config).profiles == old(config).profiles
            &&& final(config).path == old(config).path
            &&& match r {
                Ok(_) => exists|p: String| {
                    &&& save.ensures((&*final(config),), Ok::<String, String>(p))
                    &&& final(io).wrote(old(io), config_removed_text(name@, p@))
                },
                Err(e) => {
                    &&& save.ensures((&*final(config),), Err::<String, String>(e))
                    &&& *final(io) == *old(io)
                },
            }
        },
{
    if flags.dry_run {
        io.write("Would remove configuration '");
        io.write(name);
        io.write("' from config file\n");
        assert(io.output@ =~= old(io).output@ + would_remove_config_text(name@));
        Ok(())
    } else {
        remove_config_entry(config, name);
        let saved = save(config);
        match saved {
            Err(e) => Err(e),
            Ok(path) => {
                io.write("\nConfig '");
                io.write(name);
                io.write("' was successfully removed\n");
                io.write("Configuration saved to: ");
                io.write_string(&path);
                io.write("\n\n");
                assert(io.output@ =~= old(io).output@ + config_removed_text(name@, path@));
                Ok(())
            },
        }
    }
}

/// `c` is a fresh configuration for the file at `path`: one entry, `default`,
/// holding the default settings, and no profile.
pub open spec fn fresh_config(path: Seq<char>, c: SetupConfig) -> bool {
    &&& c.configs@.len() == 1
    &&& c.configs@[0].0@ == "default"@
    &&& is_default_entry(c.configs@[0].1)
    &&& c.profiles@.len() == 0
    &&& c.path matches Some(p) && p@ == path
}

/// The question asked before an existing configuration file is overwritten.
pub open spec fn overwrite_file_prompt(path: Seq<char>) -> Seq<char> {
    path + " already exists. Overwrite?"@
}

/// What is reported once the configuration file, shown as `shown`, is created.
pub open spec fn created_text(shown: Seq<char>) -> Seq<char> {
    "Created config file: "@ + shown + "\n"@
        + "Edit this file to customize your defaults.\n"@
        + "\nConfig files are checked in this order:\n"@
        + "  1. ./.star-setup.json (current directory)\n"@
        + "  2. ~/.star-setup.json (home directory)\n"@
}

/// What `show` may be handed: any path.
pub open spec fn shows_any<F: FnOnce(&str) -> String>(show: F) -> bool {
    forall|p: &str| #[trigger] show.requires((p,))
}

/// What `create_default_config` does.
pub open spec fn default_config_outcome<S: FnOnce(&SetupConfig) -> Result<String, String>, F: FnOnce(&str) -> String>(
    save: S, show: F, path: &str, exists: bool, yes: bool, flags: RunFlags,
    old_io: IoCtx, new_io: IoCtx, r: Result<(), String>,
) -> bool {
    let asked = exists && !yes;
    let q = overwrite_file_prompt(path@);
    match gate_lines(asked, old_io) {
        None => gate_stopped(q, old_io, new_io, r),
        Some(n) => if flags.dry_run {
            &&& r == Ok::<(), String>(())
            &&& exists|shown: String| {
                &&& #[trigger] show.ensures((path,), shown)
                &&& new_io.wrote_read(&old_io, gate_text(asked, q) + created_text(shown@), n)
            }
        } else {
            exists|c: SetupConfig| {
                &&& #[trigger] fresh_config(path@, c)
                &&& match r {
                    Ok(_) => exists|p: String, shown: String| {
                        &&& #[trigger] save.ensures((&c,), Ok::<String, String>(p))
                        &&& #[trigger] show.ensures((path,), shown)
                        &&& new_io.wrote_read(&old_io, gate_text(asked, q) + created_text(shown@), n)
                    },
                    Err(e) => {
                        &&& save.ensures((&c,), Err::<String, String>(e))
                        &&& new_io.wrote_read(&old_io, gate_text(asked, q), n)
                    },
                }
            }
        },
    }
}

/// Creates a configuration file at `path` (which `exists` tells whether it
/// exists already) holding only the default entry, after asking before
/// overwriting, unless `yes` is set; `save` writes it, and `show` gives the
/// path as reported. In dry-run mode nothing is written.
pub fn create_default_config<S: FnOnce(&SetupConfig) -> Result<String, String>, F: FnOnce(&str) -> String>(
    path: &str,
    exists: bool,
    yes: bool,
    io: &mut IoCtx,
    flags: RunFlags,
    save: S,
    show: F,
) -> (r: Result<(), String>)
    requires
        saves_any(save),
        shows_any(show),
    ensures
        default_config_outcome(save, show, path, exists, yes, flags, *old(io), *final(io), r),
{
    let ghost asked = exists && !yes;
    let ghost q = overwrite_file_prompt(path@);
    let prompt = cat3(path, " already exists. Overwrite?", "");
    proof {
        reveal_strlit("");
    }
    assert(prompt@ =~= q);
    match gate(exists, prompt.as_str(), yes, io) {
        Err(e) => return Err(e),
        Ok(false) => return Ok(()),
        Ok(true) => {},
    }
    let ghost gated = *io;
    if !flags.dry_run {
        let mut configs: Vec<(String, ConfigEntry)> = Vec::new();
        configs.push((to_string("default"), ConfigEntry::default()));
        let config = SetupConfig { configs, profiles: Vec::new(), path: Some(to_string(path)) };
        assert(fresh_config(path@, config));
        let saved = save(&config);
        match saved {
            Err(e) => {
                assert(io.output@ =~= old(io).output@ + gate_text(asked, q));
                return Err(e);
            },
            Ok(p) => {
                let shown = show(path);
                report_created(&shown, io);
                assert(io.output@ =~= old(io).output@ + (gate_text(asked, q) + created_text(shown@)));
                return Ok(());
            },
        }
    }
    let shown = show(path);
    report_created(&shown, io);
    assert(io.output@ =~= old(io).output@ + (gate_text(asked, q) + created_text(shown@)));
    Ok(())
}

/// Reports the created configuration file.
fn report_created(shown: &String, io: &mut IoCtx)
    ensures
        final(io).wrote(old(io), created_text(shown@)),
{
    io.write("Created config file: ");
    io.write_string(shown);
    io.write("\n");
    io.write("Edit this file to customize your defaults.\n");
    io.write("\nConfig files are checked in this order:\n");
    io.write("  1. ./.star-setup.json (current directory)\n");
    io.write("  2. ~/.star-setup.json (home directory)\n");
    assert(io.output@ =~= old(io).output@ + created_text(shown@));
}

} // verus!
