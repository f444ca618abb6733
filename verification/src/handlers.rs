//! The `config` and `profile` subcommands.
use vstd::prelude::*;
use crate::cli::{entry_from_flags, ConfigAction, ProfileAction};
use crate::config::{
    add_config, add_config_outcome, create_default_config, default_config_outcome, list_configs,
    list_configs_text, remove_config, remove_config_outcome, saves_any, shows_any, ConfigEntry, Profile,
    SetupConfig,
};
use crate::ctx::{IoCtx, RunFlags};
use crate::profile::{add_profile, add_profile_outcome, list_profiles, list_profiles_text, remove_profile, remove_profile_outcome};

verus! {

/// Runs a `config` subcommand: `init` creates the configuration file at
/// `config_path` (which `path_exists` tells whether it exists), `list` shows
/// the entries, `remove` and `add` change them; `save` writes the
/// configuration, `show` gives a path as reported.
pub fn handle_config_cmd<S: FnOnce(&SetupConfig) -> Result<String, String>, F: FnOnce(&str) -> String>(
    action: ConfigAction,
    config: &mut SetupConfig,
    config_path: &str,
    path_exists: bool,
    yes: bool,
    io: &mut IoCtx,
    flags: RunFlags,
    save: S,
    show: F,
) -> (r: Result<(), String>)
    requires
        saves_any(save),
        shows_any(show),
    ensures
        match action {
            ConfigAction::Init => {
                &&& *final(config) == *old(config)
                &&& default_config_outcome(save, show, config_path, path_exists, yes, flags, *old(io), *final(io), r)
            },
            ConfigAction::List => {
                &&& *final(config) == *old(config)
                &&& r == Ok::<(), String>(())
                &&& final(io).wrote(old(io), list_configs_text(*old(config)))
            },
            ConfigAction::Remove { name } => remove_config_outcome(save, *old(config), *final(config), name@, yes, flags, *old(io), *final(io), r),
            ConfigAction::Add { name, connection, build, mono, diagnostic } => exists|e: ConfigEntry| {
                &&& #[trigger] entry_from_flags(e, connection, build, mono, diagnostic)
                &&& add_config_outcome(save, *old(config), *final(config), name@, e, yes, flags, *old(io), *final(io), r)
            },
        },
{
    match action {
        ConfigAction::Init => create_default_config(config_path, path_exists, yes, io, flags, save, show),
        ConfigAction::List => {
            list_configs(config, io);
            Ok(())
        },
        ConfigAction::Remove { name } => remove_config(config, name.as_str(), yes, io, flags, save),
        ConfigAction::Add { name, connection, build, mono, diagnostic } => {
            let entry = ConfigEntry::from_flags(&connection, &build, &mono, &diagnostic);
            let ghost e = entry;
            let r = add_config(config, name.as_str(), entry, yes, io, flags, save);
            assert(entry_from_flags(e, connection, build, mono, diagnostic));
            r
        },
    }
}

/// Runs a `profile` subcommand: `list` shows the profiles, `remove` and
/// `add` change them; `save` writes the configuration. A profile to add must
/// name a test repository or at least one repository.
pub fn handle_profile_cmd<S: FnOnce(&SetupConfig) -> Result<String, String>>(
    action: ProfileAction,
    config: &mut SetupConfig,
    yes: bool,
    io: &mut IoCtx,
    flags: RunFlags,
    save: S,
) -> (r: Result<(), String>)
    requires
        saves_any(save),
    ensures
        match action {
            ProfileAction::List => {
                &&& *final(config) == *old(config)
                &&& r == Ok::<(), String>(())
                &&& final(io).wrote(old(io), list_profiles_text(*old(config)))
            },
            ProfileAction::Remove { name } => remove_profile_outcome(save, *old(config), *final(config), name@, yes, flags, *old(io), *final(io), r),
            ProfileAction::Add { name, test_repo, repos } => if test_repo is None && repos@.len() == 0 {
                &&& *final(config) == *old(config)
                &&& *final(io) == *old(io)
                &&& r matches Err(m) && m@ == Profile::empty_msg()
            } else {
                exists|p: Profile| {
                    &&& p.test_repo == test_repo
                    &&& p.deps@ == repos@
                    &&& #[trigger] add_profile_outcome(save, *old(config), *final(config), name@, p, yes, flags, *old(io), *final(io), r)
                }
            },
        },
{
    match action {
        ProfileAction::List => {
            list_profiles(config, io);
            Ok(())
        },
        ProfileAction::Remove { name } => remove_profile(config, name.as_str(), yes, io, flags, save),
        ProfileAction::Add { name, test_repo, repos } => {
            let profile = match Profile::from_args(test_repo, repos) {
                Err(e) => return Err(e),
                Ok(p) => p,
            };
            let ghost p = profile;
            let r = add_profile(config, name.as_str(), profile, yes, io, flags, save);
            assert(add_profile_outcome(save, *old(config), *config, name@, p, yes, flags, *old(io), *io, r));
            r
        },
    }
}

} // verus!
