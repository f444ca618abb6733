//! Showing, adding and removing profiles.
use vstd::prelude::*;
use crate::config::{
    gate, gate_lines, gate_text, get_profile, has_profile, persist_or_dry_run, saves_any,
    ConfigChange, Profile, SetupConfig,
};
use crate::ctx::{eof_msg, IoCtx, RunFlags};
use crate::prompts::{aborted_text, confirm_text};
use crate::text::{cat3, dec, push_str, push_usize};

verus! {

/// One line for each of the first `k` repositories.
pub open spec fn repo_lines(deps: Seq<String>, k: nat) -> Seq<char>
    decreases k,
{
    if k == 0 || k > deps.len() {
        seq![]
    } else {
        repo_lines(deps, (k - 1) as nat) + "      - "@ + deps[k - 1]@ + "\n"@
    }
}

/// The text that shows a profile under a title.
pub open spec fn profile_text(title: Seq<char>, label: Seq<char>, p: Profile) -> Seq<char> {
    "  "@ + title + "\n"@
    + (match p.test_repo {
        Some(t) => "  "@ + t@ + "\n"@,
        None => Seq::empty(),
    })
    + (if p.deps@.len() > 0 {
        "    "@ + label + ": "@ + dec(p.deps@.len()) + "\n"@ + repo_lines(p.deps@, p.deps@.len())
    } else {
        Seq::empty()
    })
}

/// Writes a profile under a title: its test repository and its dependencies.
pub fn print_profile_details(output: &mut String, title: &str, label: &str, profile: &Profile)
    ensures
        final(output)@ == old(output)@ + profile_text(title@, label@, *profile),
{
    push_str(output, "  ");
    push_str(output, title);
    push_str(output, "\n");
    let ghost head = output@;
    match &profile.test_repo {
        Some(t) => {
            push_str(output, "  ");
            push_str(output, t.as_str());
            push_str(output, "\n");
        },
        None => {},
    }
    let ghost mid = output@;
    if profile.deps.len() > 0 {
        push_str(output, "    ");
        push_str(output, label);
        push_str(output, ": ");
        push_usize(output, profile.deps.len());
        push_str(output, "\n");
        let ghost start = output@;
        let mut i: usize = 0;
        assert(output@ =~= start + repo_lines(profile.deps@, 0));
        while i < profile.deps.len()
            invariant
                i <= profile.deps@.len(),
                output@ == start + repo_lines(profile.deps@, i as nat),
            decreases profile.deps@.len() - i,
        {
            push_str(output, "      - ");
            push_str(output, profile.deps[i].as_str());
            push_str(output, "\n");
            i = i + 1;
            assert(output@ =~= start + repo_lines(profile.deps@, i as nat));
        }
    }
    assert(output@ =~= old(output)@ + profile_text(title@, label@, *profile));
}

/// The listing of the first `k` profiles of a table.
pub open spec fn profiles_text(t: Seq<(String, Profile)>, k: nat) -> Seq<char>
    decreases k,
{
    if k == 0 || k > t.len() {
        seq![]
    } else {
        profiles_text(t, (k - 1) as nat) + profile_text(t[k - 1].0@, "Repositories"@, t[k - 1].1)
            + "\n"@
    }
}

/// The text of `list_profiles`.
pub open spec fn list_profiles_text(config: SetupConfig) -> Seq<char> {
    if config.profiles@.len() == 0 {
        "No profiles configured. Run with profile add to create a new profile.\n"@
    } else {
        "Configured profiles:\n\n"@ + profiles_text(config.profiles@, config.profiles@.len())
    }
}

/// Lists all configured profiles, in the order they were added.
pub fn list_profiles(config: &SetupConfig, io: &mut IoCtx)
    ensures
        final(io).wrote(old(io), list_profiles_text(*config)),
{
    if config.profiles.len() == 0 {
        io.write("No profiles configured. Run with profile add to create a new profile.\n");
        return ;
    }
    io.write("Configured profiles:\n\n");
    let mut i: usize = 0;
    assert(io.output@ =~= old(io).output@ + ("Configured profiles:\n\n"@ + profiles_text(
        config.profiles@,
        0,
    )));
    while i < config.profiles.len()
        invariant
            i <= config.profiles@.len(),
            io.wrote(old(io), "Configured profiles:\n\n"@ + profiles_text(config.profiles@, i as nat)),
        decreases config.profiles@.len() - i,
    {
        print_profile_details(
            &mut io.output,
            config.profiles[i].0.as_str(),
            "Repositories",
            &config.profiles[i].1,
        );
        io.write("\n");
        i = i + 1;
        assert(io.output@ =~= old(io).output@ + ("Configured profiles:\n\n"@ + profiles_text(
            config.profiles@,
            i as nat,
        )));
    }
}

/// The question asked before a profile is overwritten.
pub open spec fn overwrite_profile_prompt(name: Seq<char>) -> Seq<char> {
    "  Warning: Profile '"@ + name + "' already exists. Overwrite?"@
}

/// What `add_profile` reports in dry-run mode.
pub open spec fn would_save_profile_text(name: Seq<char>) -> Seq<char> {
    "  "@ + ("Would save profile '"@ + name + "' to config file"@) + "\n"@
}

/// What `add_profile` reports once the configuration is saved to `path`.
pub open spec fn profile_saved_text(name: Seq<char>, path: Seq<char>) -> Seq<char> {
    "  Profile '"@ + name + "' added successfully\n"@ + "  Configuration saved to: "@ + path
        + "\n"@
}

/// What `add_profile` shows of the profile, and how to use it.
pub open spec fn profile_usage_text(name: Seq<char>, p: Profile) -> Seq<char> {
    profile_text("Profile details:"@, "Repositories"@, p)
        + "  Usage: star-setup username/test-repo --profile "@ + name + "\n"@
}

/// What `add_profile` does, from `old_cfg` and `old_io` to `new_cfg` and `new_io`.
pub open spec fn add_profile_outcome<S: FnOnce(&SetupConfig) -> Result<String, String>>(
    save: S, old_cfg: SetupConfig, new_cfg: SetupConfig, name: Seq<char>, profile: Profile, yes: bool, flags: RunFlags,
    old_io: IoCtx, new_io: IoCtx, r: Result<(), String>,
) -> bool {
    ({
        let asked = old_cfg.profile_map().dom().contains(name) && !yes;
        let q = overwrite_profile_prompt(name);
        match gate_lines(asked, old_io) {
            None => {
                &&& new_cfg == old_cfg
                &&& if old_io.pending().len() == 0 {
                    &&& r matches Err(e) && e@ == eof_msg()
                    &&& new_io.wrote(&old_io, confirm_text(q))
                } else {
                    &&& r == Ok::<(), String>(())
                    &&& new_io.wrote_read(&old_io, confirm_text(q) + aborted_text(), 1)
                }
            },
            Some(n) => if flags.dry_run {
                &&& r == Ok::<(), String>(())
                &&& new_cfg == old_cfg
                &&& new_io.wrote_read(
                    &old_io,
                    gate_text(asked, q) + would_save_profile_text(name) + profile_usage_text(name, profile),
                    n,
                )
            } else {
                &&& new_cfg.profile_map() == old_cfg.profile_map().insert(name, profile)
                &&& new_cfg.configs == old_cfg.configs
                &&& new_cfg.path == old_cfg.path
                &&& match r {
                    Ok(_) => exists|p: String| {
                        &&& save.ensures((&new_cfg,), Ok::<String, String>(p))
                        &&& new_io.wrote_read(
                            &old_io,
                            gate_text(asked, q) + profile_saved_text(name, p@) + profile_usage_text(name, profile),
                            n,
                        )
                    },
                    Err(e) => {
                        &&& save.ensures((&new_cfg,), Err::<String, String>(e))
                        &&& new_io.wrote_read(&old_io, gate_text(asked, q), n)
                    },
                }
            },
        }
    })
}

/// Adds or overwrites a named profile and saves the configuration; asks first
/// when the name is taken, unless `yes` is set.
pub fn add_profile<S: FnOnce(&SetupConfig) -> Result<String, String>>(
    config: &mut SetupConfig,
    name: &str,
    profile: Profile,
    yes: bool,
    io: &mut IoCtx,
    flags: RunFlags,
    save: S,
) -> (r: Result<(), String>)
    requires
        saves_any(save),
    ensures
        add_profile_outcome(save, *old(config), *final(config), name@, profile, yes, flags, *old(io), *final(io), r),
{
    let ghost asked = old(config).profile_map().dom().contains(name@) && !yes;
    let ghost q = overwrite_profile_prompt(name@);
    let ghost original = profile;
    let prompt = cat3("  Warning: Profile '", name, "' already exists. Overwrite?");
    let exists = has_profile(config, name);
    match gate(exists, prompt.as_str(), yes, io) {
        Err(e) => return Err(e),
        Ok(false) => return Ok(()),
        Ok(true) => {},
    }
    let ghost gated = *io;
    let shown = profile.duplicate();
    let would = cat3("Would save profile '", name, "' to config file");
    let change = ConfigChange::InsertProfile(name.to_owned(), profile);
    let saved = persist_or_dry_run(config, flags.dry_run, io, would.as_str(), change, save);
    assert(profile_usage_text(name@, shown) == profile_usage_text(name@, original));
    match saved {
        Err(e) => Err(e),
        Ok(Some(path)) => {
            io.write("  Profile '");
            io.write(name);
            io.write("' added successfully\n");
            io.write("  Configuration saved to: ");
            io.write_string(&path);
            io.write("\n");
            print_usage(name, &shown, io);
            assert(io.output@ =~= old(io).output@ + (gate_text(asked, q) + profile_saved_text(name@, path@) + profile_usage_text(name@, original)));
            Ok(())
        },
        Ok(None) => {
            print_usage(name, &shown, io);
            assert(io.output@ =~= old(io).output@ + (gate_text(asked, q) + would_save_profile_text(name@) + profile_usage_text(name@, original)));
            Ok(())
        },
    }
}

/// Shows an added profile and how to use it.
fn print_usage(name: &str, profile: &Profile, io: &mut IoCtx)
    ensures
        final(io).wrote(old(io), profile_usage_text(name@, *profile)),
{
    print_profile_details(&mut io.output, "Profile details:", "Repositories", profile);
    io.write("  Usage: star-setup username/test-repo --profile ");
    io.write(name);
    io.write("\n");
    assert(io.output@ =~= old(io).output@ + profile_usage_text(name@, *profile));
}

/// The question asked before a profile is removed.
pub open spec fn remove_profile_prompt(name: Seq<char>) -> Seq<char> {
    "  Are you sure you want to remove profile '"@ + name + "'?"@
}

/// What `remove_profile` reports in dry-run mode.
pub open spec fn would_remove_profile_text(name: Seq<char>) -> Seq<char> {
    "  "@ + ("Would remove profile '"@ + name + "' from config file"@) + "\n"@
}

/// What `remove_profile` reports once the configuration is saved to `path`.
pub open spec fn profile_removed_text(name: Seq<char>, path: Seq<char>) -> Seq<char> {
    "  Profile '"@ + name + "' removed successfully\n"@ + "  Configuration saved to: "@ + path
        + "\n"@
}

/// What `remove_profile` reports for an unknown name.
pub open spec fn profile_missing_text(name: Seq<char>) -> Seq<char> {
    "  Warning: Profile '"@ + name + "' not found.\n"@
}

/// What `remove_profile` does, from `old_cfg` and `old_io` to `new_cfg` and `new_io`.
pub open spec fn remove_profile_outcome<S: FnOnce(&SetupConfig) -> Result<String, String>>(
    save: S, old_cfg: SetupConfig, new_cfg: SetupConfig, name: Seq<char>, yes: bool, flags: RunFlags,
    old_io: IoCtx, new_io: IoCtx, r: Result<(), String>,
) -> bool {
    &&& !old_cfg.profile_map().dom().contains(name) ==> {
        &&& r == Ok::<(), String>(())
        &&& new_cfg == old_cfg
        &&& new_io.wrote(&old_io, profile_missing_text(name))
    }
    &&& old_cfg.profile_map().dom().contains(name) ==> ({
        let shown = profile_text(
            "Profile '"@ + name + "'"@,
            "Repositories"@,
            old_cfg.profile_map()[name],
        );
        let asked = !yes;
        let q = remove_profile_prompt(name);
        match gate_lines(asked, old_io) {
            None => {
                &&& new_cfg == old_cfg
                &&& if old_io.pending().len() == 0 {
                    &&& r matches Err(e) && e@ == eof_msg()
                    &&& new_io.wrote(&old_io, shown + confirm_text(q))
                } else {
                    &&& r == Ok::<(), String>(())
                    &&& new_io.wrote_read(&old_io, shown + confirm_text(q) + aborted_text(), 1)
                }
            },
            Some(n) => if flags.dry_run {
                &&& r == Ok::<(), String>(())
                &&& new_cfg == old_cfg
                &&& new_io.wrote_read(&old_io, shown + gate_text(asked, q) + would_remove_profile_text(name), n)
            } else {
                &&& new_cfg.profile_map() == old_cfg.profile_map().remove(name)
                &&& new_cfg.configs == old_cfg.configs
                &&& new_cfg.path == old_cfg.path
                &&& match r {
                    Ok(_) => exists|p: String| {
                        &&& save.ensures((&new_cfg,), Ok::<String, String>(p))
                        &&& new_io.wrote_read(&old_io, shown + gate_text(asked, q) + profile_removed_text(name, p@), n)
                    },
                    Err(e) => {
                        &&& save.ensures((&new_cfg,), Err::<String, String>(e))
                        &&& new_io.wrote_read(&old_io, shown + gate_text(asked, q), n)
                    },
                }
            },
        }
    })
}

/// Removes a named profile and saves the configuration, after showing it and
/// asking for confirmation unless `yes` is set.
pub fn remove_profile<S: FnOnce(&SetupConfig) -> Result<String, String>>(
    config: &mut SetupConfig,
    name: &str,
    yes: bool,
    io: &mut IoCtx,
    flags: RunFlags,
    save: S,
) -> (r: Result<(), String>)
    requires
        saves_any(save),
    ensures
        remove_profile_outcome(save, *old(config), *final(config), name@, yes, flags, *old(io), *final(io), r),
{
    let title = cat3("Profile '", name, "'");
    match get_profile(config, name) {
        None => {
            io.write("  Warning: Profile '");
            io.write(name);
            io.write("' not found.\n");
            assert(io.output@ =~= old(io).output@ + profile_missing_text(name@));
            return Ok(());
        },
        Some(p) => {
            print_profile_details(&mut io.output, title.as_str(), "Repositories", p);
        },
    }
    let ghost shown = profile_text(
        "Profile '"@ + name@ + "'"@,
        "Repositories"@,
        old(config).profile_map()[name@],
    );
    let ghost asked = !yes;
    let ghost q = remove_profile_prompt(name@);
    assert(io.output@ =~= old(io).output@ + shown);
    let prompt = cat3("  Are you sure you want to remove profile '", name, "'?");
    let go = gate(true, prompt.as_str(), yes, io);
    match go {
        Err(e) => {
            assert(io.output@ =~= old(io).output@ + (shown + confirm_text(q)));
            return Err(e);
        },
        Ok(false) => {
            assert(io.output@ =~= old(io).output@ + (shown + confirm_text(q) + aborted_text()));
            assert(io.pending() =~= old(io).pending().skip(1));
            return Ok(());
        },
        Ok(true) => {},
    }
    assert(io.output@ =~= old(io).output@ + (shown + gate_text(asked, q)));
    let ghost gated = *io;
    let r = finish_remove_profile(config, name, io, flags, save);
    proof {
        let before = shown + gate_text(asked, q);
        if flags.dry_run {
            assert(io.output@ =~= old(io).output@ + (before + would_remove_profile_text(name@)));
        } else {
            match r {
                Ok(_) => {
                    let p = choose|p: String| {
                        &&& save.ensures((&*config,), Ok::<String, String>(p))
                        &&& io.wrote(&gated, profile_removed_text(name@, p@))
                    };
                    assert(io.output@ =~= old(io).output@ + (before + profile_removed_text(name@, p@)));
                },
                Err(_) => {},
            }
        }
    }
    r
}

/// Removes the profile (or reports what would be removed) and saves.
fn finish_remove_profile<S: FnOnce(&SetupConfig) -> Result<String, String>>(
    config: &mut SetupConfig,
    name: &str,
    io: &mut IoCtx,
    flags: RunFlags,
    save: S,
) -> (r: Result<(), String>)
    requires
        saves_any(save),
    ensures
        if flags.dry_run {
            &&& r == Ok::<(), String>(())
            &&& *final(config) == *old(config)
            &&& final(io).wrote(old(io), would_remove_profile_text(name@))
        } else {
            &&& final(config).profile_map() == old(config).profile_map().remove(name@)
            &&& final(config).configs == old(config).configs
            &&& final(config).path == old(config).path
            &&& match r {
                Ok(_) => exists|p: String| {
                    &&& save.ensures((&*final(config),), Ok::<String, String>(p))
                    &&& final(io).wrote(old(io), profile_removed_text(name@, p@))
                },
                Err(e) => {
                    &&& save.ensures((&*final(config),), Err::<String, String>(e))
                    &&& *final(io) == *old(io)
                },
            }
        },
{
    let would = cat3("Would remove profile '", name, "' from config file");
    let change = ConfigChange::RemoveProfile(name.to_owned());
    let saved = persist_or_dry_run(config, flags.dry_run, io, would.as_str(), change, save);
    match saved {
        Err(e) => Err(e),
        Ok(Some(path)) => {
            io.write("  Profile '");
            io.write(name);
            io.write("' removed successfully\n");
            io.write("  Configuration saved to: ");
            io.write_string(&path);
            io.write("\n");
            assert(io.output@ =~= old(io).output@ + profile_removed_text(name@, path@));
            Ok(())
        },
        Ok(None) => Ok(()),
    }
}

} // verus!
