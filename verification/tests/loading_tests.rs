use star_setup::config::{insert_config, ConfigEntry, SetupConfig};
use star_setup::ctx::{IoCtx, RunFlags};
use star_setup::loading::{load_config, ConfigProbe, ReadFailure};

fn io() -> IoCtx {
    IoCtx::new(vec![], RunFlags { verbose: false, timing: false, dry_run: false })
}

fn places() -> Vec<String> {
    vec![".star-setup.json".to_string(), "/home/u/.star-setup.json".to_string()]
}

fn loaded(name: &str) -> ConfigProbe {
    let mut c = SetupConfig::new();
    insert_config(&mut c, name, ConfigEntry::default());
    ConfigProbe::Loaded(c)
}

#[test]
fn first_usable_file_wins() {
    let mut o = io();
    let c = load_config(&places(), vec![ConfigProbe::Missing, loaded("home")], true, false, &mut o);
    assert_eq!(c.configs[0].0, "home");
    assert_eq!(c.path, Some("/home/u/.star-setup.json".to_string()));
    assert_eq!(
        o.output,
        "Loading config\n  Config path not found: .star-setup.json\n  Loaded config from /home/u/.star-setup.json\n\n"
    );
}

#[test]
fn earlier_file_is_preferred() {
    let mut o = io();
    let c = load_config(&places(), vec![loaded("here"), loaded("home")], false, false, &mut o);
    assert_eq!(c.configs[0].0, "here");
    assert_eq!(c.path, Some(".star-setup.json".to_string()));
    assert_eq!(o.output, "");
}

#[test]
fn broken_files_are_reported_and_counted() {
    let mut o = io();
    let c = load_config(
        &places(),
        vec![ConfigProbe::Invalid("expected value at line 1 column 1".to_string()), ConfigProbe::Unreadable(ReadFailure::PermissionDenied)],
        false,
        false,
        &mut o,
    );
    assert!(c.configs.is_empty());
    assert_eq!(c.path, None);
    assert_eq!(
        o.output,
        "  Warning: Invalid JSON in .star-setup.json: expected value at line 1 column 1\n  Error: No permission to read /home/u/.star-setup.json\n  Found 2 config files that had errors\n"
    );
}

#[test]
fn one_broken_file_singular() {
    let mut o = io();
    let c = load_config(&places(), vec![ConfigProbe::Unreadable(ReadFailure::Other("is a directory".to_string())), ConfigProbe::Missing], false, true, &mut o);
    assert!(c.configs.is_empty());
    assert_eq!(
        o.output,
        "  An unexpected error occurred: read .star-setup.json: is a directory\n  Found 1 config file that had errors\n\n"
    );
}

#[test]
fn nothing_found_is_empty_config() {
    let mut o = io();
    let c = load_config(&places(), vec![ConfigProbe::Missing, ConfigProbe::Missing], false, false, &mut o);
    assert!(c.configs.is_empty() && c.profiles.is_empty());
    assert_eq!(o.output, "");
}
