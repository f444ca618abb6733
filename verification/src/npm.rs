//! npm projects: what a `package.json` holds that matters here, and the
//! commands that are derived from it.
use vstd::prelude::*;
use crate::build_types::BuildSystem;
use crate::cli::ResolvedArgs;
use crate::ctx::{IoCtx, RunFlags};
use crate::text::{cat3, to_string};

verus! {

/// What the library reads of a `package.json`.
pub struct PackageJson {
    /// The `name` field, when it is a string.
    pub name: Option<String>,
    /// The keys of the `scripts` object; `None` without a `scripts` field,
    /// empty when `scripts` is not an object.
    pub scripts: Option<Vec<String>>,
}

/// The texts of a list of strings.
pub open spec fn string_views(v: Seq<String>) -> Seq<Seq<char>> {
    v.map_values(|s: String| s@)
}

/// The model of a `package.json`.
pub struct PackageJsonView {
    pub name: Option<Seq<char>>,
    pub scripts: Option<Set<Seq<char>>>,
}

impl View for PackageJson {
    type V = PackageJsonView;

    open spec fn view(&self) -> PackageJsonView {
        PackageJsonView {
            name: match self.name {
                Some(n) => Some(n@),
                None => None,
            },
            scripts: match self.scripts {
                Some(v) => Some(string_views(v@).to_set()),
                None => None,
            },
        }
    }
}

/// What `serde_json` reads from the text of a `package.json`, as far as this
/// library uses it; `None` when the text is not valid JSON.
pub uninterp spec fn package_json_of(text: Seq<char>) -> Option<PackageJsonView>;

/// Parses `package.json` text with `serde_json::from_str::<serde_json::Value>`
/// and hands back, as plain values, the `name` field (when a string) and the
/// keys of the `scripts` field. The contract claims only that the result is
/// the named function of the text, `None` exactly when parsing fails.
#[verifier::external_body]
fn parse_package_json(text: &str) -> (r: Option<PackageJson>)
    ensures
        match r {
            Some(p) => package_json_of(text@) == Some(p@),
            None => package_json_of(text@) is None,
        },
{
    let v: serde_json::Value = serde_json::from_str(text).ok()?;
    Some(PackageJson {
        name: v.get("name").and_then(|n| n.as_str()).map(|n| n.to_string()),
        scripts: v.get("scripts").map(|s| s.as_object().map(|o| o.keys().cloned().collect()).unwrap_or_default()),
    })
}

/// The warning for a `package.json` that could not be read.
pub open spec fn unreadable_text(path: Seq<char>, suffix: Seq<char>) -> Seq<char> {
    "  Warning: could not read "@ + path + ", "@ + suffix + "\n"@
}

/// The warning for a `package.json` that is not valid JSON.
pub open spec fn malformed_text(path: Seq<char>, suffix: Seq<char>) -> Seq<char> {
    "  Warning: malformed "@ + path + ", "@ + suffix + "\n"@
}

/// Reads a `package.json` given its text (`None` when the file could not be
/// read); in verbose mode warns, ending with `skip_suffix`, when it cannot be used.
pub fn read_package_json(pkg_path: &str, content: Option<&str>, skip_suffix: &str, io: &mut IoCtx, flags: RunFlags) -> (r: Option<PackageJson>)
    ensures
        match content {
            None => r is None && final(io).wrote(old(io), if flags.verbose { unreadable_text(pkg_path@, skip_suffix@) } else { Seq::empty() }),
            Some(t) => match package_json_of(t@) {
                None => r is None && final(io).wrote(old(io), if flags.verbose { malformed_text(pkg_path@, skip_suffix@) } else { Seq::empty() }),
                Some(p) => r matches Some(j) && j@ == p && *final(io) == *old(io),
            },
        },
{
    match content {
        None => {
            if flags.verbose {
                io.write("  Warning: could not read ");
                io.write(pkg_path);
                io.write(", ");
                io.write(skip_suffix);
                io.write("\n");
            }
            assert(io.output@ =~= old(io).output@ + (if flags.verbose { unreadable_text(pkg_path@, skip_suffix@) } else { Seq::empty() }));
            None
        },
        Some(t) => match parse_package_json(t) {
            None => {
                if flags.verbose {
                    io.write("  Warning: malformed ");
                    io.write(pkg_path);
                    io.write(", ");
                    io.write(skip_suffix);
                    io.write("\n");
                }
                assert(io.output@ =~= old(io).output@ + (if flags.verbose { malformed_text(pkg_path@, skip_suffix@) } else { Seq::empty() }));
                None
            },
            Some(p) => Some(p),
        },
    }
}

/// The scripts of a package include `name`.
pub open spec fn has_script(p: PackageJsonView, name: Seq<char>) -> bool {
    match p.scripts {
        Some(s) => s.contains(name),
        None => false,
    }
}

/// Whether the package's `scripts` has the given key.
pub fn package_has_script(p: &PackageJson, name: &str) -> (r: bool)
    ensures
        r == has_script(p@, name@),
{
    match &p.scripts {
        None => false,
        Some(keys) => {
            let target = to_string(name);
            let mut i: usize = 0;
            while i < keys.len()
                invariant
                    i <= keys@.len(),
                    target@ == name@,
                    p@.scripts == Some(string_views(keys@).to_set()),
                    forall|j: int| 0 <= j < i ==> keys@[j]@ != name@,
                decreases keys@.len() - i,
            {
                if keys[i] == target {
                    let ghost m = string_views(keys@);
                    assert(m[i as int] == name@);
                    assert(m.contains(name@));
                    assert(m.to_set().contains(name@));
                    return true;
                }
                i = i + 1;
            }
            let ghost m = string_views(keys@);
            assert(!m.contains(name@)) by {
                if m.contains(name@) {
                    let j = choose|j: int| 0 <= j < m.len() && #[trigger] m[j] == name@;
                    assert(keys@[j]@ == name@);
                }
            }
            false
        },
    }
}

/// The command that watches a library, from its `package.json`: its `watch`
/// script, else its `build` script in watch mode.
pub open spec fn watch_command_of(dir: Seq<char>, p: PackageJsonView) -> Option<Seq<char>> {
    if p.scripts is None {
        None
    } else if has_script(p, "watch"@) {
        Some("npm --workspace=repos/"@ + dir + " run watch"@)
    } else if has_script(p, "build"@) {
        Some("npm --workspace=repos/"@ + dir + " run build ''--'' --watch"@)
    } else {
        None
    }
}

/// The command that watches the library in `repos/<dir>`, given its
/// `package.json` (`None` when it could not be read or parsed); in verbose
/// mode warns about a library with neither `watch` nor `build` script.
pub fn get_watch_command(dir: &str, pkg: Option<PackageJson>, io: &mut IoCtx, flags: RunFlags) -> (r: Option<String>)
    ensures
        match pkg {
            None => r is None && *final(io) == *old(io),
            Some(p) => {
                &&& match watch_command_of(dir@, p@) {
                    Some(c) => r matches Some(v) && v@ == c,
                    None => r is None,
                }
                &&& final(io).wrote(old(io), if flags.verbose && p@.scripts is Some && watch_command_of(dir@, p@) is None {
                    "  Warning: "@ + dir@ + " has no watch or build script, skipping\n"@
                } else {
                    Seq::empty()
                })
            },
        },
{
    let p = match pkg {
        None => return None,
        Some(p) => p,
    };
    if p.scripts.is_none() {
        assert(io.output@ =~= old(io).output@ + Seq::<char>::empty());
        return None;
    }
    if package_has_script(&p, "watch") {
        assert(io.output@ =~= old(io).output@ + Seq::<char>::empty());
        return Some(cat3("npm --workspace=repos/", dir, " run watch"));
    }
    if package_has_script(&p, "build") {
        assert(io.output@ =~= old(io).output@ + Seq::<char>::empty());
        return Some(cat3("npm --workspace=repos/", dir, " run build ''--'' --watch"));
    }
    if flags.verbose {
        io.write("  Warning: ");
        io.write(dir);
        io.write(" has no watch or build script, skipping\n");
    }
    assert(io.output@ =~= old(io).output@ + (if flags.verbose {
        "  Warning: "@ + dir@ + " has no watch or build script, skipping\n"@
    } else {
        Seq::empty()
    }));
    None
}

/// The dev command of a project: `npm run dev` when it has a `dev` script,
/// else none.
pub open spec fn dev_command_of(p: PackageJsonView) -> Option<Seq<char>> {
    if has_script(p, "dev"@) {
        Some("npm run dev"@)
    } else {
        None
    }
}

/// The dev command for a repository, given its `package.json`; `None` when
/// the package could not be read or has no `dev` script, which verbose mode
/// reports.
pub fn resolve_dev_command(pkg: Option<PackageJson>, io: &mut IoCtx, flags: RunFlags) -> (r: Option<String>)
    ensures
        match pkg {
            None => r is None && *final(io) == *old(io),
            Some(p) => {
                &&& match dev_command_of(p@) {
                    Some(c) => r matches Some(v) && v@ == c,
                    None => r is None,
                }
                &&& final(io).wrote(old(io), if flags.verbose && dev_command_of(p@) is None {
                    "  No dev script found, skipping dev server\n"@
                } else {
                    Seq::empty()
                })
            },
        },
{
    let p = match pkg {
        None => return None,
        Some(p) => p,
    };
    if package_has_script(&p, "dev") {
        assert(io.output@ =~= old(io).output@ + Seq::<char>::empty());
        return Some(to_string("npm run dev"));
    }
    if flags.verbose {
        io.write("  No dev script found, skipping dev server\n");
    }
    assert(io.output@ =~= old(io).output@ + (if flags.verbose {
        "  No dev script found, skipping dev server\n"@
    } else {
        Seq::empty()
    }));
    None
}

/// Whether the dev server is to be opened: `--dev` was given and the project uses npm.
pub open spec fn wants_dev_server(args: ResolvedArgs, build_system: Option<BuildSystem>) -> bool {
    args.build.dev && build_system == Some(BuildSystem::Npm)
}

/// The dev command to start after setup, if any: none unless `--dev` was
/// given for an npm project; in dry-run mode `npm run dev`; otherwise the
/// project's own dev command.
pub fn maybe_open_dev_server(args: &ResolvedArgs, build_system: Option<BuildSystem>, pkg: Option<PackageJson>, io: &mut IoCtx, flags: RunFlags) -> (r: Option<String>)
    ensures
        !wants_dev_server(*args, build_system) ==> r is None && *final(io) == *old(io),
        wants_dev_server(*args, build_system) && flags.dry_run ==> (r matches Some(c) && c@ == "npm run dev"@) && *final(io) == *old(io),
        wants_dev_server(*args, build_system) && !flags.dry_run ==> match pkg {
            None => r is None,
            Some(p) => match dev_command_of(p@) {
                Some(c) => r matches Some(v) && v@ == c,
                None => r is None,
            },
        },
{
    let npm = match build_system {
        Some(BuildSystem::Npm) => true,
        _ => false,
    };
    if !args.build.dev || !npm {
        return None;
    }
    if flags.dry_run {
        return Some(to_string("npm run dev"));
    }
    resolve_dev_command(pkg, io, flags)
}

} // verus!
